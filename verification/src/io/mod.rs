//! Reading files.

pub mod block_read;
pub mod buffers;
pub mod external_read;
pub mod failover;
pub mod file_in_stream;
pub mod file_reader;
pub mod open_dedup;
pub mod range_coalesce;
pub mod read_ranges;
pub mod short_circuit;
pub mod stream_read;
pub mod stream_seek;
pub mod stream_state;
pub mod whole_read;

pub use file_in_stream::GoosefsFileInStream;
pub use file_reader::GoosefsFileReader;
pub use stream_state::TRANSFER_POSITIONED_READ_THRESHOLD;
