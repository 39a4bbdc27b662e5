//! Reading all that is left.

use crate::block::mapper::{
    block_size_of, held, joined, law_segments_give_the_range, length_of, plan_start,
};
use crate::io::buffers::{
    buffer_content, buffer_extend, buffer_freeze, buffer_unsplit, buffer_with_capacity,
    bytes_content,
};
use crate::io::file_reader::GoosefsFileReader;
use crate::io::stream_state::{
    after_all, delivered, delivered_all, law_reads_give_the_file, sound_all, Delivery, StreamState,
};
use bytes::{Bytes, BytesMut};
use vstd::prelude::*;

verus! {

/// What was read so far of all that is left.
pub struct WholeRead {
    /// The bytes.
    pub buf: BytesMut,
}

impl WholeRead {
    /// Whether nothing was taken from what was read.
    pub open spec fn wf(self) -> bool {
        buffer_unsplit(self.buf)
    }

    /// What was read.
    pub open spec fn content(self) -> Seq<u8> {
        buffer_content(self.buf)
    }

    /// Starts with nothing, and with room for `capacity` bytes.
    pub fn start(capacity: usize) -> (r: WholeRead)
        requires
            capacity <= isize::MAX,
        ensures
            r.wf(),
            r.content() == Seq::<u8>::empty(),
    {
        WholeRead { buf: buffer_with_capacity(capacity) }
    }

    /// Takes what a read gave. The result tells whether there is more to be read: a read
    /// gives nothing at the end.
    pub fn accept(&mut self, data: &[u8]) -> (more: bool)
        requires
            old(self).wf(),
            2 * (old(self).content().len() + data@.len()) <= isize::MAX,
        ensures
            final(self).wf(),
            final(self).content() == old(self).content() + data@,
            more == (data@.len() > 0),
    {
        buffer_extend(&mut self.buf, data);
        data.len() > 0
    }

    /// The bytes.
    pub fn finish(self) -> (r: Bytes)
        ensures
            bytes_content(r) == self.content(),
    {
        buffer_freeze(self.buf)
    }
}

/// What was read is what the deliveries of the stream gave the caller, one after the other.
pub proof fn law_whole_read_joins_deliveries(
    before: WholeRead,
    after: WholeRead,
    s: StreamState,
    ds: Seq<Delivery>,
    d: Delivery,
)
    requires
        before.content() == delivered_all(s, ds),
        after.content() == before.content() + delivered(after_all(s, ds), d),
    ensures
        after.content() == delivered_all(s, ds.push(d)),
{
    assert(ds.push(d).drop_last() =~= ds);
}

/// Where the deliveries bring the bytes of the file up to its end, what was read is the file
/// from where the caller was.
pub proof fn law_whole_read_gives_the_rest(
    read: WholeRead,
    s: StreamState,
    ds: Seq<Delivery>,
    file: Seq<u8>,
)
    requires
        s.holds(file),
        sound_all(s, ds, file),
        after_all(s, ds).user_pos() == file.len(),
        read.content() == delivered_all(s, ds),
    ensures
        read.content() == file.subrange(s.user_pos(), file.len() as int),
{
    law_reads_give_the_file(s, ds, file);
}

/// Where segment `i` of a reader gives the bytes of the file, what was read is the bytes of
/// the segments, joined.
pub proof fn law_whole_read_joins_segments(
    before: WholeRead,
    after: WholeRead,
    reader: GoosefsFileReader,
    i: int,
    file: Seq<u8>,
)
    requires
        0 <= i < reader.plans@.len(),
        ({
            let bs = block_size_of(reader.info());
            let start = plan_start(bs, reader.plans@[i]);
            &&& before.content() == joined(file, bs, reader.plans@.subrange(0, i))
            &&& after.content() == before.content() + file.subrange(
                start,
                start + reader.plans@[i].length,
            )
        }),
    ensures
        after.content() == joined(
            file,
            block_size_of(reader.info()),
            reader.plans@.subrange(0, i + 1),
        ),
{
    assert(reader.plans@.subrange(0, i + 1).drop_last() =~= reader.plans@.subrange(0, i));
}

/// Where all segments of a reader were read, what was read is the range of the reader, as far
/// as the file goes.
pub proof fn law_whole_read_gives_the_range(
    read: WholeRead,
    reader: GoosefsFileReader,
    file: Seq<u8>,
)
    requires
        reader.wf(),
        file.len() == length_of(reader.info()),
        block_size_of(reader.info()) > 0,
        read.content() == joined(file, block_size_of(reader.info()), reader.plans@),
    ensures
        read.content() == held(file, reader.offset as int, reader.offset + reader.length),
{
    law_segments_give_the_range(
        reader.info(),
        file,
        reader.offset as int,
        reader.length as int,
    );
}

} // verus!
