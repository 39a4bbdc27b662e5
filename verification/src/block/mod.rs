//! Blocks of a file and the workers that hold them.

pub mod mapper;
pub mod router;
pub mod short_circuit;
