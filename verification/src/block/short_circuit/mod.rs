//! Blocks that are read from the memory map of a local worker.

pub mod sigbus;
