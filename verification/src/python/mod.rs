//! Options as Python callers pass them.

pub mod options;
