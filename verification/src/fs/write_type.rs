//! Where the write type of a new file comes from.

use crate::config::write_type::WriteType;
use vstd::prelude::*;

verus! {

/// Where the write type of a new file comes from.
#[derive(Clone, Copy, Debug, PartialEq, Eq, Structural)]
pub enum WriteTypeXAttr {
    /// The parent directory names it.
    Inherit,
    /// The caller names it.
    Explicit(WriteType),
}

impl Default for WriteTypeXAttr {
    fn default() -> (r: Self)
        ensures
            r is Inherit,
    {
        WriteTypeXAttr::Inherit
    }
}

} // verus!
