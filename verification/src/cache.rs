//! The local page cache as readers see it.

use vstd::prelude::*;

verus! {

/// How pages that were missing from the cache get into it.
#[derive(Clone, Copy, Debug, PartialEq, Eq, Structural)]
pub enum FillMode {
    /// They do not.
    Never,
    /// While the read goes on.
    Async,
    /// Before the read goes on.
    Sync,
}

/// How missing pages get into the cache.
pub open spec fn fill_mode_of(fill: bool, async_write: bool) -> FillMode {
    if !fill {
        FillMode::Never
    } else if async_write {
        FillMode::Async
    } else {
        FillMode::Sync
    }
}

/// How missing pages get into the cache.
pub fn fill_mode(fill: bool, async_write: bool) -> (r: FillMode)
    ensures
        r == fill_mode_of(fill, async_write),
{
    if !fill {
        FillMode::Never
    } else if async_write {
        FillMode::Async
    } else {
        FillMode::Sync
    }
}

/// Whether the pages of a file can be cached. A file without a stable identifier would
/// share its pages with other such files.
pub fn page_cache_eligible(file_id: i64) -> (r: bool)
    ensures
        r == (file_id > 0),
{
    file_id > 0
}

/// Pages get into the cache only where it is filled, and then in the background or not.
pub proof fn law_fill_modes(fill: bool, in_background: bool)
    ensures
        fill_mode_of(false, in_background) is Never,
        fill_mode_of(true, true) is Async,
        fill_mode_of(true, false) is Sync,
{
}

} // verus!
