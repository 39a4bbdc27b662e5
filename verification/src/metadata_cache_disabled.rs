//! The metadata cache of a build without one: every request goes to the Master.

use vstd::prelude::*;

use crate::error::Error;
pub use crate::metadata_cache::{normalize_path, parent_path, should_skip_listing_cache};
use crate::time::Duration;

verus! {

/// A cache that is never there.
pub struct MetadataCache;

impl MetadataCache {
    /// Never gives a cache.
    pub fn maybe_new(ttl: Duration, capacity: usize) -> (r: Option<MetadataCache>)
        ensures
            r is None,
    {
        let _ = ttl;
        let _ = capacity;
        None
    }

    /// Does nothing.
    pub fn invalidate(&self, path: &str) {
        let _ = path;
    }

    /// Does nothing.
    pub fn invalidate_with_parent(&self, path: &str) {
        let _ = path;
    }

    /// Does nothing.
    pub fn invalidate_subtree_with_parent(&self, path: &str) {
        let _ = path;
    }

    /// Entries live for no time.
    pub fn ttl(&self) -> (r: Duration)
        ensures
            r.nanos == 0,
    {
        Duration::zero()
    }
}

/// Hands the result of a write on.
pub fn invalidate_on_success<T>(
    cache: Option<&MetadataCache>,
    path: &str,
    result: Result<T, Error>,
) -> (r: Result<T, Error>)
    ensures
        r == result,
{
    let _ = cache;
    let _ = path;
    result
}

/// Hands the result of a write to a whole tree on.
pub fn invalidate_subtree_on_success<T>(
    cache: Option<&MetadataCache>,
    path: &str,
    result: Result<T, Error>,
) -> (r: Result<T, Error>)
    ensures
        r == result,
{
    let _ = cache;
    let _ = path;
    result
}

/// Hands the result of a rename on.
pub fn invalidate_rename_on_success<T>(
    cache: Option<&MetadataCache>,
    src: &str,
    dst: &str,
    result: Result<T, Error>,
) -> (r: Result<T, Error>)
    ensures
        r == result,
{
    let _ = cache;
    let _ = src;
    let _ = dst;
    result
}

} // verus!
