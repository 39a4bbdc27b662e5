//! Reporting what a metadata cache counts.

use vstd::prelude::*;

use crate::metadata_cache::MetadataCacheStats;
use crate::metrics::name::{
    CLIENT_METADATA_CACHE_EXPIRATIONS, CLIENT_METADATA_CACHE_HITS,
    CLIENT_METADATA_CACHE_INVALIDATIONS, CLIENT_METADATA_CACHE_MISSES,
    CLIENT_METADATA_CACHE_NEGATIVE_HITS, CLIENT_METADATA_CACHE_SIZE,
};
use crate::metrics::registry::{wrapping_sum, Registry};

verus! {

/// Whether the counts went from `before` to `after`, each by no more than a counter
/// can hold.
pub open spec fn counted_up(before: MetadataCacheStats, after: MetadataCacheStats) -> bool {
    &&& before.hits <= after.hits <= before.hits + i64::MAX
    &&& before.misses <= after.misses <= before.misses + i64::MAX
    &&& before.expired <= after.expired <= before.expired + i64::MAX
    &&& before.invalidations <= after.invalidations <= before.invalidations + i64::MAX
    &&& before.negative_hits <= after.negative_hits <= before.negative_hits + i64::MAX
}

/// Whether `k` is the name of a counter of the metadata cache.
pub open spec fn is_cache_counter(k: Seq<char>) -> bool {
    ||| k == CLIENT_METADATA_CACHE_HITS@
    ||| k == CLIENT_METADATA_CACHE_MISSES@
    ||| k == CLIENT_METADATA_CACHE_EXPIRATIONS@
    ||| k == CLIENT_METADATA_CACHE_INVALIDATIONS@
    ||| k == CLIENT_METADATA_CACHE_NEGATIVE_HITS@
}

proof fn lemma_names_distinct()
    ensures
        CLIENT_METADATA_CACHE_HITS@ != CLIENT_METADATA_CACHE_MISSES@,
        CLIENT_METADATA_CACHE_HITS@ != CLIENT_METADATA_CACHE_EXPIRATIONS@,
        CLIENT_METADATA_CACHE_HITS@ != CLIENT_METADATA_CACHE_INVALIDATIONS@,
        CLIENT_METADATA_CACHE_HITS@ != CLIENT_METADATA_CACHE_NEGATIVE_HITS@,
        CLIENT_METADATA_CACHE_MISSES@ != CLIENT_METADATA_CACHE_EXPIRATIONS@,
        CLIENT_METADATA_CACHE_MISSES@ != CLIENT_METADATA_CACHE_INVALIDATIONS@,
        CLIENT_METADATA_CACHE_MISSES@ != CLIENT_METADATA_CACHE_NEGATIVE_HITS@,
        CLIENT_METADATA_CACHE_EXPIRATIONS@ != CLIENT_METADATA_CACHE_INVALIDATIONS@,
        CLIENT_METADATA_CACHE_EXPIRATIONS@ != CLIENT_METADATA_CACHE_NEGATIVE_HITS@,
        CLIENT_METADATA_CACHE_INVALIDATIONS@ != CLIENT_METADATA_CACHE_NEGATIVE_HITS@,
{
    reveal_strlit("Client.MetadataCacheHits");
    reveal_strlit("Client.MetadataCacheMisses");
    reveal_strlit("Client.MetadataCacheExpirations");
    reveal_strlit("Client.MetadataCacheInvalidations");
    reveal_strlit("Client.MetadataCacheNegativeHits");
    assert(CLIENT_METADATA_CACHE_HITS@[20] == 'H');
    assert(CLIENT_METADATA_CACHE_MISSES@[20] == 'M');
    assert(CLIENT_METADATA_CACHE_EXPIRATIONS@[20] == 'E');
    assert(CLIENT_METADATA_CACHE_INVALIDATIONS@[20] == 'I');
    assert(CLIENT_METADATA_CACHE_NEGATIVE_HITS@[20] == 'N');
}

/// Adds what a cache counted from `before` to `after` to the metrics, and reports
/// its present size.
pub fn publish(
    registry: &mut Registry,
    before: &MetadataCacheStats,
    after: &MetadataCacheStats,
    size: usize,
)
    requires
        old(registry).wf(),
        counted_up(*before, *after),
        size <= i64::MAX,
    ensures
        final(registry).wf(),
        final(registry).counted(CLIENT_METADATA_CACHE_HITS@) == wrapping_sum(
            old(registry).counted(CLIENT_METADATA_CACHE_HITS@),
            (after.hits - before.hits) as i64,
        ),
        final(registry).counted(CLIENT_METADATA_CACHE_MISSES@) == wrapping_sum(
            old(registry).counted(CLIENT_METADATA_CACHE_MISSES@),
            (after.misses - before.misses) as i64,
        ),
        final(registry).counted(CLIENT_METADATA_CACHE_EXPIRATIONS@) == wrapping_sum(
            old(registry).counted(CLIENT_METADATA_CACHE_EXPIRATIONS@),
            (after.expired - before.expired) as i64,
        ),
        final(registry).counted(CLIENT_METADATA_CACHE_INVALIDATIONS@) == wrapping_sum(
            old(registry).counted(CLIENT_METADATA_CACHE_INVALIDATIONS@),
            (after.invalidations - before.invalidations) as i64,
        ),
        final(registry).counted(CLIENT_METADATA_CACHE_NEGATIVE_HITS@) == wrapping_sum(
            old(registry).counted(CLIENT_METADATA_CACHE_NEGATIVE_HITS@),
            (after.negative_hits - before.negative_hits) as i64,
        ),
        forall|k: Seq<char>|
            !is_cache_counter(k) ==> #[trigger] final(registry).counted(k) == old(
                registry,
            ).counted(k),
        final(registry).gauged(CLIENT_METADATA_CACHE_SIZE@) == size,
        forall|k: Seq<char>|
            k != CLIENT_METADATA_CACHE_SIZE@ ==> #[trigger] final(registry).gauged(k) == old(
                registry,
            ).gauged(k),
{
    proof {
        lemma_names_distinct();
    }
    registry.count(CLIENT_METADATA_CACHE_HITS, (after.hits - before.hits) as i64);
    registry.count(CLIENT_METADATA_CACHE_MISSES, (after.misses - before.misses) as i64);
    registry.count(CLIENT_METADATA_CACHE_EXPIRATIONS, (after.expired - before.expired) as i64);
    registry.count(
        CLIENT_METADATA_CACHE_INVALIDATIONS,
        (after.invalidations - before.invalidations) as i64,
    );
    registry.count(
        CLIENT_METADATA_CACHE_NEGATIVE_HITS,
        (after.negative_hits - before.negative_hits) as i64,
    );
    registry.measure(CLIENT_METADATA_CACHE_SIZE, size as i64);
}

/// The counters that a report changes are those for hits, misses, expirations, invalidations
/// and negative hits.
pub proof fn law_counters_of_the_cache(k: Seq<char>)
    ensures
        is_cache_counter(k) <==> k == "Client.MetadataCacheHits"@ || k
            == "Client.MetadataCacheMisses"@ || k == "Client.MetadataCacheExpirations"@ || k
            == "Client.MetadataCacheInvalidations"@ || k == "Client.MetadataCacheNegativeHits"@,
{
}

/// A report can be made of counts that did not go down.
pub proof fn law_counts_that_can_be_reported(
    before: MetadataCacheStats,
    after: MetadataCacheStats,
)
    requires
        after.hits <= i64::MAX,
        after.misses <= i64::MAX,
        after.expired <= i64::MAX,
        after.invalidations <= i64::MAX,
        after.negative_hits <= i64::MAX,
    ensures
        counted_up(before, after) <==> {
            &&& before.hits <= after.hits
            &&& before.misses <= after.misses
            &&& before.expired <= after.expired
            &&& before.invalidations <= after.invalidations
            &&& before.negative_hits <= after.negative_hits
        },
{
}

} // verus!
