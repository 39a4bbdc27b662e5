//! Client-side cache of path metadata.
//!
//! One entry, under a normalized path, may hold a status, a directory listing or
//! both. They share the time at which the entry was last written, and expire
//! together. A full cache drops the entry that was used least recently.

use std::num::NonZeroUsize;
use std::sync::Arc;

use lru::LruCache;
use vstd::prelude::*;
use vstd::string::*;

use crate::error::Error;
use crate::proto::{FileInfo, LoadMetadataPType};
use crate::text::{
    chars_of, drop_trailing, exactly, is_white_space, law_trailing_characters_are_dropped,
    law_trim_drops_white_space_at_the_ends, lemma_rspan, lemma_rspan_is, lemma_span_is, other_than,
    rspan, str_eq, string_of, trim, trim_end_matches, trimmed, white,
};
use crate::time::{Duration, Instant};

verus! {

/// What a lookup of a status gives.
#[derive(Clone, Debug)]
pub enum StatusLookup {
    /// There is no live status.
    Miss,
    /// The status as the Master reported it. The status of a file that is still
    /// being written must not be served: see [`status_is_completed`].
    Present(Arc<FileInfo>),
    /// The Master reported that the path does not exist.
    NotFound,
}

/// The status part of an entry.
pub enum StatusSlot {
    /// The status as the Master reported it.
    Present(Arc<FileInfo>),
    /// The Master reported that the path does not exist.
    NotFound,
}

/// One entry.
pub struct CachedItem {
    /// The status, if it is cached.
    pub status: Option<StatusSlot>,
    /// The directory listing, if it is cached.
    pub dir_listing: Option<Arc<Vec<FileInfo>>>,
    /// When the entry was last written.
    pub inserted_at: Instant,
}

/// How often what happened.
#[derive(Clone, Copy, Debug, PartialEq, Eq, Structural)]
pub struct MetadataCacheStats {
    /// Lookups that were served.
    pub hits: u64,
    /// Lookups that were not served.
    pub misses: u64,
    /// Entries that were dropped because of their age.
    pub expired: u64,
    /// Entries that were dropped on request.
    pub invalidations: u64,
    /// Lookups that were served with the absence of a path.
    pub negative_hits: u64,
}

impl Default for MetadataCacheStats {
    fn default() -> (r: Self)
        ensures
            r == (MetadataCacheStats {
                hits: 0,
                misses: 0,
                expired: 0,
                invalidations: 0,
                negative_hits: 0,
            }),
    {
        MetadataCacheStats { hits: 0, misses: 0, expired: 0, invalidations: 0, negative_hits: 0 }
    }
}

impl MetadataCacheStats {
    /// The counts after a lookup of a status that gave `r`, and dropped an expired
    /// entry or not. The absence of a path is served; the status of a file that is
    /// still being written is not.
    pub open spec fn after_status_lookup(self, r: StatusLookup, expired: bool) -> Self {
        let served = r is NotFound || (r matches StatusLookup::Present(info) && is_completed(
            *info,
        ));
        MetadataCacheStats {
            negative_hits: if r is NotFound {
                (self.negative_hits + 1) as u64
            } else {
                self.negative_hits
            },
            ..self.after_listing_lookup(served, expired)
        }
    }

    /// The counts after a lookup of a listing that was served or not, and dropped an
    /// expired entry or not.
    pub open spec fn after_listing_lookup(self, served: bool, expired: bool) -> Self {
        MetadataCacheStats {
            hits: if served {
                (self.hits + 1) as u64
            } else {
                self.hits
            },
            misses: if served {
                self.misses
            } else {
                (self.misses + 1) as u64
            },
            expired: if expired {
                (self.expired + 1) as u64
            } else {
                self.expired
            },
            ..self
        }
    }
}

#[verifier::external_type_specification]
#[verifier::external_body]
#[verifier::reject_recursive_types(K)]
#[verifier::reject_recursive_types(V)]
#[verifier::reject_recursive_types(S)]
pub struct ExLruCache<K, V, S>(lru::LruCache<K, V, S>);

/// What an `lru::LruCache` holds: the items under their keys.
pub uninterp spec fn lru_items(c: LruCache<String, CachedItem>) -> Map<Seq<char>, CachedItem>;

/// The keys of an `lru::LruCache`, most recently used first.
pub uninterp spec fn lru_order(c: LruCache<String, CachedItem>) -> Seq<Seq<char>>;

/// How many items an `lru::LruCache` may hold.
pub uninterp spec fn lru_capacity(c: LruCache<String, CachedItem>) -> nat;

/// No items.
pub open spec fn no_items() -> Map<Seq<char>, CachedItem> {
    Map::empty()
}

/// The keys `order` without `k`.
pub open spec fn without(order: Seq<Seq<char>>, k: Seq<char>) -> Seq<Seq<char>> {
    order.filter(|x: Seq<char>| x != k)
}

/// `LruCache::new`: an empty cache with the given capacity. The capacity is kept
/// where the table that the cache reserves for it cannot overflow the address space.
#[verifier::external_body]
fn lru_new(cap: usize) -> (r: LruCache<String, CachedItem>)
    requires
        1 <= cap <= usize::MAX / 128,
    ensures
        lru_items(r) == no_items(),
        lru_order(r) == Seq::<Seq<char>>::empty(),
        lru_capacity(r) == cap,
{
    LruCache::new(NonZeroUsize::new(cap).unwrap())
}

/// `LruCache::peek`: the item under `k`. The order of use does not change.
#[verifier::external_body]
fn lru_peek<'a>(c: &'a LruCache<String, CachedItem>, k: &str) -> (r: Option<&'a CachedItem>)
    ensures
        match r {
            Some(v) => lru_items(*c).contains_key(k@) && *v == lru_items(*c)[k@],
            None => !lru_items(*c).contains_key(k@),
        },
{
    c.peek(k)
}

/// `LruCache::get`: the item under `k`, which becomes the most recently used one.
#[verifier::external_body]
fn lru_get<'a>(c: &'a mut LruCache<String, CachedItem>, k: &str) -> (r: Option<&'a CachedItem>)
    ensures
        lru_items(*final(c)) == lru_items(*old(c)),
        lru_capacity(*final(c)) == lru_capacity(*old(c)),
        match r {
            Some(v) => {
                &&& lru_items(*old(c)).contains_key(k@)
                &&& *v == lru_items(*old(c))[k@]
                &&& lru_order(*final(c)) == seq![k@] + without(lru_order(*old(c)), k@)
            },
            None => {
                &&& !lru_items(*old(c)).contains_key(k@)
                &&& lru_order(*final(c)) == lru_order(*old(c))
            },
        },
{
    c.get(k)
}

/// `LruCache::get_mut`: the item under `k`, to be changed in place. It becomes the
/// most recently used one.
#[verifier::external_body]
fn lru_get_mut<'a>(c: &'a mut LruCache<String, CachedItem>, k: &str) -> (r: Option<
    &'a mut CachedItem,
>)
    ensures
        lru_capacity(*final(c)) == lru_capacity(*old(c)),
        match r {
            Some(v) => {
                &&& lru_items(*old(c)).contains_key(k@)
                &&& *v == lru_items(*old(c))[k@]
                &&& lru_items(*final(c)) == lru_items(*old(c)).insert(k@, *final(v))
                &&& lru_order(*final(c)) == seq![k@] + without(lru_order(*old(c)), k@)
            },
            None => {
                &&& !lru_items(*old(c)).contains_key(k@)
                &&& lru_items(*final(c)) == lru_items(*old(c))
                &&& lru_order(*final(c)) == lru_order(*old(c))
            },
        },
{
    c.get_mut(k)
}

/// `LruCache::put`: puts an item under a key, which becomes the most recently used
/// one. Where the key is new and the cache is full, the item that was used least
/// recently leaves.
#[verifier::external_body]
fn lru_put(c: &mut LruCache<String, CachedItem>, k: String, v: CachedItem)
    ensures
        lru_capacity(*final(c)) == lru_capacity(*old(c)),
        lru_items(*old(c)).contains_key(k@) ==> {
            &&& lru_items(*final(c)) == lru_items(*old(c)).insert(k@, v)
            &&& lru_order(*final(c)) == seq![k@] + without(lru_order(*old(c)), k@)
        },
        !lru_items(*old(c)).contains_key(k@) && lru_order(*old(c)).len() == lru_capacity(*old(c))
            ==> {
            &&& lru_items(*final(c)) == lru_items(*old(c)).remove(lru_order(*old(c)).last()).insert(
                k@,
                v,
            )
            &&& lru_order(*final(c)) == seq![k@] + lru_order(*old(c)).drop_last()
        },
        !lru_items(*old(c)).contains_key(k@) && lru_order(*old(c)).len() != lru_capacity(*old(c))
            ==> {
            &&& lru_items(*final(c)) == lru_items(*old(c)).insert(k@, v)
            &&& lru_order(*final(c)) == seq![k@] + lru_order(*old(c))
        },
{
    c.put(k, v);
}

/// `LruCache::pop`: takes the item under `k` out, and tells whether there was one.
#[verifier::external_body]
fn lru_pop(c: &mut LruCache<String, CachedItem>, k: &str) -> (r: Option<CachedItem>)
    ensures
        lru_capacity(*final(c)) == lru_capacity(*old(c)),
        lru_items(*final(c)) == lru_items(*old(c)).remove(k@),
        lru_order(*final(c)) == without(lru_order(*old(c)), k@),
        match r {
            Some(v) => lru_items(*old(c)).contains_key(k@) && v == lru_items(*old(c))[k@],
            None => !lru_items(*old(c)).contains_key(k@),
        },
{
    c.pop(k)
}

/// `LruCache::len`: the number of items.
#[verifier::external_body]
fn lru_len(c: &LruCache<String, CachedItem>) -> (r: usize)
    ensures
        r == lru_order(*c).len(),
{
    c.len()
}

/// `LruCache::clear`: takes all items out.
#[verifier::external_body]
fn lru_clear(c: &mut LruCache<String, CachedItem>)
    ensures
        lru_capacity(*final(c)) == lru_capacity(*old(c)),
        lru_items(*final(c)) == no_items(),
        lru_order(*final(c)) == Seq::<Seq<char>>::empty(),
{
    c.clear()
}

/// The contents of a cache: the items under their keys, and the keys in the order
/// of their last use, most recent first.
pub struct Entries {
    /// The items.
    pub items: Map<Seq<char>, CachedItem>,
    /// The keys, most recently used first.
    pub order: Seq<Seq<char>>,
}

impl Entries {
    /// Whether the keys of the items are the keys in the order, each once, and no
    /// more than `cap`.
    pub open spec fn wf(self, cap: nat) -> bool {
        &&& self.order.no_duplicates()
        &&& self.order.to_set() == self.items.dom()
        &&& self.order.len() <= cap
    }

    /// `self` after a use of `k`.
    pub open spec fn touched(self, k: Seq<char>) -> Entries {
        Entries { items: self.items, order: seq![k] + without(self.order, k) }
    }

    /// `self` without the item under `k`.
    pub open spec fn dropped(self, k: Seq<char>) -> Entries {
        Entries { items: self.items.remove(k), order: without(self.order, k) }
    }

    /// `self` with `item` under `k`. Where `k` is new and there are already `cap`
    /// items, the one that was used least recently leaves.
    pub open spec fn stored(self, cap: nat, k: Seq<char>, item: CachedItem) -> Entries {
        if self.items.contains_key(k) {
            Entries {
                items: self.items.insert(k, item),
                order: seq![k] + without(self.order, k),
            }
        } else if self.order.len() == cap {
            Entries {
                items: self.items.remove(self.order.last()).insert(k, item),
                order: seq![k] + self.order.drop_last(),
            }
        } else {
            Entries { items: self.items.insert(k, item), order: seq![k] + self.order }
        }
    }

    /// The item under `k` with another status, or a new item with that status.
    pub open spec fn with_status(self, k: Seq<char>, slot: StatusSlot, now: Instant) -> CachedItem {
        CachedItem {
            status: Some(slot),
            dir_listing: if self.items.contains_key(k) {
                self.items[k].dir_listing
            } else {
                None
            },
            inserted_at: now,
        }
    }

    /// The item under `k` with another listing, or a new item with that listing.
    pub open spec fn with_listing(
        self,
        k: Seq<char>,
        listing: Arc<Vec<FileInfo>>,
        now: Instant,
    ) -> CachedItem {
        CachedItem {
            status: if self.items.contains_key(k) {
                self.items[k].status
            } else {
                None
            },
            dir_listing: Some(listing),
            inserted_at: now,
        }
    }

    /// Whether there is an item under `k` that has not expired at `now`.
    pub open spec fn live(self, k: Seq<char>, now: Instant, ttl: Duration) -> bool {
        self.items.contains_key(k) && now.nanos_since(self.items[k].inserted_at) < ttl.nanos
    }

    /// Whether there is an item under `k` that has expired at `now`.
    pub open spec fn stale(self, k: Seq<char>, now: Instant, ttl: Duration) -> bool {
        self.items.contains_key(k) && now.nanos_since(self.items[k].inserted_at) >= ttl.nanos
    }

    /// The status that a lookup of `k` finds at `now`.
    pub open spec fn status_at(self, k: Seq<char>, now: Instant, ttl: Duration) -> StatusLookup {
        if !self.live(k, now, ttl) {
            StatusLookup::Miss
        } else {
            match self.items[k].status {
                Some(StatusSlot::Present(info)) => StatusLookup::Present(info),
                Some(StatusSlot::NotFound) => StatusLookup::NotFound,
                None => StatusLookup::Miss,
            }
        }
    }

    /// The listing that a lookup of `k` finds at `now`.
    pub open spec fn listing_at(self, k: Seq<char>, now: Instant, ttl: Duration) -> Option<
        Arc<Vec<FileInfo>>,
    > {
        if !self.live(k, now, ttl) {
            None
        } else {
            self.items[k].dir_listing
        }
    }

    /// `self` after a lookup of `k` at `now`: an expired item is gone, a live one
    /// has been used.
    pub open spec fn after_lookup(self, k: Seq<char>, now: Instant, ttl: Duration) -> Entries {
        if self.live(k, now, ttl) {
            self.touched(k)
        } else if self.stale(k, now, ttl) {
            self.dropped(k)
        } else {
            self
        }
    }
}

/// Whether a status is that of a file whose writer has closed it.
pub open spec fn is_completed(info: FileInfo) -> bool {
    info.completed == Some(true)
}

/// Whether a status is that of a file whose writer has closed it.
pub fn status_is_completed(info: &FileInfo) -> (r: bool)
    ensures
        r == is_completed(*info),
{
    match info.completed {
        Some(b) => b,
        None => false,
    }
}

/// A path in normal form: it begins with `/`, and does not end with `/` unless it
/// is the root. White space around it is dropped.
pub open spec fn normalized(path: Seq<char>) -> Seq<char> {
    let stripped = drop_trailing(trimmed(path), exactly('/'));
    if stripped.len() == 0 {
        "/"@
    } else if stripped[0] == '/' {
        stripped
    } else {
        "/"@ + stripped
    }
}

/// The path of the directory that holds `path`; the root has none.
pub open spec fn parent(path: Seq<char>) -> Option<Seq<char>> {
    let n = normalized(path);
    let last_slash = n.len() - 1 - rspan(n, other_than('/'));
    if n == "/"@ {
        None
    } else if last_slash == 0 {
        Some("/"@)
    } else {
        Some(n.take(last_slash))
    }
}

/// Brings a path into normal form.
pub fn normalize_path(path: &str) -> (r: String)
    ensures
        r@ == normalized(path@),
{
    let stripped: &str = trim_end_matches(trim(path), '/');
    if stripped.is_empty() {
        return "/".to_owned();
    }
    if stripped.get_char(0) == '/' {
        stripped.to_owned()
    } else {
        let mut p: String = "/".to_owned();
        p.append(stripped);
        p
    }
}

/// The parent of `path`; the root has none.
pub fn parent_path(path: &str) -> (r: Option<String>)
    ensures
        match r {
            Some(p) => parent(path@) == Some(p@),
            None => parent(path@) is None,
        },
{
    let n: String = normalize_path(path);
    if str_eq(&n, "/") {
        return None;
    }
    let cs: Vec<char> = chars_of(&n);
    let len: usize = cs.len();
    proof {
        lemma_normalized(path@);
    }
    let mut i: usize = len - 1;
    while cs[i] != '/'
        invariant
            i < len == cs@.len(),
            cs@[0] == '/',
            forall|j: int| i < j < len ==> other_than('/')(#[trigger] cs@[j]),
        decreases i,
    {
        i = i - 1;
    }
    proof {
        lemma_rspan_is(n@, other_than('/'), len - 1 - i);
        assert(n@.take(i as int) =~= cs@.subrange(0, i as int));
    }
    if i == 0 {
        Some("/".to_owned())
    } else {
        Some(string_of(&cs, 0, i))
    }
}

/// A normal path is not empty and begins with `/`.
pub proof fn lemma_normalized(path: Seq<char>)
    ensures
        normalized(path).len() > 0,
        normalized(path)[0] == '/',
{
    reveal_strlit("/");
}

/// Whether listings skip the cache: recursive listings, listings that load
/// metadata, always or only, and those with a sync interval of 0 do.
pub fn should_skip_listing_cache(
    recursive: bool,
    load_type: LoadMetadataPType,
    load_metadata_only: bool,
    sync_interval_ms: i64,
) -> (r: bool)
    ensures
        r == (recursive || load_type == LoadMetadataPType::Always || load_metadata_only
            || sync_interval_ms == 0),
{
    recursive || load_type == LoadMetadataPType::Always || load_metadata_only || sync_interval_ms
        == 0
}

/// A bounded cache of path metadata whose entries expire.
pub struct MetadataCache {
    lru: LruCache<String, CachedItem>,
    counts: MetadataCacheStats,
    ttl: Duration,
}

impl MetadataCache {
    /// What the cache holds.
    pub closed spec fn entries(self) -> Entries {
        Entries { items: lru_items(self.lru), order: lru_order(self.lru) }
    }

    /// How many entries the cache may hold.
    pub closed spec fn capacity(self) -> nat {
        lru_capacity(self.lru)
    }

    /// How long an entry lives.
    pub closed spec fn lifetime(self) -> Duration {
        self.ttl
    }

    /// How often what happened.
    pub closed spec fn counters(self) -> MetadataCacheStats {
        self.counts
    }

    /// Whether the cache is well-formed: it may hold an entry, holds no more than it
    /// may, and its entries live for some time.
    pub open spec fn wf(self) -> bool {
        &&& self.capacity() >= 1
        &&& self.entries().wf(self.capacity())
        &&& self.lifetime().nanos > 0
    }

    /// Whether `n` more of everything can be counted.
    pub open spec fn can_count(self, n: int) -> bool {
        &&& self.counters().hits + n <= u64::MAX
        &&& self.counters().misses + n <= u64::MAX
        &&& self.counters().expired + n <= u64::MAX
        &&& self.counters().invalidations + n <= u64::MAX
        &&& self.counters().negative_hits + n <= u64::MAX
    }

    /// Whether `self` and `other` have the same capacity and lifetime.
    pub open spec fn same_limits(self, other: MetadataCache) -> bool {
        self.capacity() == other.capacity() && self.lifetime() == other.lifetime()
    }

    /// An empty cache; none where entries would live for no time at all. The
    /// capacity is raised to 1 where it is 0.
    pub fn maybe_new(ttl: Duration, capacity: usize) -> (r: Option<MetadataCache>)
        requires
            capacity <= usize::MAX / 128,
        ensures
            match r {
                None => ttl.nanos == 0,
                Some(c) => {
                    &&& ttl.nanos > 0
                    &&& c.wf()
                    &&& c.lifetime() == ttl
                    &&& c.capacity() == (if capacity < 1 {
                        1
                    } else {
                        capacity as nat
                    })
                    &&& c.entries().items == no_items()
                    &&& c.entries().order == Seq::<Seq<char>>::empty()
                    &&& c.counters() == (MetadataCacheStats {
                        hits: 0,
                        misses: 0,
                        expired: 0,
                        invalidations: 0,
                        negative_hits: 0,
                    })
                },
            },
    {
        if ttl.is_zero() {
            return None;
        }
        let cap: usize = if capacity < 1 {
            1
        } else {
            capacity
        };
        let c = MetadataCache { lru: lru_new(cap), counts: MetadataCacheStats::default(), ttl };
        proof {
            assert(c.entries().order.to_set() =~= c.entries().items.dom());
        }
        Some(c)
    }

    /// Drops the entry under `key` where it has expired at `now`, and tells whether
    /// there is a live one.
    fn retain_fresh(&mut self, key: &str, now: Instant) -> (r: bool)
        requires
            old(self).wf(),
            old(self).can_count(1),
        ensures
            final(self).wf(),
            final(self).same_limits(*old(self)),
            r == old(self).entries().live(key@, now, old(self).lifetime()),
            old(self).entries().stale(key@, now, old(self).lifetime()) ==> {
                &&& final(self).entries() == old(self).entries().dropped(key@)
                &&& final(self).counters() == (MetadataCacheStats {
                    expired: (old(self).counters().expired + 1) as u64,
                    ..old(self).counters()
                })
            },
            !old(self).entries().stale(key@, now, old(self).lifetime()) ==> {
                &&& final(self).entries() == old(self).entries()
                &&& final(self).counters() == old(self).counters()
            },
    {
        let expired: bool = match lru_peek(&self.lru, key) {
            Some(item) => now.duration_since(item.inserted_at).nanos >= self.ttl.nanos,
            None => {
                return false;
            },
        };
        if expired {
            proof {
                lemma_dropped(self.entries(), self.capacity(), key@);
            }
            let _ = lru_pop(&mut self.lru, key);
            self.counts.expired = self.counts.expired + 1;
            false
        } else {
            true
        }
    }

    /// Looks a status up.
    ///
    /// An expired entry is dropped. An entry that holds a listing only gives a
    /// miss. The status of a file that is still being written is given, but counted
    /// as a miss.
    pub fn lookup_status(&mut self, path: &str, now: Instant) -> (r: StatusLookup)
        requires
            old(self).wf(),
            old(self).can_count(1),
        ensures
            final(self).wf(),
            final(self).same_limits(*old(self)),
            r == old(self).entries().status_at(normalized(path@), now, old(self).lifetime()),
            final(self).entries() == old(self).entries().after_lookup(
                normalized(path@),
                now,
                old(self).lifetime(),
            ),
            final(self).counters() == old(self).counters().after_status_lookup(
                r,
                old(self).entries().stale(normalized(path@), now, old(self).lifetime()),
            ),
    {
        let key: String = normalize_path(path);
        if !self.retain_fresh(&key, now) {
            self.counts.misses = self.counts.misses + 1;
            return StatusLookup::Miss;
        }
        proof {
            lemma_touched(self.entries(), self.capacity(), key@);
        }
        let found: StatusLookup = match lru_get(&mut self.lru, &key) {
            Some(item) => match &item.status {
                Some(StatusSlot::Present(info)) => StatusLookup::Present(info.clone()),
                Some(StatusSlot::NotFound) => StatusLookup::NotFound,
                None => StatusLookup::Miss,
            },
            None => StatusLookup::Miss,
        };
        match &found {
            StatusLookup::Present(info) => {
                if status_is_completed(info) {
                    self.counts.hits = self.counts.hits + 1;
                } else {
                    self.counts.misses = self.counts.misses + 1;
                }
            },
            StatusLookup::NotFound => {
                self.counts.hits = self.counts.hits + 1;
                self.counts.negative_hits = self.counts.negative_hits + 1;
            },
            StatusLookup::Miss => {
                self.counts.misses = self.counts.misses + 1;
            },
        }
        found
    }

    /// Looks a directory listing up.
    pub fn get_listing(&mut self, path: &str, now: Instant) -> (r: Option<Arc<Vec<FileInfo>>>)
        requires
            old(self).wf(),
            old(self).can_count(1),
        ensures
            final(self).wf(),
            final(self).same_limits(*old(self)),
            r == old(self).entries().listing_at(normalized(path@), now, old(self).lifetime()),
            final(self).entries() == old(self).entries().after_lookup(
                normalized(path@),
                now,
                old(self).lifetime(),
            ),
            final(self).counters() == old(self).counters().after_listing_lookup(
                r is Some,
                old(self).entries().stale(normalized(path@), now, old(self).lifetime()),
            ),
    {
        let key: String = normalize_path(path);
        if !self.retain_fresh(&key, now) {
            self.counts.misses = self.counts.misses + 1;
            return None;
        }
        proof {
            lemma_touched(self.entries(), self.capacity(), key@);
        }
        let found: Option<Arc<Vec<FileInfo>>> = match lru_get(&mut self.lru, &key) {
            Some(item) => match &item.dir_listing {
                Some(list) => Some(list.clone()),
                None => None,
            },
            None => None,
        };
        if found.is_some() {
            self.counts.hits = self.counts.hits + 1;
        } else {
            self.counts.misses = self.counts.misses + 1;
        }
        found
    }

    fn put_status(&mut self, path: &str, slot: StatusSlot, now: Instant)
        requires
            old(self).wf(),
        ensures
            final(self).wf(),
            final(self).same_limits(*old(self)),
            final(self).counters() == old(self).counters(),
            final(self).entries() == old(self).entries().stored(
                old(self).capacity(),
                normalized(path@),
                old(self).entries().with_status(normalized(path@), slot, now),
            ),
    {
        let key: String = normalize_path(path);
        proof {
            let e = self.entries();
            lemma_stored(e, self.capacity(), key@, e.with_status(key@, slot, now));
        }
        match lru_get_mut(&mut self.lru, &key) {
            Some(item) => {
                item.status = Some(slot);
                item.inserted_at = now;
            },
            None => {
                lru_put(
                    &mut self.lru,
                    key,
                    CachedItem { status: Some(slot), dir_listing: None, inserted_at: now },
                );
            },
        }
    }

    /// Puts a shared status in. A listing under the same path stays; the whole
    /// entry counts as written at `now`.
    pub fn insert_arc(&mut self, path: &str, info: Arc<FileInfo>, now: Instant)
        requires
            old(self).wf(),
        ensures
            final(self).wf(),
            final(self).same_limits(*old(self)),
            final(self).counters() == old(self).counters(),
            final(self).entries() == old(self).entries().stored(
                old(self).capacity(),
                normalized(path@),
                old(self).entries().with_status(
                    normalized(path@),
                    StatusSlot::Present(info),
                    now,
                ),
            ),
    {
        self.put_status(path, StatusSlot::Present(info), now);
    }

    /// Puts a status in.
    pub fn insert(&mut self, path: &str, info: FileInfo, now: Instant)
        requires
            old(self).wf(),
        ensures
            final(self).wf(),
            final(self).same_limits(*old(self)),
            final(self).counters() == old(self).counters(),
            final(self).entries() == old(self).entries().stored(
                old(self).capacity(),
                normalized(path@),
                old(self).entries().with_status(
                    normalized(path@),
                    StatusSlot::Present(Arc::new(info)),
                    now,
                ),
            ),
    {
        self.insert_arc(path, Arc::new(info), now);
    }

    /// Records that `path` does not exist.
    pub fn insert_not_found(&mut self, path: &str, now: Instant)
        requires
            old(self).wf(),
        ensures
            final(self).wf(),
            final(self).same_limits(*old(self)),
            final(self).counters() == old(self).counters(),
            final(self).entries() == old(self).entries().stored(
                old(self).capacity(),
                normalized(path@),
                old(self).entries().with_status(normalized(path@), StatusSlot::NotFound, now),
            ),
    {
        self.put_status(path, StatusSlot::NotFound, now);
    }

    /// Puts a directory listing in. A status under the same path stays; the listed
    /// paths get no entries of their own.
    pub fn insert_listing(&mut self, path: &str, listing: Arc<Vec<FileInfo>>, now: Instant)
        requires
            old(self).wf(),
        ensures
            final(self).wf(),
            final(self).same_limits(*old(self)),
            final(self).counters() == old(self).counters(),
            final(self).entries() == old(self).entries().stored(
                old(self).capacity(),
                normalized(path@),
                old(self).entries().with_listing(normalized(path@), listing, now),
            ),
    {
        let key: String = normalize_path(path);
        proof {
            let e = self.entries();
            lemma_stored(e, self.capacity(), key@, e.with_listing(key@, listing, now));
        }
        match lru_get_mut(&mut self.lru, &key) {
            Some(item) => {
                item.dir_listing = Some(listing);
                item.inserted_at = now;
            },
            None => {
                lru_put(
                    &mut self.lru,
                    key,
                    CachedItem { status: None, dir_listing: Some(listing), inserted_at: now },
                );
            },
        }
    }

    /// Drops the entry under `path`. Only an entry that was there is counted.
    pub fn invalidate(&mut self, path: &str)
        requires
            old(self).wf(),
            old(self).can_count(1),
        ensures
            final(self).wf(),
            final(self).same_limits(*old(self)),
            final(self).entries() == old(self).entries().dropped(normalized(path@)),
            final(self).counters() == (MetadataCacheStats {
                invalidations: if old(self).entries().items.contains_key(normalized(path@)) {
                    (old(self).counters().invalidations + 1) as u64
                } else {
                    old(self).counters().invalidations
                },
                ..old(self).counters()
            }),
    {
        let key: String = normalize_path(path);
        proof {
            lemma_dropped(self.entries(), self.capacity(), key@);
        }
        if lru_pop(&mut self.lru, &key).is_some() {
            self.counts.invalidations = self.counts.invalidations + 1;
        }
    }

    /// Drops the entries under the parent of `path` and under `path`.
    pub fn invalidate_with_parent(&mut self, path: &str)
        requires
            old(self).wf(),
            old(self).can_count(2),
        ensures
            final(self).wf(),
            final(self).same_limits(*old(self)),
            final(self).entries() == old(self).entries().invalidated(path@),
            final(self).counters() == (MetadataCacheStats {
                invalidations: (old(self).counters().invalidations
                    + old(self).entries().invalidated_count(path@)) as u64,
                ..old(self).counters()
            }),
    {
        if let Some(p) = parent_path(path) {
            self.invalidate(&p);
        }
        self.invalidate(path);
    }

    /// Drops all entries.
    pub fn clear(&mut self)
        requires
            old(self).wf(),
            old(self).counters().invalidations + old(self).entries().order.len() <= u64::MAX,
        ensures
            final(self).wf(),
            final(self).same_limits(*old(self)),
            final(self).entries().items == no_items(),
            final(self).entries().order == Seq::<Seq<char>>::empty(),
            final(self).counters() == (MetadataCacheStats {
                invalidations: (old(self).counters().invalidations
                    + old(self).entries().order.len()) as u64,
                ..old(self).counters()
            }),
    {
        let n: u64 = lru_len(&self.lru) as u64;
        lru_clear(&mut self.lru);
        self.counts.invalidations = self.counts.invalidations + n;
        proof {
            assert(self.entries().order.to_set() =~= self.entries().items.dom());
        }
    }

    /// How often what happened.
    pub fn stats(&self) -> (r: MetadataCacheStats)
        ensures
            r == self.counters(),
    {
        self.counts
    }

    /// The number of entries.
    pub fn len(&self) -> (r: usize)
        ensures
            r == self.entries().order.len(),
    {
        lru_len(&self.lru)
    }

    /// How long an entry lives.
    pub fn ttl(&self) -> (r: Duration)
        ensures
            r == self.lifetime(),
    {
        self.ttl
    }
}

impl Entries {
    /// `self` without the items under the parent of `path` and under `path`.
    pub open spec fn invalidated(self, path: Seq<char>) -> Entries {
        match parent(path) {
            Some(p) => self.dropped(normalized(p)).dropped(normalized(path)),
            None => self.dropped(normalized(path)),
        }
    }

    /// How many items that drops.
    pub open spec fn invalidated_count(self, path: Seq<char>) -> int {
        let own: int = if self.items.contains_key(normalized(path)) {
            1
        } else {
            0
        };
        match parent(path) {
            Some(p) => if normalized(p) == normalized(path) {
                own
            } else if self.items.contains_key(normalized(p)) {
                own + 1
            } else {
                own
            },
            None => own,
        }
    }
}

proof fn lemma_without(order: Seq<Seq<char>>, k: Seq<char>)
    requires
        order.no_duplicates(),
    ensures
        without(order, k).no_duplicates(),
        !without(order, k).contains(k),
        forall|x: Seq<char>| #[trigger]
            without(order, k).contains(x) <==> order.contains(x) && x != k,
        order.contains(k) ==> without(order, k).len() + 1 == order.len(),
        !order.contains(k) ==> without(order, k) == order,
    decreases order.len(),
{
    broadcast use vstd::seq_lib::group_filter_ensures;

    let p = |x: Seq<char>| x != k;
    reveal(Seq::filter);
    if order.len() > 0 {
        let init = order.drop_last();
        let last = order.last();
        assert(init.no_duplicates());
        lemma_without(init, k);
        assert(without(order, k) == (if last != k {
            without(init, k).push(last)
        } else {
            without(init, k)
        }));
        assert(order =~= init.push(last));
        assert(!init.contains(last)) by {
            if init.contains(last) {
                let i = choose|i: int| 0 <= i < init.len() && init[i] == last;
                assert(order[i] == order[order.len() - 1]);
            }
        }
        if last != k {
            let w = without(init, k);
            assert(!w.contains(last));
            assert forall|i: int, j: int|
                0 <= i < w.push(last).len() && 0 <= j < w.push(last).len() && i != j implies w.push(
                last,
            )[i] != w.push(last)[j] by {
                if i == w.len() {
                    assert(w.contains(w[j]));
                } else if j == w.len() {
                    assert(w.contains(w[i]));
                }
            }
        }
        assert forall|x: Seq<char>| #[trigger]
            without(order, k).contains(x) <==> order.contains(x) && x != k by {
            if order.contains(x) {
                let i = choose|i: int| 0 <= i < order.len() && order[i] == x;
                if i < init.len() {
                    assert(init[i] == x);
                    assert(init.contains(x));
                }
            }
            if init.contains(x) {
                let i = choose|i: int| 0 <= i < init.len() && init[i] == x;
                assert(order[i] == x);
            }
            if last != k {
                let w = without(init, k);
                if w.contains(x) {
                    let i = choose|i: int| 0 <= i < w.len() && w[i] == x;
                    assert(w.push(last)[i] == x);
                }
                if x == last {
                    assert(w.push(last)[w.len() as int] == x);
                    assert(order[order.len() - 1] == x);
                }
                if w.push(last).contains(x) {
                    let i = choose|i: int| 0 <= i < w.push(last).len() && w.push(last)[i] == x;
                    if i < w.len() {
                        assert(w[i] == x);
                    }
                }
            }
        }
        assert(order.contains(k) <==> init.contains(k) || last == k) by {
            if init.contains(k) {
                let i = choose|i: int| 0 <= i < init.len() && init[i] == k;
                assert(order[i] == k);
            }
            if last == k {
                assert(order[order.len() - 1] == k);
            }
            if order.contains(k) {
                let i = choose|i: int| 0 <= i < order.len() && order[i] == k;
                if i < init.len() {
                    assert(init[i] == k);
                }
            }
        }
    } else {
        assert(without(order, k) =~= order);
    }
}

proof fn lemma_front(order: Seq<Seq<char>>, k: Seq<char>)
    requires
        order.no_duplicates(),
        !order.contains(k),
    ensures
        (seq![k] + order).no_duplicates(),
        (seq![k] + order).to_set() == order.to_set().insert(k),
{
    let f = seq![k] + order;
    assert forall|i: int, j: int| 0 <= i < f.len() && 0 <= j < f.len() && i != j implies f[i]
        != f[j] by {
        if i > 0 {
            assert(f[i] == order[i - 1]);
            assert(order.contains(order[i - 1]));
        }
        if j > 0 {
            assert(f[j] == order[j - 1]);
            assert(order.contains(order[j - 1]));
        }
    }
    assert forall|x: Seq<char>| f.to_set().contains(x) <==> order.to_set().insert(k).contains(
        x,
    ) by {
        if f.contains(x) {
            let i = choose|i: int| 0 <= i < f.len() && f[i] == x;
            if i > 0 {
                assert(order[i - 1] == x);
            }
        }
        if order.contains(x) {
            let i = choose|i: int| 0 <= i < order.len() && order[i] == x;
            assert(f[i + 1] == x);
        }
        if x == k {
            assert(f[0] == x);
        }
    }
    assert(f.to_set() =~= order.to_set().insert(k));
}

proof fn lemma_dropped(e: Entries, cap: nat, k: Seq<char>)
    requires
        e.wf(cap),
    ensures
        e.dropped(k).wf(cap),
{
    lemma_without(e.order, k);
    let d = e.dropped(k);
    assert forall|x: Seq<char>| d.order.to_set().contains(x) <==> d.items.dom().contains(x) by {
        assert(d.order.contains(x) <==> e.order.contains(x) && x != k);
        assert(e.order.contains(x) <==> e.order.to_set().contains(x));
    }
    assert(d.order.to_set() =~= d.items.dom());
}

proof fn lemma_touched(e: Entries, cap: nat, k: Seq<char>)
    requires
        e.wf(cap),
        e.items.contains_key(k),
    ensures
        e.touched(k).wf(cap),
{
    lemma_without(e.order, k);
    lemma_front(without(e.order, k), k);
    let t = e.touched(k);
    assert(e.order.to_set().contains(k));
    assert(e.order.contains(k));
    assert forall|x: Seq<char>| t.order.to_set().contains(x) <==> t.items.dom().contains(x) by {
        assert(without(e.order, k).contains(x) <==> e.order.contains(x) && x != k);
        assert(e.order.contains(x) <==> e.order.to_set().contains(x));
    }
    assert(t.order.to_set() =~= t.items.dom());
}

proof fn lemma_stored(e: Entries, cap: nat, k: Seq<char>, item: CachedItem)
    requires
        e.wf(cap),
        cap >= 1,
    ensures
        e.stored(cap, k, item).wf(cap),
{
    let s = e.stored(cap, k, item);
    if e.items.contains_key(k) {
        lemma_touched(e, cap, k);
        assert(s.items.dom() =~= e.items.dom());
    } else {
        assert(!e.order.to_set().contains(k));
        assert(!e.order.contains(k));
        if e.order.len() == cap {
            let last = e.order.last();
            let init = e.order.drop_last();
            assert(init.no_duplicates());
            assert(!init.contains(k)) by {
                if init.contains(k) {
                    let i = choose|i: int| 0 <= i < init.len() && init[i] == k;
                    assert(e.order[i] == k);
                }
            }
            lemma_front(init, k);
            assert forall|x: Seq<char>| s.order.to_set().contains(x) <==> s.items.dom().contains(
                x,
            ) by {
                assert(e.order.contains(x) <==> e.order.to_set().contains(x));
                if init.contains(x) {
                    let i = choose|i: int| 0 <= i < init.len() && init[i] == x;
                    assert(e.order[i] == x);
                    assert(x != last);
                }
                if e.order.contains(x) && x != last {
                    let i = choose|i: int| 0 <= i < e.order.len() && e.order[i] == x;
                    assert(init[i] == x);
                }
            }
            assert(s.order.to_set() =~= s.items.dom());
        } else {
            lemma_front(e.order, k);
            assert(s.order.to_set() =~= s.items.dom());
        }
    }
}

/// What is to be done for a request of a status.
pub enum StatusStep {
    /// Answer with this status.
    Serve(Arc<FileInfo>),
    /// Answer with this error.
    Fail(Error),
    /// Ask the Master, and hand the answer to [`status_fetched`].
    Fetch,
}

/// Begins a request of a status: from the cache where it can be served from there.
///
/// Without a cache, and with a sync interval of 0, the Master is asked. The status of
/// a file that is still being written is not served.
pub fn status_from_cache(
    cache: &mut Option<MetadataCache>,
    path: &str,
    sync_interval_ms: i64,
    now: Instant,
) -> (r: StatusStep)
    requires
        *old(cache) matches Some(c) ==> c.wf() && c.can_count(1),
    ensures
        *final(cache) matches Some(f) ==> f.wf(),
        match *old(cache) {
            None => r is Fetch && *final(cache) is None,
            Some(c) => if sync_interval_ms == 0 {
                r is Fetch && *final(cache) == Some(c)
            } else {
                let found = c.entries().status_at(normalized(path@), now, c.lifetime());
                let stale = c.entries().stale(normalized(path@), now, c.lifetime());
                &&& *final(cache) is Some
                &&& (*final(cache))->0.same_limits(c)
                &&& (*final(cache))->0.entries() == c.entries().after_lookup(
                    normalized(path@),
                    now,
                    c.lifetime(),
                )
                &&& (*final(cache))->0.counters() == c.counters().after_status_lookup(found, stale)
                &&& match found {
                    StatusLookup::Present(info) => if is_completed(*info) {
                        r == StatusStep::Serve(info)
                    } else {
                        r is Fetch
                    },
                    StatusLookup::NotFound => r matches StatusStep::Fail(
                        Error::NotFound { path: p },
                    ) && p@ == path@,
                    StatusLookup::Miss => r is Fetch,
                }
            },
        },
{
    match cache {
        None => StatusStep::Fetch,
        Some(c) => {
            if sync_interval_ms == 0 {
                return StatusStep::Fetch;
            }
            match c.lookup_status(path, now) {
                StatusLookup::Present(info) => if status_is_completed(&info) {
                    StatusStep::Serve(info)
                } else {
                    StatusStep::Fetch
                },
                StatusLookup::NotFound => StatusStep::Fail(
                    Error::NotFound { path: path.to_owned() },
                ),
                StatusLookup::Miss => StatusStep::Fetch,
            }
        },
    }
}

/// Ends a request of a status with the answer of the Master, which is written to
/// the cache: a status, or the absence of the path. Other errors leave the cache as
/// it is.
pub fn status_fetched(
    cache: &mut Option<MetadataCache>,
    path: &str,
    now: Instant,
    fetched: Result<FileInfo, Error>,
) -> (r: Result<Arc<FileInfo>, Error>)
    requires
        *old(cache) matches Some(c) ==> c.wf(),
    ensures
        r == (match fetched {
            Ok(info) => Ok(Arc::new(info)),
            Err(e) => Err(e),
        }),
        *final(cache) matches Some(f) ==> f.wf(),
        match *old(cache) {
            None => *final(cache) is None,
            Some(c) => {
                let k = normalized(path@);
                &&& *final(cache) is Some
                &&& (*final(cache))->0.same_limits(c)
                &&& (*final(cache))->0.counters() == c.counters()
                &&& (*final(cache))->0.entries() == (match fetched {
                    Ok(info) => c.entries().stored(
                        c.capacity(),
                        k,
                        c.entries().with_status(k, StatusSlot::Present(Arc::new(info)), now),
                    ),
                    Err(Error::NotFound { .. }) => c.entries().stored(
                        c.capacity(),
                        k,
                        c.entries().with_status(k, StatusSlot::NotFound, now),
                    ),
                    Err(_) => c.entries(),
                })
            },
        },
{
    match fetched {
        Ok(info) => {
            let shared: Arc<FileInfo> = Arc::new(info);
            if let Some(c) = cache {
                c.insert_arc(path, shared.clone(), now);
            }
            Ok(shared)
        },
        Err(e) => {
            if e.is_not_found() {
                if let Some(c) = cache {
                    c.insert_not_found(path, now);
                }
            }
            Err(e)
        },
    }
}

/// Begins a request of a listing: the cached one, unless the cache is skipped.
pub fn listing_from_cache(
    cache: &mut Option<MetadataCache>,
    path: &str,
    skip: bool,
    now: Instant,
) -> (r: Option<Arc<Vec<FileInfo>>>)
    requires
        *old(cache) matches Some(c) ==> c.wf() && c.can_count(1),
    ensures
        *final(cache) matches Some(f) ==> f.wf(),
        match *old(cache) {
            None => r is None && *final(cache) is None,
            Some(c) => if skip {
                r is None && *final(cache) == Some(c)
            } else {
                let stale = c.entries().stale(normalized(path@), now, c.lifetime());
                &&& r == c.entries().listing_at(normalized(path@), now, c.lifetime())
                &&& *final(cache) is Some
                &&& (*final(cache))->0.same_limits(c)
                &&& (*final(cache))->0.entries() == c.entries().after_lookup(
                    normalized(path@),
                    now,
                    c.lifetime(),
                )
                &&& (*final(cache))->0.counters() == c.counters().after_listing_lookup(
                    r is Some,
                    stale,
                )
            },
        },
{
    match cache {
        None => None,
        Some(c) => if skip {
            None
        } else {
            c.get_listing(path, now)
        },
    }
}

/// Ends a request of a listing with the answer of the Master, which is written to
/// the cache unless the cache is skipped.
pub fn listing_fetched(
    cache: &mut Option<MetadataCache>,
    path: &str,
    skip: bool,
    now: Instant,
    fetched: Result<Vec<FileInfo>, Error>,
) -> (r: Result<Arc<Vec<FileInfo>>, Error>)
    requires
        *old(cache) matches Some(c) ==> c.wf(),
    ensures
        r == (match fetched {
            Ok(list) => Ok(Arc::new(list)),
            Err(e) => Err(e),
        }),
        *final(cache) matches Some(f) ==> f.wf(),
        match *old(cache) {
            None => *final(cache) is None,
            Some(c) => {
                let k = normalized(path@);
                &&& *final(cache) is Some
                &&& (*final(cache))->0.same_limits(c)
                &&& (*final(cache))->0.counters() == c.counters()
                &&& (*final(cache))->0.entries() == (match fetched {
                    Ok(list) => if skip {
                        c.entries()
                    } else {
                        c.entries().stored(
                            c.capacity(),
                            k,
                            c.entries().with_listing(k, Arc::new(list), now),
                        )
                    },
                    Err(_) => c.entries(),
                })
            },
        },
{
    match fetched {
        Ok(list) => {
            let shared: Arc<Vec<FileInfo>> = Arc::new(list);
            if !skip {
                if let Some(c) = cache {
                    c.insert_listing(path, shared.clone(), now);
                }
            }
            Ok(shared)
        },
        Err(e) => Err(e),
    }
}

/// A status that was put in is found until it expires, under every spelling of the
/// path.
pub proof fn law_status_found_after_insert(
    e: Entries,
    cap: nat,
    path: Seq<char>,
    same_path: Seq<char>,
    info: Arc<FileInfo>,
    written: Instant,
    now: Instant,
    ttl: Duration,
)
    requires
        normalized(path) == normalized(same_path),
        now.nanos_since(written) < ttl.nanos,
    ensures
        e.stored(
            cap,
            normalized(path),
            e.with_status(normalized(path), StatusSlot::Present(info), written),
        ).status_at(normalized(same_path), now, ttl) == StatusLookup::Present(info),
{
}

/// The absence of a path that was recorded is found until it expires.
pub proof fn law_absence_found_after_insert(
    e: Entries,
    cap: nat,
    path: Seq<char>,
    written: Instant,
    now: Instant,
    ttl: Duration,
)
    requires
        now.nanos_since(written) < ttl.nanos,
    ensures
        e.stored(
            cap,
            normalized(path),
            e.with_status(normalized(path), StatusSlot::NotFound, written),
        ).status_at(normalized(path), now, ttl) == StatusLookup::NotFound,
{
}

/// A listing that was put in is found until it expires, and so is a status that was
/// live when the listing came: the listing renews the whole entry.
pub proof fn law_listing_found_after_insert(
    e: Entries,
    cap: nat,
    path: Seq<char>,
    listing: Arc<Vec<FileInfo>>,
    written: Instant,
    now: Instant,
    ttl: Duration,
)
    requires
        now.nanos_since(written) < ttl.nanos,
    ensures
        ({
            let k = normalized(path);
            let s = e.stored(cap, k, e.with_listing(k, listing, written));
            &&& s.listing_at(k, now, ttl) == Some(listing)
            &&& s.status_at(k, now, ttl) == (if e.items.contains_key(k) {
                match e.items[k].status {
                    Some(StatusSlot::Present(info)) => StatusLookup::Present(info),
                    Some(StatusSlot::NotFound) => StatusLookup::NotFound,
                    None => StatusLookup::Miss,
                }
            } else {
                StatusLookup::Miss
            })
        }),
{
}

/// What is put in under one path makes no status and no listing of another path:
/// a listing does not become statuses of the listed paths.
pub proof fn law_insert_invents_nothing(
    e: Entries,
    cap: nat,
    path: Seq<char>,
    item: CachedItem,
    other: Seq<char>,
    now: Instant,
    ttl: Duration,
)
    requires
        normalized(other) != normalized(path),
    ensures
        ({
            let s = e.stored(cap, normalized(path), item);
            let k = normalized(other);
            &&& s.status_at(k, now, ttl) == e.status_at(k, now, ttl) || s.status_at(k, now, ttl)
                == StatusLookup::Miss
            &&& s.listing_at(k, now, ttl) == e.listing_at(k, now, ttl) || s.listing_at(k, now, ttl)
                is None
        }),
{
}

/// Status and listing of an entry expire together, a lifetime after the entry was
/// last written, and the lookup that sees it drops the entry.
pub proof fn law_entries_expire(e: Entries, k: Seq<char>, now: Instant, ttl: Duration)
    requires
        e.items.contains_key(k),
        now.nanos_since(e.items[k].inserted_at) >= ttl.nanos,
    ensures
        e.status_at(k, now, ttl) == StatusLookup::Miss,
        e.listing_at(k, now, ttl) is None,
        !e.after_lookup(k, now, ttl).items.contains_key(k),
{
}

/// After a write to `path` neither its status nor the listing of its parent is
/// found, at whatever time; of other paths everything is found as before.
pub proof fn law_write_invalidates(
    e: Entries,
    path: Seq<char>,
    other: Seq<char>,
    now: Instant,
    ttl: Duration,
)
    ensures
        e.invalidated(path).status_at(normalized(path), now, ttl) == StatusLookup::Miss,
        e.invalidated(path).listing_at(normalized(path), now, ttl) is None,
        parent(path) matches Some(p) ==> {
            &&& e.invalidated(path).status_at(normalized(p), now, ttl) == StatusLookup::Miss
            &&& e.invalidated(path).listing_at(normalized(p), now, ttl) is None
        },
        normalized(other) != normalized(path) && (parent(path) matches Some(p) ==> normalized(other)
            != normalized(p)) ==> {
            &&& e.invalidated(path).status_at(normalized(other), now, ttl) == e.status_at(
                normalized(other),
                now,
                ttl,
            )
            &&& e.invalidated(path).listing_at(normalized(other), now, ttl) == e.listing_at(
                normalized(other),
                now,
                ttl,
            )
        },
{
}

/// Invalidating twice is the same as invalidating once.
pub proof fn law_invalidate_idempotent(e: Entries, cap: nat, k: Seq<char>)
    requires
        e.wf(cap),
    ensures
        e.dropped(k).dropped(k) == e.dropped(k),
{
    lemma_without(e.order, k);
    lemma_without(without(e.order, k), k);
    assert(e.dropped(k).dropped(k).items =~= e.dropped(k).items);
}

/// An entry that was just used does not leave when one new entry comes, unless the
/// cache holds one entry only.
pub proof fn law_recent_use_protects(
    e: Entries,
    cap: nat,
    used: Seq<char>,
    k: Seq<char>,
    item: CachedItem,
)
    requires
        e.wf(cap),
        cap >= 2,
        e.items.contains_key(used),
        k != used,
    ensures
        e.touched(used).stored(cap, k, item).items.contains_key(used),
        e.touched(used).stored(cap, k, item).items[used] == e.items[used],
{
    lemma_touched(e, cap, used);
    let t = e.touched(used);
    if !t.items.contains_key(k) && t.order.len() == cap {
        assert(t.order[0] == used);
        assert(t.order.last() == t.order[t.order.len() - 1]);
        assert(t.order.last() != used);
    }
}

/// A full cache drops exactly the entry that was used least recently.
pub proof fn law_least_recent_leaves(e: Entries, cap: nat, k: Seq<char>, item: CachedItem)
    requires
        e.wf(cap),
        cap >= 1,
        !e.items.contains_key(k),
        e.order.len() == cap,
    ensures
        e.items.contains_key(e.order.last()),
        e.stored(cap, k, item).items == e.items.remove(e.order.last()).insert(k, item),
        e.stored(cap, k, item).wf(cap),
{
    lemma_stored(e, cap, k, item);
    assert(e.order.contains(e.order[e.order.len() - 1]));
    assert(e.order.to_set().contains(e.order.last()));
}

/// A path in normal form stays as it is, where it does not end with white space.
pub proof fn law_normalize_idempotent(path: Seq<char>)
    requires
        !is_white_space(normalized(path).last()),
    ensures
        normalized(normalized(path)) == normalized(path),
{
    reveal_strlit("/");
    let t = trimmed(path);
    let s = drop_trailing(t, exactly('/'));
    let n = normalized(path);
    lemma_rspan(t, exactly('/'));
    lemma_normalized(path);
    assert(!is_white_space('/'));
    lemma_span_is(n, white(), 0);
    assert(n.skip(0) =~= n);
    lemma_rspan_is(n, white(), 0);
    assert(n.take(n.len() as int) =~= n);
    assert(trimmed(n) == n);
    if s.len() == 0 {
        assert(n =~= seq!['/']);
        lemma_rspan_is(n, exactly('/'), 1);
        assert(n.take(0).len() == 0);
    } else {
        assert(n.last() == s.last());
        assert(s.last() == t[s.len() - 1]);
        lemma_rspan_is(n, exactly('/'), 0);
    }
}

/// The parent of a path is shorter than the path in normal form.
pub proof fn law_parent_is_shorter(path: Seq<char>)
    ensures
        parent(path) matches Some(p) ==> p.len() < normalized(path).len(),
{
    reveal_strlit("/");
    let n = normalized(path);
    lemma_normalized(path);
    lemma_rspan(n, other_than('/'));
    if n != "/"@ {
        if n.len() == 1 {
            assert(n =~= "/"@);
        }
    }
}

/// The root has no parent.
pub proof fn law_root_has_no_parent()
    ensures
        parent("/"@) is None,
{
    reveal_strlit("/");
    let r = "/"@;
    assert(!is_white_space('/'));
    lemma_span_is(r, white(), 0);
    assert(r.skip(0) =~= r);
    lemma_rspan_is(r, white(), 0);
    assert(r.take(1) =~= r);
    lemma_rspan_is(r, exactly('/'), 1);
}

/// A path that begins with `/` and does not end with `/` is its own normal form. White space
/// around a path, and `/` at its end, do not matter; a path without `/` at its start gets one;
/// and what has nothing else is the root.
pub proof fn law_normal_form(
    a: Seq<char>,
    path: Seq<char>,
    slashes: nat,
    b: Seq<char>,
)
    requires
        forall|i: int| 0 <= i < a.len() ==> is_white_space(#[trigger] a[i]),
        forall|i: int| 0 <= i < b.len() ==> is_white_space(#[trigger] b[i]),
        path.len() > 0 ==> !is_white_space(path[0]) && path[path.len() - 1] != '/',
        path.len() > 0 && slashes == 0 ==> !is_white_space(path[path.len() - 1]),
    ensures
        ({
            let n = normalized(a + (path + Seq::new(slashes, |i: int| '/')) + b);
            &&& path.len() > 0 && path[0] == '/' ==> n == path
            &&& path.len() > 0 && path[0] != '/' ==> n == seq!['/'] + path
            &&& path.len() == 0 ==> n == seq!['/'] && normalized(path) == seq!['/']
            &&& path.len() > 0 && !is_white_space(path[path.len() - 1]) ==> normalized(path) == n
        }),
{
    reveal_strlit("/");
    assert("/"@ =~= seq!['/']);
    lemma_normal_form(a, path, slashes, b);
    let e = Seq::<char>::empty();
    if path.len() == 0 || !is_white_space(path[path.len() - 1]) {
        lemma_normal_form(e, path, 0, e);
        assert(e + (path + Seq::new(0, |i: int| '/')) + e =~= path);
    }
}

proof fn lemma_normal_form(a: Seq<char>, path: Seq<char>, slashes: nat, b: Seq<char>)
    requires
        forall|i: int| 0 <= i < a.len() ==> is_white_space(#[trigger] a[i]),
        forall|i: int| 0 <= i < b.len() ==> is_white_space(#[trigger] b[i]),
        path.len() > 0 ==> !is_white_space(path[0]) && path[path.len() - 1] != '/',
        path.len() > 0 && slashes == 0 ==> !is_white_space(path[path.len() - 1]),
    ensures
        normalized(a + (path + Seq::new(slashes, |i: int| '/')) + b) == (if path.len() == 0 {
            "/"@
        } else if path[0] == '/' {
            path
        } else {
            "/"@ + path
        }),
{
    let s = path + Seq::new(slashes, |i: int| '/');
    if s.len() > 0 {
        assert(s[0] == if path.len() > 0 {
            path[0]
        } else {
            '/'
        });
        assert(s[s.len() - 1] == if slashes > 0 {
            '/'
        } else {
            path[path.len() - 1]
        });
    }
    law_trim_drops_white_space_at_the_ends(a, s, b);
    law_trailing_characters_are_dropped(path, '/', slashes);
}

/// Different paths have different keys, so that what is put in under one of them is never
/// found under the other: neither its status nor its listing.
pub proof fn law_different_paths_are_kept_apart(
    e: Entries,
    cap: nat,
    p: Seq<char>,
    q: Seq<char>,
    item: CachedItem,
    now: Instant,
    ttl: Duration,
)
    requires
        p.len() > 0 && p[0] == '/' && p[p.len() - 1] != '/' && !is_white_space(p[p.len() - 1]),
        q.len() > 0 && q[0] == '/' && q[q.len() - 1] != '/' && !is_white_space(q[q.len() - 1]),
        p != q,
        !e.items.contains_key(normalized(q)),
    ensures
        normalized(p) != normalized(q),
        e.stored(cap, normalized(p), item).status_at(normalized(q), now, ttl) is Miss,
        e.stored(cap, normalized(p), item).listing_at(normalized(q), now, ttl) is None,
{
    let none = Seq::<char>::empty();
    law_normal_form(none, p, 0, none);
    law_normal_form(none, q, 0, none);
}

/// The parent of a file in a directory is that directory; that of a file in the root is the
/// root.
pub proof fn law_parent_is_the_directory(dir: Seq<char>, name: Seq<char>)
    requires
        dir.len() > 0 ==> dir[0] == '/',
        name.len() > 0,
        forall|i: int| 0 <= i < name.len() ==> #[trigger] name[i] != '/',
        !is_white_space(name[name.len() - 1]),
    ensures
        dir.len() > 0 ==> parent(dir + seq!['/'] + name) == Some(dir),
        dir.len() == 0 ==> parent(dir + seq!['/'] + name) == Some(seq!['/']),
{
    reveal_strlit("/");
    assert("/"@ =~= seq!['/']);
    let path = dir + seq!['/'] + name;
    assert(path[0] == '/');
    assert(path[path.len() - 1] == name[name.len() - 1]);
    let none = Seq::<char>::empty();
    law_normal_form(none, path, 0, none);
    assert forall|i: int| path.len() - name.len() <= i < path.len() implies other_than('/')(
        #[trigger] path[i],
    ) by {
        assert(path[i] == name[i - dir.len() - 1]);
    }
    assert(path[dir.len() as int] == '/');
    lemma_rspan_is(path, other_than('/'), name.len() as int);
    assert(path.len() > 1);
    assert(path != "/"@);
    assert(path.take(dir.len() as int) =~= dir);
}

/// Putting an entry in touches no other one, but for the one that was used least recently,
/// which leaves where the cache is full and the key is new.
pub proof fn law_insert_keeps_the_others(
    e: Entries,
    cap: nat,
    k: Seq<char>,
    item: CachedItem,
    other: Seq<char>,
    now: Instant,
    ttl: Duration,
)
    requires
        other != k,
        e.items.contains_key(k) || e.order.len() < cap || e.order[e.order.len() - 1] != other,
    ensures
        e.stored(cap, k, item).status_at(other, now, ttl) == e.status_at(other, now, ttl),
        e.stored(cap, k, item).listing_at(other, now, ttl) == e.listing_at(other, now, ttl),
        e.stored(cap, k, item).items.contains_key(k),
        e.stored(cap, k, item).order[0] == k,
{
}

/// A lookup changes no entry but the one that it looks for, and that one only where it has
/// expired. A live one becomes the most recently used.
pub proof fn law_lookup_keeps_entries(
    e: Entries,
    k: Seq<char>,
    other: Seq<char>,
    now: Instant,
    later: Instant,
    ttl: Duration,
)
    requires
        other != k,
    ensures
        e.after_lookup(k, now, ttl).status_at(other, later, ttl) == e.status_at(other, later, ttl),
        e.after_lookup(k, now, ttl).listing_at(other, later, ttl) == e.listing_at(
            other,
            later,
            ttl,
        ),
        e.items.contains_key(k) && now.nanos < e.items[k].inserted_at.nanos + ttl.nanos && ttl.nanos
            > 0 ==> e.after_lookup(k, now, ttl).items == e.items && e.after_lookup(
            k,
            now,
            ttl,
        ).order[0] == k,
{
}

/// What a lookup finds in an entry that is younger than a lifetime is what was put in: the
/// status, its absence, and the listing; in one that is as old or older, nothing.
pub proof fn law_lookup_finds_what_is_there(
    e: Entries,
    k: Seq<char>,
    info: Arc<FileInfo>,
    listing: Arc<Vec<FileInfo>>,
    now: Instant,
    ttl: Duration,
)
    requires
        e.items.contains_key(k),
        e.items[k].inserted_at.nanos <= now.nanos,
    ensures
        ({
            let age = now.nanos - e.items[k].inserted_at.nanos;
            &&& age < ttl.nanos && e.items[k].status == Some(StatusSlot::Present(info))
                ==> e.status_at(k, now, ttl) == StatusLookup::Present(info)
            &&& age < ttl.nanos && e.items[k].status == Some(StatusSlot::NotFound)
                ==> e.status_at(k, now, ttl) is NotFound
            &&& age < ttl.nanos && e.items[k].status is None ==> e.status_at(k, now, ttl) is Miss
            &&& age < ttl.nanos && e.items[k].dir_listing == Some(listing) ==> e.listing_at(
                k,
                now,
                ttl,
            ) == Some(listing)
            &&& age >= ttl.nanos ==> e.status_at(k, now, ttl) is Miss && e.listing_at(k, now, ttl)
                is None
        }),
{
}

/// Nothing is found under a key that is not there.
pub proof fn law_nothing_comes_from_nothing(e: Entries, k: Seq<char>, now: Instant, ttl: Duration)
    requires
        !e.items.contains_key(k),
    ensures
        e.status_at(k, now, ttl) is Miss,
        e.listing_at(k, now, ttl) is None,
        e.after_lookup(k, now, ttl) == e,
{
}

/// A status that is put in leaves the listing of its path, and a listing leaves the status;
/// both are as old as the last one that came.
pub proof fn law_status_and_listing_share_an_entry(
    e: Entries,
    k: Seq<char>,
    slot: StatusSlot,
    listing: Arc<Vec<FileInfo>>,
    now: Instant,
)
    ensures
        e.with_status(k, slot, now).status == Some(slot),
        e.with_status(k, slot, now).inserted_at == now,
        e.with_listing(k, listing, now).dir_listing == Some(listing),
        e.with_listing(k, listing, now).inserted_at == now,
        e.items.contains_key(k) ==> e.with_status(k, slot, now).dir_listing
            == e.items[k].dir_listing && e.with_listing(k, listing, now).status
            == e.items[k].status,
        !e.items.contains_key(k) ==> e.with_status(k, slot, now).dir_listing is None
            && e.with_listing(k, listing, now).status is None,
{
}

/// Each lookup counts as a hit or as a miss, once. It is a hit where the caller can be served:
/// with the status of a completed file, with the absence of a path, or with a listing.
pub proof fn law_lookups_are_counted_once(
    s: MetadataCacheStats,
    r: StatusLookup,
    served: bool,
    expired: bool,
)
    requires
        s.hits < u64::MAX,
        s.misses < u64::MAX,
        s.expired < u64::MAX,
        s.negative_hits < u64::MAX,
    ensures
        ({
            let t = s.after_status_lookup(r, expired);
            &&& t.hits + t.misses == s.hits + s.misses + 1
            &&& r is Miss ==> t.misses == s.misses + 1
            &&& r is NotFound ==> t.hits == s.hits + 1 && t.negative_hits == s.negative_hits + 1
            &&& r matches StatusLookup::Present(info) ==> {
                &&& info.completed == Some(true) ==> t.hits == s.hits + 1
                &&& info.completed != Some(true) ==> t.misses == s.misses + 1
                &&& t.negative_hits == s.negative_hits
            }
            &&& t.expired == s.expired + if expired {
                1int
            } else {
                0
            }
            &&& t.invalidations == s.invalidations
        }),
        ({
            let t = s.after_listing_lookup(served, expired);
            &&& t.hits == s.hits + if served {
                1int
            } else {
                0
            }
            &&& t.misses == s.misses + if served {
                0int
            } else {
                1
            }
            &&& t.expired == s.expired + if expired {
                1int
            } else {
                0
            }
            &&& t.invalidations == s.invalidations
            &&& t.negative_hits == s.negative_hits
        }),
{
}

/// A write to a file in a directory drops the entry of the file and that of the directory,
/// and no other, and counts those of the two that were there.
pub proof fn law_write_reaches_file_and_directory(
    e: Entries,
    dir: Seq<char>,
    name: Seq<char>,
    other: Seq<char>,
)
    requires
        dir.len() > 0 && dir[0] == '/' && dir[dir.len() - 1] != '/',
        !is_white_space(dir[dir.len() - 1]),
        name.len() > 0,
        forall|i: int| 0 <= i < name.len() ==> #[trigger] name[i] != '/',
        !is_white_space(name[name.len() - 1]),
        other != dir && other != dir + seq!['/'] + name,
    ensures
        ({
            let path = dir + seq!['/'] + name;
            let w = e.invalidated(path);
            &&& !w.items.contains_key(path)
            &&& !w.items.contains_key(dir)
            &&& w.items.contains_key(other) == e.items.contains_key(other)
            &&& e.items.contains_key(other) ==> w.items[other] == e.items[other]
            &&& e.invalidated_count(path) == (if e.items.contains_key(path) {
                1int
            } else {
                0
            }) + (if e.items.contains_key(dir) {
                1int
            } else {
                0
            })
        }),
{
    let path = dir + seq!['/'] + name;
    let none = Seq::<char>::empty();
    law_parent_is_the_directory(dir, name);
    assert(path[0] == '/');
    assert(path[path.len() - 1] == name[name.len() - 1]);
    assert(name[name.len() - 1] != '/');
    law_normal_form(none, path, 0, none);
    law_normal_form(none, dir, 0, none);
    assert(path.len() != dir.len());
}

} // verus!
