//! Named counters and gauges.

use dashmap::DashMap;
use vstd::prelude::*;
use vstd::string::*;

verus! {

/// `a + b`, brought into the range of `i64` by wrapping around.
pub open spec fn wrapping_sum(a: i64, b: i64) -> i64 {
    if a + b > i64::MAX {
        (a + b - 0x1_0000_0000_0000_0000) as i64
    } else if a + b < i64::MIN {
        (a + b + 0x1_0000_0000_0000_0000) as i64
    } else {
        (a + b) as i64
    }
}

/// A metric that adds up.
#[derive(Clone, Copy, Debug, PartialEq, Eq, Structural)]
pub struct Counter {
    /// The sum.
    pub v: i64,
}

impl Default for Counter {
    fn default() -> (r: Self)
        ensures
            r.v == 0,
    {
        Counter { v: 0 }
    }
}

impl Counter {
    /// Adds `n`. The sum wraps around at the ends of its range.
    pub fn inc(&mut self, n: i64)
        ensures
            final(self).v == wrapping_sum(old(self).v, n),
    {
        self.v = self.v.wrapping_add(n);
    }

    /// The sum.
    pub fn get(&self) -> (r: i64)
        ensures
            r == self.v,
    {
        self.v
    }
}

/// A metric that holds the last value.
#[derive(Clone, Copy, Debug, PartialEq, Eq, Structural)]
pub struct Gauge {
    /// The value.
    pub v: i64,
}

impl Default for Gauge {
    fn default() -> (r: Self)
        ensures
            r.v == 0,
    {
        Gauge { v: 0 }
    }
}

impl Gauge {
    /// Replaces the value.
    pub fn set(&mut self, val: i64)
        ensures
            final(self).v == val,
    {
        self.v = val;
    }

    /// The value.
    pub fn get(&self) -> (r: i64)
        ensures
            r == self.v,
    {
        self.v
    }
}

#[verifier::external_type_specification]
#[verifier::external_body]
#[verifier::reject_recursive_types(K)]
#[verifier::reject_recursive_types(V)]
#[verifier::reject_recursive_types(S)]
pub struct ExDashMap<K, V, S>(dashmap::DashMap<K, V, S>);

/// What a `dashmap::DashMap` holds.
pub uninterp spec fn dash_items(m: DashMap<String, usize>) -> Map<Seq<char>, usize>;

/// No items.
pub open spec fn no_slots() -> Map<Seq<char>, usize> {
    Map::empty()
}

/// `DashMap::new`: an empty map.
#[verifier::external_body]
fn dash_new() -> (r: DashMap<String, usize>)
    ensures
        dash_items(r) == no_slots(),
{
    DashMap::new()
}

/// `DashMap::get`: the value under `k`.
#[verifier::external_body]
fn dash_get(m: &DashMap<String, usize>, k: &str) -> (r: Option<usize>)
    ensures
        match r {
            Some(v) => dash_items(*m).contains_key(k@) && v == dash_items(*m)[k@],
            None => !dash_items(*m).contains_key(k@),
        },
{
    match m.get(k) {
        Some(e) => Some(*e.value()),
        None => None,
    }
}

/// `DashMap::entry` with `or_insert`: the value under `k`, which is `v` where there
/// was none before. No one else uses the map meanwhile.
#[verifier::external_body]
fn dash_get_or_insert(m: &mut DashMap<String, usize>, k: &str, v: usize) -> (r: usize)
    ensures
        dash_items(*old(m)).contains_key(k@) ==> r == dash_items(*old(m))[k@] && dash_items(
            *final(m),
        ) == dash_items(*old(m)),
        !dash_items(*old(m)).contains_key(k@) ==> r == v && dash_items(*final(m)) == dash_items(
            *old(m),
        ).insert(k@, v),
{
    *m.entry(k.to_string()).or_insert(v)
}

/// All counters and gauges of a process, by name.
///
/// A name leads to a slot, and the slot to the metric, so that everyone who asks for
/// a name shares one metric.
pub struct Registry {
    counter_slots: DashMap<String, usize>,
    counters: Vec<Counter>,
    gauge_slots: DashMap<String, usize>,
    gauges: Vec<Gauge>,
}

/// Whether every name has a slot of its own among `n`.
pub open spec fn slots_wf(slots: Map<Seq<char>, usize>, n: nat) -> bool {
    &&& forall|k: Seq<char>| #[trigger] slots.contains_key(k) ==> slots[k] < n
    &&& forall|j: Seq<char>, k: Seq<char>|
        #![trigger slots[j], slots[k]]
        slots.contains_key(j) && slots.contains_key(k) && slots[j] == slots[k] ==> j == k
}

impl Registry {
    /// The slots of the counters.
    pub closed spec fn counter_names(self) -> Map<Seq<char>, usize> {
        dash_items(self.counter_slots)
    }

    /// The counters.
    pub closed spec fn counter_cells(self) -> Seq<Counter> {
        self.counters@
    }

    /// The slots of the gauges.
    pub closed spec fn gauge_names(self) -> Map<Seq<char>, usize> {
        dash_items(self.gauge_slots)
    }

    /// The gauges.
    pub closed spec fn gauge_cells(self) -> Seq<Gauge> {
        self.gauges@
    }

    /// Whether every name has a metric of its own.
    pub open spec fn wf(self) -> bool {
        &&& slots_wf(self.counter_names(), self.counter_cells().len())
        &&& slots_wf(self.gauge_names(), self.gauge_cells().len())
    }

    /// The sum of the counter with this name; 0 where there is none yet.
    pub open spec fn counted(self, k: Seq<char>) -> i64 {
        if self.counter_names().contains_key(k) {
            self.counter_cells()[self.counter_names()[k] as int].v
        } else {
            0
        }
    }

    /// The value of the gauge with this name; 0 where there is none yet.
    pub open spec fn gauged(self, k: Seq<char>) -> i64 {
        if self.gauge_names().contains_key(k) {
            self.gauge_cells()[self.gauge_names()[k] as int].v
        } else {
            0
        }
    }

    /// Whether the gauges of `self` and `other` are the same.
    pub open spec fn same_gauges(self, other: Registry) -> bool {
        self.gauge_names() == other.gauge_names() && self.gauge_cells() == other.gauge_cells()
    }

    /// Whether the counters of `self` and `other` are the same.
    pub open spec fn same_counters(self, other: Registry) -> bool {
        self.counter_names() == other.counter_names() && self.counter_cells()
            == other.counter_cells()
    }

    /// A registry without metrics.
    pub fn new() -> (r: Self)
        ensures
            r.wf(),
            r.counter_names() == no_slots(),
            r.gauge_names() == no_slots(),
            r.counter_cells() == Seq::<Counter>::empty(),
            r.gauge_cells() == Seq::<Gauge>::empty(),
    {
        Registry {
            counter_slots: dash_new(),
            counters: Vec::new(),
            gauge_slots: dash_new(),
            gauges: Vec::new(),
        }
    }

    /// The counter in a slot.
    pub fn counter_at(&mut self, slot: usize) -> (r: &mut Counter)
        requires
            slot < old(self).counter_cells().len(),
        ensures
            *r == old(self).counter_cells()[slot as int],
            final(self).counter_names() == old(self).counter_names(),
            final(self).counter_cells() == old(self).counter_cells().update(
                slot as int,
                *final(r),
            ),
            final(self).same_gauges(*old(self)),
    {
        &mut self.counters[slot]
    }

    /// The gauge in a slot.
    pub fn gauge_at(&mut self, slot: usize) -> (r: &mut Gauge)
        requires
            slot < old(self).gauge_cells().len(),
        ensures
            *r == old(self).gauge_cells()[slot as int],
            final(self).gauge_names() == old(self).gauge_names(),
            final(self).gauge_cells() == old(self).gauge_cells().update(slot as int, *final(r)),
            final(self).same_counters(*old(self)),
    {
        &mut self.gauges[slot]
    }

    /// Adds `n` to the counter with this name, which is made where there is none.
    pub fn count(&mut self, name: &str, n: i64)
        requires
            old(self).wf(),
        ensures
            final(self).wf(),
            final(self).same_gauges(*old(self)),
            forall|k: Seq<char>| #[trigger] final(self).gauged(k) == old(self).gauged(k),
            final(self).counted(name@) == wrapping_sum(old(self).counted(name@), n),
            forall|k: Seq<char>|
                k != name@ ==> #[trigger] final(self).counted(k) == old(self).counted(k),
    {
        let slot: usize = counter(self, name);
        let ghost mid = *self;
        proof {
            assert forall|k: Seq<char>| #[trigger] mid.counted(k) == old(self).counted(k) by {
                if old(self).counter_names().contains_key(k) {
                    assert(old(self).counter_names()[k] < old(self).counter_cells().len());
                }
            }
        }
        self.counter_at(slot).inc(n);
        proof {
            assert forall|k: Seq<char>| k != name@ implies #[trigger] self.counted(k)
                == mid.counted(k) by {
                if mid.counter_names().contains_key(k) {
                    assert(mid.counter_names()[k] != mid.counter_names()[name@]);
                }
            }
        }
    }

    /// Sets the gauge with this name, which is made where there is none.
    pub fn measure(&mut self, name: &str, val: i64)
        requires
            old(self).wf(),
        ensures
            final(self).wf(),
            final(self).same_counters(*old(self)),
            forall|k: Seq<char>| #[trigger] final(self).counted(k) == old(self).counted(k),
            final(self).gauged(name@) == val,
            forall|k: Seq<char>|
                k != name@ ==> #[trigger] final(self).gauged(k) == old(self).gauged(k),
    {
        let slot: usize = gauge(self, name);
        let ghost mid = *self;
        proof {
            assert forall|k: Seq<char>| #[trigger] mid.gauged(k) == old(self).gauged(k) by {
                if old(self).gauge_names().contains_key(k) {
                    assert(old(self).gauge_names()[k] < old(self).gauge_cells().len());
                }
            }
        }
        self.gauge_at(slot).set(val);
        proof {
            assert forall|k: Seq<char>| k != name@ implies #[trigger] self.gauged(k) == mid.gauged(
                k,
            ) by {
                if mid.gauge_names().contains_key(k) {
                    assert(mid.gauge_names()[k] != mid.gauge_names()[name@]);
                }
            }
        }
    }
}

/// The slot of the counter with this name, which is made where there is none.
pub fn counter(registry: &mut Registry, name: &str) -> (slot: usize)
    requires
        old(registry).wf(),
    ensures
        final(registry).wf(),
        final(registry).same_gauges(*old(registry)),
        final(registry).counter_names().contains_key(name@),
        final(registry).counter_names()[name@] == slot,
        slot < final(registry).counter_cells().len(),
        old(registry).counter_names().contains_key(name@) ==> final(registry).same_counters(
            *old(registry),
        ),
        !old(registry).counter_names().contains_key(name@) ==> {
            &&& slot == old(registry).counter_cells().len()
            &&& final(registry).counter_names() == old(registry).counter_names().insert(
                name@,
                slot,
            )
            &&& final(registry).counter_cells() == old(registry).counter_cells().push(
                Counter { v: 0 },
            )
        },
{
    if let Some(slot) = dash_get(&registry.counter_slots, name) {
        return slot;
    }
    let fresh: usize = registry.counters.len();
    registry.counters.push(Counter::default());
    dash_get_or_insert(&mut registry.counter_slots, name, fresh)
}

/// The slot of the gauge with this name, which is made where there is none.
pub fn gauge(registry: &mut Registry, name: &str) -> (slot: usize)
    requires
        old(registry).wf(),
    ensures
        final(registry).wf(),
        final(registry).same_counters(*old(registry)),
        final(registry).gauge_names().contains_key(name@),
        final(registry).gauge_names()[name@] == slot,
        slot < final(registry).gauge_cells().len(),
        old(registry).gauge_names().contains_key(name@) ==> final(registry).same_gauges(
            *old(registry),
        ),
        !old(registry).gauge_names().contains_key(name@) ==> {
            &&& slot == old(registry).gauge_cells().len()
            &&& final(registry).gauge_names() == old(registry).gauge_names().insert(name@, slot)
            &&& final(registry).gauge_cells() == old(registry).gauge_cells().push(Gauge { v: 0 })
        },
{
    if let Some(slot) = dash_get(&registry.gauge_slots, name) {
        return slot;
    }
    let fresh: usize = registry.gauges.len();
    registry.gauges.push(Gauge::default());
    dash_get_or_insert(&mut registry.gauge_slots, name, fresh)
}

/// Two names share a counter, or a gauge, exactly where they are the same name.
pub proof fn law_one_metric_per_name(r: Registry, a: Seq<char>, b: Seq<char>)
    requires
        r.wf(),
    ensures
        r.counter_names().contains_key(a) && r.counter_names().contains_key(b) ==> (
        r.counter_names()[a] == r.counter_names()[b] <==> a == b),
        r.gauge_names().contains_key(a) && r.gauge_names().contains_key(b) ==> (r.gauge_names()[a]
            == r.gauge_names()[b] <==> a == b),
{
}

/// Counting `a` and then `b` is the same as counting their sum, also where that wraps around.
pub proof fn law_counts_add_up(v: i64, a: i64, b: i64)
    ensures
        wrapping_sum(wrapping_sum(v, a), b) == wrapping_sum(v, wrapping_sum(a, b)),
{
}

/// A sum that fits is the sum; one that does not fit is off by a full turn.
pub proof fn law_sums_wrap_around(a: i64, b: i64)
    ensures
        -0x8000_0000_0000_0000 <= a + b <= 0x7fff_ffff_ffff_ffff ==> wrapping_sum(a, b) == a + b,
        a + b > 0x7fff_ffff_ffff_ffff ==> wrapping_sum(a, b) + 0x1_0000_0000_0000_0000 == a + b,
        a + b < -0x8000_0000_0000_0000 ==> wrapping_sum(a, b) - 0x1_0000_0000_0000_0000 == a + b,
{
}

/// What a name counts or measures is what the metric in its slot holds; a name without a slot
/// has counted and measured nothing.
pub proof fn law_slots_hold_the_metrics(r: Registry, k: Seq<char>)
    requires
        r.wf(),
    ensures
        !r.counter_names().dom().contains(k) ==> r.counted(k) == 0,
        r.counter_names().dom().contains(k) ==> r.counter_names()[k] < r.counter_cells().len()
            && r.counted(k) == r.counter_cells()[r.counter_names()[k] as int].v,
        !r.gauge_names().dom().contains(k) ==> r.gauged(k) == 0,
        r.gauge_names().dom().contains(k) ==> r.gauge_names()[k] < r.gauge_cells().len()
            && r.gauged(k) == r.gauge_cells()[r.gauge_names()[k] as int].v,
{
}

/// Registries with the same counters count the same, and registries with the same gauges
/// measure the same.
pub proof fn law_same_metrics(a: Registry, b: Registry, k: Seq<char>)
    ensures
        a.same_counters(b) ==> a.counted(k) == b.counted(k),
        a.same_gauges(b) ==> a.gauged(k) == b.gauged(k),
{
}

} // verus!
