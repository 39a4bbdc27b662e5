//! Merging byte ranges that lie close together into fewer fetches.

use vstd::prelude::*;

verus! {

/// The fetch of a range that needs none.
pub const NO_FETCH: usize = usize::MAX;

/// One fetch.
#[derive(Clone, Copy, Debug, PartialEq, Eq, Structural)]
pub struct Fetch {
    /// Where it starts in the file.
    pub offset: u64,
    /// How many bytes it has.
    pub len: u64,
}

impl Fetch {
    /// Where the fetch ends in the file.
    pub open spec fn end(self) -> int {
        self.offset + self.len
    }
}

/// Where the bytes of a range lie among the fetches.
#[derive(Clone, Copy, Debug, PartialEq, Eq, Structural)]
pub struct Slice {
    /// The fetch; [`NO_FETCH`] where the range is empty.
    pub fetch_index: usize,
    /// Where the range starts in the fetch.
    pub offset_in_fetch: u64,
    /// How many bytes the range has.
    pub len: u64,
}

/// The slice of an empty range.
pub open spec fn no_slice() -> Slice {
    Slice { fetch_index: NO_FETCH, offset_in_fetch: 0, len: 0 }
}

/// Fetches, and where in them each range lies.
#[derive(Clone, Debug)]
pub struct CoalescePlan {
    /// The fetches, by their start.
    pub fetches: Vec<Fetch>,
    /// One slice for each range, in the order of the ranges.
    pub slices: Vec<Slice>,
}

/// Where a range ends.
pub open spec fn end_of(r: (u64, u64)) -> int {
    r.0 + r.1
}

/// Whether every range ends at a file offset that exists.
pub open spec fn ranges_fit(ranges: Seq<(u64, u64)>) -> bool {
    forall|i: int| 0 <= i < ranges.len() ==> end_of(#[trigger] ranges[i]) <= u64::MAX
}

/// Whether a range that starts no earlier than `f` may be fetched together with it: the
/// gap between the two is not too wide, and the two together are not too long.
pub open spec fn joins(f: Fetch, r: (u64, u64), gap: u64, max: u64) -> bool {
    &&& r.0 <= f.end() + gap
    &&& (if end_of(r) > f.end() {
        end_of(r)
    } else {
        f.end()
    }) - f.offset <= max
}

/// Whether range `i` is taken from fetch `j`.
pub open spec fn serves(
    ranges: Seq<(u64, u64)>,
    slices: Seq<Slice>,
    i: int,
    j: int,
) -> bool {
    0 <= i < ranges.len() && ranges[i].1 > 0 && slices[i].fetch_index == j
}

/// Whether slice `s` of the fetches holds range `r`.
pub open spec fn placed(fetches: Seq<Fetch>, r: (u64, u64), s: Slice) -> bool {
    &&& s.fetch_index < fetches.len()
    &&& s.len == r.1
    &&& fetches[s.fetch_index as int].offset + s.offset_in_fetch == r.0
    &&& s.offset_in_fetch + s.len <= fetches[s.fetch_index as int].len
}

/// Whether byte `x` of fetch `j` lies in a range of the fetch, or behind one by less than
/// the widest gap.
pub open spec fn near(
    ranges: Seq<(u64, u64)>,
    slices: Seq<Slice>,
    j: int,
    x: int,
    gap: u64,
) -> bool {
    exists|i: int| #[trigger]
        serves(ranges, slices, i, j) && ranges[i].0 <= x && (x < end_of(ranges[i]) || x < end_of(
            ranges[i],
        ) + gap)
}

/// Whether fetch `j` is no larger than its ranges need: it starts where one of them starts
/// and ends where one of them ends, holds no byte far from all of them, and is longer than
/// the limit only where it is a single range.
pub open spec fn tight(
    ranges: Seq<(u64, u64)>,
    fetches: Seq<Fetch>,
    slices: Seq<Slice>,
    j: int,
    gap: u64,
    max: u64,
) -> bool {
    let f = fetches[j];
    &&& f.len > 0
    &&& f.end() <= u64::MAX
    &&& exists|i: int| #[trigger] serves(ranges, slices, i, j) && ranges[i].0 == f.offset
    &&& exists|i: int| #[trigger] serves(ranges, slices, i, j) && end_of(ranges[i]) == f.end()
    &&& f.len <= max || exists|i: int| #[trigger]
        serves(ranges, slices, i, j) && ranges[i] == (f.offset, f.len)
    &&& forall|x: int| f.offset <= x < f.end() ==> #[trigger] near(ranges, slices, j, x, gap)
}

/// Whether the fetch behind `j` starts with a range that does not join fetch `j`.
pub open spec fn parted(
    ranges: Seq<(u64, u64)>,
    fetches: Seq<Fetch>,
    slices: Seq<Slice>,
    j: int,
    gap: u64,
    max: u64,
) -> bool {
    &&& fetches[j].offset <= fetches[j + 1].offset
    &&& exists|i: int| #[trigger]
        serves(ranges, slices, i, j + 1) && ranges[i].0 == fetches[j + 1].offset && !joins(
            fetches[j],
            ranges[i],
            gap,
            max,
        )
}

/// Whether a plan serves every range, fetches nothing that is not needed, and splits only
/// where it must.
pub open spec fn plan_valid(
    ranges: Seq<(u64, u64)>,
    gap: u64,
    max: u64,
    fetches: Seq<Fetch>,
    slices: Seq<Slice>,
) -> bool {
    &&& slices.len() == ranges.len()
    &&& forall|i: int|
        0 <= i < ranges.len() ==> if (#[trigger] ranges[i]).1 == 0 {
            slices[i] == no_slice()
        } else {
            placed(fetches, ranges[i], slices[i])
        }
    &&& forall|j: int|
        0 <= j < fetches.len() ==> #[trigger] tight(ranges, fetches, slices, j, gap, max)
    &&& forall|j: int|
        0 <= j < fetches.len() - 1 ==> #[trigger] parted(ranges, fetches, slices, j, gap, max)
}

/// Whether `order` names the first ranges that are not empty, by their start.
spec fn ordered(ranges: Seq<(u64, u64)>, order: Seq<usize>, n: int) -> bool {
    &&& forall|a: int|
        0 <= a < order.len() ==> (#[trigger] order[a]) < n && ranges[order[a] as int].1 > 0
    &&& forall|a: int, b: int|
        0 <= a < b < order.len() ==> ranges[#[trigger] order[a] as int].0
            <= ranges[#[trigger] order[b] as int].0 && order[a] != order[b]
    &&& forall|i: int| 0 <= i < n && (#[trigger] ranges[i]).1 > 0 ==> order.contains(i as usize)
}

/// The ranges that are not empty, by their start.
fn sorted_order(ranges: &[(u64, u64)]) -> (order: Vec<usize>)
    ensures
        ordered(ranges@, order@, ranges@.len() as int),
{
    let mut order: Vec<usize> = Vec::new();
    let mut i: usize = 0;
    while i < ranges.len()
        invariant
            i <= ranges@.len(),
            ordered(ranges@, order@, i as int),
        decreases ranges@.len() - i,
    {
        if ranges[i].1 > 0 {
            let mut at: usize = order.len();
            while at > 0 && ranges[order[at - 1]].0 > ranges[i].0
                invariant
                    at <= order@.len(),
                    i < ranges@.len(),
                    ordered(ranges@, order@, i as int),
                    forall|a: int|
                        at <= a < order@.len() ==> ranges@[#[trigger] order@[a] as int].0
                            > ranges@[i as int].0,
                decreases at,
            {
                at -= 1;
            }
            let ghost before = order@;
            order.insert(at, i);
            proof {
                let after = order@;
                assert(after == before.insert(at as int, i));
                assert forall|a: int, b: int| 0 <= a < b < after.len() implies ranges@[
                #[trigger] after[a] as int].0 <= ranges@[#[trigger] after[b] as int].0 && after[a]
                    != after[b] by {
                    if a < at && b == at {
                        if at > 0 {
                            assert(before[a] == after[a]);
                            assert(a < at - 1 ==> ranges@[before[a] as int].0 <= ranges@[before[at
                                - 1] as int].0);
                        }
                    }
                }
                assert forall|k: int| 0 <= k < i + 1 && (#[trigger] ranges@[k]).1
                    > 0 implies after.contains(k as usize) by {
                    if k == i {
                        assert(after[at as int] == k as usize);
                    } else {
                        let a = choose|a: int| 0 <= a < before.len() && before[a] == k as usize;
                        assert(before.contains(k as usize));
                        if a < at {
                            assert(after[a] == k as usize);
                        } else {
                            assert(after[a + 1] == k as usize);
                        }
                    }
                }
            }
        }
        i += 1;
    }
    order
}

/// What the plan is after the first `k` ranges of `order`.
spec fn planned(
    ranges: Seq<(u64, u64)>,
    order: Seq<usize>,
    gap: u64,
    max: u64,
    fetches: Seq<Fetch>,
    slices: Seq<Slice>,
    k: int,
) -> bool {
    &&& slices.len() == ranges.len()
    &&& fetches.len() <= k
    &&& (k > 0 ==> fetches.len() > 0)
    &&& forall|i: int|
        0 <= i < ranges.len() && (#[trigger] ranges[i]).1 == 0 ==> slices[i] == no_slice()
    &&& forall|a: int|
        0 <= a < k ==> placed(
            fetches,
            ranges[#[trigger] order[a] as int],
            slices[order[a] as int],
        )
    &&& forall|a: int|
        k <= a < order.len() ==> slices[#[trigger] order[a] as int] == no_slice()
    &&& forall|j: int|
        0 <= j < fetches.len() ==> #[trigger] tight(ranges, fetches, slices, j, gap, max)
    &&& forall|j: int|
        0 <= j < fetches.len() - 1 ==> #[trigger] parted(ranges, fetches, slices, j, gap, max)
    &&& fetches.len() > 0 ==> exists|a: int|
        0 <= a < k && fetches.last().offset == ranges[#[trigger] order[a] as int].0
}

/// Setting the slice of a range that had none leaves what the other ranges take from where.
proof fn lemma_serves_kept(
    ranges: Seq<(u64, u64)>,
    before: Seq<Slice>,
    after: Seq<Slice>,
    at: int,
    s: Slice,
    j: int,
)
    requires
        0 <= at < ranges.len(),
        before.len() == ranges.len(),
        before[at] == no_slice(),
        after == before.update(at, s),
        0 <= j < NO_FETCH,
    ensures
        forall|i: int|
            serves(ranges, before, i, j) ==> #[trigger] serves(ranges, after, i, j),
{
}

/// A fetch that does not change stays tight.
proof fn lemma_tight_kept(
    ranges: Seq<(u64, u64)>,
    fetches: Seq<Fetch>,
    grown: Seq<Fetch>,
    before: Seq<Slice>,
    after: Seq<Slice>,
    at: int,
    s: Slice,
    j: int,
    gap: u64,
    max: u64,
)
    requires
        0 <= at < ranges.len(),
        before.len() == ranges.len(),
        before[at] == no_slice(),
        after == before.update(at, s),
        0 <= j < fetches.len() <= ranges.len(),
        j < grown.len(),
        grown[j] == fetches[j],
        ranges.len() <= usize::MAX,
        tight(ranges, fetches, before, j, gap, max),
    ensures
        tight(ranges, grown, after, j, gap, max),
{
    lemma_serves_kept(ranges, before, after, at, s, j);
    let f = fetches[j];
    let a = choose|i: int| #[trigger]
        serves(ranges, before, i, j) && ranges[i].0 == f.offset;
    assert(serves(ranges, after, a, j));
    let b = choose|i: int| #[trigger]
        serves(ranges, before, i, j) && end_of(ranges[i]) == f.end();
    assert(serves(ranges, after, b, j));
    if f.len > max {
        let c = choose|i: int| #[trigger]
            serves(ranges, before, i, j) && ranges[i] == (f.offset, f.len);
        assert(serves(ranges, after, c, j));
    }
    assert forall|x: int| f.offset <= x < f.end() implies #[trigger] near(
        ranges,
        after,
        j,
        x,
        gap,
    ) by {
        assert(near(ranges, before, j, x, gap));
        let i = choose|i: int| #[trigger]
            serves(ranges, before, i, j) && ranges[i].0 <= x && (x < end_of(ranges[i]) || x
                < end_of(ranges[i]) + gap);
        assert(serves(ranges, after, i, j));
    }
}

/// Two fetches that do not change stay parted.
proof fn lemma_parted_kept(
    ranges: Seq<(u64, u64)>,
    fetches: Seq<Fetch>,
    grown: Seq<Fetch>,
    before: Seq<Slice>,
    after: Seq<Slice>,
    at: int,
    s: Slice,
    j: int,
    gap: u64,
    max: u64,
)
    requires
        0 <= at < ranges.len(),
        before.len() == ranges.len(),
        before[at] == no_slice(),
        after == before.update(at, s),
        0 <= j < fetches.len() - 1,
        fetches.len() <= ranges.len(),
        j + 1 < grown.len(),
        grown[j] == fetches[j],
        grown[j + 1].offset == fetches[j + 1].offset,
        ranges.len() <= usize::MAX,
        parted(ranges, fetches, before, j, gap, max),
    ensures
        parted(ranges, grown, after, j, gap, max),
{
    lemma_serves_kept(ranges, before, after, at, s, j + 1);
    let i = choose|i: int| #[trigger]
        serves(ranges, before, i, j + 1) && ranges[i].0 == fetches[j + 1].offset && !joins(
            fetches[j],
            ranges[i],
            gap,
            max,
        );
    assert(serves(ranges, after, i, j + 1));
}

/// A range that joins the last fetch.
proof fn lemma_joined(
    ranges: Seq<(u64, u64)>,
    order: Seq<usize>,
    gap: u64,
    max: u64,
    fetches: Seq<Fetch>,
    slices: Seq<Slice>,
    k: int,
    grown: Seq<Fetch>,
    after: Seq<Slice>,
)
    requires
        ranges.len() <= usize::MAX,
        ranges_fit(ranges),
        ordered(ranges, order, ranges.len() as int),
        planned(ranges, order, gap, max, fetches, slices, k),
        0 < k < order.len() <= ranges.len(),
        ({
            let i = order[k] as int;
            let f = fetches.last();
            let r = ranges[i];
            let end = if end_of(r) > f.end() {
                end_of(r)
            } else {
                f.end()
            };
            &&& joins(f, r, gap, max)
            &&& grown == fetches.update(
                fetches.len() - 1,
                Fetch { offset: f.offset, len: (end - f.offset) as u64 },
            )
            &&& after == slices.update(
                i,
                Slice {
                    fetch_index: (fetches.len() - 1) as usize,
                    offset_in_fetch: (r.0 - f.offset) as u64,
                    len: r.1,
                },
            )
        }),
    ensures
        planned(ranges, order, gap, max, grown, after, k + 1),
{
    let i = order[k] as int;
    let last = fetches.len() - 1;
    let f = fetches.last();
    let g = grown[last];
    let r = ranges[i];
    let s = after[i];
    assert(slices[i] == no_slice());
    assert(tight(ranges, fetches, slices, last, gap, max));
    let first = choose|a: int|
        0 <= a < k && fetches.last().offset == ranges[#[trigger] order[a] as int].0;
    assert(ranges[order[first] as int].0 <= ranges[order[k] as int].0);
    assert(f.offset <= r.0);
    assert forall|a: int| 0 <= a < k + 1 implies placed(
        grown,
        ranges[#[trigger] order[a] as int],
        after[order[a] as int],
    ) by {
        if a < k {
            assert(order[a] != order[k]);
            assert(placed(fetches, ranges[order[a] as int], slices[order[a] as int]));
        }
    }
    assert forall|a: int| k + 1 <= a < order.len() implies after[#[trigger] order[a] as int]
        == no_slice() by {
        assert(order[k] != order[a]);
    }
    lemma_serves_kept(ranges, slices, after, i, s, last);
    assert(serves(ranges, after, i, last));
    assert(tight(ranges, grown, after, last, gap, max)) by {
        let a = choose|a: int| #[trigger]
            serves(ranges, slices, a, last) && ranges[a].0 == f.offset;
        assert(serves(ranges, after, a, last));
        let b = choose|b: int| #[trigger]
            serves(ranges, slices, b, last) && end_of(ranges[b]) == f.end();
        assert(serves(ranges, after, b, last));
        assert forall|x: int| g.offset <= x < g.end() implies #[trigger] near(
            ranges,
            after,
            last,
            x,
            gap,
        ) by {
            if x < f.end() {
                assert(near(ranges, slices, last, x, gap));
                let c = choose|c: int| #[trigger]
                    serves(ranges, slices, c, last) && ranges[c].0 <= x && (x < end_of(ranges[c])
                        || x < end_of(ranges[c]) + gap);
                assert(serves(ranges, after, c, last));
            } else if x < r.0 {
                assert(serves(ranges, after, b, last));
            } else {
                assert(serves(ranges, after, i, last));
            }
        }
    }
    assert forall|j: int| 0 <= j < grown.len() implies #[trigger] tight(
        ranges,
        grown,
        after,
        j,
        gap,
        max,
    ) by {
        if j < last {
            assert(tight(ranges, fetches, slices, j, gap, max));
            lemma_tight_kept(ranges, fetches, grown, slices, after, i, s, j, gap, max);
        }
    }
    assert forall|j: int| 0 <= j < grown.len() - 1 implies #[trigger] parted(
        ranges,
        grown,
        after,
        j,
        gap,
        max,
    ) by {
        assert(parted(ranges, fetches, slices, j, gap, max));
        lemma_parted_kept(ranges, fetches, grown, slices, after, i, s, j, gap, max);
    }
    assert(grown.last().offset == ranges[order[first] as int].0);
}

/// A range that starts a fetch of its own.
proof fn lemma_started(
    ranges: Seq<(u64, u64)>,
    order: Seq<usize>,
    gap: u64,
    max: u64,
    fetches: Seq<Fetch>,
    slices: Seq<Slice>,
    k: int,
    grown: Seq<Fetch>,
    after: Seq<Slice>,
)
    requires
        ranges.len() <= usize::MAX,
        ranges_fit(ranges),
        ordered(ranges, order, ranges.len() as int),
        planned(ranges, order, gap, max, fetches, slices, k),
        0 <= k < order.len() <= ranges.len(),
        ({
            let i = order[k] as int;
            let r = ranges[i];
            &&& fetches.len() > 0 ==> !joins(fetches.last(), r, gap, max)
            &&& grown == fetches.push(Fetch { offset: r.0, len: r.1 })
            &&& after == slices.update(
                i,
                Slice { fetch_index: fetches.len() as usize, offset_in_fetch: 0, len: r.1 },
            )
        }),
    ensures
        planned(ranges, order, gap, max, grown, after, k + 1),
{
    let i = order[k] as int;
    let n = fetches.len() as int;
    let r = ranges[i];
    let s = after[i];
    assert(slices[i] == no_slice());
    assert forall|a: int| 0 <= a < k + 1 implies placed(
        grown,
        ranges[#[trigger] order[a] as int],
        after[order[a] as int],
    ) by {
        if a < k {
            assert(order[a] != order[k]);
            assert(placed(fetches, ranges[order[a] as int], slices[order[a] as int]));
        }
    }
    assert forall|a: int| k + 1 <= a < order.len() implies after[#[trigger] order[a] as int]
        == no_slice() by {
        assert(order[k] != order[a]);
    }
    assert(end_of(ranges[i]) <= u64::MAX);
    assert(serves(ranges, after, i, n));
    assert(tight(ranges, grown, after, n, gap, max)) by {
        assert forall|x: int| r.0 <= x < end_of(r) implies #[trigger] near(
            ranges,
            after,
            n,
            x,
            gap,
        ) by {
            assert(serves(ranges, after, i, n));
        }
    }
    assert forall|j: int| 0 <= j < grown.len() implies #[trigger] tight(
        ranges,
        grown,
        after,
        j,
        gap,
        max,
    ) by {
        if j < n {
            assert(tight(ranges, fetches, slices, j, gap, max));
            lemma_tight_kept(ranges, fetches, grown, slices, after, i, s, j, gap, max);
        }
    }
    assert forall|j: int| 0 <= j < grown.len() - 1 implies #[trigger] parted(
        ranges,
        grown,
        after,
        j,
        gap,
        max,
    ) by {
        if j < n - 1 {
            assert(parted(ranges, fetches, slices, j, gap, max));
            lemma_parted_kept(ranges, fetches, grown, slices, after, i, s, j, gap, max);
        } else {
            let first = choose|a: int|
                0 <= a < k && fetches.last().offset == ranges[#[trigger] order[a] as int].0;
            assert(ranges[order[first] as int].0 <= ranges[order[k] as int].0);
        }
    }
    assert(grown.last().offset == ranges[order[k] as int].0);
}

/// Plans the fetches for `ranges`. Two ranges are fetched together where the gap between
/// them is at most `gap_bytes` and the fetch does not become longer than `max_bytes`.
pub fn plan(ranges: &[(u64, u64)], gap_bytes: u64, max_bytes: u64) -> (r: CoalescePlan)
    requires
        ranges_fit(ranges@),
    ensures
        plan_valid(ranges@, gap_bytes, max_bytes, r.fetches@, r.slices@),
{
    let order: Vec<usize> = sorted_order(ranges);
    let mut fetches: Vec<Fetch> = Vec::new();
    let mut slices: Vec<Slice> = Vec::new();
    let mut i: usize = 0;
    while i < ranges.len()
        invariant
            i <= ranges@.len(),
            slices@.len() == i,
            forall|a: int| 0 <= a < i ==> #[trigger] slices@[a] == no_slice(),
        decreases ranges@.len() - i,
    {
        slices.push(Slice { fetch_index: NO_FETCH, offset_in_fetch: 0, len: 0 });
        i += 1;
    }
    proof {
        lemma_order_short(ranges@, order@, ranges@.len() as int);
    }
    let mut k: usize = 0;
    while k < order.len()
        invariant
            k <= order@.len() <= ranges@.len() <= usize::MAX,
            ranges_fit(ranges@),
            ordered(ranges@, order@, ranges@.len() as int),
            planned(ranges@, order@, gap_bytes, max_bytes, fetches@, slices@, k as int),
        decreases order@.len() - k,
    {
        let at: usize = order[k];
        let (start, len) = ranges[at];
        let ghost before = fetches@;
        let ghost slices_before = slices@;
        assert(end_of(ranges@[at as int]) <= u64::MAX);
        let end: u64 = start + len;
        let n: usize = fetches.len();
        let mut joined: bool = false;
        if n > 0 {
            let f: Fetch = fetches[n - 1];
            proof {
                assert(tight(ranges@, before, slices_before, n - 1, gap_bytes, max_bytes));
                let first = choose|a: int|
                    0 <= a < k && before.last().offset == ranges@[#[trigger] order@[a] as int].0;
                assert(ranges@[order@[first] as int].0 <= ranges@[order@[k as int] as int].0);
            }
            let f_end: u64 = f.offset + f.len;
            let new_end: u64 = if end > f_end {
                end
            } else {
                f_end
            };
            if (start <= f_end || start - f_end <= gap_bytes) && new_end - f.offset <= max_bytes {
                joined = true;
                fetches.set(n - 1, Fetch { offset: f.offset, len: new_end - f.offset });
                slices.set(
                    at,
                    Slice { fetch_index: n - 1, offset_in_fetch: start - f.offset, len },
                );
                proof {
                    lemma_joined(
                        ranges@,
                        order@,
                        gap_bytes,
                        max_bytes,
                        before,
                        slices_before,
                        k as int,
                        fetches@,
                        slices@,
                    );
                }
            }
        }
        if !joined {
            fetches.push(Fetch { offset: start, len });
            slices.set(at, Slice { fetch_index: n, offset_in_fetch: 0, len });
            proof {
                lemma_started(
                    ranges@,
                    order@,
                    gap_bytes,
                    max_bytes,
                    before,
                    slices_before,
                    k as int,
                    fetches@,
                    slices@,
                );
            }
        }
        k += 1;
    }
    proof {
        assert forall|i: int| 0 <= i < ranges@.len() implies if (#[trigger] ranges@[i]).1 == 0 {
            slices@[i] == no_slice()
        } else {
            placed(fetches@, ranges@[i], slices@[i])
        } by {
            if ranges@[i].1 > 0 {
                assert(order@.contains(i as usize));
                let a = choose|a: int| 0 <= a < order@.len() && order@[a] == i as usize;
                assert(placed(fetches@, ranges@[order@[a] as int], slices@[order@[a] as int]));
            }
        }
    }
    CoalescePlan { fetches, slices }
}

/// Different places below `n` are at most `n`.
proof fn lemma_order_short(ranges: Seq<(u64, u64)>, order: Seq<usize>, n: int)
    requires
        0 <= n,
        ordered(ranges, order, n),
    ensures
        order.len() <= n,
{
    let places = order.map(|_a: int, i: usize| i as int);
    assert(places.no_duplicates()) by {
        assert forall|a: int, b: int|
            0 <= a < places.len() && 0 <= b < places.len() && a != b implies places[a]
            != places[b] by {
            if a < b {
                assert(order[a] != order[b]);
            } else {
                assert(order[b] != order[a]);
            }
        }
    }
    let all = vstd::set_lib::set_int_range(0, n);
    vstd::set_lib::lemma_int_range(0, n);
    assert(places.to_set().subset_of(all)) by {
        assert forall|x: int| places.to_set().contains(x) implies all.contains(x) by {
            let a = choose|a: int| 0 <= a < places.len() && places[a] == x;
            assert(order[a] < n);
        }
    }
    places.unique_seq_to_set();
    vstd::set_lib::lemma_len_subset(places.to_set(), all);
}

/// Every range lies in one fetch, at the place and with the length that its slice says. An
/// empty range needs no fetch.
pub proof fn law_slices_lead_to_their_ranges(
    ranges: Seq<(u64, u64)>,
    gap: u64,
    max: u64,
    fetches: Seq<Fetch>,
    slices: Seq<Slice>,
    i: int,
)
    requires
        plan_valid(ranges, gap, max, fetches, slices),
        0 <= i < ranges.len(),
    ensures
        slices.len() == ranges.len(),
        slices[i].len == ranges[i].1,
        ranges[i].1 == 0 ==> slices[i].fetch_index == usize::MAX && slices[i].offset_in_fetch == 0,
        ranges[i].1 > 0 ==> {
            let s = slices[i];
            let f = fetches[s.fetch_index as int];
            &&& s.fetch_index < fetches.len()
            &&& f.offset + s.offset_in_fetch == ranges[i].0
            &&& f.offset <= ranges[i].0
            &&& ranges[i].0 + ranges[i].1 <= f.offset + f.len
        },
{
}

/// No fetch asks for more than its ranges need: it starts with one of them and ends with one
/// of them, every byte of it lies in one of them or less than the gap behind one, and it is
/// longer than the limit only where it is one of the ranges.
pub proof fn law_fetches_hold_what_is_needed(
    ranges: Seq<(u64, u64)>,
    gap: u64,
    max: u64,
    fetches: Seq<Fetch>,
    slices: Seq<Slice>,
    j: int,
    x: int,
)
    requires
        plan_valid(ranges, gap, max, fetches, slices),
        0 <= j < fetches.len(),
        fetches[j].offset <= x < fetches[j].offset + fetches[j].len,
    ensures
        exists|i: int|
            0 <= i < ranges.len() && slices[i].fetch_index == j && (#[trigger] ranges[i]).1 > 0
                && ranges[i].0 == fetches[j].offset,
        exists|i: int|
            0 <= i < ranges.len() && slices[i].fetch_index == j && (#[trigger] ranges[i]).1 > 0
                && ranges[i].0 + ranges[i].1 == fetches[j].offset + fetches[j].len,
        exists|i: int|
            0 <= i < ranges.len() && slices[i].fetch_index == j && (#[trigger] ranges[i]).1 > 0
                && ranges[i].0 <= x < ranges[i].0 + ranges[i].1 + gap,
        fetches[j].len > max ==> exists|i: int|
            0 <= i < ranges.len() && (#[trigger] ranges[i]).0 == fetches[j].offset && ranges[i].1
                == fetches[j].len,
{
    assert(tight(ranges, fetches, slices, j, gap, max));
    assert(near(ranges, slices, j, x, gap));
    let f = fetches[j];
    let a = choose|i: int| #[trigger]
        serves(ranges, slices, i, j) && ranges[i].0 == f.offset;
    let b = choose|i: int| #[trigger]
        serves(ranges, slices, i, j) && end_of(ranges[i]) == f.end();
    let c = choose|i: int| #[trigger]
        serves(ranges, slices, i, j) && ranges[i].0 <= x && (x < end_of(ranges[i]) || x < end_of(
            ranges[i],
        ) + gap);
    assert(ranges[a].1 > 0 && ranges[b].1 > 0 && ranges[c].1 > 0);
    if f.len > max {
        let d = choose|i: int| #[trigger]
            serves(ranges, slices, i, j) && ranges[i] == (f.offset, f.len);
        assert(ranges[d].1 == f.len);
    }
}

/// Two fetches that follow each other could not have been one: the second starts with a range
/// that lies further behind the first than the gap, or that would make it longer than the
/// limit.
pub proof fn law_fetches_are_split_only_where_they_must(
    ranges: Seq<(u64, u64)>,
    gap: u64,
    max: u64,
    fetches: Seq<Fetch>,
    slices: Seq<Slice>,
    j: int,
)
    requires
        plan_valid(ranges, gap, max, fetches, slices),
        0 <= j < fetches.len() - 1,
    ensures
        fetches[j].offset <= fetches[j + 1].offset,
        exists|i: int|
            {
                &&& 0 <= i < ranges.len()
                &&& slices[i].fetch_index == j + 1
                &&& (#[trigger] ranges[i]).0 == fetches[j + 1].offset
                &&& {
                    ||| ranges[i].0 > fetches[j].offset + fetches[j].len + gap
                    ||| ranges[i].0 + ranges[i].1 > fetches[j].offset + max
                    ||| fetches[j].len > max
                }
            },
{
    assert(parted(ranges, fetches, slices, j, gap, max));
    let i = choose|i: int| #[trigger]
        serves(ranges, slices, i, j + 1) && ranges[i].0 == fetches[j + 1].offset && !joins(
            fetches[j],
            ranges[i],
            gap,
            max,
        );
    assert(ranges[i].0 == fetches[j + 1].offset);
}

/// Two ranges are read with one fetch where the gap between them is not too wide and the two
/// together are not too long.
pub proof fn law_close_ranges_are_fetched_together(
    a: (u64, u64),
    b: (u64, u64),
    gap: u64,
    max: u64,
    fetches: Seq<Fetch>,
    slices: Seq<Slice>,
)
    requires
        plan_valid(seq![a, b], gap, max, fetches, slices),
        a.1 > 0,
        b.1 > 0,
        a.0 < b.0 <= a.0 + a.1 + gap,
        a.1 <= max,
        b.0 + b.1 <= a.0 + max,
    ensures
        slices[0].fetch_index == slices[1].fetch_index,
{
    let ranges = seq![a, b];
    assert(placed(fetches, ranges[0], slices[0]));
    assert(placed(fetches, ranges[1], slices[1]));
    let m = slices[0].fetch_index as int;
    let n = slices[1].fetch_index as int;
    if m != n {
        assert(tight(ranges, fetches, slices, m, gap, max));
        assert(tight(ranges, fetches, slices, n, gap, max));
        assert(fetches[m].offset == a.0 && fetches[m].end() == end_of(a)) by {
            let i = choose|i: int| #[trigger]
                serves(ranges, slices, i, m) && ranges[i].0 == fetches[m].offset;
            let k = choose|i: int| #[trigger]
                serves(ranges, slices, i, m) && end_of(ranges[i]) == fetches[m].end();
            assert(i == 0 && k == 0);
        }
        assert(fetches[n].offset == b.0) by {
            let i = choose|i: int| #[trigger]
                serves(ranges, slices, i, n) && ranges[i].0 == fetches[n].offset;
            assert(i == 1);
        }
        assert forall|j: int|
            0 <= j < fetches.len() && #[trigger] tight(
                ranges,
                fetches,
                slices,
                j,
                gap,
                max,
            ) implies j == m || j == n by {
            let i = choose|i: int| #[trigger]
                serves(ranges, slices, i, j) && ranges[i].0 == fetches[j].offset;
            assert(i == 0 || i == 1);
        }
        assert(fetches.len() <= 2) by {
            if fetches.len() > 2 {
                assert(tight(ranges, fetches, slices, 0, gap, max));
                assert(tight(ranges, fetches, slices, 1, gap, max));
                assert(tight(ranges, fetches, slices, 2, gap, max));
            }
        }
        assert(parted(ranges, fetches, slices, 0, gap, max));
        let i = choose|i: int| #[trigger]
            serves(ranges, slices, i, 1) && ranges[i].0 == fetches[1].offset && !joins(
                fetches[0],
                ranges[i],
                gap,
                max,
            );
        assert(i == 0 || i == 1);
    }
}

} // verus!
