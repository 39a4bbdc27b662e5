//! Reading several ranges of a file in one call.

use crate::block::mapper::held;
use crate::config::client::GoosefsConfig;
use crate::error::Error;
use crate::io::buffers::{bytes_content, bytes_len, bytes_new, bytes_slice};
use crate::io::file_reader::GoosefsFileReader;
use crate::io::range_coalesce::{
    end_of, no_slice, placed, plan, plan_valid, ranges_fit, tight, CoalescePlan, Fetch, Slice,
    NO_FETCH,
};
use crate::text::{decimal, decimal_string};
use bytes::Bytes;
use vstd::prelude::*;
use vstd::string::*;

verus! {

/// Whether the fetches gave as many bytes as they should, and every slice lies in its
/// fetch.
pub open spec fn can_splice(
    fetches: Seq<Fetch>,
    slices: Seq<Slice>,
    bufs: Seq<Bytes>,
) -> bool {
    &&& bufs.len() == fetches.len()
    &&& forall|j: int|
        0 <= j < fetches.len() ==> bytes_content(#[trigger] bufs[j]).len() == fetches[j].len
    &&& forall|i: int|
        0 <= i < slices.len() ==> (#[trigger] slices[i]).fetch_index == NO_FETCH || (
        slices[i].fetch_index < fetches.len() && slices[i].offset_in_fetch + slices[i].len
            <= fetches[slices[i].fetch_index as int].len)
}

/// The bytes that slice `s` takes from the fetches.
pub open spec fn spliced(bufs: Seq<Bytes>, s: Slice) -> Seq<u8> {
    if s.fetch_index == NO_FETCH {
        Seq::empty()
    } else {
        bytes_content(bufs[s.fetch_index as int]).subrange(
            s.offset_in_fetch as int,
            s.offset_in_fetch + s.len,
        )
    }
}

impl GoosefsFileReader {
    /// The bytes of each range, in the order of the ranges, taken from the fetches.
    pub fn splice_from_plan(plan: &CoalescePlan, fetch_bufs: &[Bytes]) -> (r: Vec<Bytes>)
        requires
            can_splice(plan.fetches@, plan.slices@, fetch_bufs@),
        ensures
            r@.len() == plan.slices@.len(),
            forall|i: int|
                0 <= i < r@.len() ==> bytes_content(#[trigger] r@[i]) == spliced(
                    fetch_bufs@,
                    plan.slices@[i],
                ),
    {
        let mut out: Vec<Bytes> = Vec::new();
        let mut i: usize = 0;
        while i < plan.slices.len()
            invariant
                can_splice(plan.fetches@, plan.slices@, fetch_bufs@),
                i <= plan.slices@.len(),
                out@.len() == i,
                forall|k: int|
                    0 <= k < out@.len() ==> bytes_content(#[trigger] out@[k]) == spliced(
                        fetch_bufs@,
                        plan.slices@[k],
                    ),
            decreases plan.slices@.len() - i,
        {
            let s: Slice = plan.slices[i];
            if s.fetch_index == NO_FETCH {
                out.push(bytes_new());
            } else {
                let src: &Bytes = &fetch_bufs[s.fetch_index];
                let whole: usize = bytes_len(src);
                assert(s.offset_in_fetch + s.len <= whole);
                let lo: usize = s.offset_in_fetch as usize;
                out.push(bytes_slice(src, lo, lo + s.len as usize));
            }
            i += 1;
        }
        out
    }
}

/// A read of several ranges that is under way.
pub struct RangesRead {
    /// The ranges.
    pub ranges: Vec<(u64, u64)>,
    /// How the ranges are fetched together; none where each is fetched by itself.
    pub plan: Option<CoalescePlan>,
    /// What the fetches gave so far. Where each range is fetched by itself, this holds an
    /// entry for empty ranges too.
    pub done: Vec<Bytes>,
}

/// The message where a fetch gave another number of bytes than it should.
pub open spec fn short_fetch_message(f: Fetch, got: nat) -> Seq<char> {
    "read_ranges: merged fetch (offset="@ + decimal(f.offset as nat) + ", len="@ + decimal(
        f.len as nat,
    ) + ") returned "@ + decimal(got) + " bytes"@
}

fn short_fetch(f: Fetch, got: usize) -> (r: Error)
    ensures
        r matches Error::BlockIoError { message } && message@ == short_fetch_message(
            f,
            got as nat,
        ),
{
    let mut message: String = "read_ranges: merged fetch (offset=".to_owned();
    let offset: String = decimal_string(f.offset as u128);
    message.append(&offset);
    message.append(", len=");
    let len: String = decimal_string(f.len as u128);
    message.append(&len);
    message.append(") returned ");
    let count: String = decimal_string(got as u128);
    message.append(&count);
    message.append(" bytes");
    Error::BlockIoError { message }
}

/// The first range from `from` on that is not empty; the number of ranges where there is
/// none.
pub open spec fn next_nonempty(ranges: Seq<(u64, u64)>, from: int) -> int
    decreases ranges.len() - from,
{
    if from < 0 || from >= ranges.len() {
        ranges.len() as int
    } else if ranges[from].1 > 0 {
        from
    } else {
        next_nonempty(ranges, from + 1)
    }
}

impl RangesRead {
    /// Whether what was fetched fits the plan.
    pub open spec fn wf(self) -> bool {
        match self.plan {
            None => self.done@.len() <= self.ranges@.len(),
            Some(p) => {
                &&& p.slices@.len() == self.ranges@.len()
                &&& self.done@.len() <= p.fetches@.len()
                &&& forall|i: int|
                    0 <= i < self.ranges@.len() ==> if (#[trigger] self.ranges@[i]).1 == 0 {
                        p.slices@[i] == no_slice()
                    } else {
                        placed(p.fetches@, self.ranges@[i], p.slices@[i])
                    }
                &&& forall|j: int|
                    0 <= j < self.done@.len() ==> bytes_content(#[trigger] self.done@[j]).len()
                        == p.fetches@[j].len
            },
        }
    }

    /// Whether nothing is left to be fetched.
    pub open spec fn complete(self) -> bool {
        match self.plan {
            None => self.done@.len() == self.ranges@.len(),
            Some(p) => self.done@.len() == p.fetches@.len(),
        }
    }

    /// Whether the next thing to do is to fetch `request`.
    pub open spec fn awaits(self, request: (u64, u64)) -> bool {
        match self.plan {
            None => {
                &&& self.done@.len() < self.ranges@.len()
                &&& self.ranges@[self.done@.len() as int] == request
                &&& request.1 > 0
            },
            Some(p) => {
                &&& self.done@.len() < p.fetches@.len()
                &&& request == (
                    p.fetches@[self.done@.len() as int].offset,
                    p.fetches@[self.done@.len() as int].len,
                )
            },
        }
    }

    /// Starts a read. Ranges are fetched together only where the configuration says so.
    pub fn start(config: &GoosefsConfig, ranges: Vec<(u64, u64)>) -> (r: Self)
        requires
            config.range_coalesce_enabled ==> ranges_fit(ranges@),
        ensures
            r.wf(),
            r.ranges == ranges,
            r.done@.len() == 0,
            !config.range_coalesce_enabled ==> r.plan is None,
            config.range_coalesce_enabled ==> (r.plan matches Some(p) && plan_valid(
                ranges@,
                config.range_coalesce_gap_bytes,
                config.range_coalesce_max_bytes,
                p.fetches@,
                p.slices@,
            )),
    {
        let plan: Option<CoalescePlan> = if config.range_coalesce_enabled {
            Some(
                plan(
                    ranges.as_slice(),
                    config.range_coalesce_gap_bytes,
                    config.range_coalesce_max_bytes,
                ),
            )
        } else {
            None
        };
        RangesRead { ranges, plan, done: Vec::new() }
    }

    /// What is to be fetched next; none where nothing is. Empty ranges are not fetched.
    pub fn request(&mut self) -> (r: Option<(u64, u64)>)
        requires
            old(self).wf(),
        ensures
            final(self).wf(),
            final(self).ranges == old(self).ranges,
            final(self).plan == old(self).plan,
            match r {
                Some(request) => final(self).awaits(request),
                None => final(self).complete(),
            },
            old(self).plan is Some ==> final(self).done == old(self).done,
            old(self).plan is None ==> {
                &&& final(self).done@.len() == next_nonempty(
                    old(self).ranges@,
                    old(self).done@.len() as int,
                )
                &&& final(self).done@.subrange(0, old(self).done@.len() as int) == old(self).done@
                &&& forall|i: int|
                    old(self).done@.len() <= i < final(self).done@.len() ==> bytes_content(
                        #[trigger] final(self).done@[i],
                    ).len() == 0 && old(self).ranges@[i].1 == 0
            },
    {
        match &self.plan {
            Some(p) => {
                if self.done.len() < p.fetches.len() {
                    let f: Fetch = p.fetches[self.done.len()];
                    Some((f.offset, f.len))
                } else {
                    None
                }
            },
            None => {
                let ghost before = self.done@;
                let ghost target = next_nonempty(self.ranges@, before.len() as int);
                assert(self.done@.subrange(0, before.len() as int) =~= before);
                while self.done.len() < self.ranges.len() && self.ranges[self.done.len()].1 == 0
                    invariant
                        self.plan is None,
                        self.plan == old(self).plan,
                        self.ranges == old(self).ranges,
                        before.len() <= self.done@.len() <= self.ranges@.len(),
                        self.done@.subrange(0, before.len() as int) == before,
                        target == next_nonempty(self.ranges@, self.done@.len() as int),
                        forall|i: int|
                            before.len() <= i < self.done@.len() ==> bytes_content(
                                #[trigger] self.done@[i],
                            ).len() == 0 && self.ranges@[i].1 == 0,
                    decreases self.ranges@.len() - self.done@.len(),
                {
                    let ghost mid = self.done@;
                    self.done.push(bytes_new());
                    assert(self.done@.subrange(0, before.len() as int) =~= mid.subrange(
                        0,
                        before.len() as int,
                    ));
                }
                if self.done.len() < self.ranges.len() {
                    Some(self.ranges[self.done.len()])
                } else {
                    None
                }
            },
        }
    }

    /// Takes what a fetch gave. A fetch of ranges that are fetched together must give
    /// exactly the bytes that were asked for.
    pub fn accept(&mut self, bytes: Bytes) -> (r: Result<(), Error>)
        requires
            old(self).wf(),
            exists|request: (u64, u64)| #[trigger] old(self).awaits(request),
        ensures
            final(self).wf(),
            final(self).ranges == old(self).ranges,
            final(self).plan == old(self).plan,
            match old(self).plan {
                None => r is Ok && final(self).done@ == old(self).done@.push(bytes),
                Some(p) => {
                    let f = p.fetches@[old(self).done@.len() as int];
                    if bytes_content(bytes).len() == f.len {
                        r is Ok && final(self).done@ == old(self).done@.push(bytes)
                    } else {
                        &&& r matches Err(Error::BlockIoError { message })
                        &&& message@ == short_fetch_message(f, bytes_content(bytes).len())
                        &&& final(self).done == old(self).done
                    }
                },
            },
    {
        if let Some(p) = &self.plan {
            let f: Fetch = p.fetches[self.done.len()];
            let got: usize = bytes_len(&bytes);
            if got as u64 != f.len {
                return Err(short_fetch(f, got));
            }
        }
        self.done.push(bytes);
        Ok(())
    }

    /// The bytes of each range, in the order of the ranges.
    pub fn finish(self) -> (r: Vec<Bytes>)
        requires
            self.wf(),
            self.complete(),
        ensures
            r@.len() == self.ranges@.len(),
            match self.plan {
                None => r@ == self.done@,
                Some(p) => forall|i: int|
                    0 <= i < r@.len() ==> bytes_content(#[trigger] r@[i]) == spliced(
                        self.done@,
                        p.slices@[i],
                    ),
            },
    {
        match self.plan {
            None => self.done,
            Some(p) => {
                proof {
                    assert forall|i: int| 0 <= i < p.slices@.len() implies (
                    #[trigger] p.slices@[i]).fetch_index == NO_FETCH || (p.slices@[i].fetch_index
                        < p.fetches@.len() && p.slices@[i].offset_in_fetch + p.slices@[i].len
                        <= p.fetches@[p.slices@[i].fetch_index as int].len) by {
                        let range = self.ranges@[i];
                    }
                }
                GoosefsFileReader::splice_from_plan(&p, self.done.as_slice())
            },
        }
    }

    /// Whether what was fetched so far are the bytes of `file`, as far as it goes.
    pub open spec fn faithful(self, file: Seq<u8>) -> bool {
        match self.plan {
            None => forall|i: int|
                0 <= i < self.done@.len() ==> bytes_content(#[trigger] self.done@[i]) == held(
                    file,
                    self.ranges@[i].0 as int,
                    end_of(self.ranges@[i]),
                ),
            Some(p) => forall|j: int|
                0 <= j < self.done@.len() ==> bytes_content(#[trigger] self.done@[j]) == held(
                    file,
                    p.fetches@[j].offset as int,
                    p.fetches@[j].end(),
                ),
        }
    }
}

/// Fetching bytes of the file keeps what was fetched faithful.
pub proof fn law_fetches_stay_faithful(
    before: RangesRead,
    after: RangesRead,
    request: (u64, u64),
    bytes: Bytes,
    file: Seq<u8>,
)
    requires
        before.wf(),
        before.faithful(file),
        before.awaits(request),
        bytes_content(bytes) == held(file, request.0 as int, end_of(request)),
        after.ranges == before.ranges,
        after.plan == before.plan,
        after.done@ == before.done@.push(bytes),
    ensures
        after.faithful(file),
{
}

/// Skipping empty ranges keeps what was fetched faithful.
pub proof fn law_empty_ranges_need_no_fetch(before: RangesRead, after: RangesRead, file: Seq<u8>)
    requires
        before.wf(),
        after.wf(),
        before.faithful(file),
        after.ranges == before.ranges,
        after.plan == before.plan,
        before.done@.len() <= after.done@.len(),
        after.done@.subrange(0, before.done@.len() as int) == before.done@,
        forall|i: int|
            before.done@.len() <= i < after.done@.len() ==> bytes_content(
                #[trigger] after.done@[i],
            ).len() == 0 && before.plan is None && before.ranges@[i].1 == 0,
    ensures
        after.faithful(file),
{
    let n = before.done@.len();
    assert forall|i: int| 0 <= i < n implies #[trigger] after.done@[i] == before.done@[i] by {
        assert(after.done@.subrange(0, n as int)[i] == before.done@[i]);
    }
    if before.plan is None {
        assert forall|i: int| n <= i < after.done@.len() implies bytes_content(
            #[trigger] after.done@[i],
        ) == held(file, after.ranges@[i].0 as int, end_of(after.ranges@[i])) by {
            assert(bytes_content(after.done@[i]) =~= held(
                file,
                after.ranges@[i].0 as int,
                end_of(after.ranges@[i]),
            ));
        }
    }
}

/// Whether ranges are fetched together or one by one, the caller gets the same: for each
/// range, in the order of the ranges, the bytes of the file, as far as it goes.
pub proof fn law_ranges_give_the_file(
    read: RangesRead,
    gap: u64,
    max: u64,
    out: Seq<Bytes>,
    file: Seq<u8>,
    i: int,
)
    requires
        read.wf(),
        read.complete(),
        read.faithful(file),
        match read.plan {
            None => out == read.done@,
            Some(p) => {
                &&& out.len() == read.ranges@.len()
                &&& forall|k: int|
                    0 <= k < out.len() ==> bytes_content(#[trigger] out[k]) == spliced(
                        read.done@,
                        p.slices@[k],
                    )
                &&& plan_valid(read.ranges@, gap, max, p.fetches@, p.slices@)
            },
        },
        0 <= i < read.ranges@.len(),
    ensures
        bytes_content(out[i]) == held(
            file,
            read.ranges@[i].0 as int,
            end_of(read.ranges@[i]),
        ),
{
    if let Some(p) = read.plan {
        let range = read.ranges@[i];
        let s = p.slices@[i];
        if range.1 > 0 {
            assert(placed(p.fetches@, range, s));
            let j = s.fetch_index as int;
            assert(p.fetches.len() == p.fetches@.len());
            assert(tight(read.ranges@, p.fetches@, p.slices@, j, gap, max));
            assert(bytes_content(read.done@[j]).len() == p.fetches@[j].len);
            assert(bytes_content(read.done@[j]) == held(
                file,
                p.fetches@[j].offset as int,
                p.fetches@[j].end(),
            ));
            assert(p.fetches@[j].end() <= file.len());
            assert(spliced(read.done@, s) =~= held(file, range.0 as int, end_of(range)));
        } else {
            assert(held(file, range.0 as int, end_of(range)) =~= Seq::empty());
        }
        assert(bytes_content(out[i]) == spliced(read.done@, s));
    }
}

/// Byte `k` of a range is byte `k` behind the place in the fetch that its slice names, and
/// nothing comes where a range needs no fetch.
pub proof fn law_ranges_are_cut_from_their_fetches(bufs: Seq<Bytes>, s: Slice, k: int)
    requires
        s.fetch_index < bufs.len() || s.fetch_index == usize::MAX,
        s.fetch_index < bufs.len() ==> s.offset_in_fetch + s.len <= bytes_content(
            bufs[s.fetch_index as int],
        ).len(),
        bufs.len() < usize::MAX,
    ensures
        s.fetch_index == usize::MAX ==> spliced(bufs, s).len() == 0,
        s.fetch_index < bufs.len() ==> {
            &&& spliced(bufs, s).len() == s.len
            &&& 0 <= k < s.len ==> spliced(bufs, s)[k] == bytes_content(
                bufs[s.fetch_index as int],
            )[s.offset_in_fetch + k]
        },
{
}

/// Only empty ranges are passed over on the way to the next fetch.
pub proof fn law_only_empty_ranges_are_passed_over(ranges: Seq<(u64, u64)>, from: int)
    requires
        0 <= from <= ranges.len(),
    ensures
        from <= next_nonempty(ranges, from) <= ranges.len(),
        forall|i: int|
            from <= i < next_nonempty(ranges, from) ==> (#[trigger] ranges[i]).1 == 0,
        next_nonempty(ranges, from) < ranges.len() ==> ranges[next_nonempty(ranges, from)].1 > 0,
    decreases ranges.len() - from,
{
    if from < ranges.len() && ranges[from].1 == 0 {
        law_only_empty_ranges_are_passed_over(ranges, from + 1);
    }
}

/// What is fetched next is the first range, or the first fetch of the plan, that nothing has
/// come for yet; nothing is fetched where something has come for all of them.
pub proof fn law_fetches_come_in_order(read: RangesRead, request: (u64, u64))
    requires
        read.wf(),
    ensures
        read.plan matches Some(p) ==> {
            let n = read.done@.len() as int;
            &&& read.awaits(request) <==> n < p.fetches@.len() && request.0 == p.fetches@[n].offset
                && request.1 == p.fetches@[n].len
            &&& read.complete() <==> n >= p.fetches@.len()
        },
        read.plan is None ==> {
            let n = read.done@.len() as int;
            &&& read.awaits(request) <==> n < read.ranges@.len() && request == read.ranges@[n]
                && request.1 > 0
            &&& read.complete() <==> n >= read.ranges@.len()
        },
{
}

/// A fetch that gave the wrong number of bytes is named with where it starts, how long it is
/// and how many bytes came.
pub proof fn law_short_fetch_is_named(f: Fetch, got: nat)
    ensures
        short_fetch_message(f, got) == "read_ranges: merged fetch (offset="@ + decimal(
            f.offset as nat,
        ) + ", len="@ + decimal(f.len as nat) + ") returned "@ + decimal(got) + " bytes"@,
{
}

} // verus!
