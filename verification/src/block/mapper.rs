//! Byte ranges of a file as segments of its blocks.

use crate::proto::FileInfo;
use vstd::arithmetic::div_mod::*;
use vstd::arithmetic::mul::*;
use vstd::prelude::*;

verus! {

/// The block size of a file that does not name one.
pub const DEFAULT_BLOCK_SIZE: i64 = 67_108_864;

/// A part of a block that a read needs.
#[derive(Clone, Copy, Debug, PartialEq, Eq, Structural)]
pub struct BlockReadPlan {
    /// Identifier of the block; 0 where the file does not name it.
    pub block_id: i64,
    /// Place of the block in the file, from 0.
    pub block_index: u64,
    /// Where the part starts in the block.
    pub offset_in_block: u64,
    /// How many bytes the part has.
    pub length: u64,
}

/// The length of a file; 0 where it is not known.
pub open spec fn length_of(info: FileInfo) -> int {
    match info.length {
        Some(n) => if n > 0 {
            n as int
        } else {
            0
        },
        None => 0,
    }
}

/// The block size of a file.
pub open spec fn block_size_of(info: FileInfo) -> int {
    match info.block_size_bytes {
        Some(n) => n as int,
        None => DEFAULT_BLOCK_SIZE as int,
    }
}

/// Where the range of `length` bytes from `offset` ends within a file.
pub open spec fn range_end(info: FileInfo, offset: int, length: int) -> int {
    if offset + length < length_of(info) {
        offset + length
    } else {
        length_of(info)
    }
}

/// How many blocks the bytes from `offset` up to `end` touch.
pub open spec fn touched(bs: int, offset: int, end: int) -> int {
    if bs <= 0 || end <= offset {
        0
    } else {
        (end - 1) / bs - offset / bs + 1
    }
}

/// The file offset at which the part of block `index` starts in a read from `offset`.
pub open spec fn segment_start(bs: int, offset: int, index: int) -> int {
    if index * bs < offset {
        offset
    } else {
        index * bs
    }
}

/// The file offset at which the part of block `index` stops in a read up to `end`.
pub open spec fn segment_stop(bs: int, end: int, index: int) -> int {
    if (index + 1) * bs < end {
        (index + 1) * bs
    } else {
        end
    }
}

/// The part of block `index` in a read from `offset` up to `end`.
pub open spec fn segment(info: FileInfo, offset: int, end: int, index: int) -> BlockReadPlan {
    let bs = block_size_of(info);
    let start = segment_start(bs, offset, index);
    BlockReadPlan {
        block_id: if 0 <= index < info.block_ids@.len() {
            info.block_ids@[index]
        } else {
            0
        },
        block_index: index as u64,
        offset_in_block: (start - index * bs) as u64,
        length: (segment_stop(bs, end, index) - start) as u64,
    }
}

/// The parts of the blocks that a read of `length` bytes from `offset` needs, in order.
pub open spec fn plan_of(info: FileInfo, offset: int, length: int) -> Seq<BlockReadPlan> {
    let bs = block_size_of(info);
    let end = range_end(info, offset, length);
    Seq::new(
        touched(bs, offset, end) as nat,
        |i: int| segment(info, offset, end, offset / bs + i),
    )
}

/// The file offset at which a part starts.
pub open spec fn plan_start(bs: int, p: BlockReadPlan) -> int {
    p.block_index * bs + p.offset_in_block
}

proof fn lemma_block_of(bs: int, x: int)
    requires
        bs > 0,
        x >= 0,
    ensures
        0 <= x / bs <= x,
        (x / bs) * bs <= x < (x / bs + 1) * bs,
        x % bs == x - (x / bs) * bs,
{
    lemma_fundamental_div_mod(x, bs);
    lemma_mod_bound(x, bs);
    lemma_mul_is_commutative(bs, x / bs);
    lemma_mul_is_distributive_add_other_way(bs, x / bs, 1);
    lemma_div_pos_is_pos(x, bs);
    lemma_div_is_ordered_by_denominator(x, 1, bs);
    lemma_div_basics(x);
}

/// The block of an offset is the only one that the offset lies in.
proof fn lemma_block_unique(bs: int, x: int, k: int)
    requires
        bs > 0,
        x >= 0,
        k * bs <= x < (k + 1) * bs,
    ensures
        x / bs == k,
{
    lemma_mul_is_distributive_add_other_way(bs, k, 1);
    lemma_fundamental_div_mod_converse(x, bs, k, x - k * bs);
}

/// A range that is not empty touches a block.
proof fn lemma_touched(bs: int, offset: int, end: int)
    requires
        0 <= offset,
    ensures
        touched(bs, offset, end) >= 0,
        touched(bs, offset, end) > 0 <==> bs > 0 && offset < end,
{
    if bs > 0 && offset < end {
        lemma_div_is_ordered(offset, end - 1, bs);
    }
}

/// What a segment is, spelled out for a block that the read touches.
proof fn lemma_segment(bs: int, offset: int, end: int, i: int)
    requires
        bs > 0,
        0 <= offset < end,
        0 <= i < touched(bs, offset, end),
    ensures
        segment_start(bs, offset, offset / bs) == offset,
        segment_stop(bs, end, offset / bs + touched(bs, offset, end) - 1) == end,
        i > 0 ==> segment_start(bs, offset, offset / bs + i) == (offset / bs + i) * bs,
        i < touched(bs, offset, end) - 1 ==> segment_stop(bs, end, offset / bs + i) == (offset / bs
            + i + 1) * bs,
        (offset / bs + i) * bs <= segment_start(bs, offset, offset / bs + i) < segment_stop(
            bs,
            end,
            offset / bs + i,
        ) <= (offset / bs + i + 1) * bs,
        offset <= segment_start(bs, offset, offset / bs + i),
        segment_stop(bs, end, offset / bs + i) <= end,
{
    let first = offset / bs;
    let last = (end - 1) / bs;
    let k = first + i;
    lemma_block_of(bs, offset);
    lemma_block_of(bs, end - 1);
    lemma_mul_is_distributive_add_other_way(bs, k, 1);
    lemma_mul_inequality(k, last, bs);
    if i > 0 {
        lemma_mul_inequality(first + 1, k, bs);
    }
    if k < last {
        lemma_mul_inequality(k + 1, last, bs);
    }
}

/// Plans reads over the blocks of a file.
pub struct BlockMapper;

impl BlockMapper {
    /// The parts of the blocks that a read of `length` bytes from `offset` needs.
    pub fn plan_read(info: &FileInfo, offset: u64, length: u64) -> (r: Vec<BlockReadPlan>)
        ensures
            r@ == plan_of(*info, offset as int, length as int),
    {
        let file_length: u64 = match info.length {
            Some(n) => if n > 0 {
                n as u64
            } else {
                0
            },
            None => 0,
        };
        let size: i64 = match info.block_size_bytes {
            Some(n) => n,
            None => DEFAULT_BLOCK_SIZE,
        };
        let mut plans: Vec<BlockReadPlan> = Vec::new();
        if size <= 0 || offset >= file_length {
            assert(plans@ =~= plan_of(*info, offset as int, length as int));
            return plans;
        }
        let bs: u64 = size as u64;
        let end: u64 = if length < file_length - offset {
            offset + length
        } else {
            file_length
        };
        let ghost all = plan_of(*info, offset as int, length as int);
        let ghost n = touched(bs as int, offset as int, end as int);
        let mut cur: u64 = offset;
        proof {
            if offset < end {
                lemma_block_of(bs as int, offset as int);
                lemma_touched(bs as int, offset as int, end as int);
                lemma_segment(bs as int, offset as int, end as int, 0);
            }
        }
        while cur < end
            invariant
                bs > 0,
                bs == block_size_of(*info),
                end == range_end(*info, offset as int, length as int),
                end <= i64::MAX,
                offset <= cur <= end,
                n == touched(bs as int, offset as int, end as int),
                all == plan_of(*info, offset as int, length as int),
                plans@.len() <= n,
                plans@ =~= all.subrange(0, plans@.len() as int),
                cur < end ==> plans@.len() < n && cur == segment_start(
                    bs as int,
                    offset as int,
                    offset / bs + plans@.len(),
                ),
                cur == end ==> plans@.len() == n,
            decreases end - cur,
        {
            let index: u64 = cur / bs;
            let within: u64 = cur % bs;
            let ghost i = plans@.len() as int;
            proof {
                lemma_segment(bs as int, offset as int, end as int, i);
                lemma_block_of(bs as int, cur as int);
                lemma_block_unique(bs as int, cur as int, offset / bs + i);
                lemma_mul_is_distributive_add_other_way(bs as int, index as int, 1);
            }
            let length_in_block: u64 = if bs - within < end - cur {
                bs - within
            } else {
                end - cur
            };
            let block_id: i64 = if index < info.block_ids.len() as u64 {
                info.block_ids[index as usize]
            } else {
                0
            };
            plans.push(
                BlockReadPlan {
                    block_id,
                    block_index: index,
                    offset_in_block: within,
                    length: length_in_block,
                },
            );
            cur = cur + length_in_block;
            proof {
                assert(plans@[i] == all[i]);
                assert(plans@ =~= all.subrange(0, i + 1));
                if i + 1 < n {
                    lemma_segment(bs as int, offset as int, end as int, i + 1);
                }
            }
        }
        assert(plans@ =~= all);
        plans
    }
}

/// The segments of a read lie one behind the other: the first starts at the offset, each
/// starts where the one before it stops, and the last stops at the end of the range. None
/// is empty and none leaves its block.
pub proof fn law_segments_tile_the_range(info: FileInfo, offset: int, length: int, i: int)
    requires
        0 <= offset,
        0 <= length,
        0 <= i < plan_of(info, offset, length).len(),
    ensures
        ({
            let bs = block_size_of(info);
            let plans = plan_of(info, offset, length);
            let p = plans[i];
            &&& i == 0 ==> plan_start(bs, p) == offset
            &&& i > 0 ==> plan_start(bs, p) == plan_start(bs, plans[i - 1]) + plans[i - 1].length
            &&& i == plans.len() - 1 ==> plan_start(bs, p) + p.length == range_end(
                info,
                offset,
                length,
            )
            &&& p.length > 0
            &&& p.offset_in_block + p.length <= bs
        }),
{
    let bs = block_size_of(info);
    let end = range_end(info, offset, length);
    lemma_touched(bs, offset, end);
    lemma_block_of(bs, offset);
    lemma_block_of(bs, end - 1);
    lemma_segment(bs, offset, end, i);
    lemma_mul_is_distributive_add_other_way(bs, offset / bs + i, 1);
    if i > 0 {
        lemma_segment(bs, offset, end, i - 1);
        lemma_mul_is_distributive_add_other_way(bs, offset / bs + i - 1, 1);
    }
}

/// No segment leaves the range or the file.
pub proof fn law_segments_stay_in_range(info: FileInfo, offset: int, length: int, i: int)
    requires
        0 <= offset,
        0 <= length,
        0 <= i < plan_of(info, offset, length).len(),
    ensures
        ({
            let bs = block_size_of(info);
            let p = plan_of(info, offset, length)[i];
            &&& bs > 0
            &&& p.block_index <= p.block_index * bs <= plan_start(bs, p)
            &&& offset <= plan_start(bs, p)
            &&& plan_start(bs, p) + p.length <= range_end(info, offset, length)
            &&& range_end(info, offset, length) <= length_of(info)
        }),
{
    let bs = block_size_of(info);
    let end = range_end(info, offset, length);
    lemma_touched(bs, offset, end);
    lemma_block_of(bs, offset);
    lemma_block_of(bs, end - 1);
    lemma_segment(bs, offset, end, i);
    lemma_mul_is_distributive_add_other_way(bs, offset / bs + i, 1);
    lemma_mul_inequality(1, bs, offset / bs + i);
    lemma_mul_is_commutative(bs, offset / bs + i);
}

/// How many bytes the segments have together.
pub open spec fn total_length(plans: Seq<BlockReadPlan>) -> int
    decreases plans.len(),
{
    if plans.len() == 0 {
        0
    } else {
        total_length(plans.drop_last()) + plans.last().length
    }
}

proof fn lemma_total_prefix(info: FileInfo, offset: int, length: int, k: int)
    requires
        0 <= offset,
        0 <= length,
        0 < k <= plan_of(info, offset, length).len(),
    ensures
        ({
            let bs = block_size_of(info);
            let plans = plan_of(info, offset, length);
            total_length(plans.subrange(0, k)) == plan_start(bs, plans[k - 1]) + plans[k - 1].length
                - offset
        }),
    decreases k,
{
    let plans = plan_of(info, offset, length);
    let head = plans.subrange(0, k);
    law_segments_tile_the_range(info, offset, length, k - 1);
    assert(head.last() == plans[k - 1]);
    assert(head.drop_last() =~= plans.subrange(0, k - 1));
    assert(total_length(head) == total_length(head.drop_last()) + plans[k - 1].length);
    if k > 1 {
        lemma_total_prefix(info, offset, length, k - 1);
    } else {
        assert(head.drop_last().len() == 0);
        assert(total_length(head.drop_last()) == 0);
    }
}

/// The first segments of a read have no more bytes together than the range.
pub proof fn lemma_total_bounded(info: FileInfo, offset: int, length: int, k: int)
    requires
        0 <= offset,
        0 <= length,
        0 <= k <= plan_of(info, offset, length).len(),
    ensures
        0 <= total_length(plan_of(info, offset, length).subrange(0, k)) <= length_of(info),
{
    let plans = plan_of(info, offset, length);
    if k > 0 {
        lemma_total_prefix(info, offset, length, k);
        law_segments_stay_in_range(info, offset, length, k - 1);
    } else {
        assert(plans.subrange(0, 0) =~= Seq::empty());
    }
}

/// The segments of a read have as many bytes together as the range holds of the file.
pub proof fn law_segments_add_up(info: FileInfo, offset: int, length: int)
    requires
        0 <= offset,
        0 <= length,
        block_size_of(info) > 0,
        offset <= range_end(info, offset, length),
    ensures
        total_length(plan_of(info, offset, length)) == range_end(info, offset, length) - offset,
{
    let plans = plan_of(info, offset, length);
    let n = plans.len() as int;
    law_nothing_to_read_no_segments(info, offset, length);
    if n > 0 {
        lemma_total_prefix(info, offset, length, n);
        law_segments_tile_the_range(info, offset, length, n - 1);
        assert(plans.subrange(0, n) =~= plans);
    }
}

/// A read has segments exactly where its range holds bytes of the file.
pub proof fn law_nothing_to_read_no_segments(info: FileInfo, offset: int, length: int)
    requires
        0 <= offset,
        0 <= length,
    ensures
        plan_of(info, offset, length).len() == 0 <==> block_size_of(info) <= 0 || range_end(
            info,
            offset,
            length,
        ) <= offset,
{
    lemma_touched(block_size_of(info), offset, range_end(info, offset, length));
}

/// The bytes of `file` from `start` up to `end`, as far as the file goes.
pub open spec fn held(file: Seq<u8>, start: int, end: int) -> Seq<u8> {
    file.subrange(
        if start < file.len() {
            start
        } else {
            file.len() as int
        },
        if end < file.len() {
            end
        } else {
            file.len() as int
        },
    )
}

/// The bytes of the segments, joined.
pub open spec fn joined(file: Seq<u8>, bs: int, plans: Seq<BlockReadPlan>) -> Seq<u8>
    decreases plans.len(),
{
    if plans.len() == 0 {
        Seq::empty()
    } else {
        let p = plans.last();
        joined(file, bs, plans.drop_last()) + file.subrange(
            plan_start(bs, p),
            plan_start(bs, p) + p.length,
        )
    }
}

proof fn lemma_joined_prefix(info: FileInfo, file: Seq<u8>, offset: int, length: int, k: int)
    requires
        0 <= offset,
        0 <= length,
        file.len() == length_of(info),
        0 < k <= plan_of(info, offset, length).len(),
    ensures
        ({
            let bs = block_size_of(info);
            let plans = plan_of(info, offset, length);
            let stop = plan_start(bs, plans[k - 1]) + plans[k - 1].length;
            &&& offset <= stop <= range_end(info, offset, length)
            &&& joined(file, bs, plans.subrange(0, k)) == file.subrange(offset, stop)
        }),
    decreases k,
{
    let bs = block_size_of(info);
    let plans = plan_of(info, offset, length);
    let end = range_end(info, offset, length);
    let head = plans.subrange(0, k);
    law_segments_tile_the_range(info, offset, length, k - 1);
    lemma_touched(bs, offset, end);
    lemma_block_of(bs, offset);
    lemma_block_of(bs, end - 1);
    lemma_segment(bs, offset, end, k - 1);
    assert(head.last() == plans[k - 1]);
    assert(head.drop_last() =~= plans.subrange(0, k - 1));
    if k > 1 {
        lemma_joined_prefix(info, file, offset, length, k - 1);
    } else {
        assert(plans.subrange(0, 0) =~= Seq::empty());
        assert(joined(file, bs, head.drop_last()) =~= Seq::empty());
    }
    assert(joined(file, bs, head) =~= file.subrange(
        offset,
        plan_start(bs, plans[k - 1]) + plans[k - 1].length,
    ));
}

/// Joining the bytes of the segments of a read gives the bytes of the range, as far as the
/// file goes.
pub proof fn law_segments_give_the_range(info: FileInfo, file: Seq<u8>, offset: int, length: int)
    requires
        0 <= offset,
        0 <= length,
        file.len() == length_of(info),
        block_size_of(info) > 0,
    ensures
        joined(file, block_size_of(info), plan_of(info, offset, length)) == held(
            file,
            offset,
            offset + length,
        ),
{
    let plans = plan_of(info, offset, length);
    let n = plans.len() as int;
    if n > 0 {
        lemma_joined_prefix(info, file, offset, length, n);
        law_segments_tile_the_range(info, offset, length, n - 1);
        assert(plans.subrange(0, n) =~= plans);
    } else {
        law_nothing_to_read_no_segments(info, offset, length);
        assert(held(file, offset, offset + length) =~= Seq::empty());
    }
}

/// What a file says of its size and of the size of its blocks counts; a length that is missing
/// or negative is 0, and blocks that name no size have 64 MiB.
pub proof fn law_sizes_of_a_file(info: FileInfo)
    ensures
        info.length matches Some(n) ==> n >= 0 ==> length_of(info) == n,
        info.length matches Some(n) ==> n < 0 ==> length_of(info) == 0,
        info.length is None ==> length_of(info) == 0,
        info.block_size_bytes matches Some(n) ==> block_size_of(info) == n,
        info.block_size_bytes is None ==> block_size_of(info) == 64 * 1024 * 1024,
{
}

/// Segment `i` of a read from `offset` lies in the `i`-th block from that of the offset on. It
/// carries the identifier that the file lists for that block, starts in it where the read
/// comes to it, and stops at the end of the block, of the range or of the file, whichever
/// comes first.
pub proof fn law_segments_name_their_blocks(
    info: FileInfo,
    size: i64,
    file: i64,
    offset: int,
    length: int,
    i: int,
)
    requires
        info.block_size_bytes == Some(size),
        info.length == Some(file),
        size > 0,
        0 <= offset < file,
        0 < length,
        0 <= i < plan_of(info, offset, length).len(),
    ensures
        ({
            let p = plan_of(info, offset, length)[i];
            let start = p.block_index * size + p.offset_in_block;
            let stop = start + p.length;
            &&& p.block_index == offset / (size as int) + i
            &&& p.block_index < info.block_ids@.len() ==> p.block_id
                == info.block_ids@[p.block_index as int]
            &&& p.block_index >= info.block_ids@.len() ==> p.block_id == 0
            &&& i == 0 ==> start == offset
            &&& i > 0 ==> p.offset_in_block == 0
            &&& 0 < p.length
            &&& p.offset_in_block + p.length <= size
            &&& stop == offset + length || stop == file || p.offset_in_block + p.length == size
            &&& stop <= offset + length && stop <= file
            &&& i == plan_of(info, offset, length).len() - 1 ==> stop == offset + length || stop
                == file
        }),
{
    let bs = size as int;
    let end = range_end(info, offset, length);
    lemma_touched(bs, offset, end);
    lemma_block_of(bs, offset);
    lemma_block_of(bs, end - 1);
    lemma_segment(bs, offset, end, i);
    let k = offset / bs + i;
    lemma_mul_is_distributive_add_other_way(bs, k, 1);
    lemma_mul_inequality(1, bs, k);
    lemma_mul_is_commutative(bs, k);
    law_segments_stay_in_range(info, offset, length, i);
}

/// Byte `k` of what a file holds from `start` on is its byte `start + k`, and as many come as
/// the range and the file have.
pub proof fn law_held_bytes(file: Seq<u8>, start: int, end: int, k: int)
    requires
        0 <= start <= end,
    ensures
        end <= file.len() ==> held(file, start, end).len() == end - start,
        start <= file.len() < end ==> held(file, start, end).len() == file.len() - start,
        start > file.len() ==> held(file, start, end).len() == 0,
        0 <= k && start + k < end && start + k < file.len() ==> held(file, start, end)[k]
            == file[start + k],
{
}

/// A read has segments exactly where it asks for bytes, its start lies in the file and the
/// blocks have a size.
pub proof fn law_which_reads_have_segments(
    info: FileInfo,
    size: i64,
    file: i64,
    offset: int,
    length: int,
)
    requires
        info.block_size_bytes == Some(size),
        info.length == Some(file),
        0 <= offset,
        0 <= length,
    ensures
        plan_of(info, offset, length).len() > 0 <==> size > 0 && offset < file && length > 0,
{
    lemma_touched(size as int, offset, range_end(info, offset, length));
}

} // verus!
