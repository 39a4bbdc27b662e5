//! What a stream has delivered, what it holds back, and where it is.

use vstd::prelude::*;

verus! {

/// Where a stream is.
#[verifier::ext_equal]
pub struct StreamState {
    /// The file offset of the next byte that a worker delivers.
    pub pos: int,
    /// Bytes before that offset which the caller has not got yet.
    pub carry: Seq<u8>,
    /// Whether a block is being streamed.
    pub open: bool,
    /// The block that is being streamed; -1 where none is.
    pub open_block: int,
    /// The block that is being read from a local memory map; -1 where none is.
    pub local_block: int,
    /// Whether the next read is to ask for a part of a block by itself.
    pub positioned: bool,
}

impl StreamState {
    /// The file offset of the next byte that the caller gets.
    pub open spec fn user_pos(self) -> int {
        self.pos - self.carry.len()
    }

    /// Whether what is held back are the bytes of `file` before the position.
    pub open spec fn holds(self, file: Seq<u8>) -> bool {
        &&& 0 <= self.user_pos()
        &&& self.pos <= file.len()
        &&& self.carry == file.subrange(self.user_pos(), self.pos)
    }

    /// The stream without a block that is being streamed.
    pub open spec fn closed(self) -> StreamState {
        StreamState { open: false, open_block: -1, ..self }
    }
}

/// The smaller of the two.
pub open spec fn lesser(a: int, b: int) -> int {
    if a < b {
        a
    } else {
        b
    }
}

/// One way in which a caller who wants some bytes gets them.
pub enum Delivery {
    /// From what is held back.
    Held {
        /// How many bytes the caller has room for.
        want: nat,
    },
    /// From the page cache, or from a part of a block that was asked for by itself.
    Direct {
        /// How many bytes the caller has room for.
        want: nat,
        /// What was given.
        data: Seq<u8>,
    },
    /// From a local memory map.
    Local {
        /// What the memory map gave.
        data: Seq<u8>,
        /// The block.
        block: int,
    },
    /// From a worker that streams a block.
    Chunk {
        /// How many bytes the caller has room for.
        want: nat,
        /// What the worker sent.
        data: Seq<u8>,
        /// Whether the block ends with it.
        last: bool,
    },
    /// From a worker that has no more of the block.
    Exhausted,
}

/// The stream after a delivery.
pub open spec fn after(s: StreamState, d: Delivery) -> StreamState {
    match d {
        Delivery::Held { want } => StreamState {
            carry: s.carry.subrange(
                lesser(s.carry.len() as int, want as int),
                s.carry.len() as int,
            ),
            ..s
        },
        Delivery::Direct { want, data } => StreamState {
            pos: s.pos + lesser(data.len() as int, want as int),
            positioned: false,
            ..s
        },
        Delivery::Local { data, block } => StreamState {
            pos: s.pos + data.len(),
            local_block: block,
            positioned: false,
            ..s.closed()
        },
        Delivery::Chunk { want, data, last } => StreamState {
            pos: s.pos + data.len(),
            carry: data.subrange(lesser(data.len() as int, want as int), data.len() as int),
            ..if last {
                s.closed()
            } else {
                s
            }
        },
        Delivery::Exhausted => s.closed(),
    }
}

/// What the caller gets.
pub open spec fn delivered(s: StreamState, d: Delivery) -> Seq<u8> {
    match d {
        Delivery::Held { want } => s.carry.subrange(0, lesser(s.carry.len() as int, want as int)),
        Delivery::Direct { want, data } => data.subrange(0, lesser(data.len() as int, want as int)),
        Delivery::Local { data, .. } => data,
        Delivery::Chunk { want, data, .. } => data.subrange(
            0,
            lesser(data.len() as int, want as int),
        ),
        Delivery::Exhausted => Seq::empty(),
    }
}

/// Whether a delivery can happen, and brings the bytes of `file` from the position on.
pub open spec fn sound(s: StreamState, d: Delivery, file: Seq<u8>) -> bool {
    match d {
        Delivery::Held { .. } => true,
        Delivery::Direct { data, .. } => {
            &&& s.carry.len() == 0
            &&& s.pos + data.len() <= file.len()
            &&& data == file.subrange(s.pos, s.pos + data.len())
        },
        Delivery::Local { data, .. } => {
            &&& s.carry.len() == 0
            &&& s.pos + data.len() <= file.len()
            &&& data == file.subrange(s.pos, s.pos + data.len())
        },
        Delivery::Chunk { data, .. } => {
            &&& s.carry.len() == 0
            &&& s.pos + data.len() <= file.len()
            &&& data == file.subrange(s.pos, s.pos + data.len())
        },
        Delivery::Exhausted => s.carry.len() == 0,
    }
}

/// A delivery gives the caller the bytes of the file from where the caller is, and moves
/// the caller behind them. Bytes that the caller had no room for are held back, so that
/// none is lost.
pub proof fn law_delivery_gives_the_file(s: StreamState, d: Delivery, file: Seq<u8>)
    requires
        s.holds(file),
        sound(s, d, file),
    ensures
        after(s, d).holds(file),
        after(s, d).user_pos() == s.user_pos() + delivered(s, d).len(),
        delivered(s, d) == file.subrange(s.user_pos(), after(s, d).user_pos()),
{
    assert(after(s, d).carry =~= file.subrange(after(s, d).user_pos(), after(s, d).pos));
    assert(delivered(s, d) =~= file.subrange(s.user_pos(), after(s, d).user_pos()));
}

/// The stream after several deliveries.
pub open spec fn after_all(s: StreamState, ds: Seq<Delivery>) -> StreamState
    decreases ds.len(),
{
    if ds.len() == 0 {
        s
    } else {
        after(after_all(s, ds.drop_last()), ds.last())
    }
}

/// What several deliveries give the caller.
pub open spec fn delivered_all(s: StreamState, ds: Seq<Delivery>) -> Seq<u8>
    decreases ds.len(),
{
    if ds.len() == 0 {
        Seq::empty()
    } else {
        delivered_all(s, ds.drop_last()) + delivered(after_all(s, ds.drop_last()), ds.last())
    }
}

/// Whether several deliveries can happen, and bring the bytes of `file`.
pub open spec fn sound_all(s: StreamState, ds: Seq<Delivery>, file: Seq<u8>) -> bool
    decreases ds.len(),
{
    ds.len() == 0 || (sound_all(s, ds.drop_last(), file) && sound(
        after_all(s, ds.drop_last()),
        ds.last(),
        file,
    ))
}

/// Whatever the sizes of the chunks and of the caller's buffers are, and wherever the bytes
/// come from, the caller gets the file, byte by byte and in order.
pub proof fn law_reads_give_the_file(s: StreamState, ds: Seq<Delivery>, file: Seq<u8>)
    requires
        s.holds(file),
        sound_all(s, ds, file),
    ensures
        after_all(s, ds).holds(file),
        s.user_pos() <= after_all(s, ds).user_pos(),
        delivered_all(s, ds) == file.subrange(s.user_pos(), after_all(s, ds).user_pos()),
    decreases ds.len(),
{
    if ds.len() > 0 {
        let before = after_all(s, ds.drop_last());
        law_reads_give_the_file(s, ds.drop_last(), file);
        law_delivery_gives_the_file(before, ds.last(), file);
    }
    assert(delivered_all(s, ds) =~= file.subrange(s.user_pos(), after_all(s, ds).user_pos()));
}

/// The position `p`, brought into the file.
pub open spec fn clamped(p: int, length: int) -> int {
    if p < 0 {
        0
    } else if p > length {
        length
    } else {
        p
    }
}

/// From how far on a move gives up what is streamed, and the next read asks for a part of a
/// block by itself. A shorter way forward in a block is gone by skipping what is streamed.
pub const TRANSFER_POSITIONED_READ_THRESHOLD: i64 = 8192;

/// The block of a file offset; that of all offsets where blocks have no size.
pub open spec fn block_index(bs: int, offset: int) -> int {
    if bs <= 0 {
        0
    } else {
        offset / bs
    }
}

/// Whether a move from `pos` to `target` goes far, forward or backward.
pub open spec fn far(pos: int, target: int) -> bool {
    (if target < pos {
        pos - target
    } else {
        target - pos
    }) >= TRANSFER_POSITIONED_READ_THRESHOLD
}

/// Whether a move from `pos` to `target` stays close, and in one block.
pub open spec fn close_by(bs: int, pos: int, target: int) -> bool {
    &&& !far(pos, target)
    &&& block_index(bs, target) == block_index(bs, pos)
}

/// Whether a move to `target` skips bytes of the block that is being streamed.
pub open spec fn skips(s: StreamState, bs: int, target: int) -> bool {
    target != s.user_pos() && close_by(bs, s.pos, target) && s.open && target > s.pos
}

/// The stream after a move to `target`; where bytes are to be skipped, before that.
pub open spec fn sought(s: StreamState, bs: int, target: int) -> StreamState {
    if target == s.user_pos() {
        s
    } else if skips(s, bs, target) {
        StreamState { carry: Seq::empty(), ..s }
    } else {
        StreamState {
            pos: target,
            carry: Seq::empty(),
            positioned: s.positioned || far(s.pos, target),
            ..if close_by(bs, s.pos, target) && !s.open {
                s
            } else {
                s.closed()
            }
        }
    }
}

/// How many bytes are still to be skipped after a chunk.
pub open spec fn left_to_skip(skip: int, data: Seq<u8>) -> int {
    if data.len() > skip {
        0
    } else {
        skip - data.len()
    }
}

/// What is held back of a chunk when the first `skip` bytes are skipped.
pub open spec fn kept_of(skip: int, data: Seq<u8>) -> Seq<u8> {
    if data.len() > skip {
        data.subrange(skip, data.len() as int)
    } else {
        Seq::empty()
    }
}

/// The stream after the bytes before `target` were skipped.
pub open spec fn skipped_to(s: StreamState, target: int) -> StreamState {
    StreamState { pos: target + s.carry.len(), ..s }
}

/// A move that skips nothing brings the caller to its target, and holds nothing back that
/// does not belong there.
pub proof fn law_seek_lands_on_target(s: StreamState, bs: int, target: int, file: Seq<u8>)
    requires
        s.holds(file),
        0 <= target <= file.len(),
        !skips(s, bs, target),
    ensures
        sought(s, bs, target).user_pos() == target,
        sought(s, bs, target).holds(file),
{
    let r = sought(s, bs, target);
    assert(r.carry =~= file.subrange(r.user_pos(), r.pos));
}

/// Skipping ends at the target and keeps what a worker sent beyond it, whatever the sizes
/// of the chunks are.
///
/// `at` is the file offset of the chunk: `skip` bytes before the target.
pub proof fn law_skip_keeps_what_lies_beyond(
    s: StreamState,
    target: int,
    at: int,
    data: Seq<u8>,
    file: Seq<u8>,
)
    requires
        s.carry.len() == 0,
        0 <= at < target <= file.len(),
        at + data.len() <= file.len(),
        data == file.subrange(at, at + data.len()),
    ensures
        ({
            let skip = target - at;
            let next = StreamState { carry: kept_of(skip, data), ..s };
            &&& left_to_skip(skip, data) > 0 ==> left_to_skip(skip, data) == target - (at
                + data.len()) && next.carry.len() == 0
            &&& left_to_skip(skip, data) == 0 ==> skipped_to(next, target).user_pos() == target
                && skipped_to(next, target).pos == at + data.len() && skipped_to(
                next,
                target,
            ).holds(file)
        }),
{
    let skip = target - at;
    let next = StreamState { carry: kept_of(skip, data), ..s };
    if left_to_skip(skip, data) == 0 {
        let r = skipped_to(next, target);
        assert(r.carry =~= file.subrange(r.user_pos(), r.pos));
    }
}

/// The smaller of two numbers is one of them, and no larger than either.
pub proof fn law_lesser(a: int, b: int)
    ensures
        lesser(a, b) <= a,
        lesser(a, b) <= b,
        lesser(a, b) == a || lesser(a, b) == b,
{
}

/// A place in the file stays; one before it becomes its start, and one behind it its end.
pub proof fn law_clamped(p: int, length: int)
    requires
        0 <= length,
    ensures
        0 <= p <= length ==> clamped(p, length) == p,
        p < 0 ==> clamped(p, length) == 0,
        p > length ==> clamped(p, length) == length,
{
}

/// A move goes far from 8 KiB on, in either direction.
pub proof fn law_far(pos: int, target: int)
    ensures
        far(pos, target) <==> target >= pos + 8 * 1024 || target <= pos - 8 * 1024,
{
}

/// A move skips exactly where it is a short one forward in the block that is being streamed.
/// It then keeps the stream; every other move of a caller gives the stream up.
pub proof fn law_moves_and_the_stream(s: StreamState, bs: int, target: int)
    requires
        bs > 0,
        0 <= s.pos,
        0 <= target,
        target != s.user_pos(),
    ensures
        skips(s, bs, target) <==> s.open && s.pos < target < s.pos + 8 * 1024 && target / bs
            == s.pos / bs,
        skips(s, bs, target) ==> sought(s, bs, target).open == s.open && sought(
            s,
            bs,
            target,
        ).open_block == s.open_block,
        !skips(s, bs, target) && s.open ==> !sought(s, bs, target).open,
        sought(s, bs, target).carry.len() == 0,
        sought(s, bs, target).local_block == s.local_block,
{
}

/// The position that the caller sees is that of the stream, less what is held back; a caller
/// who gets bytes from what is held back, or from a chunk, moves on by as many bytes.
pub proof fn law_caller_moves_by_what_comes(s: StreamState, d: Delivery)
    ensures
        s.user_pos() + s.carry.len() == s.pos,
        (d is Held) ==> after(s, d).pos == s.pos && after(s, d).user_pos() == s.user_pos()
            + delivered(s, d).len(),
        s.carry.len() == 0 ==> after(s, d).user_pos() == s.user_pos() + delivered(s, d).len(),
{
}

/// A caller never gets more than there is room for, and gets something wherever there is room
/// and something to be had.
pub proof fn law_room_is_respected(s: StreamState, d: Delivery)
    ensures
        d matches Delivery::Held { want } ==> delivered(s, d).len() <= want && (want > 0
            && s.carry.len() > 0 ==> delivered(s, d).len() > 0),
        d matches Delivery::Direct { want, data } ==> delivered(s, d).len() <= want && (want > 0
            && data.len() > 0 ==> delivered(s, d).len() > 0),
        d matches Delivery::Chunk { want, data, .. } ==> delivered(s, d).len() <= want && (want > 0
            && data.len() > 0 ==> delivered(s, d).len() > 0),
        d is Exhausted ==> delivered(s, d).len() == 0,
{
}

/// A block that ends is no longer streamed; a chunk that does not end it leaves the stream
/// open.
pub proof fn law_streams_end_with_their_block(s: StreamState, d: Delivery)
    ensures
        d matches Delivery::Chunk { last, .. } ==> {
            &&& last ==> !after(s, d).open && after(s, d).open_block == -1
            &&& !last ==> after(s, d).open == s.open && after(s, d).open_block == s.open_block
        },
        d is Exhausted ==> !after(s, d).open && after(s, d).open_block == -1,
        d matches Delivery::Local { block, .. } ==> !after(s, d).open && after(s, d).local_block
            == block,
        d is Held || d is Direct ==> after(s, d).open == s.open && after(s, d).open_block
            == s.open_block,
{
}

/// A part of a block that was read by itself, and a read from a local memory map, end what a
/// far move began; what is held back and what is streamed leave it as it is.
pub proof fn law_one_part_by_itself(s: StreamState, d: Delivery)
    ensures
        d is Direct || d is Local ==> !after(s, d).positioned,
        d is Held || d is Chunk || d is Exhausted ==> after(s, d).positioned == s.positioned,
        d is Local ==> after(s, d).open_block == -1,
        !(d is Local) ==> after(s, d).local_block == s.local_block,
        d is Direct || d is Local ==> after(s, d).carry == s.carry,
        d is Exhausted ==> after(s, d).carry == s.carry && after(s, d).pos == s.pos,
{
}

/// After a move the next read asks for a part of a block by itself exactly where this move
/// goes far, or an earlier one did.
pub proof fn law_far_moves_are_remembered(s: StreamState, bs: int, target: int)
    requires
        target != s.user_pos(),
        !skips(s, bs, target),
    ensures
        sought(s, bs, target).positioned <==> s.positioned || target <= s.pos - 8 * 1024 || target
            >= s.pos + 8 * 1024,
        sought(s, bs, target).pos == target,
{
}

} // verus!
