//! Moving a stream.

use crate::io::buffers::{
    buffer_clear, buffer_from, buffer_len, bytes_as_slice, bytes_content, bytes_len,
};
use crate::io::file_in_stream::{GoosefsFileInStream, NO_BLOCK};
use crate::io::stream_state::{
    clamped, kept_of, left_to_skip, skipped_to, skips, sought, StreamState,
    TRANSFER_POSITIONED_READ_THRESHOLD,
};
use bytes::Bytes;
use vstd::prelude::*;
use vstd::slice::*;

verus! {

/// Where to move to.
#[derive(Clone, Copy, Debug, PartialEq, Eq, Structural)]
pub enum SeekFrom {
    /// This far behind the start of the file.
    Start(u64),
    /// This far behind the end of the file.
    End(i64),
    /// This far behind where the caller is.
    Current(i64),
}

/// How a move goes on.
#[derive(Clone, Copy, Debug, PartialEq, Eq, Structural)]
pub enum SeekStep {
    /// The caller is at this file offset.
    Done(i64),
    /// Take chunks of the block that is being streamed until `count` bytes were skipped.
    Skip {
        /// The file offset to be reached.
        target: i64,
        /// How many bytes to skip.
        count: i64,
    },
}

/// The file offset that `from` denotes, before it is brought into the file.
pub open spec fn seek_target(from: SeekFrom, length: int, user_pos: int) -> int {
    match from {
        SeekFrom::Start(n) => n as int,
        SeekFrom::End(n) => length + n,
        SeekFrom::Current(n) => user_pos + n,
    }
}

impl GoosefsFileInStream {
    /// Whether `step` and `after` are what a move to the file offset `p` leads to.
    pub open spec fn seeks(self, p: int, step: SeekStep, after: StreamState) -> bool {
        let s = self.state();
        let target = clamped(p, self.file_length as int);
        &&& after == sought(s, self.bs(), target)
        &&& if skips(s, self.bs(), target) {
            step == (SeekStep::Skip { target: target as i64, count: (target - s.pos) as i64 })
        } else {
            step == SeekStep::Done(target as i64)
        }
    }

    /// Moves to the file offset `pos`, brought into the file. A short way forward in the
    /// block that is being streamed is gone by skipping; every other move gives that
    /// stream up. After a move that goes far, the next read asks for a part of a block by
    /// itself.
    pub fn seek(&mut self, pos: i64) -> (r: SeekStep)
        requires
            old(self).wf(),
        ensures
            final(self).wf(),
            final(self).same_file(*old(self)),
            old(self).seeks(pos as int, r, final(self).state()),
    {
        let target: i64 = if pos < 0 {
            0
        } else if pos > self.file_length {
            self.file_length
        } else {
            pos
        };
        let user_pos: i64 = self.pos();
        if target == user_pos {
            return SeekStep::Done(target);
        }
        buffer_clear(&mut self.carry_over);
        let distance: i64 = if target < self.pos {
            self.pos - target
        } else {
            target - self.pos
        };
        let same_block: bool = self.block_index_for_pos(target) == self.block_index_for_pos(
            self.pos,
        );
        if distance < TRANSFER_POSITIONED_READ_THRESHOLD && same_block {
            if self.block_in_stream {
                if target > self.pos {
                    return SeekStep::Skip { target, count: target - self.pos };
                }
                self.block_in_stream = false;
                self.block_in_stream_block_id = NO_BLOCK;
            }
        } else {
            self.block_in_stream = false;
            self.block_in_stream_block_id = NO_BLOCK;
            if distance >= TRANSFER_POSITIONED_READ_THRESHOLD {
                self.positioned = true;
            }
        }
        self.pos = target;
        SeekStep::Done(target)
    }

    /// Moves to where `from` says, counted from where the caller is where it is relative.
    pub fn seek_from(&mut self, from: SeekFrom) -> (r: SeekStep)
        requires
            old(self).wf(),
        ensures
            final(self).wf(),
            final(self).same_file(*old(self)),
            old(self).seeks(
                seek_target(from, old(self).file_length as int, old(self).state().user_pos()),
                r,
                final(self).state(),
            ),
    {
        let wanted: i128 = match from {
            SeekFrom::Start(n) => n as i128,
            SeekFrom::End(n) => self.file_length as i128 + n as i128,
            SeekFrom::Current(n) => self.pos() as i128 + n as i128,
        };
        let target: i64 = if wanted < 0 {
            0
        } else if wanted > self.file_length as i128 {
            self.file_length
        } else {
            wanted as i64
        };
        self.seek(target)
    }

    /// Takes a chunk of which the first `skip` bytes are to be skipped, and holds back the
    /// rest. The result is how many bytes are still to be skipped. Where the block has no
    /// more chunks, none are.
    pub fn skip_bytes(&mut self, skip: i64, chunk: Option<Bytes>) -> (r: i64)
        requires
            old(self).wf(),
            skip > 0,
            old(self).state().carry.len() == 0,
        ensures
            final(self).same_file(*old(self)),
            match chunk {
                Some(data) => {
                    &&& r == left_to_skip(skip as int, bytes_content(data))
                    &&& final(self).state() == (StreamState {
                        carry: kept_of(skip as int, bytes_content(data)),
                        ..old(self).state()
                    })
                },
                None => r == 0 && *final(self) == *old(self),
            },
            r > 0 ==> final(self).wf(),
    {
        match chunk {
            Some(data) => {
                let got: usize = bytes_len(&data);
                if got as u64 > skip as u64 {
                    let rest: &[u8] = slice_subrange(bytes_as_slice(&data), skip as usize, got);
                    self.carry_over = buffer_from(rest);
                    assert(self.state().carry =~= kept_of(skip as int, bytes_content(data)));
                    0
                } else {
                    assert(self.state().carry =~= kept_of(skip as int, bytes_content(data)));
                    skip - got as i64
                }
            },
            None => 0,
        }
    }

    /// Ends a move that skipped bytes.
    pub fn skip_done(&mut self, target: i64) -> (r: i64)
        requires
            old(self).fits(),
            0 <= target,
            target + old(self).state().carry.len() <= i64::MAX,
            old(self).block_in_stream,
            !old(self).positioned,
        ensures
            r == target,
            final(self).wf(),
            final(self).same_file(*old(self)),
            final(self).state() == skipped_to(old(self).state(), target as int),
            final(self).state().user_pos() == target,
    {
        self.pos = target + buffer_len(&self.carry_over) as i64;
        target
    }
}

/// A move by nothing from where the caller is changes nothing, whatever is held back.
pub proof fn law_seek_to_here_changes_nothing(s: GoosefsFileInStream, step: SeekStep, t: StreamState)
    requires
        s.wf(),
        s.state().user_pos() <= s.file_length,
        s.seeks(
            seek_target(SeekFrom::Current(0), s.file_length as int, s.state().user_pos()),
            step,
            t,
        ),
    ensures
        t == s.state(),
        step == SeekStep::Done(s.state().user_pos() as i64),
{
}

/// A move ends at its target, brought into the file, or skips forward to it.
pub proof fn law_seek_target_is_clamped(
    s: GoosefsFileInStream,
    p: int,
    step: SeekStep,
    t: StreamState,
)
    requires
        s.wf(),
        s.seeks(p, step, t),
    ensures
        match step {
            SeekStep::Done(at) => at == clamped(p, s.file_length as int) && t.user_pos() == at,
            SeekStep::Skip { target, count } => target == clamped(p, s.file_length as int) && t.pos
                + count == target && 0 < count < TRANSFER_POSITIONED_READ_THRESHOLD
                && t.carry.len() == 0,
        },
{
}

/// A move counted from the start goes there; one counted from the end of the file, or from
/// where the caller is, goes as far from there as it says.
pub proof fn law_where_moves_are_counted_from(
    start: u64,
    n: i64,
    length: int,
    user_pos: int,
)
    ensures
        seek_target(SeekFrom::Start(start), length, user_pos) == start,
        seek_target(SeekFrom::End(n), length, user_pos) - n == length,
        seek_target(SeekFrom::Current(n), length, user_pos) - n == user_pos,
{
}

} // verus!
