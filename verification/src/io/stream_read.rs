//! Sequential reads of a stream.

use crate::error::Error;
use crate::io::buffers::{
    buffer_as_slice, buffer_from, buffer_len, buffer_split_to, bytes_as_slice, bytes_content,
    bytes_len, copy_front, overwritten,
};
use crate::io::external_read::{
    law_parts_lie_in_their_block, nothing_read, nothing_read_message, part_at, BlockPart,
};
use crate::io::file_in_stream::{
    block_id_of, law_block_at_a_place, law_place_of_an_offset, left_in_block, lemma_block_bounds,
    no_block_message, within_block, GoosefsFileInStream, NO_BLOCK,
};
use crate::io::file_reader::logical_size;
use crate::io::short_circuit::{
    out_of_range, out_of_range_message, ShortCircuitError, SEQUENTIAL_OUT_OF_RANGE,
};
use crate::io::stream_seek::SeekStep;
use crate::io::stream_state::{
    after, block_index, clamped, delivered, far, lesser, Delivery,
};
use crate::text::decimal;
use bytes::{Bytes, BytesMut};
use vstd::prelude::*;
use vstd::slice::*;

verus! {

/// A block of the file.
#[derive(Clone, Copy, Debug, PartialEq, Eq, Structural)]
pub struct BlockAt {
    /// Its place in the file.
    pub index: u64,
    /// Its identifier.
    pub id: i64,
    /// Its size.
    pub size: i64,
}

/// How a read goes on.
#[derive(Debug)]
pub enum ReadStep {
    /// The caller has got this many bytes.
    Done(usize),
    /// Give the error to the caller.
    Fail(Error),
    /// Read from `offset` up to `end` through the page cache.
    ThroughCache {
        /// Where to start.
        offset: i64,
        /// Where to stop.
        end: i64,
    },
    /// Ask whether the block is to be read locally.
    AskLocal(BlockAt),
    /// Open the block locally, or find it open.
    OpenLocal(BlockAt),
    /// Read from the block that is open locally.
    ReadLocal {
        /// The block.
        block: BlockAt,
        /// Where to start in it.
        offset: i64,
        /// How many bytes to read.
        len: i64,
    },
    /// Stream the block.
    OpenStream {
        /// The block.
        block: BlockAt,
        /// Where to start in it.
        offset: i64,
        /// How many bytes to stream.
        len: i64,
    },
    /// Ask a worker for a part of a block by itself.
    ReadPart(BlockPart),
    /// Take the next chunk of the block that is being streamed.
    PullChunk,
}

impl GoosefsFileInStream {
    /// Whether `block` is the block at the position of the stream.
    pub open spec fn is_current(self, block: BlockAt) -> bool {
        let idx = block_index(self.bs(), self.pos as int);
        &&& block.index == idx
        &&& block_id_of(self.status, idx) == Some(block.id)
        &&& block.id > 0
        &&& block.size == logical_size(self.bs(), self.file_length as int, idx)
    }

    /// Whether `step` goes on with a worker, for a caller with room for `want` bytes: after a
    /// move that went far, with what the caller has room for, and otherwise with streaming
    /// `block`, from the position on where it is not being streamed yet.
    pub open spec fn streams(self, block: BlockAt, want: nat, step: ReadStep) -> bool {
        if self.positioned {
            &&& step matches ReadStep::ReadPart(part)
            &&& part_at(
                self,
                self.pos as int,
                lesser(self.pos + want, self.file_length as int),
                part,
            )
        } else if self.block_in_stream_block_id != block.id {
            step == (ReadStep::OpenStream {
                block,
                offset: within_block(self.bs(), self.pos as int) as i64,
                len: left_in_block(
                    self.bs(),
                    self.file_length as int,
                    self.pos as int,
                ) as i64,
            })
        } else {
            step is PullChunk
        }
    }

    /// Whether `step` is how a read of a caller with room for `want` bytes starts, where
    /// nothing is held back and the end of the file is not reached.
    pub open spec fn starts(self, want: nat, step: ReadStep) -> bool {
        let idx = block_index(self.bs(), self.pos as int);
        if self.cache && self.cache_sequential_read {
            step == (ReadStep::ThroughCache {
                offset: self.pos,
                end: lesser(self.pos + want, self.file_length as int) as i64,
            })
        } else {
            match block_id_of(self.status, idx) {
                None => step matches ReadStep::Fail(Error::Internal { message }) && message@
                    == no_block_message(idx),
                Some(id) => {
                    let block = BlockAt {
                        index: idx as u64,
                        id,
                        size: logical_size(self.bs(), self.file_length as int, idx) as i64,
                    };
                    &&& self.is_current(block)
                    &&& if self.short_circuit && self.sc_seq_block == id {
                        step == ReadStep::OpenLocal(block)
                    } else if self.short_circuit && self.block_in_stream_block_id != id {
                        step == ReadStep::AskLocal(block)
                    } else {
                        self.streams(block, want, step)
                    }
                },
            }
        }
    }

    /// How far a read of a caller with room for `want` bytes goes.
    fn read_end(&self, want: usize) -> (r: i64)
        requires
            self.wf(),
            self.pos <= self.file_length,
        ensures
            r == lesser(self.pos + want, self.file_length as int),
    {
        let left: i64 = self.file_length - self.pos;
        if (want as u64) < left as u64 {
            self.pos + want as i64
        } else {
            self.file_length
        }
    }

    fn stream_block(&self, block: BlockAt, want: usize) -> (r: ReadStep)
        requires
            self.wf(),
            self.pos <= self.file_length,
            self.is_current(block),
        ensures
            self.streams(block, want as nat, r),
    {
        if self.positioned {
            match self.part_needed(self.pos, self.read_end(want)) {
                Ok(part) => ReadStep::ReadPart(part),
                Err(e) => ReadStep::Fail(e),
            }
        } else if self.block_in_stream_block_id != block.id {
            let offset: i64 = self.offset_in_block(self.pos);
            let len: i64 = self.remaining_in_block(self.pos);
            ReadStep::OpenStream { block, offset, len }
        } else {
            ReadStep::PullChunk
        }
    }

    /// Starts a read into `buf`. What is held back comes first; then come the page cache,
    /// a local memory map, and a worker.
    pub fn read(&mut self, buf: &mut [u8]) -> (r: ReadStep)
        requires
            old(self).wf(),
        ensures
            final(self).wf(),
            final(self).same_file(*old(self)),
            final(buf)@.len() == old(buf)@.len(),
            ({
                let s = old(self).state();
                let d = Delivery::Held { want: old(buf)@.len() };
                let out = delivered(s, d);
                if old(buf)@.len() == 0 || (s.carry.len() == 0 && s.pos >= old(self).file_length) {
                    r == ReadStep::Done(0) && *final(self) == *old(self) && final(buf)@ == old(
                        buf,
                    )@
                } else if s.carry.len() > 0 {
                    &&& r == ReadStep::Done(out.len() as usize)
                    &&& out.len() > 0
                    &&& final(self).state() == after(s, d)
                    &&& final(buf)@ == overwritten(old(buf)@, out)
                } else {
                    &&& *final(self) == *old(self)
                    &&& final(buf)@ == old(buf)@
                    &&& old(self).starts(old(buf)@.len(), r)
                }
            }),
    {
        let room: usize = buf.len();
        if room == 0 {
            return ReadStep::Done(0);
        }
        let held: usize = buffer_len(&self.carry_over);
        if held > 0 {
            let take: usize = if held < room {
                held
            } else {
                room
            };
            let ghost s = self.state();
            copy_front(buf, buffer_as_slice(&self.carry_over), take);
            let _taken: BytesMut = buffer_split_to(&mut self.carry_over, take);
            proof {
                assert(s.carry.subrange(0, take as int) == delivered(
                    s,
                    Delivery::Held { want: room as nat },
                ));
            }
            return ReadStep::Done(take);
        }
        if self.pos >= self.file_length {
            return ReadStep::Done(0);
        }
        if self.cache && self.cache_sequential_read {
            let end: i64 = self.read_end(room);
            return ReadStep::ThroughCache { offset: self.pos, end };
        }
        let index: u64 = self.block_index_for_pos(self.pos);
        let size: i64 = self.block_logical_size(index);
        match self.block_id_at(index) {
            Err(e) => ReadStep::Fail(e),
            Ok(id) => {
                let block: BlockAt = BlockAt { index, id, size };
                if self.short_circuit && self.sc_seq_block == id {
                    ReadStep::OpenLocal(block)
                } else if self.short_circuit && self.block_in_stream_block_id != id {
                    ReadStep::AskLocal(block)
                } else {
                    self.stream_block(block, room)
                }
            },
        }
    }

    /// Goes on after it was asked whether `block` is to be read locally. `want` is how many
    /// bytes the caller has room for.
    pub fn sc_should_use_seq(&self, block: BlockAt, approved: bool, want: usize) -> (r: ReadStep)
        requires
            self.wf(),
            self.pos <= self.file_length,
            self.is_current(block),
        ensures
            approved ==> r == ReadStep::OpenLocal(block),
            !approved ==> self.streams(block, want as nat, r),
    {
        if approved {
            ReadStep::OpenLocal(block)
        } else {
            self.stream_block(block, want)
        }
    }

    /// Goes on after `block` was opened locally, or could not be. `want` is how many bytes
    /// the caller has room for.
    pub fn sc_sequential_opened(&mut self, block: BlockAt, opened: bool, want: usize) -> (r: ReadStep)
        requires
            old(self).wf(),
            old(self).pos <= old(self).file_length,
            old(self).is_current(block),
        ensures
            final(self).wf(),
            ({
                let left = left_in_block(
                    old(self).bs(),
                    old(self).file_length as int,
                    old(self).pos as int,
                );
                let n = lesser(left, want as int);
                if !opened {
                    &&& *final(self) == (GoosefsFileInStream { sc_seq_block: NO_BLOCK, ..*old(self) })
                    &&& final(self).streams(block, want as nat, r)
                } else if n <= 0 {
                    &&& *final(self) == (GoosefsFileInStream { sc_seq_block: NO_BLOCK, ..*old(self) })
                    &&& r == ReadStep::Done(0)
                } else {
                    &&& *final(self) == *old(self)
                    &&& r == (ReadStep::ReadLocal {
                        block,
                        offset: within_block(old(self).bs(), old(self).pos as int) as i64,
                        len: n as i64,
                    })
                }
            }),
    {
        if !opened {
            self.sc_seq_block = NO_BLOCK;
            return self.stream_block(block, want);
        }
        let offset: i64 = self.offset_in_block(self.pos);
        let left: i64 = self.remaining_in_block(self.pos);
        proof {
            lemma_block_bounds(self.bs(), self.pos as int);
        }
        if left <= 0 || want == 0 {
            self.sc_seq_block = NO_BLOCK;
            return ReadStep::Done(0);
        }
        let len: i64 = if (want as u64) < left as u64 {
            want as i64
        } else {
            left
        };
        ReadStep::ReadLocal { block, offset, len }
    }

    /// Goes on after a local read of `len` bytes. The first of the results tells whether
    /// the block that is open locally is of no more use.
    pub fn sc_sequential_read(
        &mut self,
        buf: &mut [u8],
        block: BlockAt,
        len: usize,
        result: Result<Bytes, ShortCircuitError>,
    ) -> (r: (bool, ReadStep))
        requires
            old(self).wf(),
            old(self).is_current(block),
            old(self).state().carry.len() == 0,
            old(self).pos + len <= old(self).file_length,
            len <= old(buf)@.len(),
            result matches Ok(data) ==> bytes_content(data).len() == len,
        ensures
            final(self).wf(),
            final(self).same_file(*old(self)),
            match result {
                Ok(data) => {
                    let d = Delivery::Local { data: bytes_content(data), block: block.id as int };
                    &&& r == (false, ReadStep::Done(len))
                    &&& final(self).state() == after(old(self).state(), d)
                    &&& final(buf)@ == overwritten(old(buf)@, delivered(old(self).state(), d))
                },
                Err(ShortCircuitError::OutOfRange { off, len: n, file_size }) => {
                    &&& !r.0
                    &&& r.1 matches ReadStep::Fail(Error::InvalidArgument { message })
                    &&& message@ == out_of_range_message(
                        SEQUENTIAL_OUT_OF_RANGE@,
                        block.id,
                        off,
                        n,
                        file_size,
                    )
                    &&& *final(self) == *old(self)
                    &&& final(buf)@ == old(buf)@
                },
                Err(ShortCircuitError::Other) => {
                    &&& r.0
                    &&& *final(self) == (GoosefsFileInStream { sc_seq_block: NO_BLOCK, ..*old(self) })
                    &&& final(self).streams(block, old(buf)@.len(), r.1)
                    &&& final(buf)@ == old(buf)@
                },
            },
    {
        match result {
            Ok(data) => {
                copy_front(buf, bytes_as_slice(&data), len);
                assert(bytes_content(data).subrange(0, len as int) =~= bytes_content(data));
                self.block_in_stream = false;
                self.block_in_stream_block_id = NO_BLOCK;
                self.positioned = false;
                self.sc_seq_block = block.id;
                self.pos = self.pos + len as i64;
                (false, ReadStep::Done(len))
            },
            Err(ShortCircuitError::OutOfRange { off, len: n, file_size }) => (
                false,
                ReadStep::Fail(out_of_range(SEQUENTIAL_OUT_OF_RANGE, block.id, off, n, file_size)),
            ),
            Err(ShortCircuitError::Other) => {
                self.sc_seq_block = NO_BLOCK;
                (true, self.stream_block(block, buf.len()))
            },
        }
    }

    /// Gives the caller what the page cache gave.
    pub fn cached_bytes(&mut self, buf: &mut [u8], data: &Bytes) -> (r: usize)
        requires
            old(self).wf(),
            old(self).pos + bytes_content(*data).len() <= i64::MAX,
        ensures
            final(self).wf(),
            final(self).same_file(*old(self)),
            ({
                let d = Delivery::Direct { want: old(buf)@.len(), data: bytes_content(*data) };
                &&& r == delivered(old(self).state(), d).len()
                &&& final(self).state() == after(old(self).state(), d)
                &&& final(buf)@ == overwritten(old(buf)@, delivered(old(self).state(), d))
            }),
    {
        let got: usize = bytes_len(data);
        let n: usize = if got < buf.len() {
            got
        } else {
            buf.len()
        };
        copy_front(buf, bytes_as_slice(data), n);
        self.pos = self.pos + n as i64;
        self.positioned = false;
        n
    }

    /// Gives the caller what a part of a block gave that was asked for by itself. A part
    /// that gave nothing is an error.
    pub fn positioned_bytes(&mut self, buf: &mut [u8], part: &BlockPart, data: &Bytes) -> (r: Result<
        usize,
        Error,
    >)
        requires
            old(self).wf(),
            old(self).pos + bytes_content(*data).len() <= i64::MAX,
        ensures
            final(self).wf(),
            final(self).same_file(*old(self)),
            if bytes_content(*data).len() == 0 {
                &&& r matches Err(Error::Internal { message })
                &&& message@ == nothing_read_message(*part)
                &&& *final(self) == *old(self)
                &&& final(buf)@ == old(buf)@
            } else {
                let d = Delivery::Direct { want: old(buf)@.len(), data: bytes_content(*data) };
                &&& r matches Ok(n)
                &&& n == delivered(old(self).state(), d).len()
                &&& final(self).state() == after(old(self).state(), d)
                &&& final(buf)@ == overwritten(old(buf)@, delivered(old(self).state(), d))
            },
    {
        if bytes_len(data) == 0 {
            return Err(Error::Internal { message: nothing_read(part) });
        }
        Ok(self.cached_bytes(buf, data))
    }

    /// Notes that `block` is being streamed from the position on.
    pub fn stream_opened(&mut self, block: BlockAt) -> (r: ReadStep)
        requires
            old(self).wf(),
            block.id > 0,
        ensures
            r is PullChunk,
            final(self).wf(),
            *final(self) == (GoosefsFileInStream {
                block_in_stream: true,
                block_in_stream_block_id: block.id,
                positioned: false,
                ..*old(self)
            }),
    {
        self.block_in_stream = true;
        self.block_in_stream_block_id = block.id;
        self.positioned = false;
        ReadStep::PullChunk
    }

    /// Gives the caller what the worker sent, and holds back what the caller has no room
    /// for. `chunk` is none where the worker has no more of the block, and `last` tells
    /// whether the block ends with the chunk.
    pub fn read_from_sequential_stream(&mut self, buf: &mut [u8], chunk: Option<Bytes>, last: bool) -> (r: usize)
        requires
            old(self).wf(),
            old(self).state().carry.len() == 0,
            chunk matches Some(data) ==> old(self).pos + bytes_content(data).len()
                <= i64::MAX,
        ensures
            final(self).wf(),
            final(self).same_file(*old(self)),
            ({
                let d = match chunk {
                    Some(data) => Delivery::Chunk {
                        want: old(buf)@.len(),
                        data: bytes_content(data),
                        last,
                    },
                    None => Delivery::Exhausted,
                };
                &&& r == delivered(old(self).state(), d).len()
                &&& final(self).state() == after(old(self).state(), d)
                &&& final(buf)@ == overwritten(old(buf)@, delivered(old(self).state(), d))
            }),
    {
        match chunk {
            Some(data) => {
                let got: usize = bytes_len(&data);
                let n: usize = if got < buf.len() {
                    got
                } else {
                    buf.len()
                };
                let src: &[u8] = bytes_as_slice(&data);
                copy_front(buf, src, n);
                if got > n {
                    self.carry_over = buffer_from(slice_subrange(src, n, got));
                }
                proof {
                    assert(self.state().carry =~= bytes_content(data).subrange(
                        n as int,
                        got as int,
                    ));
                }
                self.pos = self.pos + got as i64;
                if last {
                    self.block_in_stream = false;
                    self.block_in_stream_block_id = NO_BLOCK;
                }
                n
            },
            None => {
                self.block_in_stream = false;
                self.block_in_stream_block_id = NO_BLOCK;
                assert(overwritten(buf@, Seq::<u8>::empty()) =~= buf@);
                0
            },
        }
    }
}

/// A block that is being streamed is not read locally instead, and a block that is being
/// read locally is not asked for again.
pub proof fn law_source_of_a_block_is_kept(s: GoosefsFileInStream, want: nat, step: ReadStep)
    requires
        s.starts(want, step),
    ensures
        step matches ReadStep::AskLocal(b) ==> s.block_in_stream_block_id != b.id
            && s.sc_seq_block != b.id,
        step is PullChunk ==> (block_id_of(s.status, block_index(s.bs(), s.pos as int)) matches Some(id)
            && s.block_in_stream_block_id == id),
{
}

/// The block that a read streams or asks for holds the position of the stream, and what is
/// asked of it lies in it.
pub proof fn law_reads_stay_in_their_block(
    s: GoosefsFileInStream,
    block: BlockAt,
    want: nat,
    step: ReadStep,
)
    requires
        s.wf(),
        s.bs() > 0,
        s.pos < s.file_length,
        want > 0,
        s.is_current(block),
        s.streams(block, want, step),
    ensures
        step matches ReadStep::ReadPart(p) ==> p.index == block.index && p.id == block.id && p.size
            == block.size && 0 <= p.offset && 0 < p.len <= want && block.index * s.bs() + p.offset
            == s.pos && p.offset + p.len <= block.size,
        step matches ReadStep::OpenStream { block: b, offset, len } ==> b == block && 0 <= offset
            && 0 < len && block.index * s.bs() + offset == s.pos && offset + len <= block.size,
{
    lemma_block_bounds(s.bs(), s.pos as int);
    let idx = block_index(s.bs(), s.pos as int);
    assert(logical_size(s.bs(), s.file_length as int, idx) == lesser(
        s.bs(),
        s.file_length - idx * s.bs(),
    ));
    if let ReadStep::ReadPart(p) = step {
        law_parts_lie_in_their_block(
            s,
            s.pos as int,
            lesser(s.pos + want, s.file_length as int),
            p,
        );
    }
}

/// After a move that goes far, the stream stands at the target without a block that is being
/// streamed, and the next read that goes to a worker asks for a part of a block by itself: as
/// many bytes from the target on as the caller has room for and the block has.
pub proof fn law_far_move_leads_to_positioned_read(
    s: GoosefsFileInStream,
    p: int,
    seek: SeekStep,
    moved: GoosefsFileInStream,
    want: nat,
    read: ReadStep,
)
    requires
        s.wf(),
        moved.same_file(s),
        s.seeks(p, seek, moved.state()),
        clamped(p, s.file_length as int) != s.state().user_pos(),
        far(s.pos as int, clamped(p, s.file_length as int)),
        moved.starts(want, read),
    ensures
        ({
            let target = clamped(p, s.file_length as int);
            let end = lesser(target + want, s.file_length as int);
            &&& moved.pos == target
            &&& !moved.block_in_stream
            &&& !(s.cache && s.cache_sequential_read) && !s.short_circuit && block_id_of(
                s.status,
                block_index(s.bs(), target),
            ) is Some ==> (read matches ReadStep::ReadPart(part) && part_at(
                moved,
                target,
                end,
                part,
            ))
            &&& forall|block: BlockAt, r: ReadStep| #[trigger]
                moved.streams(block, want, r) ==> (r matches ReadStep::ReadPart(part) && part_at(
                    moved,
                    target,
                    end,
                    part,
                ))
        }),
{
}

/// A move that does not go far, also one into another block, does not lead to a part of a
/// block by itself: the next read that goes to a worker streams.
pub proof fn law_short_move_keeps_streaming(
    s: GoosefsFileInStream,
    p: int,
    seek: SeekStep,
    moved: GoosefsFileInStream,
    want: nat,
)
    requires
        s.wf(),
        !s.positioned,
        moved.same_file(s),
        s.seeks(p, seek, moved.state()),
        !far(s.pos as int, clamped(p, s.file_length as int)),
    ensures
        forall|block: BlockAt, r: ReadStep| #[trigger]
            moved.streams(block, want, r) ==> r is OpenStream || r is PullChunk,
{
}

/// Once a part of a block was read by itself, reads stream again, from behind it.
pub proof fn law_reads_stream_after_a_positioned_read(
    s: GoosefsFileInStream,
    want: nat,
    data: Seq<u8>,
    next: GoosefsFileInStream,
    block: BlockAt,
    room: nat,
    step: ReadStep,
)
    requires
        s.wf(),
        s.positioned,
        next.same_file(s),
        next.state() == after(s.state(), Delivery::Direct { want, data }),
        next.is_current(block),
        next.streams(block, room, step),
    ensures
        step matches ReadStep::OpenStream { block: b, offset, .. } && b == block && offset
            == within_block(s.bs(), s.pos + lesser(data.len() as int, want as int)) as i64,
{
}

/// A read at a position asks for the block that the file lists at the place of the position,
/// whatever it is that it asks for: to stream it, to read it locally, or a part of it. It asks
/// for it from the position on. So reads at positions in different blocks ask for different
/// blocks, and no read fails where the block is listed.
pub proof fn law_read_asks_for_the_block_of_its_position(
    s: GoosefsFileInStream,
    want: nat,
    step: ReadStep,
)
    requires
        s.wf(),
        s.starts(want, step),
        !(s.cache && s.cache_sequential_read),
        s.bs() > 0,
        s.pos < s.file_length,
        s.pos as int / s.bs() < s.status.block_ids@.len(),
        s.status.block_ids@[s.pos as int / s.bs()] > 0,
    ensures
        ({
            let place = s.pos as int / s.bs();
            let id = s.status.block_ids@[place];
            match step {
                ReadStep::AskLocal(b) | ReadStep::OpenLocal(b) => b.index == place && b.id == id,
                ReadStep::OpenStream { block, offset, len } => {
                    &&& block.index == place
                    &&& block.id == id
                    &&& offset == s.pos as int % s.bs()
                    &&& len == lesser(s.bs() - offset, s.file_length - s.pos)
                },
                ReadStep::ReadPart(part) => {
                    &&& part.index == place
                    &&& part.id == id
                    &&& part.offset == s.pos as int % s.bs()
                    &&& part.len == lesser(
                        want as int,
                        lesser(s.bs() - part.offset, s.file_length - s.pos),
                    )
                },
                ReadStep::PullChunk => s.block_in_stream_block_id == id,
                _ => false,
            }
        }),
{
    let place = s.pos as int / s.bs();
    law_place_of_an_offset(s.bs(), s.file_length as int, s.pos as int);
    law_block_at_a_place(s.status, place, 0);
    lemma_block_bounds(s.bs(), s.pos as int);
}

/// Where sequential reads go through the page cache, a read asks it for the bytes from the
/// position on: as many as the caller has room for, as far as the file goes.
pub proof fn law_cached_read_asks_from_its_position(
    s: GoosefsFileInStream,
    want: nat,
    step: ReadStep,
)
    requires
        s.wf(),
        s.starts(want, step),
        s.cache && s.cache_sequential_read,
        s.pos < s.file_length,
    ensures
        step matches ReadStep::ThroughCache { offset, end } && offset == s.pos && (end == s.pos
            + want || end == s.file_length) && end <= s.pos + want && end <= s.file_length,
{
}

/// Where a read of a block goes: to the local memory map that it was read from last; to be
/// asked whether it can be read locally, where that is possible and it is not being streamed;
/// and otherwise to a worker, by itself after a far move, and else as a stream, which is
/// opened where it is not open yet.
pub proof fn law_where_a_read_goes(
    s: GoosefsFileInStream,
    want: nat,
    step: ReadStep,
    id: i64,
)
    requires
        s.starts(want, step),
        !(s.cache && s.cache_sequential_read),
        block_id_of(s.status, block_index(s.bs(), s.pos as int)) == Some(id),
    ensures
        step is OpenLocal <==> s.short_circuit && s.sc_seq_block == id,
        step is AskLocal <==> s.short_circuit && s.sc_seq_block != id
            && s.block_in_stream_block_id != id,
        !(step is OpenLocal) && !(step is AskLocal) ==> {
            &&& step is ReadPart <==> s.positioned
            &&& step is OpenStream <==> !s.positioned && s.block_in_stream_block_id != id
            &&& step is PullChunk <==> !s.positioned && s.block_in_stream_block_id == id
        },
{
}

/// A read fails where the block of its position is not known, and says which one it is.
pub proof fn law_read_of_an_unknown_block_fails(
    s: GoosefsFileInStream,
    want: nat,
    step: ReadStep,
)
    requires
        s.wf(),
        s.starts(want, step),
        !(s.cache && s.cache_sequential_read),
        s.bs() > 0,
        block_id_of(s.status, s.pos as int / s.bs()) is None,
    ensures
        step matches ReadStep::Fail(Error::Internal { message }) && message@
            == "no valid block_id at index "@ + decimal((s.pos as int / s.bs()) as nat),
{
}

} // verus!
