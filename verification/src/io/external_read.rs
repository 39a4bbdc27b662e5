//! Reads of a stream at a place of the caller's choice.

use crate::error::Error;
use crate::io::buffers::{
    buffer_content, buffer_extend, buffer_freeze, buffer_unsplit, buffer_with_capacity,
    bytes_as_slice, bytes_content, bytes_len,
};
use crate::io::file_in_stream::{
    block_end, block_id_of, law_block_at_a_place, law_place_of_an_offset, lemma_block_bounds,
    no_block_message, within_block, GoosefsFileInStream,
};
use crate::io::file_reader::logical_size;
use crate::io::stream_state::{block_index, lesser};
use crate::text::{decimal, signed_decimal, signed_decimal_string};
use bytes::{Bytes, BytesMut};
use vstd::prelude::*;
use vstd::string::*;

verus! {

/// How a read at a place of the caller's choice goes on.
#[derive(Clone, Copy, Debug, PartialEq, Eq, Structural)]
pub enum AtStep {
    /// There is nothing to read.
    Nothing,
    /// Read from `offset` up to `end` through the page cache.
    ThroughCache {
        /// Where to start.
        offset: i64,
        /// Where to stop.
        end: i64,
    },
    /// Read from `offset` up to `end` from workers.
    External {
        /// Where to start.
        offset: i64,
        /// Where to stop.
        end: i64,
    },
}

/// A part of a block that is to be read.
#[derive(Clone, Copy, Debug, PartialEq, Eq, Structural)]
pub struct BlockPart {
    /// The place of the block in the file.
    pub index: u64,
    /// The identifier of the block.
    pub id: i64,
    /// The size of the block.
    pub size: i64,
    /// Where to start in the block.
    pub offset: i64,
    /// How many bytes to read.
    pub len: i64,
}

/// Whether `part` is what a read up to `end` needs of the block at `cur`.
pub open spec fn part_at(s: GoosefsFileInStream, cur: int, end: int, part: BlockPart) -> bool {
    let idx = block_index(s.bs(), cur);
    &&& part.index == idx
    &&& block_id_of(s.status, idx) == Some(part.id)
    &&& part.size == logical_size(s.bs(), s.file_length as int, idx)
    &&& part.offset == within_block(s.bs(), cur)
    &&& part.len == lesser(end, block_end(s.bs(), cur)) - cur
}

/// What the message starts with where a worker sent nothing.
pub open spec fn nothing_read_message(part: BlockPart) -> Seq<char> {
    "read_at: positioned_read returned 0 bytes for block "@ + signed_decimal(part.id as int)
        + " offset_in_block "@ + signed_decimal(part.offset as int) + " length "@ + signed_decimal(
        part.len as int,
    )
}

pub(crate) fn nothing_read(part: &BlockPart) -> (r: String)
    ensures
        r@ == nothing_read_message(*part),
{
    let mut message: String = "read_at: positioned_read returned 0 bytes for block ".to_owned();
    let id: String = signed_decimal_string(part.id);
    message.append(&id);
    message.append(" offset_in_block ");
    let offset: String = signed_decimal_string(part.offset);
    message.append(&offset);
    message.append(" length ");
    let len: String = signed_decimal_string(part.len);
    message.append(&len);
    message
}

impl GoosefsFileInStream {
    /// Starts a read of `n` bytes from `offset` on. The stream does not move.
    pub fn read_at(&self, offset: i64, n: usize) -> (r: AtStep)
        requires
            0 <= offset,
        ensures
            ({
                let end = lesser(offset + n, self.file_length as int) as i64;
                r == (if offset >= self.file_length || n == 0 {
                    AtStep::Nothing
                } else if self.cache {
                    AtStep::ThroughCache { offset, end }
                } else {
                    AtStep::External { offset, end }
                })
            }),
    {
        if offset >= self.file_length || n == 0 {
            return AtStep::Nothing;
        }
        let left: i64 = self.file_length - offset;
        let end: i64 = if (n as u64) < left as u64 {
            offset + n as i64
        } else {
            self.file_length
        };
        if self.cache {
            AtStep::ThroughCache { offset, end }
        } else {
            AtStep::External { offset, end }
        }
    }

    /// Starts to read from `offset` up to `end` from workers.
    pub fn read_external_range(&self, offset: i64, end: i64) -> (r: ExternalRead)
        requires
            self.wf(),
            0 <= offset <= self.file_length,
            offset <= end <= self.file_length,
            end - offset <= isize::MAX,
        ensures
            r.offset == offset,
            r.end == end,
            r.cur == offset,
            r.single == (end <= block_end(self.bs(), offset as int)),
            r.whole is None,
            r.wf(),
            buffer_content(r.buf) == Seq::<u8>::empty(),
    {
        let index: u64 = self.block_index_for_pos(offset);
        proof {
            lemma_block_bounds(self.bs(), offset as int);
        }
        let first_end: i64 = self.block_start(index) + self.status.block_size_bytes;
        let single: bool = end <= first_end;
        let capacity: usize = if single {
            0
        } else {
            (end - offset) as usize
        };
        ExternalRead {
            offset,
            end,
            cur: offset,
            single,
            buf: buffer_with_capacity(capacity),
            whole: None,
        }
    }

    /// The part of a block that a read up to `end` needs at `cur`.
    pub fn part_needed(&self, cur: i64, end: i64) -> (r: Result<BlockPart, Error>)
        requires
            self.wf(),
            0 <= cur <= self.file_length,
            0 <= end <= self.file_length,
        ensures
            match r {
                Ok(part) => part_at(*self, cur as int, end as int, part),
                Err(e) => {
                    let idx = block_index(self.bs(), cur as int);
                    &&& block_id_of(self.status, idx) is None
                    &&& e matches Error::Internal { message }
                    &&& message@ == no_block_message(idx)
                },
            },
            r is Ok <==> block_id_of(self.status, block_index(self.bs(), cur as int)) is Some,
    {
        let index: u64 = self.block_index_for_pos(cur);
        proof {
            lemma_block_bounds(self.bs(), cur as int);
        }
        match self.block_id_at(index) {
            Err(e) => Err(e),
            Ok(id) => {
                let size: i64 = self.block_logical_size(index);
                let offset: i64 = self.offset_in_block(cur);
                let block_end: i64 = self.block_start(index) + self.status.block_size_bytes;
                let len: i64 = if end < block_end {
                    end - cur
                } else {
                    block_end - cur
                };
                Ok(BlockPart { index, id, size, offset, len })
            },
        }
    }
}

/// A read from workers that is under way.
pub struct ExternalRead {
    /// Where the range starts.
    pub offset: i64,
    /// Where the range ends.
    pub end: i64,
    /// Up to where it was read.
    pub cur: i64,
    /// Whether the range lies in one block.
    pub single: bool,
    /// What was read, where it took several deliveries or is not complete.
    pub buf: BytesMut,
    /// What was read, where one delivery gave the whole range.
    pub whole: Option<Bytes>,
}

impl ExternalRead {
    /// Whether what was read goes from the start of the range up to `cur`, and stands in
    /// one place.
    pub open spec fn wf(self) -> bool {
        &&& buffer_unsplit(self.buf)
        &&& self.content().len() == self.cur - self.offset
        &&& self.whole is Some ==> self.complete()
    }

    /// Whether nothing is left to be read.
    pub open spec fn complete(self) -> bool {
        self.cur >= self.end
    }

    /// What was read.
    pub open spec fn content(self) -> Seq<u8> {
        match self.whole {
            Some(data) => bytes_content(data),
            None => buffer_content(self.buf),
        }
    }

    /// Whether nothing is left to be read.
    pub fn is_complete(&self) -> (r: bool)
        ensures
            r == self.complete(),
    {
        self.cur >= self.end
    }

    /// Takes what a part of a block gave. The read goes on behind the bytes that it gave,
    /// and not behind those that were asked for, so that none is left out. A part that
    /// gave nothing is an error.
    pub fn accept(&mut self, part: &BlockPart, data: Bytes) -> (r: Result<(), Error>)
        requires
            old(self).wf(),
            !old(self).complete(),
            2 * (old(self).content().len() + bytes_content(data).len()) <= isize::MAX,
            old(self).cur + bytes_content(data).len() <= i64::MAX,
        ensures
            final(self).wf(),
            final(self).offset == old(self).offset,
            final(self).end == old(self).end,
            final(self).single == old(self).single,
            ({
                let n = bytes_content(data).len();
                if n == 0 {
                    &&& r matches Err(Error::Internal { message })
                    &&& message@ == nothing_read_message(*part) + if old(self).single {
                        Seq::empty()
                    } else {
                        " (cur="@ + signed_decimal(old(self).cur as int) + ", end="@
                            + signed_decimal(old(self).end as int) + seq![')']
                    }
                    &&& *final(self) == *old(self)
                } else {
                    &&& r is Ok
                    &&& final(self).cur == old(self).cur + n
                    &&& final(self).content() == old(self).content() + bytes_content(data)
                    &&& final(self).whole is Some <==> old(self).cur == old(self).offset
                        && old(self).offset + n >= old(self).end
                }
            }),
    {
        let got: usize = bytes_len(&data);
        if got == 0 {
            let mut message: String = nothing_read(part);
            if self.single {
                assert(message@ =~= nothing_read_message(*part) + Seq::<char>::empty());
                return Err(Error::Internal { message });
            }
            message.append(" (cur=");
            let cur: String = signed_decimal_string(self.cur);
            message.append(&cur);
            message.append(", end=");
            let end: String = signed_decimal_string(self.end);
            message.append(&end);
            message.push(')');
            assert(message@ =~= nothing_read_message(*part) + (" (cur="@ + signed_decimal(
                self.cur as int,
            ) + ", end="@ + signed_decimal(self.end as int) + seq![')']));
            return Err(Error::Internal { message });
        }
        let first: bool = self.cur == self.offset;
        self.cur = self.cur + got as i64;
        if first && self.cur >= self.end {
            assert(old(self).content() + bytes_content(data) =~= bytes_content(data));
            self.whole = Some(data);
        } else {
            buffer_extend(&mut self.buf, bytes_as_slice(&data));
        }
        Ok(())
    }

    /// The bytes of the range.
    pub fn finish(self) -> (r: Bytes)
        requires
            self.complete(),
        ensures
            bytes_content(r) == self.content(),
    {
        match self.whole {
            Some(data) => data,
            None => buffer_freeze(self.buf),
        }
    }

    /// Whether what was read are the bytes of `file` from the start of the range up to
    /// where it was read.
    pub open spec fn faithful(self, file: Seq<u8>) -> bool {
        &&& 0 <= self.offset <= self.cur <= file.len()
        &&& self.content() == file.subrange(self.offset as int, self.cur as int)
    }
}

/// Where every part gives bytes of the file, though perhaps fewer than were asked for, what
/// was read stays faithful to the file, and in the range.
pub proof fn law_short_reads_leave_nothing_out(
    before: ExternalRead,
    after: ExternalRead,
    data: Seq<u8>,
    file: Seq<u8>,
)
    requires
        before.faithful(file),
        before.cur + data.len() <= file.len(),
        data == file.subrange(before.cur as int, before.cur + data.len()),
        after.offset == before.offset,
        after.end == before.end,
        after.cur == before.cur + data.len(),
        after.content() == before.content() + data,
    ensures
        after.faithful(file),
        before.cur + data.len() <= before.end ==> after.cur <= after.end,
{
    assert(after.content() =~= file.subrange(after.offset as int, after.cur as int));
}

/// A complete read that was given no more than it asked for gives exactly the bytes of the
/// range, whether the range lies in one block or in several.
pub proof fn law_positioned_read_is_exact(read: ExternalRead, file: Seq<u8>)
    requires
        read.faithful(file),
        read.complete(),
        read.cur <= read.end,
    ensures
        read.content() == file.subrange(read.offset as int, read.end as int),
{
}

/// What is asked of a block lies in that block and in the range, and is not empty.
pub proof fn law_parts_lie_in_their_block(
    s: GoosefsFileInStream,
    cur: int,
    end: int,
    part: BlockPart,
)
    requires
        s.wf(),
        s.bs() > 0,
        0 <= cur < end <= s.file_length,
        part_at(s, cur, end, part),
    ensures
        0 <= part.offset,
        0 < part.len,
        part.index * s.bs() + part.offset == cur,
        part.offset + part.len <= part.size,
        cur + part.len <= end,
{
    lemma_block_bounds(s.bs(), cur);
}

/// What a read up to `end` needs at a place is a part of the block that the file lists there:
/// from the place on, up to the end of the block or of the read, whichever comes first.
pub proof fn law_parts_name_their_block(
    s: GoosefsFileInStream,
    cur: int,
    end: int,
    part: BlockPart,
)
    requires
        s.wf(),
        s.bs() > 0,
        0 <= cur < end <= s.file_length,
        part_at(s, cur, end, part),
        cur / s.bs() < s.status.block_ids@.len(),
        s.status.block_ids@[cur / s.bs()] > 0,
    ensures
        part.index == cur / s.bs(),
        part.id == s.status.block_ids@[cur / s.bs()],
        part.offset == cur % s.bs(),
        part.len == end - cur || part.offset + part.len == s.bs(),
        part.len <= end - cur && part.offset + part.len <= s.bs(),
{
    law_place_of_an_offset(s.bs(), s.file_length as int, cur);
    law_block_at_a_place(s.status, cur / s.bs(), 0);
    lemma_block_bounds(s.bs(), cur);
}

/// A read is at its end exactly where it has come to the end of its range.
pub proof fn law_when_a_read_is_complete(read: ExternalRead)
    requires
        read.wf(),
    ensures
        read.complete() <==> read.cur >= read.end,
        read.content().len() == read.cur - read.offset,
        read.complete() <==> read.content().len() >= read.end - read.offset,
        read.whole matches Some(data) ==> read.content() == bytes_content(data),
        read.whole is None ==> read.content() == buffer_content(read.buf),
{
}

/// A worker that sent nothing is reported with the block, the start and the length of the part
/// that was asked for.
pub proof fn law_nothing_read_is_named(part: BlockPart)
    requires
        part.id >= 0,
        part.offset >= 0,
        part.len >= 0,
    ensures
        nothing_read_message(part) == "read_at: positioned_read returned 0 bytes for block "@
            + decimal(part.id as nat) + " offset_in_block "@ + decimal(part.offset as nat)
            + " length "@ + decimal(part.len as nat),
{
}

} // verus!
