//! A seekable stream over a file.

use crate::cache::{fill_mode, fill_mode_of, page_cache_eligible, FillMode};
use crate::config::builders::fault;
use crate::config::client::GoosefsConfig;
use crate::error::Error;
use crate::fs::options::{InStreamOptions, OpenFileOptions, ReadType};
use crate::fs::uri_status::{id_of, replicas, replicas_of, URIStatus};
use crate::io::buffers::{buffer_content, buffer_len, buffer_new};
use crate::io::file_reader::{block_size_at, logical_size};
use crate::io::stream_state::{block_index, lesser, StreamState};
use crate::proto::{BlockLocation, FileBlockInfo, OpenUfsBlockOptions};
use crate::text::{decimal, decimal_string, signed_decimal, signed_decimal_string};
use bytes::BytesMut;
use vstd::arithmetic::div_mod::*;
use vstd::arithmetic::mul::*;
use vstd::prelude::*;
use vstd::string::*;

verus! {

/// What stands for no block.
pub const NO_BLOCK: i64 = -1;

/// Fails where the configuration is not valid.
pub fn require_valid(config: &GoosefsConfig) -> (r: Result<(), Error>)
    ensures
        match fault(*config) {
            None => r is Ok,
            Some(text) => r matches Err(Error::ConfigError { message }) && message@ == text,
        },
{
    match config.validate() {
        Ok(_) => Ok(()),
        Err(message) => Err(Error::ConfigError { message }),
    }
}

/// Fails where the path cannot be read: it is a directory, or a file that is still being
/// written.
pub fn require_readable(path: &str, status: &URIStatus) -> (r: Result<(), Error>)
    ensures
        status.folder ==> (r matches Err(Error::OpenDirectory { path: p }) && p@ == path@),
        !status.folder && !status.completed ==> (r matches Err(Error::FileIncomplete { message })
            && message@ == path@ + " is incomplete"@),
        !status.folder && status.completed ==> r is Ok,
{
    if status.is_folder() {
        return Err(Error::OpenDirectory { path: path.to_owned() });
    }
    if !status.is_completed() {
        let mut message: String = path.to_owned();
        message.append(" is incomplete");
        return Err(Error::FileIncomplete { message });
    }
    Ok(())
}

/// The first block of the list, from `from` on, that is known and starts at `start`; the
/// length of the list where there is none.
pub open spec fn starting_at(infos: Seq<FileBlockInfo>, start: int, from: int) -> int
    decreases infos.len() - from,
{
    if from < 0 || from >= infos.len() {
        infos.len() as int
    } else if id_of(infos[from]) is Some && infos[from].offset is Some && infos[from].offset->0
        == start {
        from
    } else {
        starting_at(infos, start, from + 1)
    }
}

/// The block at place `idx` of a file: what the list of identifiers says, and what the
/// list of blocks says where that is nothing valid. None where neither says anything valid.
pub open spec fn block_id_of(status: URIStatus, idx: int) -> Option<i64> {
    if 0 <= idx < status.block_ids@.len() && status.block_ids@[idx] > 0 {
        Some(status.block_ids@[idx])
    } else {
        let infos = status.file_block_infos@;
        let k = starting_at(infos, idx * status.block_size_bytes, 0);
        if 0 <= k < infos.len() && id_of(infos[k]) is Some && id_of(infos[k])->0 > 0 {
            id_of(infos[k])
        } else {
            None
        }
    }
}

/// The message where a block is not known.
pub open spec fn no_block_message(idx: int) -> Seq<char> {
    "no valid block_id at index "@ + decimal(idx as nat)
}

/// The offset in its block of a file offset.
pub open spec fn within_block(bs: int, offset: int) -> int {
    if bs <= 0 {
        offset
    } else {
        offset % bs
    }
}

/// Where the block of `offset` ends.
pub open spec fn block_end(bs: int, offset: int) -> int {
    block_index(bs, offset) * bs + bs
}

/// How many bytes the block of `offset` has from there on.
pub open spec fn left_in_block(bs: int, length: int, offset: int) -> int {
    lesser(block_end(bs, offset), length) - offset
}

/// Whether offsets of blocks can be computed for a file offset up to `offset`.
pub open spec fn blocks_fit(bs: int, offset: int) -> bool {
    &&& 0 <= offset
    &&& offset + bs <= i64::MAX
    &&& i64::MIN <= bs - offset
}

/// Where the block of an offset lies.
pub proof fn lemma_block_bounds(bs: int, offset: int)
    requires
        0 <= offset,
    ensures
        0 <= block_index(bs, offset) <= offset,
        bs > 0 ==> block_index(bs, offset) * bs <= offset < block_end(bs, offset) <= offset + bs,
        bs > 0 ==> within_block(bs, offset) == offset - block_index(bs, offset) * bs,
        bs <= 0 ==> block_end(bs, offset) == bs,
{
    if bs > 0 {
        lemma_fundamental_div_mod(offset, bs);
        lemma_mod_bound(offset, bs);
        lemma_mul_is_commutative(bs, offset / bs);
        lemma_div_pos_is_pos(offset, bs);
        lemma_div_is_ordered_by_denominator(offset, 1, bs);
        lemma_div_basics(offset);
    }
}

/// A seekable stream over a file. It holds no connections: whoever runs it opens streams
/// of blocks, reads from them, and reports what they gave.
pub struct GoosefsFileInStream {
    /// The status of the file.
    pub status: URIStatus,
    /// The configuration.
    pub config: GoosefsConfig,
    /// How the stream reads.
    pub options: InStreamOptions,
    /// The file offset of the next byte that a worker delivers.
    pub pos: i64,
    /// The length of the file.
    pub file_length: i64,
    /// Bytes before that offset which the caller has not got yet.
    pub carry_over: BytesMut,
    /// Whether a block is being streamed.
    pub block_in_stream: bool,
    /// The block that is being streamed; -1 where none is.
    pub block_in_stream_block_id: i64,
    /// Whether the next read is to ask for a part of a block by itself, because a move went
    /// far.
    pub positioned: bool,
    /// Whether connections come from a pool.
    pub worker_pool: bool,
    /// Whether the page cache is used.
    pub cache: bool,
    /// Page size of the page cache.
    pub cache_page_size: u64,
    /// The name of the file in the page cache.
    pub cache_file_id: String,
    /// Whether missing pages are put into the page cache.
    pub cache_fill: bool,
    /// Whether that is done in the background.
    pub cache_async_write: bool,
    /// Whether sequential reads go through the page cache too.
    pub cache_sequential_read: bool,
    /// Whether blocks of a local worker can be read from its memory map.
    pub short_circuit: bool,
    /// The block that is being read from a local memory map; -1 where none is.
    pub sc_seq_block: i64,
}

impl GoosefsFileInStream {
    /// Where the stream is.
    pub open spec fn state(self) -> StreamState {
        StreamState {
            pos: self.pos as int,
            carry: buffer_content(self.carry_over),
            open: self.block_in_stream,
            open_block: self.block_in_stream_block_id as int,
            local_block: self.sc_seq_block as int,
            positioned: self.positioned,
        }
    }

    /// The block size.
    pub open spec fn bs(self) -> int {
        self.status.block_size_bytes as int
    }

    /// Whether all offsets of the file and of its blocks can be computed.
    pub open spec fn fits(self) -> bool {
        blocks_fit(self.bs(), self.file_length as int)
    }

    /// Whether the offsets of the stream make sense.
    pub open spec fn wf(self) -> bool {
        &&& self.fits()
        &&& 0 <= self.pos
        &&& buffer_content(self.carry_over).len() <= self.pos
        &&& !self.block_in_stream ==> self.block_in_stream_block_id == NO_BLOCK
        &&& self.positioned ==> !self.block_in_stream
    }

    /// Whether `self` and `other` read the same file in the same way.
    pub open spec fn same_file(self, other: Self) -> bool {
        self == (GoosefsFileInStream {
            pos: self.pos,
            carry_over: self.carry_over,
            block_in_stream: self.block_in_stream,
            block_in_stream_block_id: self.block_in_stream_block_id,
            positioned: self.positioned,
            sc_seq_block: self.sc_seq_block,
            ..other
        })
    }

    /// Whether `self` is at the start of the file.
    pub open spec fn at_start(self) -> bool {
        &&& self.state() == (StreamState {
            pos: 0,
            carry: Seq::empty(),
            open: false,
            open_block: -1,
            local_block: -1,
            positioned: false,
        })
        &&& self.file_length == self.status.length
        &&& self.fits() ==> self.wf()
    }

    /// Opens a file by itself: without a pool, a page cache or local memory maps.
    pub fn open(
        config: GoosefsConfig,
        path: &str,
        status: URIStatus,
        options: OpenFileOptions,
    ) -> (r: Result<Self, Error>)
        ensures
            status.folder ==> (r matches Err(Error::OpenDirectory { path: p }) && p@ == path@),
            !status.folder && !status.completed ==> (r matches Err(
                Error::FileIncomplete { message },
            ) && message@ == path@ + " is incomplete"@),
            !status.folder && status.completed ==> (r matches Ok(s) && {
                &&& s.at_start()
                &&& s.status == status
                &&& s.config == config
                &&& s.options == options.in_stream_options
                &&& !s.worker_pool
                &&& !s.cache
                &&& s.cache_page_size == config.client_cache_page_size
                &&& s.cache_file_id@.len() == 0
                &&& !s.cache_fill
                &&& !s.cache_async_write
                &&& !s.cache_sequential_read
                &&& !s.short_circuit
            }),
    {
        match require_readable(path, &status) {
            Err(e) => Err(e),
            Ok(_) => {
                let file_length: i64 = status.length;
                let cache_page_size: u64 = config.client_cache_page_size;
                Ok(
                    GoosefsFileInStream {
                        status,
                        config,
                        options: options.in_stream_options,
                        pos: 0,
                        file_length,
                        carry_over: buffer_new(),
                        block_in_stream: false,
                        block_in_stream_block_id: NO_BLOCK,
                        positioned: false,
                        worker_pool: false,
                        cache: false,
                        cache_page_size,
                        cache_file_id: String::new(),
                        cache_fill: false,
                        cache_async_write: false,
                        cache_sequential_read: false,
                        short_circuit: false,
                        sc_seq_block: NO_BLOCK,
                    },
                )
            },
        }
    }

    /// Opens a file with what the process shares: a pool, the page cache where `cache`
    /// says that there is one, and local memory maps where `short_circuit` says so. A
    /// file without an identifier is not cached, and a read that workers do not cache
    /// does not fill the page cache.
    pub fn open_with_context(
        config: GoosefsConfig,
        path: &str,
        status: URIStatus,
        options: OpenFileOptions,
        cache: bool,
        short_circuit: bool,
    ) -> (r: Result<Self, Error>)
        ensures
            status.folder ==> (r matches Err(Error::OpenDirectory { path: p }) && p@ == path@),
            !status.folder && !status.completed ==> (r matches Err(
                Error::FileIncomplete { message },
            ) && message@ == path@ + " is incomplete"@),
            !status.folder && status.completed ==> (r matches Ok(s) && {
                &&& s.at_start()
                &&& s.status == status
                &&& s.config == config
                &&& s.options == options.in_stream_options
                &&& s.worker_pool
                &&& s.cache == (cache && status.file_id > 0)
                &&& s.cache_page_size == config.client_cache_page_size
                &&& s.cache_file_id@ == signed_decimal(status.file_id as int)
                &&& s.cache_fill == (s.cache && !(options.in_stream_options.read_type is NoCache))
                &&& s.cache_async_write == config.client_cache_async_write_enabled
                &&& s.cache_sequential_read == config.client_cache_sequential_read_enabled
                &&& s.short_circuit == short_circuit
            }),
    {
        match require_readable(path, &status) {
            Err(e) => Err(e),
            Ok(_) => {
                let file_length: i64 = status.length;
                let used: bool = page_cache_eligible(status.file_id) && cache;
                let cache_file_id: String = signed_decimal_string(status.file_id);
                let fills: bool = match options.in_stream_options.read_type {
                    ReadType::NoCache => false,
                    ReadType::Cache => true,
                };
                let cache_page_size: u64 = config.client_cache_page_size;
                let cache_async_write: bool = config.client_cache_async_write_enabled;
                let cache_sequential_read: bool = config.client_cache_sequential_read_enabled;
                Ok(
                    GoosefsFileInStream {
                        status,
                        config,
                        options: options.in_stream_options,
                        pos: 0,
                        file_length,
                        carry_over: buffer_new(),
                        block_in_stream: false,
                        block_in_stream_block_id: NO_BLOCK,
                        positioned: false,
                        worker_pool: true,
                        cache: used,
                        cache_page_size,
                        cache_file_id,
                        cache_fill: used && fills,
                        cache_async_write,
                        cache_sequential_read,
                        short_circuit,
                        sc_seq_block: NO_BLOCK,
                    },
                )
            },
        }
    }

    /// The file offset of the next byte that the caller gets.
    pub fn pos(&self) -> (r: i64)
        requires
            self.wf(),
        ensures
            r == self.state().user_pos(),
    {
        self.pos - buffer_len(&self.carry_over) as i64
    }

    /// The length of the file.
    pub fn len(&self) -> (r: i64)
        ensures
            r == self.file_length,
    {
        self.file_length
    }

    /// Whether the file has no bytes.
    pub fn is_empty(&self) -> (r: bool)
        ensures
            r == (self.file_length == 0),
    {
        self.file_length == 0
    }

    /// Whether the caller has got all bytes.
    pub fn is_eof(&self) -> (r: bool)
        ensures
            r == (self.state().carry.len() == 0 && self.pos >= self.file_length),
    {
        buffer_len(&self.carry_over) == 0 && self.pos >= self.file_length
    }

    /// How many bytes the caller has not got yet.
    pub fn remaining(&self) -> (r: i64)
        requires
            self.wf(),
        ensures
            self.pos <= self.file_length ==> r == self.file_length - self.state().user_pos(),
            self.pos > self.file_length ==> r == self.state().carry.len(),
    {
        let raw: i64 = if self.file_length > self.pos {
            self.file_length - self.pos
        } else {
            0
        };
        raw + buffer_len(&self.carry_over) as i64
    }

    /// The block of a file offset.
    pub fn block_index_for_pos(&self, offset: i64) -> (r: u64)
        requires
            0 <= offset,
        ensures
            r == block_index(self.bs(), offset as int),
    {
        proof {
            lemma_block_bounds(self.bs(), offset as int);
        }
        if self.status.block_size_bytes <= 0 {
            0
        } else {
            (offset as u64) / (self.status.block_size_bytes as u64)
        }
    }

    /// Where block `idx` starts.
    pub fn block_start(&self, idx: u64) -> (r: i64)
        requires
            idx <= i64::MAX,
            i64::MIN <= idx * self.bs() <= i64::MAX,
        ensures
            r == idx * self.bs(),
    {
        idx as i64 * self.status.block_size_bytes
    }

    /// The offset in its block of a file offset.
    pub fn offset_in_block(&self, offset: i64) -> (r: i64)
        requires
            0 <= offset,
        ensures
            r == within_block(self.bs(), offset as int),
    {
        proof {
            lemma_block_bounds(self.bs(), offset as int);
        }
        if self.status.block_size_bytes <= 0 {
            offset
        } else {
            ((offset as u64) % (self.status.block_size_bytes as u64)) as i64
        }
    }

    /// How many bytes the block of `offset` has from there on.
    pub fn remaining_in_block(&self, offset: i64) -> (r: i64)
        requires
            self.wf(),
            blocks_fit(self.bs(), offset as int),
        ensures
            r == left_in_block(self.bs(), self.file_length as int, offset as int),
    {
        let idx: u64 = self.block_index_for_pos(offset);
        proof {
            lemma_block_bounds(self.bs(), offset as int);
        }
        let end: i64 = self.block_start(idx) + self.status.block_size_bytes;
        if end < self.file_length {
            end - offset
        } else {
            self.file_length - offset
        }
    }

    /// The size of block `block_idx`.
    pub fn block_logical_size(&self, block_idx: u64) -> (r: i64)
        ensures
            r == logical_size(self.bs(), self.file_length as int, block_idx as int),
    {
        block_size_at(self.status.block_size_bytes, self.file_length, block_idx)
    }

    /// The block at place `block_idx` of the file.
    pub fn block_id_at(&self, block_idx: u64) -> (r: Result<i64, Error>)
        ensures
            match block_id_of(self.status, block_idx as int) {
                Some(id) => r == Ok::<i64, Error>(id) && id > 0,
                None => r matches Err(Error::Internal { message }) && message@ == no_block_message(
                    block_idx as int,
                ),
            },
    {
        if block_idx < self.status.block_ids.len() as u64 {
            let id: i64 = self.status.block_ids[block_idx as usize];
            if id > 0 {
                return Ok(id);
            }
        }
        let infos: &Vec<FileBlockInfo> = &self.status.file_block_infos;
        proof {
            assert(-0x8000_0000_0000_0000_0000_0000_0000_0000 <= (block_idx as int) * (
            self.status.block_size_bytes as int) <= 0x7fff_ffff_ffff_ffff_ffff_ffff_ffff_ffff)
                by (nonlinear_arith)
                requires
                    0 <= block_idx <= 0xffff_ffff_ffff_ffff,
                    -0x8000_0000_0000_0000 <= self.status.block_size_bytes
                        <= 0x7fff_ffff_ffff_ffff,
            ;
        }
        let start: i128 = (block_idx as i128) * (self.status.block_size_bytes as i128);
        let ghost target = starting_at(infos@, start as int, 0);
        let mut i: usize = 0;
        let mut found: i64 = -1;
        while i < infos.len()
            invariant_except_break
                i <= infos@.len(),
                found == -1,
                target == starting_at(infos@, start as int, i as int),
            ensures
                found > 0 ==> 0 <= target < infos@.len() && id_of(infos@[target]) == Some(found),
                found <= 0 ==> !(0 <= target < infos@.len() && id_of(infos@[target]) is Some
                    && id_of(infos@[target])->0 > 0),
            decreases infos@.len() - i,
        {
            if let Some(bi) = &infos[i].block_info {
                if let Some(id) = bi.block_id {
                    if let Some(offset) = infos[i].offset {
                        if offset as i128 == start {
                            found = id;
                            break;
                        }
                    }
                }
            }
            i += 1;
        }
        if found > 0 {
            Ok(found)
        } else {
            let mut message: String = "no valid block_id at index ".to_owned();
            let digits: String = decimal_string(block_idx as u128);
            message.append(&digits);
            Err(Error::Internal { message })
        }
    }

    /// The replicas of a block; none where the Master does not know any.
    pub fn block_locations(&self, block_id: i64) -> (r: Option<&Vec<BlockLocation>>)
        ensures
            match r {
                Some(v) => v@ == replicas(self.status.file_block_infos@, block_id),
                None => replicas(self.status.file_block_infos@, block_id).len() == 0,
            },
    {
        replicas_of(&self.status.file_block_infos, block_id)
    }

    /// How a worker reads block `block_idx` from the underlying storage; none where the
    /// file has no path there.
    pub fn build_ufs_opts(&self, block_idx: u64) -> (r: Option<OpenUfsBlockOptions>)
        requires
            block_idx <= i64::MAX,
            i64::MIN <= block_idx * self.bs() <= i64::MAX,
        ensures
            self.status.ufs_path@.len() == 0 ==> r is None,
            self.status.ufs_path@.len() > 0 ==> (r matches Some(t) && {
                &&& t.ufs_path matches Some(p)
                &&& p@ == self.status.ufs_path@
                &&& t.offset_in_file matches Some(o)
                &&& o == block_idx * self.bs()
                &&& t.block_size == Some(self.status.block_size_bytes)
                &&& t.max_ufs_read_concurrency == Some(self.options.max_ufs_read_concurrency)
                &&& t.mount_id == Some(self.status.mount_id)
                &&& t.no_cache == Some(!self.status.cacheable)
                &&& t.user is None
                &&& t.caller_type is None
            }),
    {
        if self.status.ufs_path.as_str().is_empty() {
            return None;
        }
        Some(
            OpenUfsBlockOptions {
                ufs_path: Some(self.status.ufs_path.as_str().to_owned()),
                offset_in_file: Some(self.block_start(block_idx)),
                block_size: Some(self.status.block_size_bytes),
                max_ufs_read_concurrency: Some(self.options.max_ufs_read_concurrency),
                mount_id: Some(self.status.mount_id),
                no_cache: Some(!self.status.cacheable),
                user: None,
                caller_type: None,
            },
        )
    }

    /// How missing pages get into the page cache.
    pub fn cache_fill_mode(&self) -> (r: FillMode)
        ensures
            r == fill_mode_of(self.cache_fill, self.cache_async_write),
    {
        fill_mode(self.cache_fill, self.cache_async_write)
    }

    /// How many bytes are read at once when all are: as many as a chunk has, but no fewer
    /// than 8 KiB and no more than 64 KiB.
    pub fn scratch_capacity(&self) -> (r: usize)
        ensures
            r == (if self.config.chunk_size < 8192 {
                8192
            } else if self.config.chunk_size > 65536 {
                65536
            } else {
                self.config.chunk_size
            }),
    {
        if self.config.chunk_size < 8192 {
            8192
        } else if self.config.chunk_size > 65536 {
            65536
        } else {
            self.config.chunk_size as usize
        }
    }
}

/// The caller has got all bytes exactly where the position that the caller sees is the end
/// of the file.
pub proof fn law_end_of_file(s: GoosefsFileInStream)
    requires
        s.wf(),
        s.pos <= s.file_length,
    ensures
        0 <= s.state().user_pos() <= s.file_length,
        s.state().user_pos() == s.file_length <==> s.state().carry.len() == 0 && s.pos
            >= s.file_length,
{
}

/// Every block is full, but for the one in which the file ends; behind that one, blocks are
/// empty.
pub proof fn law_block_sizes(bs: int, length: int, idx: int)
    requires
        bs > 0,
        0 <= length,
        0 <= idx,
    ensures
        0 <= logical_size(bs, length, idx) <= bs,
        (idx + 1) * bs <= length ==> logical_size(bs, length, idx) == bs,
        idx * bs <= length < (idx + 1) * bs ==> logical_size(bs, length, idx) == length - idx * bs,
        length < idx * bs ==> logical_size(bs, length, idx) == 0,
{
    lemma_mul_is_distributive_add_other_way(bs, idx, 1);
}

/// The block at a place is the one that the list of identifiers has there, where that is a
/// valid one. Otherwise it is the one that the list of blocks has at the offset of that place;
/// where several are there, the first.
pub proof fn law_block_at_a_place(status: URIStatus, idx: int, k: int)
    requires
        0 <= idx,
    ensures
        idx < status.block_ids@.len() && status.block_ids@[idx] > 0 ==> block_id_of(status, idx)
            == Some(status.block_ids@[idx]),
        (idx >= status.block_ids@.len() || status.block_ids@[idx] <= 0) && 0 <= k
            < status.file_block_infos@.len() && (forall|j: int|
            0 <= j < k ==> (#[trigger] status.file_block_infos@[j]).offset != status.file_block_infos@[k].offset)
            && status.file_block_infos@[k].offset == Some((idx * status.block_size_bytes) as i64)
            && i64::MIN <= idx * status.block_size_bytes <= i64::MAX ==> (
        status.file_block_infos@[k].block_info matches Some(b) ==> (b.block_id matches Some(x) ==> x
            > 0 ==> block_id_of(status, idx) == Some(x))),
        (idx >= status.block_ids@.len() || status.block_ids@[idx] <= 0)
            && status.file_block_infos@.len() == 0 ==> block_id_of(status, idx) is None,
{
    let infos = status.file_block_infos@;
    let start = idx * status.block_size_bytes;
    if 0 <= k < infos.len() && infos[k].offset == Some(start as i64) && i64::MIN <= start
        <= i64::MAX && id_of(infos[k]) is Some && (forall|j: int|
        0 <= j < k ==> (#[trigger] infos[j]).offset != infos[k].offset) {
        lemma_starting_at(infos, start, 0, k);
    }
}

proof fn lemma_starting_at(infos: Seq<FileBlockInfo>, start: int, from: int, k: int)
    requires
        0 <= from <= k < infos.len(),
        id_of(infos[k]) is Some,
        infos[k].offset is Some && infos[k].offset->0 == start,
        forall|j: int| 0 <= j < k ==> (#[trigger] infos[j]).offset != infos[k].offset,
    ensures
        starting_at(infos, start, from) == k,
    decreases k - from,
{
    if from < k {
        assert(infos[from].offset != infos[k].offset);
        lemma_starting_at(infos, start, from + 1, k);
    }
}

/// An offset of a file lies in the block that its quotient by the block size numbers, at the
/// remainder; the block ends a block size behind its start.
pub proof fn law_place_of_an_offset(bs: int, length: int, offset: int)
    requires
        bs > 0,
        0 <= offset < length,
    ensures
        block_index(bs, offset) == offset / bs,
        within_block(bs, offset) == offset % bs,
        block_end(bs, offset) == (offset / bs) * bs + bs,
        left_in_block(bs, length, offset) == (if (offset / bs) * bs + bs < length {
            bs - offset % bs
        } else {
            length - offset
        }),
{
    lemma_block_bounds(bs, offset);
}

/// Where the list of identifiers has nothing valid for a place, the list of blocks counts: the
/// first block of it that is known and starts there is the one, where its identifier is valid,
/// and there is none where that is not, or where no known block starts there.
pub proof fn law_block_from_the_list_of_blocks(status: URIStatus, idx: int, k: int)
    requires
        0 <= idx,
        idx >= status.block_ids@.len() || status.block_ids@[idx] <= 0,
        0 <= k <= status.file_block_infos@.len(),
        forall|j: int|
            0 <= j < k ==> {
                let b = #[trigger] status.file_block_infos@[j];
                ||| b.offset is None
                ||| b.offset->0 != idx * status.block_size_bytes
                ||| b.block_info is None
                ||| b.block_info->0.block_id is None
            },
    ensures
        k == status.file_block_infos@.len() ==> block_id_of(status, idx) is None,
        k < status.file_block_infos@.len() ==> ({
            let b = status.file_block_infos@[k];
            b.offset is Some && b.offset->0 == idx * status.block_size_bytes && b.block_info is Some
                && b.block_info->0.block_id is Some ==> {
                let id = b.block_info->0.block_id->0;
                &&& id > 0 ==> block_id_of(status, idx) == Some(id)
                &&& id <= 0 ==> block_id_of(status, idx) is None
            }
        }),
{
    let infos = status.file_block_infos@;
    let start = idx * status.block_size_bytes;
    if k == infos.len() {
        lemma_passed_over(infos, start, 0, k);
    } else if infos[k].offset is Some && infos[k].offset->0 == start && id_of(infos[k]) is Some {
        lemma_passed_over(infos, start, 0, k);
    }
}

proof fn lemma_passed_over(infos: Seq<FileBlockInfo>, start: int, from: int, k: int)
    requires
        0 <= from <= k <= infos.len(),
        forall|j: int|
            0 <= j < k ==> {
                let b = #[trigger] infos[j];
                ||| b.offset is None
                ||| b.offset->0 != start
                ||| b.block_info is None
                ||| b.block_info->0.block_id is None
            },
    ensures
        starting_at(infos, start, from) == starting_at(infos, start, k),
    decreases k - from,
{
    if from < k {
        assert(id_of(infos[from]) is None || infos[from].offset is None || infos[from].offset->0
            != start);
        lemma_passed_over(infos, start, from + 1, k);
    }
}

/// A block that is not known is named by its place.
pub proof fn law_unknown_block_is_named(idx: nat)
    ensures
        no_block_message(idx as int) == "no valid block_id at index "@ + decimal(idx),
{
}

/// A file whose blocks have no size is one block.
pub proof fn law_file_without_block_size_is_one_block(bs: int, length: int, offset: int)
    requires
        bs <= 0,
        0 <= offset <= length,
    ensures
        block_index(bs, offset) == 0,
        within_block(bs, offset) == offset,
        logical_size(bs, length, 0) == length,
{
}

/// A stream that was opened is at the first byte of its file: nothing is held back, no block
/// is open, and the length is that of the file.
pub proof fn law_streams_open_at_the_first_byte(s: GoosefsFileInStream)
    requires
        s.at_start(),
    ensures
        s.pos == 0,
        buffer_content(s.carry_over).len() == 0,
        s.state().user_pos() == 0,
        !s.block_in_stream,
        s.block_in_stream_block_id == -1,
        s.sc_seq_block == -1,
        !s.positioned,
        s.file_length == s.status.length,
{
}

/// Moving and reading change where a stream is, and nothing else of it.
pub proof fn law_same_file_means_the_rest_is_the_same(
    a: GoosefsFileInStream,
    b: GoosefsFileInStream,
)
    requires
        a.same_file(b),
    ensures
        a.status == b.status,
        a.config == b.config,
        a.options == b.options,
        a.file_length == b.file_length,
        a.worker_pool == b.worker_pool,
        a.cache == b.cache,
        a.cache_page_size == b.cache_page_size,
        a.cache_file_id == b.cache_file_id,
        a.cache_fill == b.cache_fill,
        a.cache_async_write == b.cache_async_write,
        a.cache_sequential_read == b.cache_sequential_read,
        a.short_circuit == b.short_circuit,
{
}

/// Where a stream is, is what its fields say.
pub proof fn law_state_of_a_stream(s: GoosefsFileInStream)
    ensures
        s.state().pos == s.pos,
        s.state().carry == buffer_content(s.carry_over),
        s.state().user_pos() == s.pos - buffer_content(s.carry_over).len(),
        s.state().open == s.block_in_stream,
        s.state().open_block == s.block_in_stream_block_id,
        s.state().local_block == s.sc_seq_block,
        s.state().positioned == s.positioned,
        s.bs() == s.status.block_size_bytes,
{
}

} // verus!
