//! Reading a range of a file block by block.

use crate::block::mapper::{
    block_size_of, held, joined, law_segments_give_the_range, law_segments_stay_in_range,
    length_of, lemma_total_bounded, plan_of, plan_start, total_length, BlockMapper, BlockReadPlan,
    DEFAULT_BLOCK_SIZE,
};
use crate::block::router::endpoint;
use crate::cache::{fill_mode, fill_mode_of, page_cache_eligible, FillMode};
use crate::config::client::GoosefsConfig;
use crate::error::Error;
use crate::fs::uri_status::{
    id_of, number_or_zero, replicas, replicas_of, text_or_empty,
};
use crate::io::buffers::{
    buffer_content, buffer_extend, buffer_freeze, buffer_unsplit, buffer_with_capacity,
    bytes_as_slice, bytes_content, bytes_len,
};
use crate::io::failover::{says_no_address, worker_addr, NO_ADDRESS};
use crate::io::open_dedup::FileVersion;
use crate::proto::{BlockLocation, FileInfo, OpenUfsBlockOptions, WorkerInfo};
use crate::text::{decimal, signed_decimal, signed_decimal_string};
use bytes::{Bytes, BytesMut};
use std::sync::Arc;
use vstd::prelude::*;
use vstd::string::*;

verus! {

/// The message where no worker can serve a read.
pub const NO_WORKERS: &'static str = "no workers available for reading";

/// Fails where there is no worker.
pub fn require_workers(workers: usize) -> (r: Result<(), Error>)
    ensures
        r is Ok <==> workers > 0,
        r matches Err(e) ==> (e matches Error::NoWorkerAvailable { message } && message@
            == NO_WORKERS@),
{
    if workers == 0 {
        Err(Error::NoWorkerAvailable { message: NO_WORKERS.to_owned() })
    } else {
        Ok(())
    }
}

/// The identifier of the block of `p`: what the block list of the file says, and what the
/// plan says where that is nothing valid.
pub open spec fn resolved(info: FileInfo, p: BlockReadPlan) -> i64 {
    if p.block_index < info.file_block_infos@.len() {
        match id_of(info.file_block_infos@[p.block_index as int]) {
            Some(id) => if id > 0 {
                id
            } else {
                p.block_id
            },
            None => p.block_id,
        }
    } else {
        p.block_id
    }
}

/// The first segment from `from` on whose block is known; the number of segments where
/// there is none.
pub open spec fn next_valid(info: FileInfo, plans: Seq<BlockReadPlan>, from: int) -> int
    decreases plans.len() - from,
{
    if from < 0 || from >= plans.len() {
        plans.len() as int
    } else if resolved(info, plans[from]) > 0 {
        from
    } else {
        next_valid(info, plans, from + 1)
    }
}

/// The segments whose blocks are known, with the blocks.
pub open spec fn with_blocks(info: FileInfo, plans: Seq<BlockReadPlan>) -> Seq<
    (i64, BlockReadPlan),
>
    decreases plans.len(),
{
    if plans.len() == 0 {
        Seq::empty()
    } else {
        let head = with_blocks(info, plans.drop_last());
        let p = plans.last();
        if resolved(info, p) > 0 {
            head.push((resolved(info, p), p))
        } else {
            head
        }
    }
}

/// The size of block `index`: that of every block, but for the last one, which ends with
/// the file.
pub open spec fn logical_size(bs: int, length: int, index: int) -> int {
    if bs <= 0 {
        if length > 0 {
            length
        } else {
            0
        }
    } else if length - index * bs < 0 {
        0
    } else if length - index * bs > bs {
        bs
    } else {
        length - index * bs
    }
}

/// The size of block `index`.
pub fn block_size_at(bs: i64, length: i64, index: u64) -> (r: i64)
    ensures
        r == logical_size(bs as int, length as int, index as int),
{
    if bs <= 0 {
        if length > 0 {
            length
        } else {
            0
        }
    } else {
        proof {
            assert(0 <= (index as int) * (bs as int) <= 0xffff_ffff_ffff_ffff
                * 0x7fff_ffff_ffff_ffff) by (nonlinear_arith)
                requires
                    0 <= index <= 0xffff_ffff_ffff_ffff,
                    0 <= bs <= 0x7fff_ffff_ffff_ffff,
            ;
        }
        let start: i128 = (index as i128) * (bs as i128);
        if start > length as i128 {
            0
        } else if length as i128 - start > bs as i128 {
            bs
        } else {
            (length as i128 - start) as i64
        }
    }
}

/// Whether `o` tells a worker how to read blocks of the file from the underlying storage.
/// There is nothing to tell where the file has no path there.
pub open spec fn is_ufs_template(info: FileInfo, o: Option<OpenUfsBlockOptions>) -> bool {
    if text_or_empty(info.ufs_path).len() == 0 {
        o is None
    } else {
        o matches Some(t) && reads_ufs_block(info, t, 0)
    }
}

/// Whether `t` tells a worker how to read the block at `offset` of the file from the
/// underlying storage.
pub open spec fn reads_ufs_block(info: FileInfo, t: OpenUfsBlockOptions, offset: int) -> bool {
    &&& t.ufs_path is Some
    &&& text_or_empty(t.ufs_path) == text_or_empty(info.ufs_path)
    &&& t.offset_in_file matches Some(o)
    &&& o == offset
    &&& t.block_size matches Some(bs)
    &&& bs == block_size_of(info)
    &&& t.max_ufs_read_concurrency is None
    &&& t.mount_id == info.mount_id
    &&& t.no_cache == Some(info.cacheable == Some(false))
    &&& t.user is None
    &&& t.caller_type is None
}

fn block_size_or_default(info: &FileInfo) -> (r: i64)
    ensures
        r == block_size_of(*info),
{
    match info.block_size_bytes {
        Some(n) => n,
        None => DEFAULT_BLOCK_SIZE,
    }
}

fn ufs_template(info: &FileInfo) -> (r: Option<OpenUfsBlockOptions>)
    ensures
        is_ufs_template(*info, r),
{
    match &info.ufs_path {
        None => None,
        Some(p) => if p.as_str().is_empty() {
            None
        } else {
            Some(
                OpenUfsBlockOptions {
                    ufs_path: Some(p.as_str().to_owned()),
                    offset_in_file: Some(0),
                    block_size: Some(block_size_or_default(info)),
                    max_ufs_read_concurrency: None,
                    mount_id: info.mount_id,
                    no_cache: Some(
                        match info.cacheable {
                            Some(b) => !b,
                            None => false,
                        },
                    ),
                    user: None,
                    caller_type: None,
                },
            )
        },
    }
}

/// Where the bytes of a segment come from.
#[derive(Clone, Copy, Debug, PartialEq, Eq, Structural)]
pub enum SegmentSource {
    /// The page cache, which gets missing pages from workers.
    Cache(FillMode),
    /// Workers.
    Workers,
}

/// Reads a range of a file block by block.
pub struct GoosefsFileReader {
    /// The configuration.
    pub config: GoosefsConfig,
    /// The path.
    pub path: String,
    /// The status of the file.
    pub file_info: Arc<FileInfo>,
    /// The parts of the blocks that the range needs.
    pub plans: Vec<BlockReadPlan>,
    /// The next part to be read.
    pub current_plan_index: usize,
    /// How many bytes were read so far.
    pub total_bytes_read: u64,
    /// Where the range starts.
    pub offset: u64,
    /// How many bytes the range has.
    pub length: u64,
    /// Whether the page cache is used.
    pub cache: bool,
    /// The name of the file in the page cache.
    pub cache_file_id: String,
    /// Page size of the page cache.
    pub cache_page_size: u64,
    /// Whether missing pages are put into the page cache.
    pub cache_fill: bool,
    /// Whether that is done in the background.
    pub cache_async_write: bool,
    /// Whether blocks of a local worker can be read from its memory map.
    pub short_circuit: bool,
    /// How workers read blocks from the underlying storage.
    pub ufs_read_options: Option<OpenUfsBlockOptions>,
}

impl GoosefsFileReader {
    /// The status of the file.
    pub open spec fn info(self) -> FileInfo {
        *self.file_info
    }

    /// Whether the plan is that of the range.
    pub open spec fn wf(self) -> bool {
        &&& self.plans@ == plan_of(self.info(), self.offset as int, self.length as int)
        &&& self.current_plan_index <= self.plans@.len()
        &&& is_ufs_template(self.info(), self.ufs_read_options)
    }

    /// A reader of `length` bytes from `offset` on that uses neither the page cache nor
    /// local memory maps.
    pub fn build(
        config: GoosefsConfig,
        path: &str,
        file_info: Arc<FileInfo>,
        offset: u64,
        length: u64,
    ) -> (r: Result<Self, Error>)
        ensures
            r matches Ok(reader) && {
                &&& reader.wf()
                &&& reader.config == config
                &&& reader.path@ == path@
                &&& reader.file_info == file_info
                &&& reader.current_plan_index == 0
                &&& reader.total_bytes_read == 0
                &&& reader.offset == offset
                &&& reader.length == length
                &&& !reader.cache
                &&& reader.cache_file_id@.len() == 0
                &&& reader.cache_page_size == config.client_cache_page_size
                &&& !reader.cache_fill
                &&& !reader.cache_async_write
                &&& !reader.short_circuit
            },
    {
        let plans: Vec<BlockReadPlan> = BlockMapper::plan_read(&file_info, offset, length);
        let ufs_read_options: Option<OpenUfsBlockOptions> = ufs_template(&file_info);
        let cache_page_size: u64 = config.client_cache_page_size;
        Ok(
            GoosefsFileReader {
                config,
                path: path.to_owned(),
                file_info,
                plans,
                current_plan_index: 0,
                total_bytes_read: 0,
                offset,
                length,
                cache: false,
                cache_file_id: String::new(),
                cache_page_size,
                cache_fill: false,
                cache_async_write: false,
                short_circuit: false,
                ufs_read_options,
            },
        )
    }

    /// Whether the file can be cached, and under which version it is.
    pub fn file_version(&self) -> (r: Option<FileVersion>)
        ensures
            number_or_zero(self.file_info.file_id) > 0 ==> r == Some(
                (
                    number_or_zero(self.file_info.file_id),
                    number_or_zero(self.file_info.length),
                    number_or_zero(self.file_info.last_modification_time_ms),
                ),
            ),
            number_or_zero(self.file_info.file_id) <= 0 ==> r is None,
    {
        let file_id: i64 = match self.file_info.file_id {
            Some(n) => n,
            None => 0,
        };
        if !page_cache_eligible(file_id) {
            return None;
        }
        let length: i64 = match self.file_info.length {
            Some(n) => n,
            None => 0,
        };
        let mtime: i64 = match self.file_info.last_modification_time_ms {
            Some(n) => n,
            None => 0,
        };
        Some((file_id, length, mtime))
    }

    /// Uses what the process shares: local memory maps where `short_circuit` says that
    /// there are any, and the page cache where `cache` does. A file without an identifier
    /// is not cached.
    pub fn attach_cache(&mut self, short_circuit: bool, cache: bool)
        ensures
            number_or_zero(old(self).file_info.file_id) <= 0 ==> *final(self) == (
            GoosefsFileReader { short_circuit, cache: false, cache_fill: false, ..*old(self) }),
            number_or_zero(old(self).file_info.file_id) > 0 ==> {
                &&& final(self).cache_file_id@ == signed_decimal(
                    number_or_zero(old(self).file_info.file_id) as int,
                )
                &&& *final(self) == (GoosefsFileReader {
                    short_circuit,
                    cache,
                    cache_fill: cache,
                    cache_async_write: old(self).config.client_cache_async_write_enabled,
                    cache_page_size: old(self).config.client_cache_page_size,
                    cache_file_id: final(self).cache_file_id,
                    ..*old(self)
                })
            },
    {
        self.short_circuit = short_circuit;
        match self.file_version() {
            None => {
                self.cache = false;
                self.cache_fill = false;
            },
            Some(version) => {
                self.cache_fill = cache;
                self.cache_async_write = self.config.client_cache_async_write_enabled;
                self.cache_page_size = self.config.client_cache_page_size;
                self.cache_file_id = signed_decimal_string(version.0);
                self.cache = cache;
            },
        }
    }

    /// The identifier of the block of `plan`.
    pub fn resolve_block_id(&self, plan: &BlockReadPlan) -> (r: i64)
        ensures
            r == resolved(self.info(), *plan),
    {
        if plan.block_index < self.file_info.file_block_infos.len() as u64 {
            if let Some(bi) = &self.file_info.file_block_infos[plan.block_index as usize].block_info {
                if let Some(id) = bi.block_id {
                    if id > 0 {
                        return id;
                    }
                }
            }
        }
        plan.block_id
    }

    /// Goes to the next segment whose block is known, and gives the file range that it
    /// covers; none where no such segment is left.
    pub fn read_next_block(&mut self) -> (r: Option<(i64, i64)>)
        requires
            old(self).wf(),
        ensures
            final(self).wf(),
            *final(self) == (GoosefsFileReader {
                current_plan_index: final(self).current_plan_index,
                ..*old(self)
            }),
            final(self).current_plan_index == next_valid(
                old(self).info(),
                old(self).plans@,
                old(self).current_plan_index as int,
            ),
            match r {
                None => final(self).current_plan_index == old(self).plans@.len(),
                Some((start, end)) => {
                    let p = old(self).plans@[final(self).current_plan_index as int];
                    &&& final(self).current_plan_index < old(self).plans@.len()
                    &&& start == plan_start(block_size_of(old(self).info()), p)
                    &&& end == start + p.length
                },
            },
    {
        let ghost target = next_valid(
            self.info(),
            self.plans@,
            self.current_plan_index as int,
        );
        loop
            invariant
                self.wf(),
                *self == (GoosefsFileReader {
                    current_plan_index: self.current_plan_index,
                    ..*old(self)
                }),
                target == next_valid(self.info(), self.plans@, self.current_plan_index as int),
                target == next_valid(
                    old(self).info(),
                    old(self).plans@,
                    old(self).current_plan_index as int,
                ),
            decreases self.plans@.len() - self.current_plan_index,
        {
            if self.current_plan_index >= self.plans.len() {
                return None;
            }
            let plan: BlockReadPlan = self.plans[self.current_plan_index];
            let block_id: i64 = self.resolve_block_id(&plan);
            if block_id <= 0 {
                self.current_plan_index = self.current_plan_index + 1;
            } else {
                let bs: u64 = block_size_or_default(&self.file_info) as u64;
                proof {
                    law_segments_stay_in_range(
                        self.info(),
                        self.offset as int,
                        self.length as int,
                        self.current_plan_index as int,
                    );
                }
                let start: i64 = (plan.block_index * bs + plan.offset_in_block) as i64;
                return Some((start, start + plan.length as i64));
            }
        }
    }

    /// Where the bytes of a segment come from.
    pub fn segment_source(&self) -> (r: SegmentSource)
        ensures
            r == (if self.cache {
                SegmentSource::Cache(fill_mode_of(self.cache_fill, self.cache_async_write))
            } else {
                SegmentSource::Workers
            }),
    {
        if self.cache {
            SegmentSource::Cache(fill_mode(self.cache_fill, self.cache_async_write))
        } else {
            SegmentSource::Workers
        }
    }

    /// Notes that the segment was read and had `bytes_read` bytes.
    pub fn segment_read(&mut self, bytes_read: u64)
        requires
            old(self).wf(),
            old(self).current_plan_index < old(self).plans@.len(),
            old(self).total_bytes_read + bytes_read <= u64::MAX,
        ensures
            final(self).wf(),
            *final(self) == (GoosefsFileReader {
                current_plan_index: (old(self).current_plan_index + 1) as usize,
                total_bytes_read: (old(self).total_bytes_read + bytes_read) as u64,
                ..*old(self)
            }),
    {
        assert(self.plans.len() == self.plans@.len());
        self.total_bytes_read = self.total_bytes_read + bytes_read;
        self.current_plan_index = self.current_plan_index + 1;
    }

    /// Starts to read the file from `abs_offset` up to `abs_end`. The reader itself does
    /// not move.
    pub fn read_file_range(&self, abs_offset: i64, abs_end: i64) -> (r: RangeRead)
        requires
            abs_end - abs_offset <= isize::MAX,
        ensures
            r.wf(),
            r.next == 0,
            r.content() == Seq::<u8>::empty(),
            r.segments@ == (if abs_end <= abs_offset || abs_offset < 0 {
                Seq::empty()
            } else {
                with_blocks(
                    self.info(),
                    plan_of(self.info(), abs_offset as int, abs_end - abs_offset),
                )
            }),
    {
        if abs_end <= abs_offset || abs_offset < 0 {
            let segments: Vec<(i64, BlockReadPlan)> = Vec::new();
            assert(segments@ =~= Seq::empty());
            return RangeRead { segments, next: 0, buf: buffer_with_capacity(0) };
        }
        let plans: Vec<BlockReadPlan> = BlockMapper::plan_read(
            &self.file_info,
            abs_offset as u64,
            (abs_end - abs_offset) as u64,
        );
        let buf: BytesMut = buffer_with_capacity((abs_end - abs_offset) as usize);
        let mut segments: Vec<(i64, BlockReadPlan)> = Vec::new();
        let mut i: usize = 0;
        while i < plans.len()
            invariant
                i <= plans@.len(),
                segments@ == with_blocks(self.info(), plans@.subrange(0, i as int)),
            decreases plans@.len() - i,
        {
            let plan: BlockReadPlan = plans[i];
            let block_id: i64 = self.resolve_block_id(&plan);
            proof {
                let head = plans@.subrange(0, i + 1);
                assert(head.drop_last() =~= plans@.subrange(0, i as int));
                assert(head.last() == plan);
            }
            if block_id > 0 {
                segments.push((block_id, plan));
            }
            i += 1;
        }
        assert(plans@.subrange(0, i as int) =~= plans@);
        RangeRead { segments, next: 0, buf }
    }

    /// The size of block `block_index`.
    pub fn block_logical_size(&self, block_index: u64) -> (r: i64)
        ensures
            r == logical_size(
                block_size_of(self.info()),
                number_or_zero(self.file_info.length) as int,
                block_index as int,
            ),
    {
        let length: i64 = match self.file_info.length {
            Some(n) => n,
            None => 0,
        };
        block_size_at(block_size_or_default(&self.file_info), length, block_index)
    }

    /// The endpoint of a worker.
    pub fn worker_addr(worker_info: &WorkerInfo) -> (r: Result<String, Error>)
        ensures
            match worker_info.address {
                Some(a) => r matches Ok(s) && s@ == endpoint(a),
                None => r matches Err(e) && says_no_address(e, NO_ADDRESS@),
            },
    {
        worker_addr(worker_info)
    }

    /// The replicas of a block; none where the Master does not know any.
    pub fn block_locations(&self, block_id: i64) -> (r: Option<&Vec<BlockLocation>>)
        ensures
            match r {
                Some(v) => v@ == replicas(self.file_info.file_block_infos@, block_id),
                None => replicas(self.file_info.file_block_infos@, block_id).len() == 0,
            },
    {
        replicas_of(&self.file_info.file_block_infos, block_id)
    }

    /// How a worker reads the block of `plan` from the underlying storage; none where the
    /// file has no path there.
    pub fn build_ufs_read_options(&self, plan: &BlockReadPlan) -> (r: Option<
        OpenUfsBlockOptions,
    >)
        requires
            self.wf(),
            plan.block_index <= i64::MAX,
            i64::MIN <= plan.block_index * block_size_of(self.info()) <= i64::MAX,
        ensures
            match r {
                None => text_or_empty(self.file_info.ufs_path).len() == 0,
                Some(t) => text_or_empty(self.file_info.ufs_path).len() > 0 && reads_ufs_block(
                    self.info(),
                    t,
                    plan.block_index * block_size_of(self.info()),
                ),
            },
    {
        match &self.ufs_read_options {
            None => None,
            Some(t) => {
                let block_size: i64 = match t.block_size {
                    Some(n) => n,
                    None => DEFAULT_BLOCK_SIZE,
                };
                let ufs_path: Option<String> = match &t.ufs_path {
                    Some(p) => Some(p.as_str().to_owned()),
                    None => None,
                };
                Some(
                    OpenUfsBlockOptions {
                        ufs_path,
                        offset_in_file: Some(plan.block_index as i64 * block_size),
                        block_size: t.block_size,
                        max_ufs_read_concurrency: None,
                        mount_id: t.mount_id,
                        no_cache: t.no_cache,
                        user: None,
                        caller_type: None,
                    },
                )
            },
        }
    }

    /// How many bytes the segments have together.
    pub fn expected_length(&self) -> (r: u64)
        requires
            self.wf(),
        ensures
            r == total_length(self.plans@),
    {
        let mut sum: u64 = 0;
        let mut i: usize = 0;
        while i < self.plans.len()
            invariant
                self.wf(),
                i <= self.plans@.len(),
                sum == total_length(self.plans@.subrange(0, i as int)),
            decreases self.plans@.len() - i,
        {
            proof {
                let head = self.plans@.subrange(0, i + 1);
                assert(head.drop_last() =~= self.plans@.subrange(0, i as int));
                assert(head.last() == self.plans@[i as int]);
                lemma_total_bounded(
                    self.info(),
                    self.offset as int,
                    self.length as int,
                    i + 1,
                );
            }
            sum = sum + self.plans[i].length;
            i += 1;
        }
        assert(self.plans@.subrange(0, i as int) =~= self.plans@);
        sum
    }

    /// The path.
    pub fn path(&self) -> (r: &str)
        ensures
            r@ == self.path@,
    {
        self.path.as_str()
    }

    /// The status of the file.
    pub fn file_info(&self) -> (r: &FileInfo)
        ensures
            *r == self.info(),
    {
        &self.file_info
    }

    /// The length of the file.
    pub fn file_length(&self) -> (r: u64)
        ensures
            r == number_or_zero(self.file_info.length) as u64,
    {
        match self.file_info.length {
            Some(n) => #[verifier::truncate]
            (n as u64),
            None => 0,
        }
    }

    /// How many bytes were read so far.
    pub fn bytes_read(&self) -> (r: u64)
        ensures
            r == self.total_bytes_read,
    {
        self.total_bytes_read
    }

    /// How many segments the range has.
    pub fn block_count(&self) -> (r: usize)
        ensures
            r == self.plans@.len(),
    {
        self.plans.len()
    }

    /// The next segment to be read.
    pub fn current_block_index(&self) -> (r: usize)
        ensures
            r == self.current_plan_index,
    {
        self.current_plan_index
    }

    /// Whether no segment is left.
    pub fn is_complete(&self) -> (r: bool)
        ensures
            r == (self.current_plan_index >= self.plans@.len()),
    {
        self.current_plan_index >= self.plans.len()
    }

    /// Where the range starts.
    pub fn offset(&self) -> (r: u64)
        ensures
            r == self.offset,
    {
        self.offset
    }

    /// How many bytes the range has.
    pub fn length(&self) -> (r: u64)
        ensures
            r == self.length,
    {
        self.length
    }
}

/// The message where a block gave no bytes.
pub open spec fn no_bytes_message(block_id: i64) -> Seq<char> {
    "read_file_range: 0 bytes for block "@ + signed_decimal(block_id as int)
}

/// A read of a file range that is under way.
pub struct RangeRead {
    /// The segments, with their blocks.
    pub segments: Vec<(i64, BlockReadPlan)>,
    /// The segment that is being read.
    pub next: usize,
    /// The bytes of the segments before it.
    pub buf: BytesMut,
}

impl RangeRead {
    /// Whether the read is at one of its segments, or at the end, and nothing was taken
    /// from what it read.
    pub open spec fn wf(self) -> bool {
        self.next <= self.segments@.len() && buffer_unsplit(self.buf)
    }

    /// The bytes that were read.
    pub open spec fn content(self) -> Seq<u8> {
        buffer_content(self.buf)
    }

    /// The segment that is to be read; none where all were.
    pub fn pending(&self) -> (r: Option<(i64, BlockReadPlan)>)
        requires
            self.wf(),
        ensures
            r == (if self.next < self.segments@.len() {
                Some(self.segments@[self.next as int])
            } else {
                None
            }),
    {
        if self.next < self.segments.len() {
            Some(self.segments[self.next])
        } else {
            None
        }
    }

    /// Takes the bytes of the segment. A segment without bytes is an error.
    pub fn accept(&mut self, data: &Bytes) -> (r: Result<(), Error>)
        requires
            old(self).wf(),
            old(self).next < old(self).segments@.len(),
            2 * (old(self).content().len() + bytes_content(*data).len()) <= isize::MAX,
        ensures
            final(self).wf(),
            final(self).segments == old(self).segments,
            bytes_content(*data).len() == 0 ==> {
                &&& r matches Err(Error::Internal { message })
                &&& message@ == no_bytes_message(old(self).segments@[old(self).next as int].0)
                &&& *final(self) == *old(self)
            },
            bytes_content(*data).len() > 0 ==> {
                &&& r is Ok
                &&& final(self).next == old(self).next + 1
                &&& final(self).content() == old(self).content() + bytes_content(*data)
            },
    {
        if bytes_len(data) == 0 {
            let mut message: String = "read_file_range: 0 bytes for block ".to_owned();
            let id: String = signed_decimal_string(self.segments[self.next].0);
            message.append(&id);
            return Err(Error::Internal { message });
        }
        assert(self.segments.len() == self.segments@.len());
        buffer_extend(&mut self.buf, bytes_as_slice(data));
        self.next = self.next + 1;
        Ok(())
    }

    /// The bytes of the range.
    pub fn finish(self) -> (r: Bytes)
        requires
            self.next == self.segments@.len(),
        ensures
            bytes_content(r) == self.content(),
    {
        buffer_freeze(self.buf)
    }

    /// Whether what was read so far are the bytes of `file`.
    pub open spec fn faithful(self, file: Seq<u8>, bs: int) -> bool {
        self.content() == joined(file, bs, plans_of(self.segments@.subrange(0, self.next as int)))
    }
}

/// The segments without their blocks.
pub open spec fn plans_of(segments: Seq<(i64, BlockReadPlan)>) -> Seq<BlockReadPlan> {
    segments.map_values(|s: (i64, BlockReadPlan)| s.1)
}

/// Where every block gives the bytes of the file, so does the read, segment by segment.
pub proof fn law_range_read_stays_faithful(
    before: RangeRead,
    after: RangeRead,
    data: Seq<u8>,
    file: Seq<u8>,
    bs: int,
)
    requires
        before.wf(),
        before.next < before.segments@.len(),
        before.faithful(file, bs),
        after.segments == before.segments,
        after.next == before.next + 1,
        after.content() == before.content() + data,
        ({
            let p = before.segments@[before.next as int].1;
            data == file.subrange(plan_start(bs, p), plan_start(bs, p) + p.length)
        }),
    ensures
        after.faithful(file, bs),
{
    let head = plans_of(after.segments@.subrange(0, after.next as int));
    assert(head.drop_last() =~= plans_of(before.segments@.subrange(0, before.next as int)));
    assert(head.last() == before.segments@[before.next as int].1);
}

proof fn lemma_all_blocks_known(info: FileInfo, plans: Seq<BlockReadPlan>)
    requires
        forall|i: int| 0 <= i < plans.len() ==> resolved(info, #[trigger] plans[i]) > 0,
    ensures
        plans_of(with_blocks(info, plans)) == plans,
    decreases plans.len(),
{
    if plans.len() > 0 {
        let head = plans.drop_last();
        assert forall|i: int| 0 <= i < head.len() implies resolved(info, #[trigger] head[i])
            > 0 by {
            assert(head[i] == plans[i]);
        }
        lemma_all_blocks_known(info, head);
        assert(resolved(info, plans[plans.len() - 1]) > 0);
        assert(plans_of(with_blocks(info, plans)) =~= plans_of(with_blocks(info, head)).push(
            plans.last(),
        ));
    }
    assert(plans_of(with_blocks(info, plans)) =~= plans);
}

/// A read of a file range gives the bytes of the range, as far as the file goes, where every
/// block is known and gives the bytes of the file.
pub proof fn law_range_read_gives_the_range(
    info: FileInfo,
    read: RangeRead,
    file: Seq<u8>,
    offset: int,
    end: int,
)
    requires
        0 <= offset < end,
        file.len() == length_of(info),
        block_size_of(info) > 0,
        read.segments@ == with_blocks(info, plan_of(info, offset, end - offset)),
        read.next == read.segments@.len(),
        read.faithful(file, block_size_of(info)),
        forall|i: int|
            0 <= i < plan_of(info, offset, end - offset).len() ==> resolved(
                info,
                #[trigger] plan_of(info, offset, end - offset)[i],
            ) > 0,
    ensures
        read.content() == held(file, offset, end),
{
    let plans = plan_of(info, offset, end - offset);
    lemma_all_blocks_known(info, plans);
    assert(read.segments@.subrange(0, read.next as int) =~= read.segments@);
    law_segments_give_the_range(info, file, offset, end - offset);
}

/// Segments are read in order and none is read twice: going to the next one never goes
/// back, and skips only segments whose blocks are not known.
pub proof fn law_segments_in_order(info: FileInfo, plans: Seq<BlockReadPlan>, from: int)
    requires
        0 <= from <= plans.len(),
    ensures
        from <= next_valid(info, plans, from) <= plans.len(),
        forall|i: int|
            from <= i < next_valid(info, plans, from) ==> resolved(info, #[trigger] plans[i]) <= 0,
        next_valid(info, plans, from) < plans.len() ==> resolved(
            info,
            plans[next_valid(info, plans, from)],
        ) > 0,
    decreases plans.len() - from,
{
    if from < plans.len() && resolved(info, plans[from]) <= 0 {
        law_segments_in_order(info, plans, from + 1);
    }
}

proof fn lemma_paired(info: FileInfo, plans: Seq<BlockReadPlan>, k: int)
    requires
        0 <= k < with_blocks(info, plans).len(),
    ensures
        plans.contains(with_blocks(info, plans)[k].1),
        with_blocks(info, plans)[k].0 == resolved(info, with_blocks(info, plans)[k].1),
        with_blocks(info, plans)[k].0 > 0,
    decreases plans.len(),
{
    let head = with_blocks(info, plans.drop_last());
    if k < head.len() {
        lemma_paired(info, plans.drop_last(), k);
        let p = head[k].1;
        let j = choose|j: int| 0 <= j < plans.drop_last().len() && plans.drop_last()[j] == p;
        assert(plans[j] == p);
    } else {
        assert(plans[plans.len() - 1] == with_blocks(info, plans)[k].1);
    }
}

/// Each segment of a read is one that the read needs, and is paired with its own block: with
/// the identifier that the entry of the block list at its own place has, where that is valid,
/// and otherwise with the one that the list of identifiers has there. A segment without a
/// valid identifier is left out.
pub proof fn law_segments_are_paired_with_their_blocks(
    info: FileInfo,
    offset: int,
    length: int,
    k: int,
)
    requires
        0 <= k < with_blocks(info, plan_of(info, offset, length)).len(),
    ensures
        ({
            let (id, p) = with_blocks(info, plan_of(info, offset, length))[k];
            let listed = info.file_block_infos@;
            &&& plan_of(info, offset, length).contains(p)
            &&& id > 0
            &&& p.block_index < listed.len() ==> (listed[p.block_index as int].block_info matches Some(
                b,
            ) ==> (b.block_id matches Some(x) ==> x > 0 ==> id == x))
            &&& p.block_index >= listed.len() ==> id == p.block_id
            &&& p.block_index < listed.len() && listed[p.block_index as int].block_info is None
                ==> id == p.block_id
        }),
{
    lemma_paired(info, plan_of(info, offset, length), k);
}

/// Where all identifiers in the block list are valid and differ, segments of different blocks
/// are read from different blocks.
pub proof fn law_different_blocks_have_different_identifiers(
    info: FileInfo,
    p: BlockReadPlan,
    q: BlockReadPlan,
)
    requires
        p.block_index < info.file_block_infos@.len(),
        q.block_index < info.file_block_infos@.len(),
        p.block_index != q.block_index,
        forall|i: int|
            0 <= i < info.file_block_infos@.len() ==> ((
            #[trigger] info.file_block_infos@[i]).block_info matches Some(b) && (
            b.block_id matches Some(x) && x > 0)),
        forall|i: int, j: int|
            0 <= i < j < info.file_block_infos@.len() ==> (
            #[trigger] info.file_block_infos@[i]).block_info->0.block_id != (
            #[trigger] info.file_block_infos@[j]).block_info->0.block_id,
    ensures
        resolved(info, p) != resolved(info, q),
{
    let a = info.file_block_infos@[p.block_index as int];
    let b = info.file_block_infos@[q.block_index as int];
    assert(a.block_info is Some && b.block_info is Some);
}

/// Where every block is known, no segment is left out: the read has the segments that the
/// range needs, one by one and in their order.
pub proof fn law_no_known_segment_is_left_out(info: FileInfo, offset: int, length: int, i: int)
    requires
        0 <= i < plan_of(info, offset, length).len(),
        forall|j: int|
            0 <= j < plan_of(info, offset, length).len() ==> resolved(
                info,
                #[trigger] plan_of(info, offset, length)[j],
            ) > 0,
    ensures
        ({
            let segments = with_blocks(info, plan_of(info, offset, length));
            &&& segments.len() == plan_of(info, offset, length).len()
            &&& segments[i].1 == plan_of(info, offset, length)[i]
        }),
{
    let plans = plan_of(info, offset, length);
    lemma_all_blocks_known(info, plans);
    assert(plans_of(with_blocks(info, plans))[i] == with_blocks(info, plans)[i].1);
}

/// A worker is told to read from the path of the file in the underlying storage, at the offset
/// of the block, and to cache the block unless the file is not cacheable.
pub proof fn law_ufs_options_name_the_block(
    info: FileInfo,
    t: OpenUfsBlockOptions,
    path: String,
    offset: int,
)
    requires
        info.ufs_path == Some(path),
        reads_ufs_block(info, t, offset),
    ensures
        t.ufs_path matches Some(p) && p@ == path@,
        t.offset_in_file matches Some(o) && o == offset,
        info.block_size_bytes is Some ==> t.block_size == info.block_size_bytes,
        info.block_size_bytes is None ==> (t.block_size matches Some(n) && n == 64 * 1024 * 1024),
        t.mount_id == info.mount_id,
        t.no_cache == Some(info.cacheable == Some(false)),
{
}

/// The block of a segment is the one that the block list of the file has at the place of the
/// segment, where that has a valid identifier there, and the one that the segment names
/// where it has none.
pub proof fn law_block_of_a_segment(info: FileInfo, p: BlockReadPlan)
    ensures
        ({
            let listed = info.file_block_infos@;
            let known = p.block_index < listed.len() && listed[p.block_index as int].block_info
                is Some && listed[p.block_index as int].block_info->0.block_id is Some;
            let id = listed[p.block_index as int].block_info->0.block_id->0;
            &&& known && id > 0 ==> resolved(info, p) == id
            &&& known && id <= 0 ==> resolved(info, p) == p.block_id
            &&& !known ==> resolved(info, p) == p.block_id
        }),
{
}

/// A segment whose block is known is read, with that block; one whose block is not known is
/// not.
pub proof fn law_segments_with_known_blocks_are_read(
    info: FileInfo,
    plans: Seq<BlockReadPlan>,
    i: int,
)
    requires
        0 <= i < plans.len(),
    ensures
        resolved(info, plans[i]) > 0 ==> with_blocks(info, plans).contains(
            (resolved(info, plans[i]), plans[i]),
        ),
        with_blocks(info, plans).len() <= plans.len(),
        forall|k: int|
            0 <= k < with_blocks(info, plans).len() ==> (#[trigger] with_blocks(info, plans)[k]).0
                > 0,
    decreases plans.len(),
{
    let rest = plans.drop_last();
    let head = with_blocks(info, rest);
    let all = with_blocks(info, plans);
    if rest.len() > 0 {
        law_segments_with_known_blocks_are_read(
            info,
            rest,
            if i < rest.len() {
                i
            } else {
                0
            },
        );
    } else {
        assert(head =~= Seq::empty());
    }
    if resolved(info, plans[i]) > 0 {
        let pair = (resolved(info, plans[i]), plans[i]);
        if i < rest.len() {
            assert(rest[i] == plans[i]);
            let k = choose|k: int| 0 <= k < head.len() && head[k] == pair;
            assert(all[k] == pair);
        } else {
            assert(all[all.len() - 1] == pair);
        }
    }
}

/// A block that gave no bytes is named.
pub proof fn law_block_without_bytes_is_named(block_id: i64)
    requires
        block_id >= 0,
    ensures
        no_bytes_message(block_id) == "read_file_range: 0 bytes for block "@ + decimal(
            block_id as nat,
        ),
{
}

/// Workers are told how to read from the underlying storage exactly where the file has a path
/// there.
pub proof fn law_files_without_ufs_path(info: FileInfo, o: Option<OpenUfsBlockOptions>)
    requires
        is_ufs_template(info, o),
    ensures
        info.ufs_path is None ==> o is None,
        info.ufs_path matches Some(p) ==> (o is None <==> p@.len() == 0),
        o matches Some(t) ==> t.offset_in_file == Some(0i64),
{
}

} // verus!
