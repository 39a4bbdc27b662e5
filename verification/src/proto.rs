//! The wire messages that the client logic reads, as plain values.

use vstd::prelude::*;

verus! {

/// How the Master loads the metadata of a path from the underlying storage.
#[derive(Clone, Copy, Debug, PartialEq, Eq, Structural)]
pub enum LoadMetadataPType {
    /// Never load.
    Never,
    /// Load the first time that the path is seen.
    Once,
    /// Load on every access.
    Always,
}

impl LoadMetadataPType {
    /// The name on the wire.
    pub open spec fn name(self) -> Seq<char> {
        match self {
            LoadMetadataPType::Never => "NEVER"@,
            LoadMetadataPType::Once => "ONCE"@,
            LoadMetadataPType::Always => "ALWAYS"@,
        }
    }

    /// The name on the wire.
    pub fn as_str_name(&self) -> (r: &'static str)
        ensures
            r@ == self.name(),
    {
        match self {
            LoadMetadataPType::Never => "NEVER",
            LoadMetadataPType::Once => "ONCE",
            LoadMetadataPType::Always => "ALWAYS",
        }
    }
}

/// The write type as the wire format has it.
#[derive(Clone, Copy, Debug, PartialEq, Eq, Structural)]
pub enum WritePType {
    /// Not set.
    UnspecifiedWriteType,
    /// Cache only.
    MustCache,
    /// Cache if there is room.
    TryCache,
    /// Cache, and persist synchronously.
    CacheThrough,
    /// Persist only.
    Through,
    /// Cache, and persist later.
    AsyncThrough,
    /// No write.
    NoneType,
}

impl WritePType {
    /// The number that stands for the write type on the wire.
    pub open spec fn number(self) -> i32 {
        match self {
            WritePType::UnspecifiedWriteType => 0,
            WritePType::MustCache => 1,
            WritePType::TryCache => 2,
            WritePType::CacheThrough => 3,
            WritePType::Through => 4,
            WritePType::AsyncThrough => 5,
            WritePType::NoneType => 6,
        }
    }

    /// The name of the variant.
    pub open spec fn name(self) -> Seq<char> {
        match self {
            WritePType::UnspecifiedWriteType => "UnspecifiedWriteType"@,
            WritePType::MustCache => "MustCache"@,
            WritePType::TryCache => "TryCache"@,
            WritePType::CacheThrough => "CacheThrough"@,
            WritePType::Through => "Through"@,
            WritePType::AsyncThrough => "AsyncThrough"@,
            WritePType::NoneType => "None"@,
        }
    }

    /// The number that stands for the write type on the wire.
    pub fn as_i32(self) -> (r: i32)
        ensures
            r == self.number(),
    {
        match self {
            WritePType::UnspecifiedWriteType => 0,
            WritePType::MustCache => 1,
            WritePType::TryCache => 2,
            WritePType::CacheThrough => 3,
            WritePType::Through => 4,
            WritePType::AsyncThrough => 5,
            WritePType::NoneType => 6,
        }
    }

    /// The write type that `n` stands for on the wire.
    pub fn from_i32(n: i32) -> (r: Option<WritePType>)
        ensures
            match r {
                Some(t) => t.number() == n,
                None => forall|t: WritePType| #[trigger] t.number() != n,
            },
    {
        if n == 0 {
            Some(WritePType::UnspecifiedWriteType)
        } else if n == 1 {
            Some(WritePType::MustCache)
        } else if n == 2 {
            Some(WritePType::TryCache)
        } else if n == 3 {
            Some(WritePType::CacheThrough)
        } else if n == 4 {
            Some(WritePType::Through)
        } else if n == 5 {
            Some(WritePType::AsyncThrough)
        } else if n == 6 {
            Some(WritePType::NoneType)
        } else {
            None
        }
    }

    /// The name of the variant.
    pub fn variant_name(self) -> (r: &'static str)
        ensures
            r@ == self.name(),
    {
        match self {
            WritePType::UnspecifiedWriteType => "UnspecifiedWriteType",
            WritePType::MustCache => "MustCache",
            WritePType::TryCache => "TryCache",
            WritePType::CacheThrough => "CacheThrough",
            WritePType::Through => "Through",
            WritePType::AsyncThrough => "AsyncThrough",
            WritePType::NoneType => "None",
        }
    }
}

/// Where a worker can be reached.
#[derive(Clone, Debug)]
pub struct WorkerNetAddress {
    /// Host name or address.
    pub host: Option<String>,
    /// Port of the RPC service.
    pub rpc_port: Option<i32>,
}

impl Default for WorkerNetAddress {
    fn default() -> (r: Self)
        ensures
            r.host is None,
            r.rpc_port is None,
    {
        WorkerNetAddress { host: None, rpc_port: None }
    }
}

/// A worker as the worker manager reports it.
#[derive(Clone, Debug)]
pub struct WorkerInfo {
    /// Identifier of the worker.
    pub id: Option<i64>,
    /// Where the worker can be reached.
    pub address: Option<WorkerNetAddress>,
}

impl Default for WorkerInfo {
    fn default() -> (r: Self)
        ensures
            r.id is None,
            r.address is None,
    {
        WorkerInfo { id: None, address: None }
    }
}

/// One replica of a block.
#[derive(Clone, Debug)]
pub struct BlockLocation {
    /// The worker that holds the replica.
    pub worker_id: Option<i64>,
    /// Where that worker can be reached.
    pub worker_address: Option<WorkerNetAddress>,
}

/// A block and its replicas.
#[derive(Clone, Debug)]
pub struct BlockInfo {
    /// Identifier of the block.
    pub block_id: Option<i64>,
    /// Length of the block in bytes.
    pub length: Option<i64>,
    /// The replicas.
    pub locations: Vec<BlockLocation>,
}

impl Default for BlockInfo {
    fn default() -> (r: Self)
        ensures
            r.block_id is None,
            r.length is None,
            r.locations@.len() == 0,
    {
        BlockInfo { block_id: None, length: None, locations: Vec::new() }
    }
}

/// A block at its place in a file.
#[derive(Clone, Debug)]
pub struct FileBlockInfo {
    /// The block.
    pub block_info: Option<BlockInfo>,
    /// Byte offset of the block in the file.
    pub offset: Option<i64>,
}

impl Default for FileBlockInfo {
    fn default() -> (r: Self)
        ensures
            r.block_info is None,
            r.offset is None,
    {
        FileBlockInfo { block_info: None, offset: None }
    }
}

/// The status of a path as the Master reports it.
#[derive(Clone, Debug)]
pub struct FileInfo {
    /// Identifier of the inode.
    pub file_id: Option<i64>,
    /// The path.
    pub path: Option<String>,
    /// Path in the underlying storage.
    pub ufs_path: Option<String>,
    /// Length in bytes.
    pub length: Option<i64>,
    /// Size of the blocks in bytes.
    pub block_size_bytes: Option<i64>,
    /// Whether the writer has closed the file.
    pub completed: Option<bool>,
    /// Whether the path is a directory.
    pub folder: Option<bool>,
    /// Whether workers may cache the data.
    pub cacheable: Option<bool>,
    /// The blocks in the order of the file.
    pub block_ids: Vec<i64>,
    /// Time of the last change, in milliseconds.
    pub last_modification_time_ms: Option<i64>,
    /// Identifier of the mount point.
    pub mount_id: Option<i64>,
    /// The blocks with their replicas.
    pub file_block_infos: Vec<FileBlockInfo>,
}

impl Default for FileInfo {
    fn default() -> (r: Self)
        ensures
            r.file_id is None,
            r.path is None,
            r.ufs_path is None,
            r.length is None,
            r.block_size_bytes is None,
            r.completed is None,
            r.folder is None,
            r.cacheable is None,
            r.block_ids@.len() == 0,
            r.last_modification_time_ms is None,
            r.mount_id is None,
            r.file_block_infos@.len() == 0,
    {
        FileInfo {
            file_id: None,
            path: None,
            ufs_path: None,
            length: None,
            block_size_bytes: None,
            completed: None,
            folder: None,
            cacheable: None,
            block_ids: Vec::new(),
            last_modification_time_ms: None,
            mount_id: None,
            file_block_infos: Vec::new(),
        }
    }
}

/// How a worker reads a block from the underlying storage.
#[derive(Clone, Debug)]
pub struct OpenUfsBlockOptions {
    /// Path in the underlying storage.
    pub ufs_path: Option<String>,
    /// Byte offset of the block in the file.
    pub offset_in_file: Option<i64>,
    /// Size of the blocks in bytes.
    pub block_size: Option<i64>,
    /// How many reads the worker may run at once.
    pub max_ufs_read_concurrency: Option<i32>,
    /// Identifier of the mount point.
    pub mount_id: Option<i64>,
    /// Whether the worker must not cache the block.
    pub no_cache: Option<bool>,
    /// The user on whose behalf the block is read.
    pub user: Option<String>,
    /// The kind of caller.
    pub caller_type: Option<i32>,
}

/// The numbers of the write types on the wire.
pub proof fn law_write_types_on_the_wire(t: WritePType)
    ensures
        t is UnspecifiedWriteType <==> t.number() == 0,
        t is MustCache <==> t.number() == 1,
        t is TryCache <==> t.number() == 2,
        t is CacheThrough <==> t.number() == 3,
        t is Through <==> t.number() == 4,
        t is AsyncThrough <==> t.number() == 5,
        t is NoneType <==> t.number() == 6,
{
}

/// The names of the write types and of the ways to load metadata.
pub proof fn law_names_on_the_wire(t: WritePType, l: LoadMetadataPType)
    ensures
        t is UnspecifiedWriteType ==> t.name() == "UnspecifiedWriteType"@,
        t is MustCache ==> t.name() == "MustCache"@,
        t is TryCache ==> t.name() == "TryCache"@,
        t is CacheThrough ==> t.name() == "CacheThrough"@,
        t is Through ==> t.name() == "Through"@,
        t is AsyncThrough ==> t.name() == "AsyncThrough"@,
        t is NoneType ==> t.name() == "None"@,
        l is Never ==> l.name() == "NEVER"@,
        l is Once ==> l.name() == "ONCE"@,
        l is Always ==> l.name() == "ALWAYS"@,
{
}

} // verus!
