//! Options of file system operations.

use crate::config::write_type::WriteType;
use crate::fs::write_type::WriteTypeXAttr;
use crate::proto::LoadMetadataPType;
use vstd::prelude::*;

verus! {

/// Whether workers cache what is read.
#[derive(Clone, Copy, Debug, PartialEq, Eq, Structural)]
pub enum ReadType {
    /// Read without caching in workers. For one-off access and large scans.
    NoCache,
    /// Read, and cache in the nearest worker.
    Cache,
}

impl Default for ReadType {
    fn default() -> (r: Self)
        ensures
            r is Cache,
    {
        ReadType::Cache
    }
}

impl ReadType {
    /// The number that stands for the read type on the wire.
    pub open spec fn number(self) -> i32 {
        match self {
            ReadType::NoCache => 1,
            ReadType::Cache => 2,
        }
    }

    /// The number that stands for the read type on the wire.
    pub fn to_proto(self) -> (r: i32)
        ensures
            r == self.number(),
    {
        match self {
            ReadType::NoCache => 1,
            ReadType::Cache => 2,
        }
    }
}

/// How an open stream reads.
#[derive(Clone, Copy, Debug, PartialEq, Eq, Structural)]
pub struct InStreamOptions {
    /// Whether workers cache what is read.
    pub read_type: ReadType,
    /// Whether reads are short and at random places, so that the worker does not read
    /// ahead.
    pub position_short: bool,
    /// How many reads of the underlying storage a worker may run at once.
    pub max_ufs_read_concurrency: i32,
    /// How many chunks are read ahead at first; 1 reads none ahead.
    pub prefetch_window: i32,
}

impl Default for InStreamOptions {
    fn default() -> (r: Self)
        ensures
            r == (InStreamOptions {
                read_type: ReadType::Cache,
                position_short: false,
                max_ufs_read_concurrency: 8,
                prefetch_window: 1,
            }),
    {
        InStreamOptions {
            read_type: ReadType::Cache,
            position_short: false,
            max_ufs_read_concurrency: 8,
            prefetch_window: 1,
        }
    }
}

impl InStreamOptions {
    /// The defaults, without caching in workers.
    pub fn no_cache() -> (r: Self)
        ensures
            r == (InStreamOptions {
                read_type: ReadType::NoCache,
                position_short: false,
                max_ufs_read_concurrency: 8,
                prefetch_window: 1,
            }),
    {
        InStreamOptions { read_type: ReadType::NoCache, ..InStreamOptions::default() }
    }

    /// The same for short reads at random places.
    pub fn positioned(self) -> (r: Self)
        ensures
            r == (InStreamOptions { position_short: true, ..self }),
    {
        InStreamOptions { position_short: true, ..self }
    }
}

/// How a file is opened for reading.
#[derive(Clone, Copy, Debug, PartialEq, Eq, Structural)]
pub struct OpenFileOptions {
    /// How the stream reads.
    pub in_stream_options: InStreamOptions,
}

impl Default for OpenFileOptions {
    fn default() -> (r: Self)
        ensures
            r.in_stream_options == (InStreamOptions {
                read_type: ReadType::Cache,
                position_short: false,
                max_ufs_read_concurrency: 8,
                prefetch_window: 1,
            }),
    {
        OpenFileOptions { in_stream_options: InStreamOptions::default() }
    }
}

impl OpenFileOptions {
    /// The defaults.
    pub fn new() -> (r: Self)
        ensures
            r.in_stream_options == (InStreamOptions {
                read_type: ReadType::Cache,
                position_short: false,
                max_ufs_read_concurrency: 8,
                prefetch_window: 1,
            }),
    {
        OpenFileOptions::default()
    }

    /// The defaults, without caching in workers.
    pub fn no_cache() -> (r: Self)
        ensures
            r.in_stream_options == (InStreamOptions {
                read_type: ReadType::NoCache,
                position_short: false,
                max_ufs_read_concurrency: 8,
                prefetch_window: 1,
            }),
    {
        OpenFileOptions { in_stream_options: InStreamOptions::no_cache() }
    }
}

/// How a file is created.
#[derive(Clone, Copy, Debug, PartialEq, Eq, Structural)]
pub struct CreateFileOptions {
    /// Where the write type comes from.
    pub write_type: WriteTypeXAttr,
    /// Block size in bytes; none takes that of the configuration or the server.
    pub block_size_bytes: Option<i64>,
    /// How many replicas a block may have; none leaves it to the server.
    pub replication_max: Option<i32>,
    /// Whether missing parent directories are created.
    pub recursive: bool,
}

impl Default for CreateFileOptions {
    fn default() -> (r: Self)
        ensures
            r == (CreateFileOptions {
                write_type: WriteTypeXAttr::Inherit,
                block_size_bytes: None,
                replication_max: None,
                recursive: false,
            }),
    {
        CreateFileOptions {
            write_type: WriteTypeXAttr::default(),
            block_size_bytes: None,
            replication_max: None,
            recursive: false,
        }
    }
}

impl CreateFileOptions {
    /// The defaults, with a write type that the caller names.
    pub fn with_write_type(wt: WriteType) -> (r: Self)
        ensures
            r == (CreateFileOptions {
                write_type: WriteTypeXAttr::Explicit(wt),
                block_size_bytes: None,
                replication_max: None,
                recursive: false,
            }),
    {
        CreateFileOptions {
            write_type: WriteTypeXAttr::Explicit(wt),
            ..CreateFileOptions::default()
        }
    }
}

/// How a file or directory is deleted.
#[derive(Clone, Copy, Debug, PartialEq, Eq, Structural)]
pub struct DeleteOptions {
    /// Whether directories are deleted with what they hold.
    pub recursive: bool,
    /// Whether checks are skipped, so that files that are still being written can be
    /// deleted.
    pub unchecked: bool,
    /// Whether the underlying storage is left alone.
    pub goosefs_only: bool,
}

impl Default for DeleteOptions {
    fn default() -> (r: Self)
        ensures
            r == (DeleteOptions { recursive: false, unchecked: false, goosefs_only: false }),
    {
        DeleteOptions { recursive: false, unchecked: false, goosefs_only: false }
    }
}

impl DeleteOptions {
    /// Deletes a directory with what it holds.
    pub fn recursive() -> (r: Self)
        ensures
            r == (DeleteOptions { recursive: true, unchecked: false, goosefs_only: false }),
    {
        DeleteOptions { recursive: true, ..DeleteOptions::default() }
    }

    /// Deletes a file that is still being written.
    pub fn for_cancel() -> (r: Self)
        ensures
            r == (DeleteOptions { recursive: false, unchecked: true, goosefs_only: false }),
    {
        DeleteOptions { recursive: false, unchecked: true, goosefs_only: false }
    }

    /// Removes the metadata of a file whose data has reached the underlying storage.
    pub fn goosefs_only_unchecked() -> (r: Self)
        ensures
            r == (DeleteOptions { recursive: false, unchecked: true, goosefs_only: true }),
    {
        DeleteOptions { recursive: false, unchecked: true, goosefs_only: true }
    }
}

/// How the status of a path is asked for.
#[derive(Clone, Copy, Debug, PartialEq, Eq, Structural)]
pub struct GetStatusOptions {
    /// How old metadata may be, in milliseconds. None takes that of the configuration; 0
    /// skips the metadata cache.
    pub sync_interval_ms: Option<i64>,
}

impl Default for GetStatusOptions {
    fn default() -> (r: Self)
        ensures
            r.sync_interval_ms is None,
    {
        GetStatusOptions { sync_interval_ms: None }
    }
}

impl GetStatusOptions {
    /// Skips the metadata cache.
    pub fn always_sync() -> (r: Self)
        ensures
            r.sync_interval_ms == Some(0i64),
    {
        GetStatusOptions { sync_interval_ms: Some(0) }
    }
}

/// How a directory is listed.
#[derive(Clone, Copy, Debug, PartialEq, Eq, Structural)]
pub struct ListStatusOptions {
    /// Whether child directories are listed too. Such a listing is never cached.
    pub recursive: bool,
    /// How old metadata may be, in milliseconds; none takes that of the configuration.
    pub sync_interval_ms: Option<i64>,
    /// When metadata is loaded; none takes that of the configuration.
    pub load_metadata_type: Option<LoadMetadataPType>,
    /// Whether the listing cache is skipped.
    pub load_metadata_only: bool,
}

impl Default for ListStatusOptions {
    fn default() -> (r: Self)
        ensures
            r == (ListStatusOptions {
                recursive: false,
                sync_interval_ms: None,
                load_metadata_type: None,
                load_metadata_only: false,
            }),
    {
        ListStatusOptions {
            recursive: false,
            sync_interval_ms: None,
            load_metadata_type: None,
            load_metadata_only: false,
        }
    }
}

impl ListStatusOptions {
    /// Lists the directory alone.
    pub fn new() -> (r: Self)
        ensures
            r == (ListStatusOptions {
                recursive: false,
                sync_interval_ms: None,
                load_metadata_type: None,
                load_metadata_only: false,
            }),
    {
        ListStatusOptions::default()
    }

    /// Lists child directories too.
    pub fn recursive() -> (r: Self)
        ensures
            r == (ListStatusOptions {
                recursive: true,
                sync_interval_ms: None,
                load_metadata_type: None,
                load_metadata_only: false,
            }),
    {
        ListStatusOptions { recursive: true, ..ListStatusOptions::default() }
    }
}

/// On the wire a read type that leaves workers without a copy is 1, and one that caches in the
/// nearest worker is 2.
pub proof fn law_read_types_on_the_wire(t: ReadType)
    ensures
        t is NoCache <==> t.number() == 1,
        t is Cache <==> t.number() == 2,
{
}

} // verus!
