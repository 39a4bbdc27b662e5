//! Names of the metrics that a client reports.

use vstd::prelude::*;

verus! {

/// Local short-circuit read bytes (client reads from local worker).
pub const CLIENT_BYTES_READ_LOCAL: &'static str = "Client.BytesReadLocal";

/// Local short-circuit write bytes (client writes to local worker).
pub const CLIENT_BYTES_WRITTEN_LOCAL: &'static str = "Client.BytesWrittenLocal";

/// Client direct UFS write bytes (bypass layer).
pub const CLIENT_BYTES_WRITTEN_UFS: &'static str = "Client.BytesWrittenUfs";

/// Total number of file read operations (open + stream fully consumed or closed).
pub const CLIENT_READ_OPS_TOTAL: &'static str = "Client.ReadOpsTotal";

/// Total number of file write operations (create + complete).
pub const CLIENT_WRITE_OPS_TOTAL: &'static str = "Client.WriteOpsTotal";

/// Status or listing cache hits. Does not include incomplete fall-through.
pub const CLIENT_METADATA_CACHE_HITS: &'static str = "Client.MetadataCacheHits";

/// Status or listing cache misses (including TTL expiry).
pub const CLIENT_METADATA_CACHE_MISSES: &'static str = "Client.MetadataCacheMisses";

/// Entries dropped because `inserted_at` exceeded TTL.
pub const CLIENT_METADATA_CACHE_EXPIRATIONS: &'static str = "Client.MetadataCacheExpirations";

/// Explicit invalidations (write path).
pub const CLIENT_METADATA_CACHE_INVALIDATIONS: &'static str = "Client.MetadataCacheInvalidations";

/// Negative-cache (NotFound) hits.
pub const CLIENT_METADATA_CACHE_NEGATIVE_HITS: &'static str = "Client.MetadataCacheNegativeHits";

/// Current LRU entry count.
pub const CLIENT_METADATA_CACHE_SIZE: &'static str = "Client.MetadataCacheSize";

/// `1` when a `MetadataCache` was constructed for this process context.
pub const CLIENT_METADATA_CACHE_ENABLED: &'static str = "Client.MetadataCacheEnabled";

/// Total number of getStatus RPCs to Master.
pub const CLIENT_GET_STATUS_OPS: &'static str = "Client.GetStatusOps";

/// Total number of listStatus RPCs to Master.
pub const CLIENT_LIST_STATUS_OPS: &'static str = "Client.ListStatusOps";

/// Total number of createFile RPCs to Master.
pub const CLIENT_CREATE_FILE_OPS: &'static str = "Client.CreateFileOps";

/// Total number of createDirectory RPCs to Master.
pub const CLIENT_CREATE_DIR_OPS: &'static str = "Client.CreateDirOps";

/// Total number of delete (remove) RPCs to Master.
pub const CLIENT_DELETE_OPS: &'static str = "Client.DeleteOps";

/// Total number of rename RPCs to Master.
pub const CLIENT_RENAME_OPS: &'static str = "Client.RenameOps";

/// Total RPC failures (all types: network, timeout, server error).
pub const CLIENT_RPC_ERRORS_TOTAL: &'static str = "Client.RpcErrorsTotal";

/// RPC failures broken down by type - UNAUTHENTICATED errors.
pub const CLIENT_RPC_AUTH_ERRORS: &'static str = "Client.RpcAuthErrors";

/// RPC failures - connection refused / unavailable.
pub const CLIENT_RPC_UNAVAILABLE_ERRORS: &'static str = "Client.RpcUnavailableErrors";

/// Block read failures (stream error, incomplete, etc.).
pub const CLIENT_READ_FAILURES: &'static str = "Client.ReadFailures";

/// Block write failures.
pub const CLIENT_WRITE_FAILURES: &'static str = "Client.WriteFailures";

/// Cumulative read latency in microseconds (from open stream to close/eof).
pub const CLIENT_READ_LATENCY_US: &'static str = "Client.ReadLatencyUs";

/// Cumulative write latency in microseconds (from create to complete).
pub const CLIENT_WRITE_LATENCY_US: &'static str = "Client.WriteLatencyUs";

/// Cumulative getStatus RPC latency in microseconds.
pub const CLIENT_GET_STATUS_LATENCY_US: &'static str = "Client.GetStatusLatencyUs";

/// Cumulative listStatus RPC latency in microseconds.
pub const CLIENT_LIST_STATUS_LATENCY_US: &'static str = "Client.ListStatusLatencyUs";

/// Number of active (cached) worker connections in the pool.
pub const CLIENT_WORKER_CONNECTIONS_ACTIVE: &'static str = "Client.WorkerConnectionsActive";

/// Total number of worker reconnects performed (counter).
pub const CLIENT_WORKER_RECONNECTS_TOTAL: &'static str = "Client.WorkerReconnectsTotal";

/// Total number of reconnects that were coalesced (deduplicated).
pub const CLIENT_WORKER_RECONNECTS_COALESCED: &'static str = "Client.WorkerReconnectsCoalesced";

/// Number of blocks currently being read concurrently (gauge).
pub const CLIENT_BLOCKS_READ_IN_PROGRESS: &'static str = "Client.BlocksReadInProgress";

/// Number of blocks currently being written concurrently (gauge).
pub const CLIENT_BLOCKS_WRITTEN_IN_PROGRESS: &'static str = "Client.BlocksWrittenInProgress";

/// Total blocks successfully read (counter).
pub const CLIENT_BLOCKS_READ_TOTAL: &'static str = "Client.BlocksReadTotal";

/// Total blocks successfully written (counter).
pub const CLIENT_BLOCKS_WRITTEN_TOTAL: &'static str = "Client.BlocksWrittenTotal";

/// Successful `OpenLocalBlock` + mmap sessions.
pub const CLIENT_SC_OPEN_SUCCESS: &'static str = "Client.ShortCircuitOpenSuccess";

/// `OpenLocalBlock` RPC failures (block not local / IO error).
pub const CLIENT_SC_OPENLOCAL_FAIL: &'static str = "Client.ShortCircuitOpenLocalFail";

/// `File::open` failures on the local block path (e.g. EACCES).
pub const CLIENT_SC_FILE_OPEN_FAIL: &'static str = "Client.ShortCircuitFileOpenFail";

/// `Mmap::map` failures (ENOMEM / EINVAL).
pub const CLIENT_SC_MMAP_FAIL: &'static str = "Client.ShortCircuitMmapFail";

/// Total bytes served from the short-circuit (mmap) path.
pub const CLIENT_SC_READ_BYTES: &'static str = "Client.ShortCircuitReadBytes";

/// Number of short-circuit `read` / `read_bytes` / `read_to_slice` calls.
pub const CLIENT_SC_READ_CALLS: &'static str = "Client.ShortCircuitReadCalls";

/// Factory LRU reader-cache hits.
pub const CLIENT_SC_CACHE_HITS: &'static str = "Client.ShortCircuitCacheHits";

/// Factory LRU reader-cache evictions.
pub const CLIENT_SC_CACHE_EVICTIONS: &'static str = "Client.ShortCircuitCacheEvictions";

/// Negative-cache hits (block recently failed SC -> skipped, went gRPC).
pub const CLIENT_SC_NEG_CACHE_HITS: &'static str = "Client.ShortCircuitNegCacheHits";

/// Currently-live short-circuit readers (gauge).
pub const CLIENT_SC_ACTIVE_READERS: &'static str = "Client.ShortCircuitActiveReaders";

/// `prefetch` / `prefetch_many` calls.
pub const CLIENT_SC_PREFETCH_CALLS: &'static str = "Client.ShortCircuitPrefetchCalls";

/// Cumulative bytes requested for prefetch.
pub const CLIENT_SC_PREFETCH_BYTES: &'static str = "Client.ShortCircuitPrefetchBytes";

/// Actual `madvise(WILLNEED)` syscalls issued (after coalescing).
pub const CLIENT_SC_PREFETCH_MADVISE: &'static str = "Client.ShortCircuitPrefetchMadvise";

/// SC actually served the read (zero-copy mmap slice). Hit-rate numerator.
pub const CLIENT_SC_DECISION_HIT: &'static str = "Client.ShortCircuitDecisionHit";

/// SC not attempted at all - pre-filter (`should_use`) rejected the block. Includes: SC
/// disabled by config, block source not local, block size under the SC size threshold,
/// block on the negative cache, etc.
pub const CLIENT_SC_DECISION_SKIPPED: &'static str = "Client.ShortCircuitDecisionSkipped";

/// SC attempted but the **open** step failed and read fell back to gRPC. Break down the
/// specific cause via `ShortCircuitOpenLocalFail` / `ShortCircuitFileOpenFail` /
/// `ShortCircuitMmapFail`.
pub const CLIENT_SC_DECISION_FALLBACK_OPEN: &'static str =
    "Client.ShortCircuitDecisionFallbackOpen";

/// SC opened successfully but a subsequent **read** failed with a recoverable error and
/// this individual read fell back to gRPC. The reader is invalidated; a subsequent read
/// on the same block re-opens.
pub const CLIENT_SC_DECISION_FALLBACK_READ: &'static str =
    "Client.ShortCircuitDecisionFallbackRead";

/// SC read produced a **semantic** error (`OutOfRange`) that must be surfaced unchanged
/// rather than falling back. Should stay at zero on healthy deployments; a non-zero
/// value indicates real metadata / block-size drift worth investigating.
pub const CLIENT_SC_DECISION_SEMANTIC_ERROR: &'static str =
    "Client.ShortCircuitDecisionSemanticError";

/// The names of the decisions on short-circuit reads are pairwise distinct, so that
/// no two decisions are counted together.
pub proof fn law_decision_names_distinct()
    ensures
        CLIENT_SC_DECISION_HIT@ != CLIENT_SC_DECISION_SKIPPED@,
        CLIENT_SC_DECISION_HIT@ != CLIENT_SC_DECISION_FALLBACK_OPEN@,
        CLIENT_SC_DECISION_HIT@ != CLIENT_SC_DECISION_FALLBACK_READ@,
        CLIENT_SC_DECISION_HIT@ != CLIENT_SC_DECISION_SEMANTIC_ERROR@,
        CLIENT_SC_DECISION_SKIPPED@ != CLIENT_SC_DECISION_FALLBACK_OPEN@,
        CLIENT_SC_DECISION_SKIPPED@ != CLIENT_SC_DECISION_FALLBACK_READ@,
        CLIENT_SC_DECISION_SKIPPED@ != CLIENT_SC_DECISION_SEMANTIC_ERROR@,
        CLIENT_SC_DECISION_FALLBACK_OPEN@ != CLIENT_SC_DECISION_FALLBACK_READ@,
        CLIENT_SC_DECISION_FALLBACK_OPEN@ != CLIENT_SC_DECISION_SEMANTIC_ERROR@,
        CLIENT_SC_DECISION_FALLBACK_READ@ != CLIENT_SC_DECISION_SEMANTIC_ERROR@,
{
    reveal_strlit("Client.ShortCircuitDecisionHit");
    reveal_strlit("Client.ShortCircuitDecisionSkipped");
    reveal_strlit("Client.ShortCircuitDecisionFallbackOpen");
    reveal_strlit("Client.ShortCircuitDecisionFallbackRead");
    reveal_strlit("Client.ShortCircuitDecisionSemanticError");
    assert(CLIENT_SC_DECISION_HIT@[27] == 'H');
    assert(CLIENT_SC_DECISION_SKIPPED@[27] == 'S' && CLIENT_SC_DECISION_SKIPPED@[28] == 'k');
    assert(CLIENT_SC_DECISION_FALLBACK_OPEN@[27] == 'F' && CLIENT_SC_DECISION_FALLBACK_OPEN@[35]
        == 'O');
    assert(CLIENT_SC_DECISION_FALLBACK_READ@[27] == 'F' && CLIENT_SC_DECISION_FALLBACK_READ@[35]
        == 'R');
    assert(CLIENT_SC_DECISION_SEMANTIC_ERROR@[27] == 'S' && CLIENT_SC_DECISION_SEMANTIC_ERROR@[28]
        == 'e');
}

/// The names under which the metrics are known outside.
pub proof fn law_names_of_the_metrics()
    ensures
        CLIENT_BYTES_READ_LOCAL@ == "Client.BytesReadLocal"@,
        CLIENT_BYTES_WRITTEN_LOCAL@ == "Client.BytesWrittenLocal"@,
        CLIENT_BYTES_WRITTEN_UFS@ == "Client.BytesWrittenUfs"@,
        CLIENT_READ_OPS_TOTAL@ == "Client.ReadOpsTotal"@,
        CLIENT_WRITE_OPS_TOTAL@ == "Client.WriteOpsTotal"@,
        CLIENT_METADATA_CACHE_HITS@ == "Client.MetadataCacheHits"@,
        CLIENT_METADATA_CACHE_MISSES@ == "Client.MetadataCacheMisses"@,
        CLIENT_METADATA_CACHE_EXPIRATIONS@ == "Client.MetadataCacheExpirations"@,
        CLIENT_METADATA_CACHE_INVALIDATIONS@ == "Client.MetadataCacheInvalidations"@,
        CLIENT_METADATA_CACHE_NEGATIVE_HITS@ == "Client.MetadataCacheNegativeHits"@,
        CLIENT_METADATA_CACHE_SIZE@ == "Client.MetadataCacheSize"@,
        CLIENT_METADATA_CACHE_ENABLED@ == "Client.MetadataCacheEnabled"@,
        CLIENT_GET_STATUS_OPS@ == "Client.GetStatusOps"@,
        CLIENT_LIST_STATUS_OPS@ == "Client.ListStatusOps"@,
        CLIENT_CREATE_FILE_OPS@ == "Client.CreateFileOps"@,
        CLIENT_CREATE_DIR_OPS@ == "Client.CreateDirOps"@,
        CLIENT_DELETE_OPS@ == "Client.DeleteOps"@,
        CLIENT_RENAME_OPS@ == "Client.RenameOps"@,
        CLIENT_RPC_ERRORS_TOTAL@ == "Client.RpcErrorsTotal"@,
        CLIENT_RPC_AUTH_ERRORS@ == "Client.RpcAuthErrors"@,
        CLIENT_RPC_UNAVAILABLE_ERRORS@ == "Client.RpcUnavailableErrors"@,
        CLIENT_READ_FAILURES@ == "Client.ReadFailures"@,
        CLIENT_WRITE_FAILURES@ == "Client.WriteFailures"@,
        CLIENT_READ_LATENCY_US@ == "Client.ReadLatencyUs"@,
        CLIENT_WRITE_LATENCY_US@ == "Client.WriteLatencyUs"@,
        CLIENT_GET_STATUS_LATENCY_US@ == "Client.GetStatusLatencyUs"@,
        CLIENT_LIST_STATUS_LATENCY_US@ == "Client.ListStatusLatencyUs"@,
        CLIENT_WORKER_CONNECTIONS_ACTIVE@ == "Client.WorkerConnectionsActive"@,
        CLIENT_WORKER_RECONNECTS_TOTAL@ == "Client.WorkerReconnectsTotal"@,
        CLIENT_WORKER_RECONNECTS_COALESCED@ == "Client.WorkerReconnectsCoalesced"@,
        CLIENT_BLOCKS_READ_IN_PROGRESS@ == "Client.BlocksReadInProgress"@,
        CLIENT_BLOCKS_WRITTEN_IN_PROGRESS@ == "Client.BlocksWrittenInProgress"@,
        CLIENT_BLOCKS_READ_TOTAL@ == "Client.BlocksReadTotal"@,
        CLIENT_BLOCKS_WRITTEN_TOTAL@ == "Client.BlocksWrittenTotal"@,
        CLIENT_SC_OPEN_SUCCESS@ == "Client.ShortCircuitOpenSuccess"@,
        CLIENT_SC_OPENLOCAL_FAIL@ == "Client.ShortCircuitOpenLocalFail"@,
        CLIENT_SC_FILE_OPEN_FAIL@ == "Client.ShortCircuitFileOpenFail"@,
        CLIENT_SC_MMAP_FAIL@ == "Client.ShortCircuitMmapFail"@,
        CLIENT_SC_READ_BYTES@ == "Client.ShortCircuitReadBytes"@,
        CLIENT_SC_READ_CALLS@ == "Client.ShortCircuitReadCalls"@,
        CLIENT_SC_CACHE_HITS@ == "Client.ShortCircuitCacheHits"@,
        CLIENT_SC_CACHE_EVICTIONS@ == "Client.ShortCircuitCacheEvictions"@,
        CLIENT_SC_NEG_CACHE_HITS@ == "Client.ShortCircuitNegCacheHits"@,
        CLIENT_SC_ACTIVE_READERS@ == "Client.ShortCircuitActiveReaders"@,
        CLIENT_SC_PREFETCH_CALLS@ == "Client.ShortCircuitPrefetchCalls"@,
        CLIENT_SC_PREFETCH_BYTES@ == "Client.ShortCircuitPrefetchBytes"@,
        CLIENT_SC_PREFETCH_MADVISE@ == "Client.ShortCircuitPrefetchMadvise"@,
        CLIENT_SC_DECISION_HIT@ == "Client.ShortCircuitDecisionHit"@,
        CLIENT_SC_DECISION_SKIPPED@ == "Client.ShortCircuitDecisionSkipped"@,
        CLIENT_SC_DECISION_FALLBACK_OPEN@ == "Client.ShortCircuitDecisionFallbackOpen"@,
        CLIENT_SC_DECISION_FALLBACK_READ@ == "Client.ShortCircuitDecisionFallbackRead"@,
        CLIENT_SC_DECISION_SEMANTIC_ERROR@ == "Client.ShortCircuitDecisionSemanticError"@,
{
}

} // verus!
