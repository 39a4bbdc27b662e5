//! The configuration of a client and its defaults.

use vstd::prelude::*;
use vstd::string::*;

use crate::auth::AuthType;
use crate::config::host::{login_name, HostEnv};
use crate::config::kinds::{CacheEvictorType, MasterPoolSchedule};
use crate::proto::LoadMetadataPType;
use crate::text::string_views;
use crate::time::Duration;
use crate::config::settings::opt_view;

verus! {

/// How many workers may be tried for one block, by default.
pub const DEFAULT_FILE_READ_MAX_NODE_RETRY: i32 = 3;

/// Fewest connections that are pooled for each worker.
pub const DEFAULT_WORKER_CONNECTION_POOL_MIN: usize = 1;

/// Most connections that are pooled for each worker by default.
pub const DEFAULT_WORKER_CONNECTION_POOL_MAX: usize = 4;

/// Shortest time between two reports of metrics, in milliseconds.
pub const MIN_METRICS_HEARTBEAT_INTERVAL_MS: u64 = 1_000;

/// The configuration of a client.
#[derive(Clone, Debug)]
pub struct GoosefsConfig {
    /// Address of the master, as `host:port`.
    pub master_addr: String,
    /// Addresses of all masters. Where it is empty, `master_addr` is the only one.
    pub master_addrs: Vec<String>,
    /// Block size of new files, in bytes.
    pub block_size: u64,
    /// Size of the chunks of streamed reads and writes, in bytes.
    pub chunk_size: u64,
    /// How long connecting may take.
    pub connect_timeout: Duration,
    /// How long one remote call may take.
    pub request_timeout: Duration,
    /// Whether workers are reached under their mapped addresses.
    pub use_vpc_mapping: bool,
    /// Path that is put before every path.
    pub root: String,
    /// Write type of new files, as its number on the wire. The server decides where there
    /// is none.
    pub write_type: Option<i32>,
    /// How many workers hold a block.
    pub file_replication_number: i32,
    /// How many workers are asked for a block whose replicas are not known; none are asked
    /// where it is 0.
    pub check_block_replicas: i32,
    /// How many workers may be tried for one block that is read.
    pub file_read_max_node_retry: i32,
    /// How many chunks a worker sends ahead.
    pub prefetch_window: i32,
    /// How many received messages are buffered.
    pub read_buffer_messages: usize,
    /// After how many bytes the client acknowledges; 0 acknowledges every chunk.
    pub ack_interval_bytes: i64,
    /// After how many chunks the client acknowledges.
    pub ack_interval_chunks: u32,
    /// How many connections to the master are pooled.
    pub master_connection_pool_size: usize,
    /// How the connections of the master pool are chosen.
    pub master_connection_pool_schedule: MasterPoolSchedule,
    /// How many connections to each worker are pooled.
    pub worker_connection_pool_size: usize,
    /// How long the primary master is looked for.
    pub master_inquire_retry_max_duration: Duration,
    /// First pause between two rounds of that search.
    pub master_inquire_initial_sleep: Duration,
    /// Longest pause between two rounds of that search.
    pub master_inquire_max_sleep: Duration,
    /// How long one probe of a master may take.
    pub master_polling_timeout: Duration,
    /// How the client authenticates.
    pub auth_type: AuthType,
    /// The user as whom the client authenticates.
    pub auth_username: String,
    /// How long authentication may take.
    pub auth_timeout: Duration,
    /// Addresses of the configuration manager.
    pub config_manager_rpc_addresses: Vec<String>,
    /// Port of the configuration manager.
    pub config_rpc_port: u16,
    /// Whether transparent acceleration is on.
    pub transparent_acceleration_enabled: bool,
    /// Whether transparent acceleration goes through cosranger.
    pub transparent_acceleration_cosranger_enabled: bool,
    /// Whether file permissions are enforced.
    pub authorization_permission_enabled: bool,
    /// The user whom the client impersonates.
    pub login_impersonation_username: String,
    /// Whether metrics are collected and reported.
    pub metrics_enabled: bool,
    /// Time between two reports of metrics; at least one second.
    pub metrics_heartbeat_interval: Duration,
    /// How long one report of metrics may take; at least one second.
    pub metrics_heartbeat_timeout: Duration,
    /// Name of the application in reported metrics.
    pub app_id: Option<String>,
    /// How many metrics one report holds at most.
    pub metrics_max_batch_size: usize,
    /// Whether metrics are pushed to a push gateway.
    pub pushgateway_enabled: bool,
    /// URL of the push gateway.
    pub pushgateway_endpoint: String,
    /// Time between two pushes; at least one second.
    pub pushgateway_push_interval: Duration,
    /// Job label of pushed metrics.
    pub pushgateway_job: String,
    /// Instance label of pushed metrics.
    pub pushgateway_instance: Option<String>,
    /// Whether the local page cache is on.
    pub client_cache_enabled: bool,
    /// Page size of the local page cache, in bytes.
    pub client_cache_page_size: u64,
    /// Capacity of each directory of the local page cache, in bytes.
    pub client_cache_size: u64,
    /// Directories of the local page cache.
    pub client_cache_dirs: Vec<String>,
    /// Which page leaves a full local page cache.
    pub client_cache_evictor: CacheEvictorType,
    /// Whether missed pages are written to the cache in the background.
    pub client_cache_async_write_enabled: bool,
    /// How many pages are written in the background at once.
    pub client_cache_async_write_threads: usize,
    /// Whether the cache has a quota per scope.
    pub client_cache_quota_enabled: bool,
    /// How many seconds a page stays; 0 keeps it for good.
    pub client_cache_ttl_secs: u64,
    /// Whether pages are read through io_uring.
    pub client_cache_uring_enabled: bool,
    /// Depth of the io_uring queues.
    pub client_cache_uring_queue_depth: usize,
    /// How many threads serve io_uring.
    pub client_cache_uring_thread_count: usize,
    /// Whether cached pages are read synchronously instead.
    pub client_cache_sync_read_enabled: bool,
    /// Whether sequential reads go through the local page cache too.
    pub client_cache_sequential_read_enabled: bool,
    /// Whether metadata is cached.
    pub metadata_cache_enabled: bool,
    /// How many paths the metadata cache holds at most.
    pub metadata_cache_max_size: usize,
    /// How long an entry of the metadata cache lives; where it is empty there is no cache.
    pub metadata_cache_expiration: Duration,
    /// Sync interval of file metadata in milliseconds; 0 skips the metadata cache.
    pub file_metadata_sync_interval: i64,
    /// When metadata is loaded from the underlying storage; always skips the cached
    /// listings.
    pub file_metadata_load_type: LoadMetadataPType,
    /// Whether near ranges of one read are fetched together.
    pub range_coalesce_enabled: bool,
    /// Widest gap between two ranges that are fetched together, in bytes.
    pub range_coalesce_gap_bytes: u64,
    /// Longest fetch of ranges that are fetched together, in bytes.
    pub range_coalesce_max_bytes: u64,
    /// Whether blocks of a local worker are read from its memory map.
    pub short_circuit_enabled: bool,
    /// How many local block readers are kept.
    pub short_circuit_cache_capacity: usize,
    /// How long an idle local block reader is kept.
    pub short_circuit_cache_ttl: Duration,
    /// How long a block that could not be read locally is not tried again.
    pub short_circuit_neg_cache_ttl: Duration,
    /// Read-ahead advice for local blocks: `sequential`, `random`, `normal` or `none`.
    pub short_circuit_advise: String,
    /// Whether local blocks are prefetched on request.
    pub short_circuit_prefetch_enabled: bool,
    /// Widest gap between two ranges that are prefetched together, in bytes.
    pub short_circuit_prefetch_coalesce_gap: usize,
    /// How many ranges one prefetch advises at most.
    pub short_circuit_prefetch_max_batch: usize,
    /// Smallest block that is read locally, in bytes.
    pub short_circuit_min_block_size: i64,
    /// Whether the diagnostic handler for bus errors is installed.
    pub short_circuit_sigbus_handler: bool,
    /// Whether huge pages are requested for local blocks.
    pub short_circuit_thp: bool,
}

/// The connections that are pooled for each worker on a host with `cores` cores:
/// as many, but at most 4, and 1 where the number of cores is not known.
pub open spec fn default_pool_size(cores: Option<usize>) -> int {
    match cores {
        None => 1,
        Some(n) => if n < 1 {
            1
        } else if n > 4 {
            4
        } else {
            n as int
        },
    }
}

/// The connections that are pooled for each worker.
pub fn default_worker_connection_pool_size(host: &HostEnv) -> (r: usize)
    ensures
        r == default_pool_size(host.cores),
{
    let cores: usize = match host.cores {
        Some(n) => n,
        None => DEFAULT_WORKER_CONNECTION_POOL_MIN,
    };
    if cores < DEFAULT_WORKER_CONNECTION_POOL_MIN {
        DEFAULT_WORKER_CONNECTION_POOL_MIN
    } else if cores > DEFAULT_WORKER_CONNECTION_POOL_MAX {
        DEFAULT_WORKER_CONNECTION_POOL_MAX
    } else {
        cores
    }
}

/// Whether pages are read through io_uring: on Linux.
pub fn default_client_cache_uring_enabled(host: &HostEnv) -> (r: bool)
    ensures
        r == host.linux,
{
    host.linux
}

/// The user as whom the client authenticates: the one who is logged in.
pub fn default_auth_username(host: &HostEnv) -> (r: String)
    ensures
        r@ == login_name(host.vars@),
{
    match host.vars.get("USER") {
        Some(u) => u.to_owned(),
        None => match host.vars.get("USERNAME") {
            Some(u) => u.to_owned(),
            None => "unknown".to_owned(),
        },
    }
}

/// Default: how long the primary master is looked for.
pub fn default_master_inquire_max_duration() -> (r: Duration)
    ensures
        r.nanos == 120_000 * 1_000_000,
{
    Duration::from_millis(120_000)
}

/// Default: first pause of the search for the primary master.
pub fn default_master_inquire_initial_sleep() -> (r: Duration)
    ensures
        r.nanos == 50 * 1_000_000,
{
    Duration::from_millis(50)
}

/// Default: longest pause of the search for the primary master.
pub fn default_master_inquire_max_sleep() -> (r: Duration)
    ensures
        r.nanos == 3_000 * 1_000_000,
{
    Duration::from_millis(3_000)
}

/// Default: how long one probe of a master may take.
pub fn default_master_polling_timeout() -> (r: Duration)
    ensures
        r.nanos == 30_000 * 1_000_000,
{
    Duration::from_millis(30_000)
}

/// Default: how long authentication may take.
pub fn default_auth_timeout() -> (r: Duration)
    ensures
        r.nanos == 30_000 * 1_000_000,
{
    Duration::from_millis(30_000)
}

/// Default: port of the configuration manager.
pub fn default_config_rpc_port() -> (r: u16)
    ensures
        r == 9214,
{
    9214
}

/// Default: whether transparent acceleration is on.
pub fn default_transparent_acceleration_enabled() -> (r: bool)
    ensures
        r,
{
    true
}

/// Default: the user whom the client impersonates.
pub fn default_login_impersonation_username() -> (r: String)
    ensures
        r@ == "_HDFS_USER_"@,
{
    "_HDFS_USER_".to_owned()
}

/// Default: whether metrics are collected.
pub fn default_metrics_enabled() -> (r: bool)
    ensures
        r,
{
    true
}

/// Default: time between two reports of metrics.
pub fn default_metrics_heartbeat_interval() -> (r: Duration)
    ensures
        r.nanos == 10_000 * 1_000_000,
{
    Duration::from_millis(10_000)
}

/// Default: how long one report of metrics may take.
pub fn default_metrics_heartbeat_timeout() -> (r: Duration)
    ensures
        r.nanos == 5_000 * 1_000_000,
{
    Duration::from_millis(5_000)
}

/// Default: how many metrics one report holds at most.
pub fn default_metrics_max_batch_size() -> (r: usize)
    ensures
        r == 1024,
{
    1024
}

/// Default: URL of the push gateway.
pub fn default_pushgateway_endpoint() -> (r: String)
    ensures
        r@ == "http://127.0.0.1:9091"@,
{
    "http://127.0.0.1:9091".to_owned()
}

/// Default: time between two pushes.
pub fn default_pushgateway_push_interval() -> (r: Duration)
    ensures
        r.nanos == 10_000 * 1_000_000,
{
    Duration::from_millis(10_000)
}

/// Default: job label of pushed metrics.
pub fn default_pushgateway_job() -> (r: String)
    ensures
        r@ == "goosefs_client"@,
{
    "goosefs_client".to_owned()
}

/// Default: page size of the local page cache: 1 MiB.
pub fn default_client_cache_page_size() -> (r: u64)
    ensures
        r == 1_048_576,
{
    1_048_576
}

/// Default: capacity of each cache directory: 20 GiB.
pub fn default_client_cache_size() -> (r: u64)
    ensures
        r == 21_474_836_480,
{
    21_474_836_480
}

/// Default: directories of the local page cache.
pub fn default_client_cache_dirs() -> (r: Vec<String>)
    ensures
        string_views(r@) == seq!["/tmp/goosefs_cache"@],
{
    let mut v: Vec<String> = Vec::new();
    v.push("/tmp/goosefs_cache".to_owned());
    proof {
        assert(string_views(v@) =~= seq!["/tmp/goosefs_cache"@]);
    }
    v
}

/// Default: how many pages are written in the background at once.
pub fn default_client_cache_async_write_threads() -> (r: usize)
    ensures
        r == 16,
{
    16
}

/// Default: depth of the io_uring queues.
pub fn default_client_cache_uring_queue_depth() -> (r: usize)
    ensures
        r == 32768,
{
    32768
}

/// Default: how many threads serve io_uring.
pub fn default_client_cache_uring_thread_count() -> (r: usize)
    ensures
        r == 2,
{
    2
}

/// Default: a switch that is on.
pub fn default_true_bool() -> (r: bool)
    ensures
        r,
{
    true
}

/// Default: a switch that is off.
pub fn default_false_bool() -> (r: bool)
    ensures
        !r,
{
    false
}

/// Default: how many paths the metadata cache holds.
pub fn default_metadata_cache_max_size() -> (r: usize)
    ensures
        r == 100_000,
{
    100_000
}

/// Default: how long an entry of the metadata cache lives: ten minutes.
pub fn default_metadata_cache_expiration() -> (r: Duration)
    ensures
        r.nanos == 600_000 * 1_000_000,
{
    Duration::from_secs(600)
}

/// Default: sync interval of file metadata.
pub fn default_file_metadata_sync_interval() -> (r: i64)
    ensures
        r == -1,
{
    -1
}

/// Default: when metadata is loaded.
pub fn default_file_metadata_load_type() -> (r: LoadMetadataPType)
    ensures
        r == LoadMetadataPType::Once,
{
    LoadMetadataPType::Once
}

/// Default: widest gap of ranges that are fetched together: 64 KiB.
pub fn default_range_coalesce_gap_bytes() -> (r: u64)
    ensures
        r == 65_536,
{
    65_536
}

/// Default: longest fetch of ranges that are fetched together: 4 MiB.
pub fn default_range_coalesce_max_bytes() -> (r: u64)
    ensures
        r == 4_194_304,
{
    4_194_304
}

/// Default: how many local block readers are kept.
pub fn default_short_circuit_cache_capacity() -> (r: usize)
    ensures
        r == 64,
{
    64
}

/// Default: how long an idle local block reader is kept.
pub fn default_short_circuit_cache_ttl() -> (r: Duration)
    ensures
        r.nanos == 30_000 * 1_000_000,
{
    Duration::from_secs(30)
}

/// Default: how long a failed block is not tried again.
pub fn default_short_circuit_neg_cache_ttl() -> (r: Duration)
    ensures
        r.nanos == 5_000 * 1_000_000,
{
    Duration::from_secs(5)
}

/// Default: read-ahead advice for local blocks.
pub fn default_short_circuit_advise() -> (r: String)
    ensures
        r@ == "random"@,
{
    "random".to_owned()
}

/// Default: widest gap of ranges that are prefetched together: 64 KiB.
pub fn default_short_circuit_prefetch_coalesce_gap() -> (r: usize)
    ensures
        r == 65_536,
{
    65_536
}

/// Default: how many ranges one prefetch advises.
pub fn default_short_circuit_prefetch_max_batch() -> (r: usize)
    ensures
        r == 1024,
{
    1024
}

/// Default: how many workers hold a block.
pub fn default_file_replication_number() -> (r: i32)
    ensures
        r == 1,
{
    1
}

/// Default: how many workers are asked for an unknown replica.
pub fn default_check_block_replicas() -> (r: i32)
    ensures
        r == 0,
{
    0
}

/// Default: how many workers may be tried for one block.
pub fn default_file_read_max_node_retry() -> (r: i32)
    ensures
        r == 3,
{
    DEFAULT_FILE_READ_MAX_NODE_RETRY
}

/// Default: how many chunks a worker sends ahead.
pub fn default_prefetch_window() -> (r: i32)
    ensures
        r == 8,
{
    8
}

/// Default: how many received messages are buffered.
pub fn default_read_buffer_messages() -> (r: usize)
    ensures
        r == 16,
{
    16
}

/// Default: after how many bytes the client acknowledges.
pub fn default_ack_interval_bytes() -> (r: i64)
    ensures
        r == 0,
{
    0
}

/// Default: after how many chunks the client acknowledges.
pub fn default_ack_interval_chunks() -> (r: u32)
    ensures
        r == 1,
{
    1
}

/// Default: how many connections to the master are pooled.
pub fn default_master_connection_pool_size() -> (r: usize)
    ensures
        r == 1,
{
    1
}

/// Whether `c` is the default configuration on `host`.
pub open spec fn is_default(c: GoosefsConfig, host: HostEnv) -> bool {
    &&& c.master_addr@ == "127.0.0.1:9200"@
    &&& string_views(c.master_addrs@) == Seq::<Seq<char>>::empty()
    &&& c.block_size == 67_108_864
    &&& c.chunk_size == 1_048_576
    &&& c.connect_timeout.nanos == 30_000 * 1_000_000
    &&& c.request_timeout.nanos == 300_000 * 1_000_000
    &&& !c.use_vpc_mapping
    &&& c.root@ == Seq::<char>::empty()
    &&& c.write_type is None
    &&& c.file_replication_number == 1
    &&& c.check_block_replicas == 0
    &&& c.file_read_max_node_retry == 3
    &&& c.prefetch_window == 8
    &&& c.read_buffer_messages == 16
    &&& c.ack_interval_bytes == 0
    &&& c.ack_interval_chunks == 1
    &&& c.master_connection_pool_size == 1
    &&& c.master_connection_pool_schedule == MasterPoolSchedule::RoundRobin
    &&& c.worker_connection_pool_size == default_pool_size(host.cores)
    &&& c.master_inquire_retry_max_duration.nanos == 120_000 * 1_000_000
    &&& c.master_inquire_initial_sleep.nanos == 50 * 1_000_000
    &&& c.master_inquire_max_sleep.nanos == 3_000 * 1_000_000
    &&& c.master_polling_timeout.nanos == 30_000 * 1_000_000
    &&& c.auth_type == AuthType::Simple
    &&& c.auth_username@ == login_name(host.vars@)
    &&& c.auth_timeout.nanos == 30_000 * 1_000_000
    &&& string_views(c.config_manager_rpc_addresses@) == Seq::<Seq<char>>::empty()
    &&& c.config_rpc_port == 9214
    &&& c.transparent_acceleration_enabled
    &&& !c.transparent_acceleration_cosranger_enabled
    &&& !c.authorization_permission_enabled
    &&& c.login_impersonation_username@ == "_HDFS_USER_"@
    &&& c.metrics_enabled
    &&& c.metrics_heartbeat_interval.nanos == 10_000 * 1_000_000
    &&& c.metrics_heartbeat_timeout.nanos == 5_000 * 1_000_000
    &&& c.app_id is None
    &&& c.metrics_max_batch_size == 1024
    &&& !c.pushgateway_enabled
    &&& c.pushgateway_endpoint@ == "http://127.0.0.1:9091"@
    &&& c.pushgateway_push_interval.nanos == 10_000 * 1_000_000
    &&& c.pushgateway_job@ == "goosefs_client"@
    &&& c.pushgateway_instance is None
    &&& !c.client_cache_enabled
    &&& c.client_cache_page_size == 1_048_576
    &&& c.client_cache_size == 21_474_836_480
    &&& string_views(c.client_cache_dirs@) == seq!["/tmp/goosefs_cache"@]
    &&& c.client_cache_evictor == CacheEvictorType::Lru
    &&& c.client_cache_async_write_enabled
    &&& c.client_cache_async_write_threads == 16
    &&& !c.client_cache_quota_enabled
    &&& c.client_cache_ttl_secs == 0
    &&& c.client_cache_uring_enabled == host.linux
    &&& c.client_cache_uring_queue_depth == 32768
    &&& c.client_cache_uring_thread_count == 2
    &&& !c.client_cache_sync_read_enabled
    &&& !c.client_cache_sequential_read_enabled
    &&& !c.metadata_cache_enabled
    &&& c.metadata_cache_max_size == 100_000
    &&& c.metadata_cache_expiration.nanos == 600_000 * 1_000_000
    &&& c.file_metadata_sync_interval == -1
    &&& c.file_metadata_load_type == LoadMetadataPType::Once
    &&& !c.range_coalesce_enabled
    &&& c.range_coalesce_gap_bytes == 65_536
    &&& c.range_coalesce_max_bytes == 4_194_304
    &&& !c.short_circuit_enabled
    &&& c.short_circuit_cache_capacity == 64
    &&& c.short_circuit_cache_ttl.nanos == 30_000 * 1_000_000
    &&& c.short_circuit_neg_cache_ttl.nanos == 5_000 * 1_000_000
    &&& c.short_circuit_advise@ == "random"@
    &&& c.short_circuit_prefetch_enabled
    &&& c.short_circuit_prefetch_coalesce_gap == 65_536
    &&& c.short_circuit_prefetch_max_batch == 1024
    &&& c.short_circuit_min_block_size == 0
    &&& c.short_circuit_sigbus_handler
    &&& !c.short_circuit_thp
}

/// Whether two configurations agree on master addresses and the root path.
pub open spec fn same_masters(a: GoosefsConfig, b: GoosefsConfig) -> bool {
    &&& a.master_addr@ == b.master_addr@
    &&& string_views(a.master_addrs@) == string_views(b.master_addrs@)
    &&& a.root@ == b.root@
}

/// Whether two configurations agree on connections and identities.
pub open spec fn same_connection(a: GoosefsConfig, b: GoosefsConfig) -> bool {
    &&& a.block_size == b.block_size
    &&& a.chunk_size == b.chunk_size
    &&& a.connect_timeout == b.connect_timeout
    &&& a.request_timeout == b.request_timeout
    &&& a.use_vpc_mapping == b.use_vpc_mapping
    &&& a.write_type == b.write_type
    &&& a.file_replication_number == b.file_replication_number
    &&& a.check_block_replicas == b.check_block_replicas
    &&& a.file_read_max_node_retry == b.file_read_max_node_retry
    &&& a.prefetch_window == b.prefetch_window
    &&& a.read_buffer_messages == b.read_buffer_messages
    &&& a.ack_interval_bytes == b.ack_interval_bytes
    &&& a.ack_interval_chunks == b.ack_interval_chunks
    &&& a.master_connection_pool_size == b.master_connection_pool_size
    &&& a.master_connection_pool_schedule == b.master_connection_pool_schedule
    &&& a.worker_connection_pool_size == b.worker_connection_pool_size
    &&& a.master_inquire_retry_max_duration == b.master_inquire_retry_max_duration
    &&& a.master_inquire_initial_sleep == b.master_inquire_initial_sleep
    &&& a.master_inquire_max_sleep == b.master_inquire_max_sleep
    &&& a.master_polling_timeout == b.master_polling_timeout
    &&& a.auth_type == b.auth_type
    &&& a.auth_username@ == b.auth_username@
    &&& a.auth_timeout == b.auth_timeout
    &&& string_views(a.config_manager_rpc_addresses@) == string_views(b.config_manager_rpc_addresses@)
    &&& a.config_rpc_port == b.config_rpc_port
    &&& a.transparent_acceleration_enabled == b.transparent_acceleration_enabled
    &&& a.transparent_acceleration_cosranger_enabled == b.transparent_acceleration_cosranger_enabled
    &&& a.authorization_permission_enabled == b.authorization_permission_enabled
    &&& a.login_impersonation_username@ == b.login_impersonation_username@
}

/// Whether two configurations agree on metrics.
pub open spec fn same_metrics(a: GoosefsConfig, b: GoosefsConfig) -> bool {
    &&& a.metrics_enabled == b.metrics_enabled
    &&& a.metrics_heartbeat_interval == b.metrics_heartbeat_interval
    &&& a.metrics_heartbeat_timeout == b.metrics_heartbeat_timeout
    &&& opt_view(a.app_id) == opt_view(b.app_id)
    &&& a.metrics_max_batch_size == b.metrics_max_batch_size
    &&& a.pushgateway_enabled == b.pushgateway_enabled
    &&& a.pushgateway_endpoint@ == b.pushgateway_endpoint@
    &&& a.pushgateway_push_interval == b.pushgateway_push_interval
    &&& a.pushgateway_job@ == b.pushgateway_job@
    &&& opt_view(a.pushgateway_instance) == opt_view(b.pushgateway_instance)
}

/// Whether two configurations agree on the local page cache.
pub open spec fn same_page_cache(a: GoosefsConfig, b: GoosefsConfig) -> bool {
    &&& a.client_cache_enabled == b.client_cache_enabled
    &&& a.client_cache_page_size == b.client_cache_page_size
    &&& a.client_cache_size == b.client_cache_size
    &&& string_views(a.client_cache_dirs@) == string_views(b.client_cache_dirs@)
    &&& a.client_cache_evictor == b.client_cache_evictor
    &&& a.client_cache_async_write_enabled == b.client_cache_async_write_enabled
    &&& a.client_cache_async_write_threads == b.client_cache_async_write_threads
    &&& a.client_cache_quota_enabled == b.client_cache_quota_enabled
    &&& a.client_cache_ttl_secs == b.client_cache_ttl_secs
    &&& a.client_cache_uring_enabled == b.client_cache_uring_enabled
    &&& a.client_cache_uring_queue_depth == b.client_cache_uring_queue_depth
    &&& a.client_cache_uring_thread_count == b.client_cache_uring_thread_count
    &&& a.client_cache_sync_read_enabled == b.client_cache_sync_read_enabled
    &&& a.client_cache_sequential_read_enabled == b.client_cache_sequential_read_enabled
}

/// Whether two configurations agree on cached metadata and coalesced ranges.
pub open spec fn same_metadata(a: GoosefsConfig, b: GoosefsConfig) -> bool {
    &&& a.metadata_cache_enabled == b.metadata_cache_enabled
    &&& a.metadata_cache_max_size == b.metadata_cache_max_size
    &&& a.metadata_cache_expiration == b.metadata_cache_expiration
    &&& a.file_metadata_sync_interval == b.file_metadata_sync_interval
    &&& a.file_metadata_load_type == b.file_metadata_load_type
    &&& a.range_coalesce_enabled == b.range_coalesce_enabled
    &&& a.range_coalesce_gap_bytes == b.range_coalesce_gap_bytes
    &&& a.range_coalesce_max_bytes == b.range_coalesce_max_bytes
}

/// Whether two configurations agree on short-circuit reads.
pub open spec fn same_short_circuit(a: GoosefsConfig, b: GoosefsConfig) -> bool {
    &&& a.short_circuit_enabled == b.short_circuit_enabled
    &&& a.short_circuit_cache_capacity == b.short_circuit_cache_capacity
    &&& a.short_circuit_cache_ttl == b.short_circuit_cache_ttl
    &&& a.short_circuit_neg_cache_ttl == b.short_circuit_neg_cache_ttl
    &&& a.short_circuit_advise@ == b.short_circuit_advise@
    &&& a.short_circuit_prefetch_enabled == b.short_circuit_prefetch_enabled
    &&& a.short_circuit_prefetch_coalesce_gap == b.short_circuit_prefetch_coalesce_gap
    &&& a.short_circuit_prefetch_max_batch == b.short_circuit_prefetch_max_batch
    &&& a.short_circuit_min_block_size == b.short_circuit_min_block_size
    &&& a.short_circuit_sigbus_handler == b.short_circuit_sigbus_handler
    &&& a.short_circuit_thp == b.short_circuit_thp
}

/// Whether two configurations hold the same values.
pub open spec fn same_config(a: GoosefsConfig, b: GoosefsConfig) -> bool {
    &&& same_masters(a, b)
    &&& same_connection(a, b)
    &&& same_metrics(a, b)
    &&& same_page_cache(a, b)
    &&& same_metadata(a, b)
    &&& same_short_circuit(a, b)
}

impl GoosefsConfig {
    /// The default configuration on `host`.
    pub fn default_on(host: &HostEnv) -> (r: Self)
        ensures
            is_default(r, *host),
    {
        let master_addrs: Vec<String> = Vec::new();
        let config_manager_rpc_addresses: Vec<String> = Vec::new();
        proof {
            assert(string_views(master_addrs@) =~= Seq::<Seq<char>>::empty());
            assert(string_views(config_manager_rpc_addresses@) =~= Seq::<Seq<char>>::empty());
        }
        GoosefsConfig {
            master_addr: "127.0.0.1:9200".to_owned(),
            master_addrs,
            block_size: 67_108_864,
            chunk_size: 1_048_576,
            connect_timeout: Duration::from_millis(30_000),
            request_timeout: Duration::from_millis(300_000),
            use_vpc_mapping: false,
            root: String::new(),
            write_type: None,
            file_replication_number: default_file_replication_number(),
            check_block_replicas: default_check_block_replicas(),
            file_read_max_node_retry: default_file_read_max_node_retry(),
            prefetch_window: default_prefetch_window(),
            read_buffer_messages: default_read_buffer_messages(),
            ack_interval_bytes: default_ack_interval_bytes(),
            ack_interval_chunks: default_ack_interval_chunks(),
            master_connection_pool_size: default_master_connection_pool_size(),
            master_connection_pool_schedule: MasterPoolSchedule::default(),
            worker_connection_pool_size: default_worker_connection_pool_size(host),
            master_inquire_retry_max_duration: default_master_inquire_max_duration(),
            master_inquire_initial_sleep: default_master_inquire_initial_sleep(),
            master_inquire_max_sleep: default_master_inquire_max_sleep(),
            master_polling_timeout: default_master_polling_timeout(),
            auth_type: AuthType::default(),
            auth_username: default_auth_username(host),
            auth_timeout: default_auth_timeout(),
            config_manager_rpc_addresses,
            config_rpc_port: default_config_rpc_port(),
            transparent_acceleration_enabled: default_transparent_acceleration_enabled(),
            transparent_acceleration_cosranger_enabled: false,
            authorization_permission_enabled: false,
            login_impersonation_username: default_login_impersonation_username(),
            metrics_enabled: default_metrics_enabled(),
            metrics_heartbeat_interval: default_metrics_heartbeat_interval(),
            metrics_heartbeat_timeout: default_metrics_heartbeat_timeout(),
            app_id: None,
            metrics_max_batch_size: default_metrics_max_batch_size(),
            pushgateway_enabled: false,
            pushgateway_endpoint: default_pushgateway_endpoint(),
            pushgateway_push_interval: default_pushgateway_push_interval(),
            pushgateway_job: default_pushgateway_job(),
            pushgateway_instance: None,
            client_cache_enabled: false,
            client_cache_page_size: default_client_cache_page_size(),
            client_cache_size: default_client_cache_size(),
            client_cache_dirs: default_client_cache_dirs(),
            client_cache_evictor: CacheEvictorType::default(),
            client_cache_async_write_enabled: default_true_bool(),
            client_cache_async_write_threads: default_client_cache_async_write_threads(),
            client_cache_quota_enabled: false,
            client_cache_ttl_secs: 0,
            client_cache_uring_enabled: default_client_cache_uring_enabled(host),
            client_cache_uring_queue_depth: default_client_cache_uring_queue_depth(),
            client_cache_uring_thread_count: default_client_cache_uring_thread_count(),
            client_cache_sync_read_enabled: false,
            client_cache_sequential_read_enabled: false,
            metadata_cache_enabled: default_false_bool(),
            metadata_cache_max_size: default_metadata_cache_max_size(),
            metadata_cache_expiration: default_metadata_cache_expiration(),
            file_metadata_sync_interval: default_file_metadata_sync_interval(),
            file_metadata_load_type: default_file_metadata_load_type(),
            range_coalesce_enabled: false,
            range_coalesce_gap_bytes: default_range_coalesce_gap_bytes(),
            range_coalesce_max_bytes: default_range_coalesce_max_bytes(),
            short_circuit_enabled: default_false_bool(),
            short_circuit_cache_capacity: default_short_circuit_cache_capacity(),
            short_circuit_cache_ttl: default_short_circuit_cache_ttl(),
            short_circuit_neg_cache_ttl: default_short_circuit_neg_cache_ttl(),
            short_circuit_advise: default_short_circuit_advise(),
            short_circuit_prefetch_enabled: default_true_bool(),
            short_circuit_prefetch_coalesce_gap: default_short_circuit_prefetch_coalesce_gap(),
            short_circuit_prefetch_max_batch: default_short_circuit_prefetch_max_batch(),
            short_circuit_min_block_size: 0,
            short_circuit_sigbus_handler: default_true_bool(),
            short_circuit_thp: false,
        }
    }
}

/// A pool has as many connections as the host has cores, but never fewer than 1 and never
/// more than 4.
pub proof fn law_default_pool_size(n: usize)
    ensures
        default_pool_size(None) == 1,
        n == 0 ==> default_pool_size(Some(n)) == 1,
        1 <= default_pool_size(Some(n)) <= 4,
        1 <= n <= 4 ==> default_pool_size(Some(n)) == n,
        n >= 4 ==> default_pool_size(Some(n)) == 4,
{
}

/// What a client does without any configuration: blocks of 64 MiB in chunks of 1 MiB, a
/// connection within 30 seconds and an answer within 5 minutes, one replica, up to three
/// workers tried, one connection to the master at 127.0.0.1:9200, simple authentication as
/// the user who is logged in, metrics every 10 seconds, and no caches, no merged ranges and
/// no local reads.
pub proof fn law_defaults(c: GoosefsConfig, host: HostEnv)
    requires
        is_default(c, host),
    ensures
        c.master_addr@ == "127.0.0.1:9200"@,
        c.master_addrs@.len() == 0,
        c.root@.len() == 0,
        c.block_size == 64 * 1024 * 1024,
        c.chunk_size == 1024 * 1024,
        c.connect_timeout.nanos == 30 * 1_000_000_000,
        c.request_timeout.nanos == 5 * 60 * 1_000_000_000,
        c.write_type is None,
        c.file_replication_number == 1,
        c.check_block_replicas == 0,
        c.file_read_max_node_retry == 3,
        c.prefetch_window == 8,
        c.read_buffer_messages == 16,
        c.ack_interval_bytes == 0,
        c.ack_interval_chunks == 1,
        c.master_connection_pool_size == 1,
        c.master_connection_pool_schedule is RoundRobin,
        !c.use_vpc_mapping,
        host.cores is None ==> c.worker_connection_pool_size == 1,
        host.cores matches Some(n) ==> 1 <= c.worker_connection_pool_size <= 4 && (1 <= n <= 4
            ==> c.worker_connection_pool_size == n) && (n > 4 ==> c.worker_connection_pool_size
            == 4),
        c.master_inquire_retry_max_duration.nanos == 2 * 60 * 1_000_000_000,
        c.master_inquire_initial_sleep.nanos == 50 * 1_000_000,
        c.master_inquire_max_sleep.nanos == 3 * 1_000_000_000,
        c.config_manager_rpc_addresses@.len() == 0,
        c.login_impersonation_username@ == "_HDFS_USER_"@,
        c.app_id is None,
        c.metrics_max_batch_size == 1024,
        c.pushgateway_endpoint@ == "http://127.0.0.1:9091"@,
        c.pushgateway_job@ == "goosefs_client"@,
        c.pushgateway_instance is None,
        string_views(c.client_cache_dirs@) == seq!["/tmp/goosefs_cache"@],
        !c.client_cache_quota_enabled,
        c.client_cache_uring_queue_depth == 32 * 1024,
        c.client_cache_uring_thread_count == 2,
        !c.client_cache_sync_read_enabled,
        c.short_circuit_min_block_size == 0,
        c.master_polling_timeout.nanos == 30 * 1_000_000_000,
        c.auth_type is Simple,
        c.auth_username@ == login_name(host.vars@),
        c.auth_timeout.nanos == 30 * 1_000_000_000,
        c.config_rpc_port == 9214,
        c.transparent_acceleration_enabled,
        !c.transparent_acceleration_cosranger_enabled,
        !c.authorization_permission_enabled,
        c.metrics_enabled,
        c.metrics_heartbeat_interval.nanos == 10 * 1_000_000_000,
        c.metrics_heartbeat_timeout.nanos == 5 * 1_000_000_000,
        !c.pushgateway_enabled,
        c.pushgateway_push_interval.nanos == 10 * 1_000_000_000,
        !c.client_cache_enabled,
        c.client_cache_page_size == 1024 * 1024,
        c.client_cache_size == 20 * 1024 * 1024 * 1024,
        c.client_cache_evictor is Lru,
        c.client_cache_async_write_enabled,
        c.client_cache_async_write_threads == 16,
        c.client_cache_ttl_secs == 0,
        c.client_cache_uring_enabled == host.linux,
        !c.client_cache_sequential_read_enabled,
        !c.metadata_cache_enabled,
        c.metadata_cache_max_size == 100_000,
        c.metadata_cache_expiration.nanos == 10 * 60 * 1_000_000_000,
        c.file_metadata_sync_interval == -1,
        c.file_metadata_load_type is Once,
        !c.range_coalesce_enabled,
        c.range_coalesce_gap_bytes == 64 * 1024,
        c.range_coalesce_max_bytes == 4 * 1024 * 1024,
        !c.short_circuit_enabled,
        c.short_circuit_cache_capacity == 64,
        c.short_circuit_cache_ttl.nanos == 30 * 1_000_000_000,
        c.short_circuit_neg_cache_ttl.nanos == 5 * 1_000_000_000,
        c.short_circuit_advise@ == "random"@,
        c.short_circuit_prefetch_enabled,
        c.short_circuit_prefetch_coalesce_gap == 64 * 1024,
        c.short_circuit_prefetch_max_batch == 1024,
        c.short_circuit_sigbus_handler,
        !c.short_circuit_thp,
{
    assert(string_views(c.master_addrs@).len() == c.master_addrs@.len());
    assert(string_views(c.config_manager_rpc_addresses@).len()
        == c.config_manager_rpc_addresses@.len());
}

} // verus!
