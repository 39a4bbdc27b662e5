//! Configuration from environment variables.

use vstd::prelude::*;
use vstd::string::*;

use crate::config::client::{
    is_default, same_config, same_connection, same_masters, same_metadata, same_metrics,
    same_page_cache, same_short_circuit, GoosefsConfig,
};
use crate::config::host::HostEnv;
use crate::config::keys::{
    ENV_MASTER_ADDR, ENV_BLOCK_SIZE, ENV_CHUNK_SIZE, ENV_WRITE_TYPE,
    ENV_FILE_REPLICATION_NUMBER, ENV_CHECK_BLOCK_REPLICAS, ENV_FILE_READ_MAX_NODE_RETRY,
    ENV_MASTER_CONNECTION_POOL_SIZE, ENV_MASTER_POOL_SCHEDULE, ENV_WORKER_CONNECTION_POOL_SIZE,
    ENV_AUTH_TYPE, ENV_AUTH_USERNAME, ENV_CONFIG_MANAGER_RPC_ADDRESSES, ENV_CONFIG_RPC_PORT,
    ENV_TRANSPARENT_ACCELERATION_ENABLED, ENV_TRANSPARENT_ACCELERATION_COSRANGER_ENABLED,
    ENV_AUTHORIZATION_PERMISSION_ENABLED, ENV_LOGIN_IMPERSONATION_USERNAME, ENV_METRICS_ENABLED,
    ENV_METRICS_HEARTBEAT_INTERVAL_MS, ENV_APP_ID, ENV_PUSHGATEWAY_ENABLED,
    ENV_PUSHGATEWAY_ENDPOINT, ENV_PUSHGATEWAY_PUSH_INTERVAL_MS, ENV_PUSHGATEWAY_JOB,
    ENV_PUSHGATEWAY_INSTANCE, ENV_CLIENT_CACHE_ENABLED, ENV_CLIENT_CACHE_PAGE_SIZE,
    ENV_CLIENT_CACHE_SIZE, ENV_CLIENT_CACHE_DIRS, ENV_CLIENT_CACHE_EVICTOR,
    ENV_CLIENT_CACHE_ASYNC_WRITE_ENABLED, ENV_CLIENT_CACHE_ASYNC_WRITE_THREADS,
    ENV_CLIENT_CACHE_QUOTA_ENABLED, ENV_CLIENT_CACHE_TTL_SECS, ENV_CLIENT_CACHE_URING_ENABLED,
    ENV_CLIENT_CACHE_URING_QUEUE_DEPTH, ENV_CLIENT_CACHE_URING_THREAD_COUNT,
    ENV_CLIENT_CACHE_SYNC_READ_ENABLED, ENV_CLIENT_CACHE_SEQUENTIAL_READ_ENABLED,
    ENV_METADATA_CACHE_ENABLED, ENV_METADATA_CACHE_MAX_SIZE, ENV_METADATA_CACHE_EXPIRATION,
    ENV_FILE_METADATA_SYNC_INTERVAL, ENV_FILE_METADATA_LOAD_TYPE, ENV_SHORT_CIRCUIT_ENABLED,
    ENV_SHORT_CIRCUIT_CACHE_CAPACITY, ENV_SHORT_CIRCUIT_CACHE_TTL_MS,
    ENV_SHORT_CIRCUIT_NEG_CACHE_TTL_MS, ENV_SHORT_CIRCUIT_ADVISE,
    ENV_SHORT_CIRCUIT_PREFETCH_ENABLED, ENV_SHORT_CIRCUIT_PREFETCH_COALESCE_GAP,
    ENV_SHORT_CIRCUIT_PREFETCH_MAX_BATCH, ENV_SHORT_CIRCUIT_MIN_BLOCK_SIZE,
    ENV_SHORT_CIRCUIT_SIGBUS_HANDLER, ENV_SHORT_CIRCUIT_THP,
};
use crate::config::kinds::ascii_uppercase;
use crate::config::settings::{
    auth_type_at, count_at, evictor_at, holds, int_at, is_plain_item, lemma_entry_values,
    lemma_list_entries, list_at, load_type_at, millis_nanos_at, opt_view, or, same_entry,
    schedule_at, strict_switch_at, switch_at, text_at, time_at, time_nanos_at, value_at,
    word_switch_at, write_type_at, Settings,
};
use crate::config::uri::{law_uri_addresses, parse_gfs_uri, uri_addresses, uri_root};
use crate::text::{
    ascii_lowercase, comma_list, drop_leading, has_prefix, is_white_space, law_prefix,
    law_trim_drops_white_space_at_the_ends, lemma_span_is, list_items, signed_decimal, starts_with,
    string_views, trim, trim_start, trimmed, white,
};

verus! {

/// The addresses that the text of `GOOSEFS_MASTER_ADDR` names: those of a URI
/// where it begins with `gfs://`, else the items of the list that it is.
pub open spec fn env_addresses(v: Seq<char>) -> Seq<Seq<char>> {
    if has_prefix(drop_leading(v, white()), "gfs://"@) {
        if has_prefix(trimmed(v), "gfs://"@) {
            uri_addresses(trimmed(v))
        } else {
            Seq::empty()
        }
    } else {
        list_items(v)
    }
}

/// The root path that the text of `GOOSEFS_MASTER_ADDR` names: that of a URI
/// that also names an address.
pub open spec fn env_root(v: Seq<char>) -> Seq<char> {
    if has_prefix(drop_leading(v, white()), "gfs://"@) && env_addresses(v).len() > 0 {
        uri_root(trimmed(v))
    } else {
        Seq::empty()
    }
}

/// How `GOOSEFS_MASTER_ADDR` changes the addresses and the root path: a text
/// that names no address changes nothing; one address clears the list of all
/// addresses; an empty root path leaves the earlier one.
pub open spec fn masters_applied(
    m: Map<Seq<char>, Seq<char>>,
    before: GoosefsConfig,
    after: GoosefsConfig,
) -> bool {
    match value_at(m, ENV_MASTER_ADDR@) {
        Some(v) => if env_addresses(v).len() > 0 {
            &&& after.master_addr@ == env_addresses(v)[0]
            &&& string_views(after.master_addrs@) == (if env_addresses(v).len() > 1 {
                env_addresses(v)
            } else {
                Seq::empty()
            })
            &&& after.root@ == (if env_root(v).len() > 0 {
                env_root(v)
            } else {
                before.root@
            })
        } else {
            masters_kept(before, after)
        },
        None => masters_kept(before, after),
    }
}

/// Whether the addresses and the root path are the same.
pub open spec fn masters_kept(before: GoosefsConfig, after: GoosefsConfig) -> bool {
    &&& after.master_addr@ == before.master_addr@
    &&& string_views(after.master_addrs@) == string_views(before.master_addrs@)
    &&& after.root@ == before.root@
}

/// How the environment variables `m` change the fields of connections and identities.
pub open spec fn connection_applied(
    m: Map<Seq<char>, Seq<char>>,
    before: GoosefsConfig,
    after: GoosefsConfig,
) -> bool {
    &&& after.block_size == or(int_at(m, ENV_BLOCK_SIZE@, 0, u64::MAX as int, 0), before.block_size as int)
    &&& after.chunk_size == or(int_at(m, ENV_CHUNK_SIZE@, 0, u64::MAX as int, 0), before.chunk_size as int)
    &&& after.connect_timeout == before.connect_timeout
    &&& after.request_timeout == before.request_timeout
    &&& after.use_vpc_mapping == before.use_vpc_mapping
    &&& after.write_type == or(write_type_at(m, ENV_WRITE_TYPE@), before.write_type)
    &&& after.file_replication_number == or(int_at(m, ENV_FILE_REPLICATION_NUMBER@, i32::MIN as int, i32::MAX as int, 1), before.file_replication_number as int)
    &&& after.check_block_replicas == or(int_at(m, ENV_CHECK_BLOCK_REPLICAS@, i32::MIN as int, i32::MAX as int, 0), before.check_block_replicas as int)
    &&& after.file_read_max_node_retry == or(int_at(m, ENV_FILE_READ_MAX_NODE_RETRY@, i32::MIN as int, i32::MAX as int, 1), before.file_read_max_node_retry as int)
    &&& after.prefetch_window == before.prefetch_window
    &&& after.read_buffer_messages == before.read_buffer_messages
    &&& after.ack_interval_bytes == before.ack_interval_bytes
    &&& after.ack_interval_chunks == before.ack_interval_chunks
    &&& after.master_connection_pool_size == or(count_at(m, ENV_MASTER_CONNECTION_POOL_SIZE@), before.master_connection_pool_size as int)
    &&& after.master_connection_pool_schedule == or(schedule_at(m, ENV_MASTER_POOL_SCHEDULE@), before.master_connection_pool_schedule)
    &&& after.worker_connection_pool_size == or(count_at(m, ENV_WORKER_CONNECTION_POOL_SIZE@), before.worker_connection_pool_size as int)
    &&& after.master_inquire_retry_max_duration == before.master_inquire_retry_max_duration
    &&& after.master_inquire_initial_sleep == before.master_inquire_initial_sleep
    &&& after.master_inquire_max_sleep == before.master_inquire_max_sleep
    &&& after.master_polling_timeout == before.master_polling_timeout
    &&& after.auth_type == or(auth_type_at(m, ENV_AUTH_TYPE@), before.auth_type)
    &&& after.auth_username@ == or(text_at(m, ENV_AUTH_USERNAME@), before.auth_username@)
    &&& after.auth_timeout == before.auth_timeout
    &&& string_views(after.config_manager_rpc_addresses@) == or(list_at(m, ENV_CONFIG_MANAGER_RPC_ADDRESSES@), string_views(before.config_manager_rpc_addresses@))
    &&& after.config_rpc_port == or(int_at(m, ENV_CONFIG_RPC_PORT@, 0, u16::MAX as int, 0), before.config_rpc_port as int)
    &&& after.transparent_acceleration_enabled == or(strict_switch_at(m, ENV_TRANSPARENT_ACCELERATION_ENABLED@), before.transparent_acceleration_enabled)
    &&& after.transparent_acceleration_cosranger_enabled == or(strict_switch_at(m, ENV_TRANSPARENT_ACCELERATION_COSRANGER_ENABLED@), before.transparent_acceleration_cosranger_enabled)
    &&& after.authorization_permission_enabled == or(strict_switch_at(m, ENV_AUTHORIZATION_PERMISSION_ENABLED@), before.authorization_permission_enabled)
    &&& after.login_impersonation_username@ == or(text_at(m, ENV_LOGIN_IMPERSONATION_USERNAME@), before.login_impersonation_username@)
}

/// How the environment variables `m` change the fields of metrics.
pub open spec fn metrics_applied(
    m: Map<Seq<char>, Seq<char>>,
    before: GoosefsConfig,
    after: GoosefsConfig,
) -> bool {
    &&& after.metrics_enabled == or(word_switch_at(m, ENV_METRICS_ENABLED@), before.metrics_enabled)
    &&& after.metrics_heartbeat_interval.nanos == or(millis_nanos_at(m, ENV_METRICS_HEARTBEAT_INTERVAL_MS@, 1000), before.metrics_heartbeat_interval.nanos as int)
    &&& after.metrics_heartbeat_timeout == before.metrics_heartbeat_timeout
    &&& opt_view(after.app_id) == (match text_at(m, ENV_APP_ID@) {
        Some(v) => Some(v),
        None => opt_view(before.app_id),
    })
    &&& after.metrics_max_batch_size == before.metrics_max_batch_size
    &&& after.pushgateway_enabled == or(word_switch_at(m, ENV_PUSHGATEWAY_ENABLED@), before.pushgateway_enabled)
    &&& after.pushgateway_endpoint@ == or(text_at(m, ENV_PUSHGATEWAY_ENDPOINT@), before.pushgateway_endpoint@)
    &&& after.pushgateway_push_interval.nanos == or(millis_nanos_at(m, ENV_PUSHGATEWAY_PUSH_INTERVAL_MS@, 1000), before.pushgateway_push_interval.nanos as int)
    &&& after.pushgateway_job@ == or(text_at(m, ENV_PUSHGATEWAY_JOB@), before.pushgateway_job@)
    &&& opt_view(after.pushgateway_instance) == (match text_at(m, ENV_PUSHGATEWAY_INSTANCE@) {
        Some(v) => Some(v),
        None => opt_view(before.pushgateway_instance),
    })
}

/// How the environment variables `m` change the fields of the local page cache.
pub open spec fn page_cache_applied(
    m: Map<Seq<char>, Seq<char>>,
    before: GoosefsConfig,
    after: GoosefsConfig,
) -> bool {
    &&& after.client_cache_enabled == or(word_switch_at(m, ENV_CLIENT_CACHE_ENABLED@), before.client_cache_enabled)
    &&& after.client_cache_page_size == or(int_at(m, ENV_CLIENT_CACHE_PAGE_SIZE@, 0, u64::MAX as int, 1), before.client_cache_page_size as int)
    &&& after.client_cache_size == or(int_at(m, ENV_CLIENT_CACHE_SIZE@, 0, u64::MAX as int, 0), before.client_cache_size as int)
    &&& string_views(after.client_cache_dirs@) == or(list_at(m, ENV_CLIENT_CACHE_DIRS@), string_views(before.client_cache_dirs@))
    &&& after.client_cache_evictor == or(evictor_at(m, ENV_CLIENT_CACHE_EVICTOR@), before.client_cache_evictor)
    &&& after.client_cache_async_write_enabled == or(word_switch_at(m, ENV_CLIENT_CACHE_ASYNC_WRITE_ENABLED@), before.client_cache_async_write_enabled)
    &&& after.client_cache_async_write_threads == or(int_at(m, ENV_CLIENT_CACHE_ASYNC_WRITE_THREADS@, 0, usize::MAX as int, 1), before.client_cache_async_write_threads as int)
    &&& after.client_cache_quota_enabled == or(word_switch_at(m, ENV_CLIENT_CACHE_QUOTA_ENABLED@), before.client_cache_quota_enabled)
    &&& after.client_cache_ttl_secs == or(int_at(m, ENV_CLIENT_CACHE_TTL_SECS@, 0, u64::MAX as int, 0), before.client_cache_ttl_secs as int)
    &&& after.client_cache_uring_enabled == or(word_switch_at(m, ENV_CLIENT_CACHE_URING_ENABLED@), before.client_cache_uring_enabled)
    &&& after.client_cache_uring_queue_depth == or(int_at(m, ENV_CLIENT_CACHE_URING_QUEUE_DEPTH@, 0, usize::MAX as int, 1), before.client_cache_uring_queue_depth as int)
    &&& after.client_cache_uring_thread_count == or(int_at(m, ENV_CLIENT_CACHE_URING_THREAD_COUNT@, 0, usize::MAX as int, 1), before.client_cache_uring_thread_count as int)
    &&& after.client_cache_sync_read_enabled == or(word_switch_at(m, ENV_CLIENT_CACHE_SYNC_READ_ENABLED@), before.client_cache_sync_read_enabled)
    &&& after.client_cache_sequential_read_enabled == or(word_switch_at(m, ENV_CLIENT_CACHE_SEQUENTIAL_READ_ENABLED@), before.client_cache_sequential_read_enabled)
}

/// How the environment variables `m` change the fields of cached metadata and coalesced ranges.
pub open spec fn metadata_applied(
    m: Map<Seq<char>, Seq<char>>,
    before: GoosefsConfig,
    after: GoosefsConfig,
) -> bool {
    &&& after.metadata_cache_enabled == or(switch_at(m, ENV_METADATA_CACHE_ENABLED@), before.metadata_cache_enabled)
    &&& after.metadata_cache_max_size == or(count_at(m, ENV_METADATA_CACHE_MAX_SIZE@), before.metadata_cache_max_size as int)
    &&& after.metadata_cache_expiration.nanos == or(time_nanos_at(m, ENV_METADATA_CACHE_EXPIRATION@), before.metadata_cache_expiration.nanos as int)
    &&& after.file_metadata_sync_interval == or(time_at(m, ENV_FILE_METADATA_SYNC_INTERVAL@), before.file_metadata_sync_interval as int)
    &&& after.file_metadata_load_type == or(load_type_at(m, ENV_FILE_METADATA_LOAD_TYPE@), before.file_metadata_load_type)
    &&& after.range_coalesce_enabled == before.range_coalesce_enabled
    &&& after.range_coalesce_gap_bytes == before.range_coalesce_gap_bytes
    &&& after.range_coalesce_max_bytes == before.range_coalesce_max_bytes
}

/// How the environment variables `m` change the fields of short-circuit reads.
pub open spec fn short_circuit_applied(
    m: Map<Seq<char>, Seq<char>>,
    before: GoosefsConfig,
    after: GoosefsConfig,
) -> bool {
    &&& after.short_circuit_enabled == or(word_switch_at(m, ENV_SHORT_CIRCUIT_ENABLED@), before.short_circuit_enabled)
    &&& after.short_circuit_cache_capacity == or(int_at(m, ENV_SHORT_CIRCUIT_CACHE_CAPACITY@, 0, usize::MAX as int, 0), before.short_circuit_cache_capacity as int)
    &&& after.short_circuit_cache_ttl.nanos == or(millis_nanos_at(m, ENV_SHORT_CIRCUIT_CACHE_TTL_MS@, 0), before.short_circuit_cache_ttl.nanos as int)
    &&& after.short_circuit_neg_cache_ttl.nanos == or(millis_nanos_at(m, ENV_SHORT_CIRCUIT_NEG_CACHE_TTL_MS@, 0), before.short_circuit_neg_cache_ttl.nanos as int)
    &&& after.short_circuit_advise@ == or(text_at(m, ENV_SHORT_CIRCUIT_ADVISE@), before.short_circuit_advise@)
    &&& after.short_circuit_prefetch_enabled == or(word_switch_at(m, ENV_SHORT_CIRCUIT_PREFETCH_ENABLED@), before.short_circuit_prefetch_enabled)
    &&& after.short_circuit_prefetch_coalesce_gap == or(int_at(m, ENV_SHORT_CIRCUIT_PREFETCH_COALESCE_GAP@, 0, usize::MAX as int, 0), before.short_circuit_prefetch_coalesce_gap as int)
    &&& after.short_circuit_prefetch_max_batch == or(int_at(m, ENV_SHORT_CIRCUIT_PREFETCH_MAX_BATCH@, 0, usize::MAX as int, 0), before.short_circuit_prefetch_max_batch as int)
    &&& after.short_circuit_min_block_size == or(int_at(m, ENV_SHORT_CIRCUIT_MIN_BLOCK_SIZE@, i64::MIN as int, i64::MAX as int, i64::MIN as int), before.short_circuit_min_block_size as int)
    &&& after.short_circuit_sigbus_handler == or(word_switch_at(m, ENV_SHORT_CIRCUIT_SIGBUS_HANDLER@), before.short_circuit_sigbus_handler)
    &&& after.short_circuit_thp == or(word_switch_at(m, ENV_SHORT_CIRCUIT_THP@), before.short_circuit_thp)
}

/// How the environment variables `m` change a configuration: each field takes
/// the value that its variable denotes, and stays where the variable is not set or
/// denotes no value.
pub open spec fn env_applied(
    m: Map<Seq<char>, Seq<char>>,
    before: GoosefsConfig,
    after: GoosefsConfig,
) -> bool {
    &&& masters_applied(m, before, after)
    &&& connection_applied(m, before, after)
    &&& metrics_applied(m, before, after)
    &&& page_cache_applied(m, before, after)
    &&& metadata_applied(m, before, after)
    &&& short_circuit_applied(m, before, after)
}

/// The addresses and the root path that the variables give.
fn masters_from_env(
    vars: &Settings,
    master_addr: String,
    master_addrs: Vec<String>,
    root: String,
) -> (r: (String, Vec<String>, String))
    ensures
        match value_at(vars@, ENV_MASTER_ADDR@) {
            Some(v) => if env_addresses(v).len() > 0 {
                &&& r.0@ == env_addresses(v)[0]
                &&& string_views(r.1@) == (if env_addresses(v).len() > 1 {
                    env_addresses(v)
                } else {
                    Seq::empty()
                })
                &&& r.2@ == (if env_root(v).len() > 0 {
                    env_root(v)
                } else {
                    root@
                })
            } else {
                r == (master_addr, master_addrs, root)
            },
            None => r == (master_addr, master_addrs, root),
        },
{
    match vars.get(ENV_MASTER_ADDR) {
        None => (master_addr, master_addrs, root),
        Some(v) => {
            let none: Vec<String> = Vec::new();
            proof {
                assert(string_views(none@) =~= Seq::<Seq<char>>::empty());
            }
            if starts_with(trim_start(v), "gfs://") {
                match parse_gfs_uri(trim(v)) {
                    Ok((addrs, uri_path)) => {
                        proof {
                            assert(string_views(addrs@)[0] == addrs@[0]@);
                        }
                        let first: String = addrs[0].clone();
                        let all: Vec<String> = if addrs.len() > 1 {
                            addrs
                        } else {
                            none
                        };
                        let path: String = if uri_path.as_str().is_empty() {
                            root
                        } else {
                            uri_path
                        };
                        (first, all, path)
                    },
                    Err(_) => (master_addr, master_addrs, root),
                }
            } else {
                let addrs: Vec<String> = comma_list(v);
                proof {
                    assert(string_views(addrs@).len() == addrs@.len());
                }
                if addrs.len() == 0 {
                    (master_addr, master_addrs, root)
                } else {
                    proof {
                        assert(string_views(addrs@)[0] == addrs@[0]@);
                    }
                    let first: String = addrs[0].clone();
                    let all: Vec<String> = if addrs.len() > 1 {
                        addrs
                    } else {
                        none
                    };
                    (first, all, root)
                }
            }
        },
    }
}

impl GoosefsConfig {
    /// The configuration with the environment variables of `host` applied: a
    /// variable that is set, and denotes a value, overrides its field.
    pub fn apply_env(self, host: &HostEnv) -> (r: Self)
        ensures
            env_applied(host.vars@, self, r),
    {
        let vars: &Settings = &host.vars;
        let (master_addr, master_addrs, root) = masters_from_env(
            vars,
            self.master_addr,
            self.master_addrs,
            self.root,
        );
        GoosefsConfig {
            master_addr,
            master_addrs,
            root,
            block_size: vars.u64_or(ENV_BLOCK_SIZE, 0, self.block_size),
            chunk_size: vars.u64_or(ENV_CHUNK_SIZE, 0, self.chunk_size),
            connect_timeout: self.connect_timeout,
            request_timeout: self.request_timeout,
            use_vpc_mapping: self.use_vpc_mapping,
            write_type: vars.write_type_or(ENV_WRITE_TYPE, self.write_type),
            file_replication_number: vars.i32_or(ENV_FILE_REPLICATION_NUMBER, 1, self.file_replication_number),
            check_block_replicas: vars.i32_or(ENV_CHECK_BLOCK_REPLICAS, 0, self.check_block_replicas),
            file_read_max_node_retry: vars.i32_or(ENV_FILE_READ_MAX_NODE_RETRY, 1, self.file_read_max_node_retry),
            prefetch_window: self.prefetch_window,
            read_buffer_messages: self.read_buffer_messages,
            ack_interval_bytes: self.ack_interval_bytes,
            ack_interval_chunks: self.ack_interval_chunks,
            master_connection_pool_size: vars.count_or(ENV_MASTER_CONNECTION_POOL_SIZE, self.master_connection_pool_size),
            master_connection_pool_schedule: vars.schedule_or(ENV_MASTER_POOL_SCHEDULE, self.master_connection_pool_schedule),
            worker_connection_pool_size: vars.count_or(ENV_WORKER_CONNECTION_POOL_SIZE, self.worker_connection_pool_size),
            master_inquire_retry_max_duration: self.master_inquire_retry_max_duration,
            master_inquire_initial_sleep: self.master_inquire_initial_sleep,
            master_inquire_max_sleep: self.master_inquire_max_sleep,
            master_polling_timeout: self.master_polling_timeout,
            auth_type: vars.auth_type_or(ENV_AUTH_TYPE, self.auth_type),
            auth_username: vars.text_or(ENV_AUTH_USERNAME, self.auth_username),
            auth_timeout: self.auth_timeout,
            config_manager_rpc_addresses: vars.list_or(ENV_CONFIG_MANAGER_RPC_ADDRESSES, self.config_manager_rpc_addresses),
            config_rpc_port: vars.u16_or(ENV_CONFIG_RPC_PORT, self.config_rpc_port),
            transparent_acceleration_enabled: vars.strict_switch_or(ENV_TRANSPARENT_ACCELERATION_ENABLED, self.transparent_acceleration_enabled),
            transparent_acceleration_cosranger_enabled: vars.strict_switch_or(ENV_TRANSPARENT_ACCELERATION_COSRANGER_ENABLED, self.transparent_acceleration_cosranger_enabled),
            authorization_permission_enabled: vars.strict_switch_or(ENV_AUTHORIZATION_PERMISSION_ENABLED, self.authorization_permission_enabled),
            login_impersonation_username: vars.text_or(ENV_LOGIN_IMPERSONATION_USERNAME, self.login_impersonation_username),
            metrics_enabled: vars.word_switch_or(ENV_METRICS_ENABLED, self.metrics_enabled),
            metrics_heartbeat_interval: vars.millis_or(ENV_METRICS_HEARTBEAT_INTERVAL_MS, 1000, self.metrics_heartbeat_interval),
            metrics_heartbeat_timeout: self.metrics_heartbeat_timeout,
            app_id: vars.some_text_or(ENV_APP_ID, self.app_id),
            metrics_max_batch_size: self.metrics_max_batch_size,
            pushgateway_enabled: vars.word_switch_or(ENV_PUSHGATEWAY_ENABLED, self.pushgateway_enabled),
            pushgateway_endpoint: vars.text_or(ENV_PUSHGATEWAY_ENDPOINT, self.pushgateway_endpoint),
            pushgateway_push_interval: vars.millis_or(ENV_PUSHGATEWAY_PUSH_INTERVAL_MS, 1000, self.pushgateway_push_interval),
            pushgateway_job: vars.text_or(ENV_PUSHGATEWAY_JOB, self.pushgateway_job),
            pushgateway_instance: vars.some_text_or(ENV_PUSHGATEWAY_INSTANCE, self.pushgateway_instance),
            client_cache_enabled: vars.word_switch_or(ENV_CLIENT_CACHE_ENABLED, self.client_cache_enabled),
            client_cache_page_size: vars.u64_or(ENV_CLIENT_CACHE_PAGE_SIZE, 1, self.client_cache_page_size),
            client_cache_size: vars.u64_or(ENV_CLIENT_CACHE_SIZE, 0, self.client_cache_size),
            client_cache_dirs: vars.list_or(ENV_CLIENT_CACHE_DIRS, self.client_cache_dirs),
            client_cache_evictor: vars.evictor_or(ENV_CLIENT_CACHE_EVICTOR, self.client_cache_evictor),
            client_cache_async_write_enabled: vars.word_switch_or(ENV_CLIENT_CACHE_ASYNC_WRITE_ENABLED, self.client_cache_async_write_enabled),
            client_cache_async_write_threads: vars.usize_or(ENV_CLIENT_CACHE_ASYNC_WRITE_THREADS, 1, self.client_cache_async_write_threads),
            client_cache_quota_enabled: vars.word_switch_or(ENV_CLIENT_CACHE_QUOTA_ENABLED, self.client_cache_quota_enabled),
            client_cache_ttl_secs: vars.u64_or(ENV_CLIENT_CACHE_TTL_SECS, 0, self.client_cache_ttl_secs),
            client_cache_uring_enabled: vars.word_switch_or(ENV_CLIENT_CACHE_URING_ENABLED, self.client_cache_uring_enabled),
            client_cache_uring_queue_depth: vars.usize_or(ENV_CLIENT_CACHE_URING_QUEUE_DEPTH, 1, self.client_cache_uring_queue_depth),
            client_cache_uring_thread_count: vars.usize_or(ENV_CLIENT_CACHE_URING_THREAD_COUNT, 1, self.client_cache_uring_thread_count),
            client_cache_sync_read_enabled: vars.word_switch_or(ENV_CLIENT_CACHE_SYNC_READ_ENABLED, self.client_cache_sync_read_enabled),
            client_cache_sequential_read_enabled: vars.word_switch_or(ENV_CLIENT_CACHE_SEQUENTIAL_READ_ENABLED, self.client_cache_sequential_read_enabled),
            metadata_cache_enabled: vars.switch_or(ENV_METADATA_CACHE_ENABLED, self.metadata_cache_enabled),
            metadata_cache_max_size: vars.count_or(ENV_METADATA_CACHE_MAX_SIZE, self.metadata_cache_max_size),
            metadata_cache_expiration: vars.duration_or(ENV_METADATA_CACHE_EXPIRATION, self.metadata_cache_expiration),
            file_metadata_sync_interval: vars.time_or(ENV_FILE_METADATA_SYNC_INTERVAL, self.file_metadata_sync_interval),
            file_metadata_load_type: vars.load_type_or(ENV_FILE_METADATA_LOAD_TYPE, self.file_metadata_load_type),
            range_coalesce_enabled: self.range_coalesce_enabled,
            range_coalesce_gap_bytes: self.range_coalesce_gap_bytes,
            range_coalesce_max_bytes: self.range_coalesce_max_bytes,
            short_circuit_enabled: vars.word_switch_or(ENV_SHORT_CIRCUIT_ENABLED, self.short_circuit_enabled),
            short_circuit_cache_capacity: vars.usize_or(ENV_SHORT_CIRCUIT_CACHE_CAPACITY, 0, self.short_circuit_cache_capacity),
            short_circuit_cache_ttl: vars.millis_or(ENV_SHORT_CIRCUIT_CACHE_TTL_MS, 0, self.short_circuit_cache_ttl),
            short_circuit_neg_cache_ttl: vars.millis_or(ENV_SHORT_CIRCUIT_NEG_CACHE_TTL_MS, 0, self.short_circuit_neg_cache_ttl),
            short_circuit_advise: vars.text_or(ENV_SHORT_CIRCUIT_ADVISE, self.short_circuit_advise),
            short_circuit_prefetch_enabled: vars.word_switch_or(ENV_SHORT_CIRCUIT_PREFETCH_ENABLED, self.short_circuit_prefetch_enabled),
            short_circuit_prefetch_coalesce_gap: vars.usize_or(ENV_SHORT_CIRCUIT_PREFETCH_COALESCE_GAP, 0, self.short_circuit_prefetch_coalesce_gap),
            short_circuit_prefetch_max_batch: vars.usize_or(ENV_SHORT_CIRCUIT_PREFETCH_MAX_BATCH, 0, self.short_circuit_prefetch_max_batch),
            short_circuit_min_block_size: vars.i64_or(ENV_SHORT_CIRCUIT_MIN_BLOCK_SIZE, self.short_circuit_min_block_size),
            short_circuit_sigbus_handler: vars.word_switch_or(ENV_SHORT_CIRCUIT_SIGBUS_HANDLER, self.short_circuit_sigbus_handler),
            short_circuit_thp: vars.word_switch_or(ENV_SHORT_CIRCUIT_THP, self.short_circuit_thp),
        }
    }

    /// The default configuration with the environment variables of `host` applied.
    pub fn from_env(host: &HostEnv) -> (r: Self)
        ensures
            exists|d: GoosefsConfig| #[trigger]
                is_default(d, *host) && env_applied(host.vars@, d, r),
    {
        let d: GoosefsConfig = GoosefsConfig::default_on(host);
        d.apply_env(host)
    }
}

/// Without environment variables nothing changes.
pub proof fn law_no_variables_no_change(before: GoosefsConfig, after: GoosefsConfig)
    requires
        env_applied(Map::empty(), before, after),
    ensures
        same_config(before, after),
{
}

proof fn lemma_connection_idempotent(
    m: Map<Seq<char>, Seq<char>>,
    a: GoosefsConfig,
    b: GoosefsConfig,
    c: GoosefsConfig,
)
    requires
        connection_applied(m, a, b),
        connection_applied(m, b, c),
    ensures
        same_connection(b, c),
{
}

proof fn lemma_metrics_idempotent(
    m: Map<Seq<char>, Seq<char>>,
    a: GoosefsConfig,
    b: GoosefsConfig,
    c: GoosefsConfig,
)
    requires
        metrics_applied(m, a, b),
        metrics_applied(m, b, c),
    ensures
        same_metrics(b, c),
{
}

proof fn lemma_page_cache_idempotent(
    m: Map<Seq<char>, Seq<char>>,
    a: GoosefsConfig,
    b: GoosefsConfig,
    c: GoosefsConfig,
)
    requires
        page_cache_applied(m, a, b),
        page_cache_applied(m, b, c),
    ensures
        same_page_cache(b, c),
{
}

proof fn lemma_metadata_idempotent(
    m: Map<Seq<char>, Seq<char>>,
    a: GoosefsConfig,
    b: GoosefsConfig,
    c: GoosefsConfig,
)
    requires
        metadata_applied(m, a, b),
        metadata_applied(m, b, c),
    ensures
        same_metadata(b, c),
{
}

proof fn lemma_short_circuit_idempotent(
    m: Map<Seq<char>, Seq<char>>,
    a: GoosefsConfig,
    b: GoosefsConfig,
    c: GoosefsConfig,
)
    requires
        short_circuit_applied(m, a, b),
        short_circuit_applied(m, b, c),
    ensures
        same_short_circuit(b, c),
{
}

proof fn lemma_masters_idempotent(
    m: Map<Seq<char>, Seq<char>>,
    a: GoosefsConfig,
    b: GoosefsConfig,
    c: GoosefsConfig,
)
    requires
        masters_applied(m, a, b),
        masters_applied(m, b, c),
    ensures
        same_masters(b, c),
{
}

/// Applying the same environment variables a second time changes nothing.
pub proof fn law_apply_env_idempotent(
    m: Map<Seq<char>, Seq<char>>,
    a: GoosefsConfig,
    b: GoosefsConfig,
    c: GoosefsConfig,
)
    requires
        env_applied(m, a, b),
        env_applied(m, b, c),
    ensures
        same_config(b, c),
{
    lemma_connection_idempotent(m, a, b, c);
    lemma_metrics_idempotent(m, a, b, c);
    lemma_page_cache_idempotent(m, a, b, c);
    lemma_metadata_idempotent(m, a, b, c);
    lemma_short_circuit_idempotent(m, a, b, c);
    lemma_masters_idempotent(m, a, b, c);
}

/// Whether `a` and `b` agree on the fields of connections and identities whose variables are set in `m`
/// and denote a value.
pub open spec fn connection_agrees(
    m: Map<Seq<char>, Seq<char>>,
    a: GoosefsConfig,
    b: GoosefsConfig,
) -> bool {
    &&& int_at(m, ENV_BLOCK_SIZE@, 0, u64::MAX as int, 0) is Some ==> a.block_size == b.block_size
    &&& int_at(m, ENV_CHUNK_SIZE@, 0, u64::MAX as int, 0) is Some ==> a.chunk_size == b.chunk_size
    &&& write_type_at(m, ENV_WRITE_TYPE@) is Some ==> a.write_type == b.write_type
    &&& int_at(m, ENV_FILE_REPLICATION_NUMBER@, i32::MIN as int, i32::MAX as int, 1) is Some ==> a.file_replication_number == b.file_replication_number
    &&& int_at(m, ENV_CHECK_BLOCK_REPLICAS@, i32::MIN as int, i32::MAX as int, 0) is Some ==> a.check_block_replicas == b.check_block_replicas
    &&& int_at(m, ENV_FILE_READ_MAX_NODE_RETRY@, i32::MIN as int, i32::MAX as int, 1) is Some ==> a.file_read_max_node_retry == b.file_read_max_node_retry
    &&& count_at(m, ENV_MASTER_CONNECTION_POOL_SIZE@) is Some ==> a.master_connection_pool_size == b.master_connection_pool_size
    &&& schedule_at(m, ENV_MASTER_POOL_SCHEDULE@) is Some ==> a.master_connection_pool_schedule == b.master_connection_pool_schedule
    &&& count_at(m, ENV_WORKER_CONNECTION_POOL_SIZE@) is Some ==> a.worker_connection_pool_size == b.worker_connection_pool_size
    &&& auth_type_at(m, ENV_AUTH_TYPE@) is Some ==> a.auth_type == b.auth_type
    &&& text_at(m, ENV_AUTH_USERNAME@) is Some ==> a.auth_username@ == b.auth_username@
    &&& list_at(m, ENV_CONFIG_MANAGER_RPC_ADDRESSES@) is Some ==> string_views(a.config_manager_rpc_addresses@) == string_views(b.config_manager_rpc_addresses@)
    &&& int_at(m, ENV_CONFIG_RPC_PORT@, 0, u16::MAX as int, 0) is Some ==> a.config_rpc_port == b.config_rpc_port
    &&& strict_switch_at(m, ENV_TRANSPARENT_ACCELERATION_ENABLED@) is Some ==> a.transparent_acceleration_enabled == b.transparent_acceleration_enabled
    &&& strict_switch_at(m, ENV_TRANSPARENT_ACCELERATION_COSRANGER_ENABLED@) is Some ==> a.transparent_acceleration_cosranger_enabled == b.transparent_acceleration_cosranger_enabled
    &&& strict_switch_at(m, ENV_AUTHORIZATION_PERMISSION_ENABLED@) is Some ==> a.authorization_permission_enabled == b.authorization_permission_enabled
    &&& text_at(m, ENV_LOGIN_IMPERSONATION_USERNAME@) is Some ==> a.login_impersonation_username@ == b.login_impersonation_username@
}

/// Whether `a` and `b` agree on the fields of metrics whose variables are set in `m`
/// and denote a value.
pub open spec fn metrics_agrees(
    m: Map<Seq<char>, Seq<char>>,
    a: GoosefsConfig,
    b: GoosefsConfig,
) -> bool {
    &&& word_switch_at(m, ENV_METRICS_ENABLED@) is Some ==> a.metrics_enabled == b.metrics_enabled
    &&& millis_nanos_at(m, ENV_METRICS_HEARTBEAT_INTERVAL_MS@, 1000) is Some ==> a.metrics_heartbeat_interval.nanos == b.metrics_heartbeat_interval.nanos
    &&& text_at(m, ENV_APP_ID@) is Some ==> opt_view(a.app_id) == opt_view(b.app_id)
    &&& word_switch_at(m, ENV_PUSHGATEWAY_ENABLED@) is Some ==> a.pushgateway_enabled == b.pushgateway_enabled
    &&& text_at(m, ENV_PUSHGATEWAY_ENDPOINT@) is Some ==> a.pushgateway_endpoint@ == b.pushgateway_endpoint@
    &&& millis_nanos_at(m, ENV_PUSHGATEWAY_PUSH_INTERVAL_MS@, 1000) is Some ==> a.pushgateway_push_interval.nanos == b.pushgateway_push_interval.nanos
    &&& text_at(m, ENV_PUSHGATEWAY_JOB@) is Some ==> a.pushgateway_job@ == b.pushgateway_job@
    &&& text_at(m, ENV_PUSHGATEWAY_INSTANCE@) is Some ==> opt_view(a.pushgateway_instance) == opt_view(b.pushgateway_instance)
}

/// Whether `a` and `b` agree on the fields of the local page cache whose variables are set in `m`
/// and denote a value.
pub open spec fn page_cache_agrees(
    m: Map<Seq<char>, Seq<char>>,
    a: GoosefsConfig,
    b: GoosefsConfig,
) -> bool {
    &&& word_switch_at(m, ENV_CLIENT_CACHE_ENABLED@) is Some ==> a.client_cache_enabled == b.client_cache_enabled
    &&& int_at(m, ENV_CLIENT_CACHE_PAGE_SIZE@, 0, u64::MAX as int, 1) is Some ==> a.client_cache_page_size == b.client_cache_page_size
    &&& int_at(m, ENV_CLIENT_CACHE_SIZE@, 0, u64::MAX as int, 0) is Some ==> a.client_cache_size == b.client_cache_size
    &&& list_at(m, ENV_CLIENT_CACHE_DIRS@) is Some ==> string_views(a.client_cache_dirs@) == string_views(b.client_cache_dirs@)
    &&& evictor_at(m, ENV_CLIENT_CACHE_EVICTOR@) is Some ==> a.client_cache_evictor == b.client_cache_evictor
    &&& word_switch_at(m, ENV_CLIENT_CACHE_ASYNC_WRITE_ENABLED@) is Some ==> a.client_cache_async_write_enabled == b.client_cache_async_write_enabled
    &&& int_at(m, ENV_CLIENT_CACHE_ASYNC_WRITE_THREADS@, 0, usize::MAX as int, 1) is Some ==> a.client_cache_async_write_threads == b.client_cache_async_write_threads
    &&& word_switch_at(m, ENV_CLIENT_CACHE_QUOTA_ENABLED@) is Some ==> a.client_cache_quota_enabled == b.client_cache_quota_enabled
    &&& int_at(m, ENV_CLIENT_CACHE_TTL_SECS@, 0, u64::MAX as int, 0) is Some ==> a.client_cache_ttl_secs == b.client_cache_ttl_secs
    &&& word_switch_at(m, ENV_CLIENT_CACHE_URING_ENABLED@) is Some ==> a.client_cache_uring_enabled == b.client_cache_uring_enabled
    &&& int_at(m, ENV_CLIENT_CACHE_URING_QUEUE_DEPTH@, 0, usize::MAX as int, 1) is Some ==> a.client_cache_uring_queue_depth == b.client_cache_uring_queue_depth
    &&& int_at(m, ENV_CLIENT_CACHE_URING_THREAD_COUNT@, 0, usize::MAX as int, 1) is Some ==> a.client_cache_uring_thread_count == b.client_cache_uring_thread_count
    &&& word_switch_at(m, ENV_CLIENT_CACHE_SYNC_READ_ENABLED@) is Some ==> a.client_cache_sync_read_enabled == b.client_cache_sync_read_enabled
    &&& word_switch_at(m, ENV_CLIENT_CACHE_SEQUENTIAL_READ_ENABLED@) is Some ==> a.client_cache_sequential_read_enabled == b.client_cache_sequential_read_enabled
}

/// Whether `a` and `b` agree on the fields of cached metadata whose variables are set in `m`
/// and denote a value.
pub open spec fn metadata_agrees(
    m: Map<Seq<char>, Seq<char>>,
    a: GoosefsConfig,
    b: GoosefsConfig,
) -> bool {
    &&& switch_at(m, ENV_METADATA_CACHE_ENABLED@) is Some ==> a.metadata_cache_enabled == b.metadata_cache_enabled
    &&& count_at(m, ENV_METADATA_CACHE_MAX_SIZE@) is Some ==> a.metadata_cache_max_size == b.metadata_cache_max_size
    &&& time_nanos_at(m, ENV_METADATA_CACHE_EXPIRATION@) is Some ==> a.metadata_cache_expiration.nanos == b.metadata_cache_expiration.nanos
    &&& time_at(m, ENV_FILE_METADATA_SYNC_INTERVAL@) is Some ==> a.file_metadata_sync_interval == b.file_metadata_sync_interval
    &&& load_type_at(m, ENV_FILE_METADATA_LOAD_TYPE@) is Some ==> a.file_metadata_load_type == b.file_metadata_load_type
}

/// Whether `a` and `b` agree on the fields of short-circuit reads whose variables are set in `m`
/// and denote a value.
pub open spec fn short_circuit_agrees(
    m: Map<Seq<char>, Seq<char>>,
    a: GoosefsConfig,
    b: GoosefsConfig,
) -> bool {
    &&& word_switch_at(m, ENV_SHORT_CIRCUIT_ENABLED@) is Some ==> a.short_circuit_enabled == b.short_circuit_enabled
    &&& int_at(m, ENV_SHORT_CIRCUIT_CACHE_CAPACITY@, 0, usize::MAX as int, 0) is Some ==> a.short_circuit_cache_capacity == b.short_circuit_cache_capacity
    &&& millis_nanos_at(m, ENV_SHORT_CIRCUIT_CACHE_TTL_MS@, 0) is Some ==> a.short_circuit_cache_ttl.nanos == b.short_circuit_cache_ttl.nanos
    &&& millis_nanos_at(m, ENV_SHORT_CIRCUIT_NEG_CACHE_TTL_MS@, 0) is Some ==> a.short_circuit_neg_cache_ttl.nanos == b.short_circuit_neg_cache_ttl.nanos
    &&& text_at(m, ENV_SHORT_CIRCUIT_ADVISE@) is Some ==> a.short_circuit_advise@ == b.short_circuit_advise@
    &&& word_switch_at(m, ENV_SHORT_CIRCUIT_PREFETCH_ENABLED@) is Some ==> a.short_circuit_prefetch_enabled == b.short_circuit_prefetch_enabled
    &&& int_at(m, ENV_SHORT_CIRCUIT_PREFETCH_COALESCE_GAP@, 0, usize::MAX as int, 0) is Some ==> a.short_circuit_prefetch_coalesce_gap == b.short_circuit_prefetch_coalesce_gap
    &&& int_at(m, ENV_SHORT_CIRCUIT_PREFETCH_MAX_BATCH@, 0, usize::MAX as int, 0) is Some ==> a.short_circuit_prefetch_max_batch == b.short_circuit_prefetch_max_batch
    &&& int_at(m, ENV_SHORT_CIRCUIT_MIN_BLOCK_SIZE@, i64::MIN as int, i64::MAX as int, i64::MIN as int) is Some ==> a.short_circuit_min_block_size == b.short_circuit_min_block_size
    &&& word_switch_at(m, ENV_SHORT_CIRCUIT_SIGBUS_HANDLER@) is Some ==> a.short_circuit_sigbus_handler == b.short_circuit_sigbus_handler
    &&& word_switch_at(m, ENV_SHORT_CIRCUIT_THP@) is Some ==> a.short_circuit_thp == b.short_circuit_thp
}

/// Whether `a` and `b` agree on the addresses where the variable in `m` names any, and on
/// the root path where it names one.
pub open spec fn masters_agrees(
    m: Map<Seq<char>, Seq<char>>,
    a: GoosefsConfig,
    b: GoosefsConfig,
) -> bool {
    match value_at(m, ENV_MASTER_ADDR@) {
        Some(v) => env_addresses(v).len() > 0 ==> {
            &&& a.master_addr@ == b.master_addr@
            &&& string_views(a.master_addrs@) == string_views(b.master_addrs@)
            &&& env_root(v).len() > 0 ==> a.root@ == b.root@
        },
        None => true,
    }
}

/// Whether `a` and `b` agree on every field whose variable is set in `m` and denotes a
/// value.
pub open spec fn agree_where_set(
    m: Map<Seq<char>, Seq<char>>,
    a: GoosefsConfig,
    b: GoosefsConfig,
) -> bool {
    &&& masters_agrees(m, a, b)
    &&& connection_agrees(m, a, b)
    &&& metrics_agrees(m, a, b)
    &&& page_cache_agrees(m, a, b)
    &&& metadata_agrees(m, a, b)
    &&& short_circuit_agrees(m, a, b)
}

proof fn lemma_connection_agrees(
    m: Map<Seq<char>, Seq<char>>,
    a: GoosefsConfig,
    b: GoosefsConfig,
    a2: GoosefsConfig,
    b2: GoosefsConfig,
)
    requires
        connection_applied(m, a, a2),
        connection_applied(m, b, b2),
    ensures
        connection_agrees(m, a2, b2),
{
}

proof fn lemma_metrics_agrees(
    m: Map<Seq<char>, Seq<char>>,
    a: GoosefsConfig,
    b: GoosefsConfig,
    a2: GoosefsConfig,
    b2: GoosefsConfig,
)
    requires
        metrics_applied(m, a, a2),
        metrics_applied(m, b, b2),
    ensures
        metrics_agrees(m, a2, b2),
{
}

proof fn lemma_page_cache_agrees(
    m: Map<Seq<char>, Seq<char>>,
    a: GoosefsConfig,
    b: GoosefsConfig,
    a2: GoosefsConfig,
    b2: GoosefsConfig,
)
    requires
        page_cache_applied(m, a, a2),
        page_cache_applied(m, b, b2),
    ensures
        page_cache_agrees(m, a2, b2),
{
}

proof fn lemma_metadata_agrees(
    m: Map<Seq<char>, Seq<char>>,
    a: GoosefsConfig,
    b: GoosefsConfig,
    a2: GoosefsConfig,
    b2: GoosefsConfig,
)
    requires
        metadata_applied(m, a, a2),
        metadata_applied(m, b, b2),
    ensures
        metadata_agrees(m, a2, b2),
{
}

proof fn lemma_short_circuit_agrees(
    m: Map<Seq<char>, Seq<char>>,
    a: GoosefsConfig,
    b: GoosefsConfig,
    a2: GoosefsConfig,
    b2: GoosefsConfig,
)
    requires
        short_circuit_applied(m, a, a2),
        short_circuit_applied(m, b, b2),
    ensures
        short_circuit_agrees(m, a2, b2),
{
}

/// A variable that is set, and denotes a value, decides its field alone: what the field was
/// before does not matter.
pub proof fn law_env_overrides(
    m: Map<Seq<char>, Seq<char>>,
    a: GoosefsConfig,
    b: GoosefsConfig,
    a2: GoosefsConfig,
    b2: GoosefsConfig,
)
    requires
        env_applied(m, a, a2),
        env_applied(m, b, b2),
    ensures
        agree_where_set(m, a2, b2),
{
    lemma_connection_agrees(m, a, b, a2, b2);
    lemma_metrics_agrees(m, a, b, a2, b2);
    lemma_page_cache_agrees(m, a, b, a2, b2);
    lemma_metadata_agrees(m, a, b, a2, b2);
    lemma_short_circuit_agrees(m, a, b, a2, b2);
}

/// The variable names the masters: as a list, the first item of which is the address of the
/// master, or as a URI, which also names the root path. One address leaves no list.
pub proof fn law_address_variable(
    m: Map<Seq<char>, Seq<char>>,
    before: GoosefsConfig,
    after: GoosefsConfig,
    x: Seq<char>,
    y: Seq<char>,
    path: Seq<char>,
)
    requires
        env_applied(m, before, after),
        is_plain_item(x),
        is_plain_item(y),
        x[0] != 'g',
        forall|i: int| 0 <= i < x.len() ==> #[trigger] x[i] != '/',
        forall|i: int| 0 <= i < y.len() ==> #[trigger] y[i] != '/',
        path.len() > 0,
        path[0] == '/' && path[path.len() - 1] != '/' && !is_white_space(path[path.len() - 1]),
    ensures
        holds(m, "GOOSEFS_MASTER_ADDR"@, x) ==> after.master_addr@ == x
            && after.master_addrs@.len() == 0 && after.root@ == before.root@,
        holds(m, "GOOSEFS_MASTER_ADDR"@, x + seq![','] + y) ==> after.master_addr@ == x
            && string_views(after.master_addrs@) == seq![x, y] && after.root@ == before.root@,
        holds(m, "GOOSEFS_MASTER_ADDR"@, "gfs://"@ + x + path) ==> after.master_addr@ == x
            && after.master_addrs@.len() == 0 && after.root@ == path,
        holds(m, "GOOSEFS_MASTER_ADDR"@, "gfs://"@ + (x + seq![','] + y) + path)
            ==> after.master_addr@ == x && string_views(after.master_addrs@) == seq![x, y]
            && after.root@ == path,
        !m.contains_key("GOOSEFS_MASTER_ADDR"@) ==> after.master_addr@ == before.master_addr@
            && string_views(after.master_addrs@) == string_views(before.master_addrs@)
            && after.root@ == before.root@,
{
    assert(string_views(after.master_addrs@).len() == after.master_addrs@.len());
    lemma_list_entries(x, y);
    law_uri_addresses(x, y, path);
    lemma_plain_text(x);
    let both = x + seq![','] + y;
    assert(both[0] == x[0]);
    lemma_plain_text(both);
    lemma_uri_text(x, path);
    lemma_uri_text(both, path);
}

proof fn lemma_plain_text(s: Seq<char>)
    requires
        s.len() > 0,
        !is_white_space(s[0]),
        s[0] != 'g',
    ensures
        !has_prefix(drop_leading(s, white()), "gfs://"@),
{
    reveal_strlit("gfs://");
    lemma_span_is(s, white(), 0);
    assert(s.skip(0) =~= s);
    if has_prefix(s, "gfs://"@) {
        assert(s.take("gfs://"@.len() as int)[0] == s[0]);
    }
}

proof fn lemma_uri_text(authority: Seq<char>, path: Seq<char>)
    requires
        path.len() > 0,
        !is_white_space(path[path.len() - 1]),
    ensures
        ({
            let s = "gfs://"@ + authority + path;
            &&& has_prefix(drop_leading(s, white()), "gfs://"@)
            &&& trimmed(s) == s
            &&& has_prefix(s, "gfs://"@)
        }),
{
    reveal_strlit("gfs://");
    let s = "gfs://"@ + authority + path;
    assert(s[0] == 'g');
    assert(s[s.len() - 1] == path[path.len() - 1]);
    let e = Seq::<char>::empty();
    law_trim_drops_white_space_at_the_ends(e, s, e);
    lemma_span_is(s, white(), 0);
    assert(s.skip(0) =~= s);
    law_prefix("gfs://"@, authority + path, s);
    assert("gfs://"@ + (authority + path) =~= s);
}

/// No other variable reaches the addresses and the root path.
pub proof fn law_other_variables_leave_the_addresses(
    m1: Map<Seq<char>, Seq<char>>,
    m2: Map<Seq<char>, Seq<char>>,
    before: GoosefsConfig,
    a1: GoosefsConfig,
    a2: GoosefsConfig,
)
    requires
        env_applied(m1, before, a1),
        env_applied(m2, before, a2),
        same_entry(m1, m2, "GOOSEFS_MASTER_ADDR"@),
    ensures
        a1.master_addr@ == a2.master_addr@,
        string_views(a1.master_addrs@) == string_views(a2.master_addrs@),
        a1.root@ == a2.root@,
{
}

proof fn lemma_connection_variables_alone(
    m1: Map<Seq<char>, Seq<char>>,
    m2: Map<Seq<char>, Seq<char>>,
    before: GoosefsConfig,
    a1: GoosefsConfig,
    a2: GoosefsConfig,
)
    requires
        connection_applied(m1, before, a1),
        connection_applied(m2, before, a2),
    ensures
        same_entry(m1, m2, "GOOSEFS_BLOCK_SIZE"@) ==> a1.block_size == a2.block_size,
        !m1.contains_key("GOOSEFS_BLOCK_SIZE"@) ==> a1.block_size == before.block_size,
        same_entry(m1, m2, "GOOSEFS_CHUNK_SIZE"@) ==> a1.chunk_size == a2.chunk_size,
        !m1.contains_key("GOOSEFS_CHUNK_SIZE"@) ==> a1.chunk_size == before.chunk_size,
        a1.connect_timeout == before.connect_timeout,
        a1.request_timeout == before.request_timeout,
        a1.use_vpc_mapping == before.use_vpc_mapping,
        same_entry(m1, m2, "GOOSEFS_WRITE_TYPE"@) ==> a1.write_type == a2.write_type,
        !m1.contains_key("GOOSEFS_WRITE_TYPE"@) ==> a1.write_type == before.write_type,
        same_entry(m1, m2, "GOOSEFS_USER_FILE_REPLICATION_NUMBER"@)
            ==> a1.file_replication_number == a2.file_replication_number,
        !m1.contains_key("GOOSEFS_USER_FILE_REPLICATION_NUMBER"@)
            ==> a1.file_replication_number == before.file_replication_number,
        same_entry(m1, m2, "GOOSEFS_USER_FILE_CHECK_BLOCK_REPLICAS"@)
            ==> a1.check_block_replicas == a2.check_block_replicas,
        !m1.contains_key("GOOSEFS_USER_FILE_CHECK_BLOCK_REPLICAS"@)
            ==> a1.check_block_replicas == before.check_block_replicas,
        same_entry(m1, m2, "GOOSEFS_USER_FILE_READ_MAX_NODE_RETRY"@)
            ==> a1.file_read_max_node_retry == a2.file_read_max_node_retry,
        !m1.contains_key("GOOSEFS_USER_FILE_READ_MAX_NODE_RETRY"@)
            ==> a1.file_read_max_node_retry == before.file_read_max_node_retry,
        a1.prefetch_window == before.prefetch_window,
        a1.read_buffer_messages == before.read_buffer_messages,
        a1.ack_interval_bytes == before.ack_interval_bytes,
        a1.ack_interval_chunks == before.ack_interval_chunks,
        same_entry(m1, m2, "GOOSEFS_MASTER_CONNECTION_POOL_SIZE"@)
            ==> a1.master_connection_pool_size == a2.master_connection_pool_size,
        !m1.contains_key("GOOSEFS_MASTER_CONNECTION_POOL_SIZE"@)
            ==> a1.master_connection_pool_size == before.master_connection_pool_size,
        same_entry(m1, m2, "GOOSEFS_MASTER_POOL_SCHEDULE"@)
            ==> a1.master_connection_pool_schedule == a2.master_connection_pool_schedule,
        !m1.contains_key("GOOSEFS_MASTER_POOL_SCHEDULE"@)
            ==> a1.master_connection_pool_schedule == before.master_connection_pool_schedule,
        same_entry(m1, m2, "GOOSEFS_WORKER_CONNECTION_POOL_SIZE"@)
            ==> a1.worker_connection_pool_size == a2.worker_connection_pool_size,
        !m1.contains_key("GOOSEFS_WORKER_CONNECTION_POOL_SIZE"@)
            ==> a1.worker_connection_pool_size == before.worker_connection_pool_size,
        a1.master_inquire_retry_max_duration == before.master_inquire_retry_max_duration,
        a1.master_inquire_initial_sleep == before.master_inquire_initial_sleep,
        a1.master_inquire_max_sleep == before.master_inquire_max_sleep,
        a1.master_polling_timeout == before.master_polling_timeout,
        same_entry(m1, m2, "GOOSEFS_AUTH_TYPE"@) ==> a1.auth_type == a2.auth_type,
        !m1.contains_key("GOOSEFS_AUTH_TYPE"@) ==> a1.auth_type == before.auth_type,
        same_entry(m1, m2, "GOOSEFS_AUTH_USERNAME"@) ==> a1.auth_username@ == a2.auth_username@,
        !m1.contains_key("GOOSEFS_AUTH_USERNAME"@) ==> a1.auth_username@ == before.auth_username@,
        a1.auth_timeout == before.auth_timeout,
        same_entry(m1, m2, "GOOSEFS_CONFIG_MANAGER_RPC_ADDRESSES"@)
            ==> string_views(a1.config_manager_rpc_addresses@)
                == string_views(a2.config_manager_rpc_addresses@),
        !m1.contains_key("GOOSEFS_CONFIG_MANAGER_RPC_ADDRESSES"@)
            ==> string_views(a1.config_manager_rpc_addresses@)
                == string_views(before.config_manager_rpc_addresses@),
        same_entry(m1, m2, "GOOSEFS_CONFIG_RPC_PORT"@) ==> a1.config_rpc_port == a2.config_rpc_port,
        !m1.contains_key("GOOSEFS_CONFIG_RPC_PORT"@)
            ==> a1.config_rpc_port == before.config_rpc_port,
        same_entry(m1, m2, "GOOSEFS_TRANSPARENT_ACCELERATION_ENABLED"@)
            ==> a1.transparent_acceleration_enabled == a2.transparent_acceleration_enabled,
        !m1.contains_key("GOOSEFS_TRANSPARENT_ACCELERATION_ENABLED"@)
            ==> a1.transparent_acceleration_enabled == before.transparent_acceleration_enabled,
        same_entry(m1, m2, "GOOSEFS_TRANSPARENT_ACCELERATION_COSRANGER_ENABLED"@)
            ==> a1.transparent_acceleration_cosranger_enabled
                == a2.transparent_acceleration_cosranger_enabled,
        !m1.contains_key("GOOSEFS_TRANSPARENT_ACCELERATION_COSRANGER_ENABLED"@)
            ==> a1.transparent_acceleration_cosranger_enabled
                == before.transparent_acceleration_cosranger_enabled,
        same_entry(m1, m2, "GOOSEFS_AUTHORIZATION_PERMISSION_ENABLED"@)
            ==> a1.authorization_permission_enabled == a2.authorization_permission_enabled,
        !m1.contains_key("GOOSEFS_AUTHORIZATION_PERMISSION_ENABLED"@)
            ==> a1.authorization_permission_enabled == before.authorization_permission_enabled,
        same_entry(m1, m2, "GOOSEFS_LOGIN_IMPERSONATION_USERNAME"@)
            ==> a1.login_impersonation_username@ == a2.login_impersonation_username@,
        !m1.contains_key("GOOSEFS_LOGIN_IMPERSONATION_USERNAME"@)
            ==> a1.login_impersonation_username@ == before.login_impersonation_username@,
{
}

/// Each variable reaches only its own field among those of connections and identities: where two sets of
/// variables agree on it, they give that field the same value, whatever else they hold; and a field
/// whose variable is missing stays.
pub proof fn law_connection_variables_reach_only_their_fields(
    m1: Map<Seq<char>, Seq<char>>,
    m2: Map<Seq<char>, Seq<char>>,
    before: GoosefsConfig,
    a1: GoosefsConfig,
    a2: GoosefsConfig,
)
    requires
        env_applied(m1, before, a1),
        env_applied(m2, before, a2),
    ensures
        same_entry(m1, m2, "GOOSEFS_BLOCK_SIZE"@) ==> a1.block_size == a2.block_size,
        !m1.contains_key("GOOSEFS_BLOCK_SIZE"@) ==> a1.block_size == before.block_size,
        same_entry(m1, m2, "GOOSEFS_CHUNK_SIZE"@) ==> a1.chunk_size == a2.chunk_size,
        !m1.contains_key("GOOSEFS_CHUNK_SIZE"@) ==> a1.chunk_size == before.chunk_size,
        a1.connect_timeout == before.connect_timeout,
        a1.request_timeout == before.request_timeout,
        a1.use_vpc_mapping == before.use_vpc_mapping,
        same_entry(m1, m2, "GOOSEFS_WRITE_TYPE"@) ==> a1.write_type == a2.write_type,
        !m1.contains_key("GOOSEFS_WRITE_TYPE"@) ==> a1.write_type == before.write_type,
        same_entry(m1, m2, "GOOSEFS_USER_FILE_REPLICATION_NUMBER"@)
            ==> a1.file_replication_number == a2.file_replication_number,
        !m1.contains_key("GOOSEFS_USER_FILE_REPLICATION_NUMBER"@)
            ==> a1.file_replication_number == before.file_replication_number,
        same_entry(m1, m2, "GOOSEFS_USER_FILE_CHECK_BLOCK_REPLICAS"@)
            ==> a1.check_block_replicas == a2.check_block_replicas,
        !m1.contains_key("GOOSEFS_USER_FILE_CHECK_BLOCK_REPLICAS"@)
            ==> a1.check_block_replicas == before.check_block_replicas,
        same_entry(m1, m2, "GOOSEFS_USER_FILE_READ_MAX_NODE_RETRY"@)
            ==> a1.file_read_max_node_retry == a2.file_read_max_node_retry,
        !m1.contains_key("GOOSEFS_USER_FILE_READ_MAX_NODE_RETRY"@)
            ==> a1.file_read_max_node_retry == before.file_read_max_node_retry,
        a1.prefetch_window == before.prefetch_window,
        a1.read_buffer_messages == before.read_buffer_messages,
        a1.ack_interval_bytes == before.ack_interval_bytes,
        a1.ack_interval_chunks == before.ack_interval_chunks,
        same_entry(m1, m2, "GOOSEFS_MASTER_CONNECTION_POOL_SIZE"@)
            ==> a1.master_connection_pool_size == a2.master_connection_pool_size,
        !m1.contains_key("GOOSEFS_MASTER_CONNECTION_POOL_SIZE"@)
            ==> a1.master_connection_pool_size == before.master_connection_pool_size,
        same_entry(m1, m2, "GOOSEFS_MASTER_POOL_SCHEDULE"@)
            ==> a1.master_connection_pool_schedule == a2.master_connection_pool_schedule,
        !m1.contains_key("GOOSEFS_MASTER_POOL_SCHEDULE"@)
            ==> a1.master_connection_pool_schedule == before.master_connection_pool_schedule,
        same_entry(m1, m2, "GOOSEFS_WORKER_CONNECTION_POOL_SIZE"@)
            ==> a1.worker_connection_pool_size == a2.worker_connection_pool_size,
        !m1.contains_key("GOOSEFS_WORKER_CONNECTION_POOL_SIZE"@)
            ==> a1.worker_connection_pool_size == before.worker_connection_pool_size,
        a1.master_inquire_retry_max_duration == before.master_inquire_retry_max_duration,
        a1.master_inquire_initial_sleep == before.master_inquire_initial_sleep,
        a1.master_inquire_max_sleep == before.master_inquire_max_sleep,
        a1.master_polling_timeout == before.master_polling_timeout,
        same_entry(m1, m2, "GOOSEFS_AUTH_TYPE"@) ==> a1.auth_type == a2.auth_type,
        !m1.contains_key("GOOSEFS_AUTH_TYPE"@) ==> a1.auth_type == before.auth_type,
        same_entry(m1, m2, "GOOSEFS_AUTH_USERNAME"@) ==> a1.auth_username@ == a2.auth_username@,
        !m1.contains_key("GOOSEFS_AUTH_USERNAME"@) ==> a1.auth_username@ == before.auth_username@,
        a1.auth_timeout == before.auth_timeout,
        same_entry(m1, m2, "GOOSEFS_CONFIG_MANAGER_RPC_ADDRESSES"@)
            ==> string_views(a1.config_manager_rpc_addresses@)
                == string_views(a2.config_manager_rpc_addresses@),
        !m1.contains_key("GOOSEFS_CONFIG_MANAGER_RPC_ADDRESSES"@)
            ==> string_views(a1.config_manager_rpc_addresses@)
                == string_views(before.config_manager_rpc_addresses@),
        same_entry(m1, m2, "GOOSEFS_CONFIG_RPC_PORT"@) ==> a1.config_rpc_port == a2.config_rpc_port,
        !m1.contains_key("GOOSEFS_CONFIG_RPC_PORT"@)
            ==> a1.config_rpc_port == before.config_rpc_port,
        same_entry(m1, m2, "GOOSEFS_TRANSPARENT_ACCELERATION_ENABLED"@)
            ==> a1.transparent_acceleration_enabled == a2.transparent_acceleration_enabled,
        !m1.contains_key("GOOSEFS_TRANSPARENT_ACCELERATION_ENABLED"@)
            ==> a1.transparent_acceleration_enabled == before.transparent_acceleration_enabled,
        same_entry(m1, m2, "GOOSEFS_TRANSPARENT_ACCELERATION_COSRANGER_ENABLED"@)
            ==> a1.transparent_acceleration_cosranger_enabled
                == a2.transparent_acceleration_cosranger_enabled,
        !m1.contains_key("GOOSEFS_TRANSPARENT_ACCELERATION_COSRANGER_ENABLED"@)
            ==> a1.transparent_acceleration_cosranger_enabled
                == before.transparent_acceleration_cosranger_enabled,
        same_entry(m1, m2, "GOOSEFS_AUTHORIZATION_PERMISSION_ENABLED"@)
            ==> a1.authorization_permission_enabled == a2.authorization_permission_enabled,
        !m1.contains_key("GOOSEFS_AUTHORIZATION_PERMISSION_ENABLED"@)
            ==> a1.authorization_permission_enabled == before.authorization_permission_enabled,
        same_entry(m1, m2, "GOOSEFS_LOGIN_IMPERSONATION_USERNAME"@)
            ==> a1.login_impersonation_username@ == a2.login_impersonation_username@,
        !m1.contains_key("GOOSEFS_LOGIN_IMPERSONATION_USERNAME"@)
            ==> a1.login_impersonation_username@ == before.login_impersonation_username@,
{
    lemma_connection_variables_alone(m1, m2, before, a1, a2);
}

/// Each variable sets its own field among those of connections and identities to the value that its text
/// denotes: the number that a numeral denotes, the switch, the text, or the items of a list.
pub proof fn law_connection_variables_set_their_fields(
    m: Map<Seq<char>, Seq<char>>,
    before: GoosefsConfig,
    after: GoosefsConfig,
    n: int,
    text: Seq<char>,
    x: Seq<char>,
    y: Seq<char>,
)
    requires
        env_applied(m, before, after),
        is_plain_item(x),
        is_plain_item(y),
    ensures
        holds(m, "GOOSEFS_BLOCK_SIZE"@, signed_decimal(n)) && 0 <= n <= u64::MAX
            ==> after.block_size == n,
        holds(m, "GOOSEFS_CHUNK_SIZE"@, signed_decimal(n)) && 0 <= n <= u64::MAX
            ==> after.chunk_size == n,
        holds(m, "GOOSEFS_WRITE_TYPE"@, text) && ascii_lowercase(text) == "must_cache"@
            ==> after.write_type == Some(1i32),
        holds(m, "GOOSEFS_WRITE_TYPE"@, text) && ascii_lowercase(text) == "try_cache"@
            ==> after.write_type == Some(2i32),
        holds(m, "GOOSEFS_WRITE_TYPE"@, text) && ascii_lowercase(text) == "cache_through"@
            ==> after.write_type == Some(3i32),
        holds(m, "GOOSEFS_WRITE_TYPE"@, text) && ascii_lowercase(text) == "through"@
            ==> after.write_type == Some(4i32),
        holds(m, "GOOSEFS_WRITE_TYPE"@, text) && ascii_lowercase(text) == "async_through"@
            ==> after.write_type == Some(5i32),
        holds(m, "GOOSEFS_USER_FILE_REPLICATION_NUMBER"@, signed_decimal(n)) && 1 <= n <= i32::MAX
            ==> after.file_replication_number == n,
        holds(m, "GOOSEFS_USER_FILE_REPLICATION_NUMBER"@, signed_decimal(n)) && i32::MIN <= n < 1
            ==> after.file_replication_number == before.file_replication_number,
        holds(m, "GOOSEFS_USER_FILE_CHECK_BLOCK_REPLICAS"@, signed_decimal(n)) && 0 <= n <= i32::MAX
            ==> after.check_block_replicas == n,
        holds(m, "GOOSEFS_USER_FILE_CHECK_BLOCK_REPLICAS"@, signed_decimal(n)) && i32::MIN <= n < 0
            ==> after.check_block_replicas == before.check_block_replicas,
        holds(m, "GOOSEFS_USER_FILE_READ_MAX_NODE_RETRY"@, signed_decimal(n)) && 1 <= n <= i32::MAX
            ==> after.file_read_max_node_retry == n,
        holds(m, "GOOSEFS_USER_FILE_READ_MAX_NODE_RETRY"@, signed_decimal(n)) && i32::MIN <= n < 1
            ==> after.file_read_max_node_retry == before.file_read_max_node_retry,
        holds(m, "GOOSEFS_MASTER_CONNECTION_POOL_SIZE"@, signed_decimal(n)) && 1 <= n <= usize::MAX
            ==> after.master_connection_pool_size == n,
        holds(m, "GOOSEFS_MASTER_CONNECTION_POOL_SIZE"@, signed_decimal(n)) && n == 0
            ==> after.master_connection_pool_size == 1,
        holds(m, "GOOSEFS_MASTER_POOL_SCHEDULE"@, text) && ascii_lowercase(text) == "roundrobin"@
            ==> after.master_connection_pool_schedule is RoundRobin,
        holds(m, "GOOSEFS_MASTER_POOL_SCHEDULE"@, text) && ascii_lowercase(text) == "p2c"@
            ==> after.master_connection_pool_schedule is P2C,
        holds(m, "GOOSEFS_WORKER_CONNECTION_POOL_SIZE"@, signed_decimal(n)) && 1 <= n <= usize::MAX
            ==> after.worker_connection_pool_size == n,
        holds(m, "GOOSEFS_WORKER_CONNECTION_POOL_SIZE"@, signed_decimal(n)) && n == 0
            ==> after.worker_connection_pool_size == 1,
        holds(m, "GOOSEFS_AUTH_TYPE"@, text) && ascii_lowercase(text) == "nosasl"@
            ==> after.auth_type is NoSasl,
        holds(m, "GOOSEFS_AUTH_TYPE"@, text) && ascii_lowercase(text) == "simple"@
            ==> after.auth_type is Simple,
        holds(m, "GOOSEFS_AUTH_USERNAME"@, text) && text.len() > 0 ==> after.auth_username@ == text,
        holds(m, "GOOSEFS_CONFIG_MANAGER_RPC_ADDRESSES"@, x)
            ==> string_views(after.config_manager_rpc_addresses@) == seq![x],
        holds(m, "GOOSEFS_CONFIG_MANAGER_RPC_ADDRESSES"@, x + seq![','] + y)
            ==> string_views(after.config_manager_rpc_addresses@) == seq![x, y],
        holds(m, "GOOSEFS_CONFIG_RPC_PORT"@, signed_decimal(n)) && 0 <= n <= u16::MAX
            ==> after.config_rpc_port == n,
        holds(m, "GOOSEFS_TRANSPARENT_ACCELERATION_ENABLED"@, "true"@)
            ==> after.transparent_acceleration_enabled,
        holds(m, "GOOSEFS_TRANSPARENT_ACCELERATION_ENABLED"@, "false"@)
            ==> !after.transparent_acceleration_enabled,
        holds(m, "GOOSEFS_TRANSPARENT_ACCELERATION_COSRANGER_ENABLED"@, "true"@)
            ==> after.transparent_acceleration_cosranger_enabled,
        holds(m, "GOOSEFS_TRANSPARENT_ACCELERATION_COSRANGER_ENABLED"@, "false"@)
            ==> !after.transparent_acceleration_cosranger_enabled,
        holds(m, "GOOSEFS_AUTHORIZATION_PERMISSION_ENABLED"@, "true"@)
            ==> after.authorization_permission_enabled,
        holds(m, "GOOSEFS_AUTHORIZATION_PERMISSION_ENABLED"@, "false"@)
            ==> !after.authorization_permission_enabled,
        holds(m, "GOOSEFS_LOGIN_IMPERSONATION_USERNAME"@, text) && text.len() > 0
            ==> after.login_impersonation_username@ == text,
{
    lemma_entry_values(m, n, text, x, y);
}

proof fn lemma_metrics_variables_alone(
    m1: Map<Seq<char>, Seq<char>>,
    m2: Map<Seq<char>, Seq<char>>,
    before: GoosefsConfig,
    a1: GoosefsConfig,
    a2: GoosefsConfig,
)
    requires
        metrics_applied(m1, before, a1),
        metrics_applied(m2, before, a2),
    ensures
        same_entry(m1, m2, "GOOSEFS_USER_METRICS_COLLECTION_ENABLED"@)
            ==> a1.metrics_enabled == a2.metrics_enabled,
        !m1.contains_key("GOOSEFS_USER_METRICS_COLLECTION_ENABLED"@)
            ==> a1.metrics_enabled == before.metrics_enabled,
        same_entry(m1, m2, "GOOSEFS_USER_METRICS_HEARTBEAT_INTERVAL_MS"@)
            ==> a1.metrics_heartbeat_interval.nanos == a2.metrics_heartbeat_interval.nanos,
        !m1.contains_key("GOOSEFS_USER_METRICS_HEARTBEAT_INTERVAL_MS"@)
            ==> a1.metrics_heartbeat_interval.nanos == before.metrics_heartbeat_interval.nanos,
        a1.metrics_heartbeat_timeout == before.metrics_heartbeat_timeout,
        same_entry(m1, m2, "GOOSEFS_USER_APP_ID"@) ==> opt_view(a1.app_id) == opt_view(a2.app_id),
        !m1.contains_key("GOOSEFS_USER_APP_ID"@) ==> opt_view(a1.app_id) == opt_view(before.app_id),
        a1.metrics_max_batch_size == before.metrics_max_batch_size,
        same_entry(m1, m2, "GOOSEFS_METRICS_PUSHGATEWAY_ENABLED"@)
            ==> a1.pushgateway_enabled == a2.pushgateway_enabled,
        !m1.contains_key("GOOSEFS_METRICS_PUSHGATEWAY_ENABLED"@)
            ==> a1.pushgateway_enabled == before.pushgateway_enabled,
        same_entry(m1, m2, "GOOSEFS_METRICS_PUSHGATEWAY_ENDPOINT"@)
            ==> a1.pushgateway_endpoint@ == a2.pushgateway_endpoint@,
        !m1.contains_key("GOOSEFS_METRICS_PUSHGATEWAY_ENDPOINT"@)
            ==> a1.pushgateway_endpoint@ == before.pushgateway_endpoint@,
        same_entry(m1, m2, "GOOSEFS_METRICS_PUSHGATEWAY_PUSH_INTERVAL_MS"@)
            ==> a1.pushgateway_push_interval.nanos == a2.pushgateway_push_interval.nanos,
        !m1.contains_key("GOOSEFS_METRICS_PUSHGATEWAY_PUSH_INTERVAL_MS"@)
            ==> a1.pushgateway_push_interval.nanos == before.pushgateway_push_interval.nanos,
        same_entry(m1, m2, "GOOSEFS_METRICS_PUSHGATEWAY_JOB"@)
            ==> a1.pushgateway_job@ == a2.pushgateway_job@,
        !m1.contains_key("GOOSEFS_METRICS_PUSHGATEWAY_JOB"@)
            ==> a1.pushgateway_job@ == before.pushgateway_job@,
        same_entry(m1, m2, "GOOSEFS_METRICS_PUSHGATEWAY_INSTANCE"@)
            ==> opt_view(a1.pushgateway_instance) == opt_view(a2.pushgateway_instance),
        !m1.contains_key("GOOSEFS_METRICS_PUSHGATEWAY_INSTANCE"@)
            ==> opt_view(a1.pushgateway_instance) == opt_view(before.pushgateway_instance),
{
}

/// Each variable reaches only its own field among those of metrics: where two sets of
/// variables agree on it, they give that field the same value, whatever else they hold; and a field
/// whose variable is missing stays.
pub proof fn law_metrics_variables_reach_only_their_fields(
    m1: Map<Seq<char>, Seq<char>>,
    m2: Map<Seq<char>, Seq<char>>,
    before: GoosefsConfig,
    a1: GoosefsConfig,
    a2: GoosefsConfig,
)
    requires
        env_applied(m1, before, a1),
        env_applied(m2, before, a2),
    ensures
        same_entry(m1, m2, "GOOSEFS_USER_METRICS_COLLECTION_ENABLED"@)
            ==> a1.metrics_enabled == a2.metrics_enabled,
        !m1.contains_key("GOOSEFS_USER_METRICS_COLLECTION_ENABLED"@)
            ==> a1.metrics_enabled == before.metrics_enabled,
        same_entry(m1, m2, "GOOSEFS_USER_METRICS_HEARTBEAT_INTERVAL_MS"@)
            ==> a1.metrics_heartbeat_interval.nanos == a2.metrics_heartbeat_interval.nanos,
        !m1.contains_key("GOOSEFS_USER_METRICS_HEARTBEAT_INTERVAL_MS"@)
            ==> a1.metrics_heartbeat_interval.nanos == before.metrics_heartbeat_interval.nanos,
        a1.metrics_heartbeat_timeout == before.metrics_heartbeat_timeout,
        same_entry(m1, m2, "GOOSEFS_USER_APP_ID"@) ==> opt_view(a1.app_id) == opt_view(a2.app_id),
        !m1.contains_key("GOOSEFS_USER_APP_ID"@) ==> opt_view(a1.app_id) == opt_view(before.app_id),
        a1.metrics_max_batch_size == before.metrics_max_batch_size,
        same_entry(m1, m2, "GOOSEFS_METRICS_PUSHGATEWAY_ENABLED"@)
            ==> a1.pushgateway_enabled == a2.pushgateway_enabled,
        !m1.contains_key("GOOSEFS_METRICS_PUSHGATEWAY_ENABLED"@)
            ==> a1.pushgateway_enabled == before.pushgateway_enabled,
        same_entry(m1, m2, "GOOSEFS_METRICS_PUSHGATEWAY_ENDPOINT"@)
            ==> a1.pushgateway_endpoint@ == a2.pushgateway_endpoint@,
        !m1.contains_key("GOOSEFS_METRICS_PUSHGATEWAY_ENDPOINT"@)
            ==> a1.pushgateway_endpoint@ == before.pushgateway_endpoint@,
        same_entry(m1, m2, "GOOSEFS_METRICS_PUSHGATEWAY_PUSH_INTERVAL_MS"@)
            ==> a1.pushgateway_push_interval.nanos == a2.pushgateway_push_interval.nanos,
        !m1.contains_key("GOOSEFS_METRICS_PUSHGATEWAY_PUSH_INTERVAL_MS"@)
            ==> a1.pushgateway_push_interval.nanos == before.pushgateway_push_interval.nanos,
        same_entry(m1, m2, "GOOSEFS_METRICS_PUSHGATEWAY_JOB"@)
            ==> a1.pushgateway_job@ == a2.pushgateway_job@,
        !m1.contains_key("GOOSEFS_METRICS_PUSHGATEWAY_JOB"@)
            ==> a1.pushgateway_job@ == before.pushgateway_job@,
        same_entry(m1, m2, "GOOSEFS_METRICS_PUSHGATEWAY_INSTANCE"@)
            ==> opt_view(a1.pushgateway_instance) == opt_view(a2.pushgateway_instance),
        !m1.contains_key("GOOSEFS_METRICS_PUSHGATEWAY_INSTANCE"@)
            ==> opt_view(a1.pushgateway_instance) == opt_view(before.pushgateway_instance),
{
    lemma_metrics_variables_alone(m1, m2, before, a1, a2);
}

/// Each variable sets its own field among those of metrics to the value that its text
/// denotes: the number that a numeral denotes, the switch, the text, or the items of a list.
pub proof fn law_metrics_variables_set_their_fields(
    m: Map<Seq<char>, Seq<char>>,
    before: GoosefsConfig,
    after: GoosefsConfig,
    n: int,
    text: Seq<char>,
    x: Seq<char>,
    y: Seq<char>,
)
    requires
        env_applied(m, before, after),
        is_plain_item(x),
        is_plain_item(y),
    ensures
        holds(m, "GOOSEFS_USER_METRICS_COLLECTION_ENABLED"@, "true"@) ==> after.metrics_enabled,
        holds(m, "GOOSEFS_USER_METRICS_COLLECTION_ENABLED"@, "false"@) ==> !after.metrics_enabled,
        holds(m, "GOOSEFS_USER_METRICS_HEARTBEAT_INTERVAL_MS"@, signed_decimal(n)) && 1000 <= n <= u64::MAX
            ==> after.metrics_heartbeat_interval.nanos == n * 1_000_000,
        holds(m, "GOOSEFS_USER_METRICS_HEARTBEAT_INTERVAL_MS"@, signed_decimal(n)) && 0 <= n < 1000
            ==> after.metrics_heartbeat_interval.nanos == before.metrics_heartbeat_interval.nanos,
        holds(m, "GOOSEFS_USER_APP_ID"@, text) && text.len() > 0
            ==> opt_view(after.app_id) == Some(text),
        holds(m, "GOOSEFS_METRICS_PUSHGATEWAY_ENABLED"@, "true"@) ==> after.pushgateway_enabled,
        holds(m, "GOOSEFS_METRICS_PUSHGATEWAY_ENABLED"@, "false"@) ==> !after.pushgateway_enabled,
        holds(m, "GOOSEFS_METRICS_PUSHGATEWAY_ENDPOINT"@, text) && text.len() > 0
            ==> after.pushgateway_endpoint@ == text,
        holds(m, "GOOSEFS_METRICS_PUSHGATEWAY_PUSH_INTERVAL_MS"@, signed_decimal(n)) && 1000 <= n <= u64::MAX
            ==> after.pushgateway_push_interval.nanos == n * 1_000_000,
        holds(m, "GOOSEFS_METRICS_PUSHGATEWAY_PUSH_INTERVAL_MS"@, signed_decimal(n)) && 0 <= n < 1000
            ==> after.pushgateway_push_interval.nanos == before.pushgateway_push_interval.nanos,
        holds(m, "GOOSEFS_METRICS_PUSHGATEWAY_JOB"@, text) && text.len() > 0
            ==> after.pushgateway_job@ == text,
        holds(m, "GOOSEFS_METRICS_PUSHGATEWAY_INSTANCE"@, text) && text.len() > 0
            ==> opt_view(after.pushgateway_instance) == Some(text),
{
    lemma_entry_values(m, n, text, x, y);
}

proof fn lemma_page_cache_variables_alone(
    m1: Map<Seq<char>, Seq<char>>,
    m2: Map<Seq<char>, Seq<char>>,
    before: GoosefsConfig,
    a1: GoosefsConfig,
    a2: GoosefsConfig,
)
    requires
        page_cache_applied(m1, before, a1),
        page_cache_applied(m2, before, a2),
    ensures
        same_entry(m1, m2, "GOOSEFS_USER_CLIENT_CACHE_ENABLED"@)
            ==> a1.client_cache_enabled == a2.client_cache_enabled,
        !m1.contains_key("GOOSEFS_USER_CLIENT_CACHE_ENABLED"@)
            ==> a1.client_cache_enabled == before.client_cache_enabled,
        same_entry(m1, m2, "GOOSEFS_USER_CLIENT_CACHE_PAGE_SIZE"@)
            ==> a1.client_cache_page_size == a2.client_cache_page_size,
        !m1.contains_key("GOOSEFS_USER_CLIENT_CACHE_PAGE_SIZE"@)
            ==> a1.client_cache_page_size == before.client_cache_page_size,
        same_entry(m1, m2, "GOOSEFS_USER_CLIENT_CACHE_SIZE"@)
            ==> a1.client_cache_size == a2.client_cache_size,
        !m1.contains_key("GOOSEFS_USER_CLIENT_CACHE_SIZE"@)
            ==> a1.client_cache_size == before.client_cache_size,
        same_entry(m1, m2, "GOOSEFS_USER_CLIENT_CACHE_DIRS"@)
            ==> string_views(a1.client_cache_dirs@) == string_views(a2.client_cache_dirs@),
        !m1.contains_key("GOOSEFS_USER_CLIENT_CACHE_DIRS"@)
            ==> string_views(a1.client_cache_dirs@) == string_views(before.client_cache_dirs@),
        same_entry(m1, m2, "GOOSEFS_USER_CLIENT_CACHE_EVICTION_POLICY"@)
            ==> a1.client_cache_evictor == a2.client_cache_evictor,
        !m1.contains_key("GOOSEFS_USER_CLIENT_CACHE_EVICTION_POLICY"@)
            ==> a1.client_cache_evictor == before.client_cache_evictor,
        same_entry(m1, m2, "GOOSEFS_USER_CLIENT_CACHE_ASYNC_WRITE_ENABLED"@)
            ==> a1.client_cache_async_write_enabled == a2.client_cache_async_write_enabled,
        !m1.contains_key("GOOSEFS_USER_CLIENT_CACHE_ASYNC_WRITE_ENABLED"@)
            ==> a1.client_cache_async_write_enabled == before.client_cache_async_write_enabled,
        same_entry(m1, m2, "GOOSEFS_USER_CLIENT_CACHE_ASYNC_WRITE_THREADS"@)
            ==> a1.client_cache_async_write_threads == a2.client_cache_async_write_threads,
        !m1.contains_key("GOOSEFS_USER_CLIENT_CACHE_ASYNC_WRITE_THREADS"@)
            ==> a1.client_cache_async_write_threads == before.client_cache_async_write_threads,
        same_entry(m1, m2, "GOOSEFS_USER_CLIENT_CACHE_QUOTA_ENABLED"@)
            ==> a1.client_cache_quota_enabled == a2.client_cache_quota_enabled,
        !m1.contains_key("GOOSEFS_USER_CLIENT_CACHE_QUOTA_ENABLED"@)
            ==> a1.client_cache_quota_enabled == before.client_cache_quota_enabled,
        same_entry(m1, m2, "GOOSEFS_USER_CLIENT_CACHE_TTL_SECONDS"@)
            ==> a1.client_cache_ttl_secs == a2.client_cache_ttl_secs,
        !m1.contains_key("GOOSEFS_USER_CLIENT_CACHE_TTL_SECONDS"@)
            ==> a1.client_cache_ttl_secs == before.client_cache_ttl_secs,
        same_entry(m1, m2, "GOOSEFS_USER_CLIENT_CACHE_URING_ENABLED"@)
            ==> a1.client_cache_uring_enabled == a2.client_cache_uring_enabled,
        !m1.contains_key("GOOSEFS_USER_CLIENT_CACHE_URING_ENABLED"@)
            ==> a1.client_cache_uring_enabled == before.client_cache_uring_enabled,
        same_entry(m1, m2, "GOOSEFS_USER_CLIENT_CACHE_URING_QUEUE_DEPTH"@)
            ==> a1.client_cache_uring_queue_depth == a2.client_cache_uring_queue_depth,
        !m1.contains_key("GOOSEFS_USER_CLIENT_CACHE_URING_QUEUE_DEPTH"@)
            ==> a1.client_cache_uring_queue_depth == before.client_cache_uring_queue_depth,
        same_entry(m1, m2, "GOOSEFS_USER_CLIENT_CACHE_URING_THREAD_COUNT"@)
            ==> a1.client_cache_uring_thread_count == a2.client_cache_uring_thread_count,
        !m1.contains_key("GOOSEFS_USER_CLIENT_CACHE_URING_THREAD_COUNT"@)
            ==> a1.client_cache_uring_thread_count == before.client_cache_uring_thread_count,
        same_entry(m1, m2, "GOOSEFS_USER_CLIENT_CACHE_SYNC_READ_ENABLED"@)
            ==> a1.client_cache_sync_read_enabled == a2.client_cache_sync_read_enabled,
        !m1.contains_key("GOOSEFS_USER_CLIENT_CACHE_SYNC_READ_ENABLED"@)
            ==> a1.client_cache_sync_read_enabled == before.client_cache_sync_read_enabled,
        same_entry(m1, m2, "GOOSEFS_USER_CLIENT_CACHE_SEQUENTIAL_READ_ENABLED"@)
            ==> a1.client_cache_sequential_read_enabled == a2.client_cache_sequential_read_enabled,
        !m1.contains_key("GOOSEFS_USER_CLIENT_CACHE_SEQUENTIAL_READ_ENABLED"@)
            ==> a1.client_cache_sequential_read_enabled
                == before.client_cache_sequential_read_enabled,
{
}

/// Each variable reaches only its own field among those of the local page cache: where two sets of
/// variables agree on it, they give that field the same value, whatever else they hold; and a field
/// whose variable is missing stays.
pub proof fn law_page_cache_variables_reach_only_their_fields(
    m1: Map<Seq<char>, Seq<char>>,
    m2: Map<Seq<char>, Seq<char>>,
    before: GoosefsConfig,
    a1: GoosefsConfig,
    a2: GoosefsConfig,
)
    requires
        env_applied(m1, before, a1),
        env_applied(m2, before, a2),
    ensures
        same_entry(m1, m2, "GOOSEFS_USER_CLIENT_CACHE_ENABLED"@)
            ==> a1.client_cache_enabled == a2.client_cache_enabled,
        !m1.contains_key("GOOSEFS_USER_CLIENT_CACHE_ENABLED"@)
            ==> a1.client_cache_enabled == before.client_cache_enabled,
        same_entry(m1, m2, "GOOSEFS_USER_CLIENT_CACHE_PAGE_SIZE"@)
            ==> a1.client_cache_page_size == a2.client_cache_page_size,
        !m1.contains_key("GOOSEFS_USER_CLIENT_CACHE_PAGE_SIZE"@)
            ==> a1.client_cache_page_size == before.client_cache_page_size,
        same_entry(m1, m2, "GOOSEFS_USER_CLIENT_CACHE_SIZE"@)
            ==> a1.client_cache_size == a2.client_cache_size,
        !m1.contains_key("GOOSEFS_USER_CLIENT_CACHE_SIZE"@)
            ==> a1.client_cache_size == before.client_cache_size,
        same_entry(m1, m2, "GOOSEFS_USER_CLIENT_CACHE_DIRS"@)
            ==> string_views(a1.client_cache_dirs@) == string_views(a2.client_cache_dirs@),
        !m1.contains_key("GOOSEFS_USER_CLIENT_CACHE_DIRS"@)
            ==> string_views(a1.client_cache_dirs@) == string_views(before.client_cache_dirs@),
        same_entry(m1, m2, "GOOSEFS_USER_CLIENT_CACHE_EVICTION_POLICY"@)
            ==> a1.client_cache_evictor == a2.client_cache_evictor,
        !m1.contains_key("GOOSEFS_USER_CLIENT_CACHE_EVICTION_POLICY"@)
            ==> a1.client_cache_evictor == before.client_cache_evictor,
        same_entry(m1, m2, "GOOSEFS_USER_CLIENT_CACHE_ASYNC_WRITE_ENABLED"@)
            ==> a1.client_cache_async_write_enabled == a2.client_cache_async_write_enabled,
        !m1.contains_key("GOOSEFS_USER_CLIENT_CACHE_ASYNC_WRITE_ENABLED"@)
            ==> a1.client_cache_async_write_enabled == before.client_cache_async_write_enabled,
        same_entry(m1, m2, "GOOSEFS_USER_CLIENT_CACHE_ASYNC_WRITE_THREADS"@)
            ==> a1.client_cache_async_write_threads == a2.client_cache_async_write_threads,
        !m1.contains_key("GOOSEFS_USER_CLIENT_CACHE_ASYNC_WRITE_THREADS"@)
            ==> a1.client_cache_async_write_threads == before.client_cache_async_write_threads,
        same_entry(m1, m2, "GOOSEFS_USER_CLIENT_CACHE_QUOTA_ENABLED"@)
            ==> a1.client_cache_quota_enabled == a2.client_cache_quota_enabled,
        !m1.contains_key("GOOSEFS_USER_CLIENT_CACHE_QUOTA_ENABLED"@)
            ==> a1.client_cache_quota_enabled == before.client_cache_quota_enabled,
        same_entry(m1, m2, "GOOSEFS_USER_CLIENT_CACHE_TTL_SECONDS"@)
            ==> a1.client_cache_ttl_secs == a2.client_cache_ttl_secs,
        !m1.contains_key("GOOSEFS_USER_CLIENT_CACHE_TTL_SECONDS"@)
            ==> a1.client_cache_ttl_secs == before.client_cache_ttl_secs,
        same_entry(m1, m2, "GOOSEFS_USER_CLIENT_CACHE_URING_ENABLED"@)
            ==> a1.client_cache_uring_enabled == a2.client_cache_uring_enabled,
        !m1.contains_key("GOOSEFS_USER_CLIENT_CACHE_URING_ENABLED"@)
            ==> a1.client_cache_uring_enabled == before.client_cache_uring_enabled,
        same_entry(m1, m2, "GOOSEFS_USER_CLIENT_CACHE_URING_QUEUE_DEPTH"@)
            ==> a1.client_cache_uring_queue_depth == a2.client_cache_uring_queue_depth,
        !m1.contains_key("GOOSEFS_USER_CLIENT_CACHE_URING_QUEUE_DEPTH"@)
            ==> a1.client_cache_uring_queue_depth == before.client_cache_uring_queue_depth,
        same_entry(m1, m2, "GOOSEFS_USER_CLIENT_CACHE_URING_THREAD_COUNT"@)
            ==> a1.client_cache_uring_thread_count == a2.client_cache_uring_thread_count,
        !m1.contains_key("GOOSEFS_USER_CLIENT_CACHE_URING_THREAD_COUNT"@)
            ==> a1.client_cache_uring_thread_count == before.client_cache_uring_thread_count,
        same_entry(m1, m2, "GOOSEFS_USER_CLIENT_CACHE_SYNC_READ_ENABLED"@)
            ==> a1.client_cache_sync_read_enabled == a2.client_cache_sync_read_enabled,
        !m1.contains_key("GOOSEFS_USER_CLIENT_CACHE_SYNC_READ_ENABLED"@)
            ==> a1.client_cache_sync_read_enabled == before.client_cache_sync_read_enabled,
        same_entry(m1, m2, "GOOSEFS_USER_CLIENT_CACHE_SEQUENTIAL_READ_ENABLED"@)
            ==> a1.client_cache_sequential_read_enabled == a2.client_cache_sequential_read_enabled,
        !m1.contains_key("GOOSEFS_USER_CLIENT_CACHE_SEQUENTIAL_READ_ENABLED"@)
            ==> a1.client_cache_sequential_read_enabled
                == before.client_cache_sequential_read_enabled,
{
    lemma_page_cache_variables_alone(m1, m2, before, a1, a2);
}

/// Each variable sets its own field among those of the local page cache to the value that its text
/// denotes: the number that a numeral denotes, the switch, the text, or the items of a list.
pub proof fn law_page_cache_variables_set_their_fields(
    m: Map<Seq<char>, Seq<char>>,
    before: GoosefsConfig,
    after: GoosefsConfig,
    n: int,
    text: Seq<char>,
    x: Seq<char>,
    y: Seq<char>,
)
    requires
        env_applied(m, before, after),
        is_plain_item(x),
        is_plain_item(y),
    ensures
        holds(m, "GOOSEFS_USER_CLIENT_CACHE_ENABLED"@, "true"@) ==> after.client_cache_enabled,
        holds(m, "GOOSEFS_USER_CLIENT_CACHE_ENABLED"@, "false"@) ==> !after.client_cache_enabled,
        holds(m, "GOOSEFS_USER_CLIENT_CACHE_PAGE_SIZE"@, signed_decimal(n)) && 1 <= n <= u64::MAX
            ==> after.client_cache_page_size == n,
        holds(m, "GOOSEFS_USER_CLIENT_CACHE_PAGE_SIZE"@, signed_decimal(n)) && 0 <= n < 1
            ==> after.client_cache_page_size == before.client_cache_page_size,
        holds(m, "GOOSEFS_USER_CLIENT_CACHE_SIZE"@, signed_decimal(n)) && 0 <= n <= u64::MAX
            ==> after.client_cache_size == n,
        holds(m, "GOOSEFS_USER_CLIENT_CACHE_DIRS"@, x)
            ==> string_views(after.client_cache_dirs@) == seq![x],
        holds(m, "GOOSEFS_USER_CLIENT_CACHE_DIRS"@, x + seq![','] + y)
            ==> string_views(after.client_cache_dirs@) == seq![x, y],
        holds(m, "GOOSEFS_USER_CLIENT_CACHE_EVICTION_POLICY"@, text) && ascii_uppercase(text)
                == "LRU"@
            ==> after.client_cache_evictor is Lru,
        holds(m, "GOOSEFS_USER_CLIENT_CACHE_EVICTION_POLICY"@, text) && ascii_uppercase(text)
                == "LFU"@
            ==> after.client_cache_evictor is Lfu,
        holds(m, "GOOSEFS_USER_CLIENT_CACHE_ASYNC_WRITE_ENABLED"@, "true"@)
            ==> after.client_cache_async_write_enabled,
        holds(m, "GOOSEFS_USER_CLIENT_CACHE_ASYNC_WRITE_ENABLED"@, "false"@)
            ==> !after.client_cache_async_write_enabled,
        holds(m, "GOOSEFS_USER_CLIENT_CACHE_ASYNC_WRITE_THREADS"@, signed_decimal(n)) && 1 <= n <= usize::MAX
            ==> after.client_cache_async_write_threads == n,
        holds(m, "GOOSEFS_USER_CLIENT_CACHE_ASYNC_WRITE_THREADS"@, signed_decimal(n)) && 0 <= n < 1
            ==> after.client_cache_async_write_threads == before.client_cache_async_write_threads,
        holds(m, "GOOSEFS_USER_CLIENT_CACHE_QUOTA_ENABLED"@, "true"@)
            ==> after.client_cache_quota_enabled,
        holds(m, "GOOSEFS_USER_CLIENT_CACHE_QUOTA_ENABLED"@, "false"@)
            ==> !after.client_cache_quota_enabled,
        holds(m, "GOOSEFS_USER_CLIENT_CACHE_TTL_SECONDS"@, signed_decimal(n)) && 0 <= n <= u64::MAX
            ==> after.client_cache_ttl_secs == n,
        holds(m, "GOOSEFS_USER_CLIENT_CACHE_URING_ENABLED"@, "true"@)
            ==> after.client_cache_uring_enabled,
        holds(m, "GOOSEFS_USER_CLIENT_CACHE_URING_ENABLED"@, "false"@)
            ==> !after.client_cache_uring_enabled,
        holds(m, "GOOSEFS_USER_CLIENT_CACHE_URING_QUEUE_DEPTH"@, signed_decimal(n)) && 1 <= n <= usize::MAX
            ==> after.client_cache_uring_queue_depth == n,
        holds(m, "GOOSEFS_USER_CLIENT_CACHE_URING_QUEUE_DEPTH"@, signed_decimal(n)) && 0 <= n < 1
            ==> after.client_cache_uring_queue_depth == before.client_cache_uring_queue_depth,
        holds(m, "GOOSEFS_USER_CLIENT_CACHE_URING_THREAD_COUNT"@, signed_decimal(n)) && 1 <= n <= usize::MAX
            ==> after.client_cache_uring_thread_count == n,
        holds(m, "GOOSEFS_USER_CLIENT_CACHE_URING_THREAD_COUNT"@, signed_decimal(n)) && 0 <= n < 1
            ==> after.client_cache_uring_thread_count == before.client_cache_uring_thread_count,
        holds(m, "GOOSEFS_USER_CLIENT_CACHE_SYNC_READ_ENABLED"@, "true"@)
            ==> after.client_cache_sync_read_enabled,
        holds(m, "GOOSEFS_USER_CLIENT_CACHE_SYNC_READ_ENABLED"@, "false"@)
            ==> !after.client_cache_sync_read_enabled,
        holds(m, "GOOSEFS_USER_CLIENT_CACHE_SEQUENTIAL_READ_ENABLED"@, "true"@)
            ==> after.client_cache_sequential_read_enabled,
        holds(m, "GOOSEFS_USER_CLIENT_CACHE_SEQUENTIAL_READ_ENABLED"@, "false"@)
            ==> !after.client_cache_sequential_read_enabled,
{
    lemma_entry_values(m, n, text, x, y);
}

proof fn lemma_metadata_variables_alone(
    m1: Map<Seq<char>, Seq<char>>,
    m2: Map<Seq<char>, Seq<char>>,
    before: GoosefsConfig,
    a1: GoosefsConfig,
    a2: GoosefsConfig,
)
    requires
        metadata_applied(m1, before, a1),
        metadata_applied(m2, before, a2),
    ensures
        same_entry(m1, m2, "GOOSEFS_METADATA_CACHE_ENABLED"@)
            ==> a1.metadata_cache_enabled == a2.metadata_cache_enabled,
        !m1.contains_key("GOOSEFS_METADATA_CACHE_ENABLED"@)
            ==> a1.metadata_cache_enabled == before.metadata_cache_enabled,
        same_entry(m1, m2, "GOOSEFS_METADATA_CACHE_MAX_SIZE"@)
            ==> a1.metadata_cache_max_size == a2.metadata_cache_max_size,
        !m1.contains_key("GOOSEFS_METADATA_CACHE_MAX_SIZE"@)
            ==> a1.metadata_cache_max_size == before.metadata_cache_max_size,
        same_entry(m1, m2, "GOOSEFS_METADATA_CACHE_EXPIRATION"@)
            ==> a1.metadata_cache_expiration.nanos == a2.metadata_cache_expiration.nanos,
        !m1.contains_key("GOOSEFS_METADATA_CACHE_EXPIRATION"@)
            ==> a1.metadata_cache_expiration.nanos == before.metadata_cache_expiration.nanos,
        same_entry(m1, m2, "GOOSEFS_FILE_METADATA_SYNC_INTERVAL"@)
            ==> a1.file_metadata_sync_interval == a2.file_metadata_sync_interval,
        !m1.contains_key("GOOSEFS_FILE_METADATA_SYNC_INTERVAL"@)
            ==> a1.file_metadata_sync_interval == before.file_metadata_sync_interval,
        same_entry(m1, m2, "GOOSEFS_FILE_METADATA_LOAD_TYPE"@)
            ==> a1.file_metadata_load_type == a2.file_metadata_load_type,
        !m1.contains_key("GOOSEFS_FILE_METADATA_LOAD_TYPE"@)
            ==> a1.file_metadata_load_type == before.file_metadata_load_type,
        a1.range_coalesce_enabled == before.range_coalesce_enabled,
        a1.range_coalesce_gap_bytes == before.range_coalesce_gap_bytes,
        a1.range_coalesce_max_bytes == before.range_coalesce_max_bytes,
{
}

/// Each variable reaches only its own field among those of cached metadata and coalesced ranges: where two sets of
/// variables agree on it, they give that field the same value, whatever else they hold; and a field
/// whose variable is missing stays.
pub proof fn law_metadata_variables_reach_only_their_fields(
    m1: Map<Seq<char>, Seq<char>>,
    m2: Map<Seq<char>, Seq<char>>,
    before: GoosefsConfig,
    a1: GoosefsConfig,
    a2: GoosefsConfig,
)
    requires
        env_applied(m1, before, a1),
        env_applied(m2, before, a2),
    ensures
        same_entry(m1, m2, "GOOSEFS_METADATA_CACHE_ENABLED"@)
            ==> a1.metadata_cache_enabled == a2.metadata_cache_enabled,
        !m1.contains_key("GOOSEFS_METADATA_CACHE_ENABLED"@)
            ==> a1.metadata_cache_enabled == before.metadata_cache_enabled,
        same_entry(m1, m2, "GOOSEFS_METADATA_CACHE_MAX_SIZE"@)
            ==> a1.metadata_cache_max_size == a2.metadata_cache_max_size,
        !m1.contains_key("GOOSEFS_METADATA_CACHE_MAX_SIZE"@)
            ==> a1.metadata_cache_max_size == before.metadata_cache_max_size,
        same_entry(m1, m2, "GOOSEFS_METADATA_CACHE_EXPIRATION"@)
            ==> a1.metadata_cache_expiration.nanos == a2.metadata_cache_expiration.nanos,
        !m1.contains_key("GOOSEFS_METADATA_CACHE_EXPIRATION"@)
            ==> a1.metadata_cache_expiration.nanos == before.metadata_cache_expiration.nanos,
        same_entry(m1, m2, "GOOSEFS_FILE_METADATA_SYNC_INTERVAL"@)
            ==> a1.file_metadata_sync_interval == a2.file_metadata_sync_interval,
        !m1.contains_key("GOOSEFS_FILE_METADATA_SYNC_INTERVAL"@)
            ==> a1.file_metadata_sync_interval == before.file_metadata_sync_interval,
        same_entry(m1, m2, "GOOSEFS_FILE_METADATA_LOAD_TYPE"@)
            ==> a1.file_metadata_load_type == a2.file_metadata_load_type,
        !m1.contains_key("GOOSEFS_FILE_METADATA_LOAD_TYPE"@)
            ==> a1.file_metadata_load_type == before.file_metadata_load_type,
        a1.range_coalesce_enabled == before.range_coalesce_enabled,
        a1.range_coalesce_gap_bytes == before.range_coalesce_gap_bytes,
        a1.range_coalesce_max_bytes == before.range_coalesce_max_bytes,
{
    lemma_metadata_variables_alone(m1, m2, before, a1, a2);
}

/// Each variable sets its own field among those of cached metadata and coalesced ranges to the value that its text
/// denotes: the number that a numeral denotes, the switch, the text, or the items of a list.
pub proof fn law_metadata_variables_set_their_fields(
    m: Map<Seq<char>, Seq<char>>,
    before: GoosefsConfig,
    after: GoosefsConfig,
    n: int,
    text: Seq<char>,
    x: Seq<char>,
    y: Seq<char>,
)
    requires
        env_applied(m, before, after),
        is_plain_item(x),
        is_plain_item(y),
    ensures
        holds(m, "GOOSEFS_METADATA_CACHE_ENABLED"@, "true"@) ==> after.metadata_cache_enabled,
        holds(m, "GOOSEFS_METADATA_CACHE_ENABLED"@, "false"@) ==> !after.metadata_cache_enabled,
        holds(m, "GOOSEFS_METADATA_CACHE_MAX_SIZE"@, signed_decimal(n)) && 1 <= n <= usize::MAX
            ==> after.metadata_cache_max_size == n,
        holds(m, "GOOSEFS_METADATA_CACHE_MAX_SIZE"@, signed_decimal(n)) && n == 0
            ==> after.metadata_cache_max_size == 1,
        holds(m, "GOOSEFS_METADATA_CACHE_EXPIRATION"@, signed_decimal(n)) && 0 <= n <= 0x20_0000_0000_0000
            ==> after.metadata_cache_expiration.nanos == n * 1_000_000,
        holds(m, "GOOSEFS_METADATA_CACHE_EXPIRATION"@, signed_decimal(n) + "s"@) && 0 <= n && n * 1000 <= 0x20_0000_0000_0000
            ==> after.metadata_cache_expiration.nanos == n * 1000 * 1_000_000,
        holds(m, "GOOSEFS_FILE_METADATA_SYNC_INTERVAL"@, signed_decimal(n)) && -0x20_0000_0000_0000 <= n <= 0x20_0000_0000_0000
            ==> after.file_metadata_sync_interval == n,
        holds(m, "GOOSEFS_FILE_METADATA_SYNC_INTERVAL"@, signed_decimal(n) + "s"@) && 0 <= n && n * 1000 <= 0x20_0000_0000_0000
            ==> after.file_metadata_sync_interval == n * 1000,
        holds(m, "GOOSEFS_FILE_METADATA_LOAD_TYPE"@, text) && ascii_lowercase(text) == "once"@
            ==> after.file_metadata_load_type is Once,
        holds(m, "GOOSEFS_FILE_METADATA_LOAD_TYPE"@, text) && ascii_lowercase(text) == "always"@
            ==> after.file_metadata_load_type is Always,
        holds(m, "GOOSEFS_FILE_METADATA_LOAD_TYPE"@, text) && ascii_lowercase(text) == "never"@
            ==> after.file_metadata_load_type is Never,
{
    lemma_entry_values(m, n, text, x, y);
}

proof fn lemma_short_circuit_variables_alone(
    m1: Map<Seq<char>, Seq<char>>,
    m2: Map<Seq<char>, Seq<char>>,
    before: GoosefsConfig,
    a1: GoosefsConfig,
    a2: GoosefsConfig,
)
    requires
        short_circuit_applied(m1, before, a1),
        short_circuit_applied(m2, before, a2),
    ensures
        same_entry(m1, m2, "GOOSEFS_SHORT_CIRCUIT_ENABLED"@)
            ==> a1.short_circuit_enabled == a2.short_circuit_enabled,
        !m1.contains_key("GOOSEFS_SHORT_CIRCUIT_ENABLED"@)
            ==> a1.short_circuit_enabled == before.short_circuit_enabled,
        same_entry(m1, m2, "GOOSEFS_SHORT_CIRCUIT_CACHE_CAPACITY"@)
            ==> a1.short_circuit_cache_capacity == a2.short_circuit_cache_capacity,
        !m1.contains_key("GOOSEFS_SHORT_CIRCUIT_CACHE_CAPACITY"@)
            ==> a1.short_circuit_cache_capacity == before.short_circuit_cache_capacity,
        same_entry(m1, m2, "GOOSEFS_SHORT_CIRCUIT_CACHE_TTL_MS"@)
            ==> a1.short_circuit_cache_ttl.nanos == a2.short_circuit_cache_ttl.nanos,
        !m1.contains_key("GOOSEFS_SHORT_CIRCUIT_CACHE_TTL_MS"@)
            ==> a1.short_circuit_cache_ttl.nanos == before.short_circuit_cache_ttl.nanos,
        same_entry(m1, m2, "GOOSEFS_SHORT_CIRCUIT_NEG_CACHE_TTL_MS"@)
            ==> a1.short_circuit_neg_cache_ttl.nanos == a2.short_circuit_neg_cache_ttl.nanos,
        !m1.contains_key("GOOSEFS_SHORT_CIRCUIT_NEG_CACHE_TTL_MS"@)
            ==> a1.short_circuit_neg_cache_ttl.nanos == before.short_circuit_neg_cache_ttl.nanos,
        same_entry(m1, m2, "GOOSEFS_SHORT_CIRCUIT_ADVISE"@)
            ==> a1.short_circuit_advise@ == a2.short_circuit_advise@,
        !m1.contains_key("GOOSEFS_SHORT_CIRCUIT_ADVISE"@)
            ==> a1.short_circuit_advise@ == before.short_circuit_advise@,
        same_entry(m1, m2, "GOOSEFS_SHORT_CIRCUIT_PREFETCH_ENABLED"@)
            ==> a1.short_circuit_prefetch_enabled == a2.short_circuit_prefetch_enabled,
        !m1.contains_key("GOOSEFS_SHORT_CIRCUIT_PREFETCH_ENABLED"@)
            ==> a1.short_circuit_prefetch_enabled == before.short_circuit_prefetch_enabled,
        same_entry(m1, m2, "GOOSEFS_SHORT_CIRCUIT_PREFETCH_COALESCE_GAP"@)
            ==> a1.short_circuit_prefetch_coalesce_gap == a2.short_circuit_prefetch_coalesce_gap,
        !m1.contains_key("GOOSEFS_SHORT_CIRCUIT_PREFETCH_COALESCE_GAP"@)
            ==> a1.short_circuit_prefetch_coalesce_gap
                == before.short_circuit_prefetch_coalesce_gap,
        same_entry(m1, m2, "GOOSEFS_SHORT_CIRCUIT_PREFETCH_MAX_BATCH"@)
            ==> a1.short_circuit_prefetch_max_batch == a2.short_circuit_prefetch_max_batch,
        !m1.contains_key("GOOSEFS_SHORT_CIRCUIT_PREFETCH_MAX_BATCH"@)
            ==> a1.short_circuit_prefetch_max_batch == before.short_circuit_prefetch_max_batch,
        same_entry(m1, m2, "GOOSEFS_SHORT_CIRCUIT_MIN_BLOCK_SIZE"@)
            ==> a1.short_circuit_min_block_size == a2.short_circuit_min_block_size,
        !m1.contains_key("GOOSEFS_SHORT_CIRCUIT_MIN_BLOCK_SIZE"@)
            ==> a1.short_circuit_min_block_size == before.short_circuit_min_block_size,
        same_entry(m1, m2, "GOOSEFS_SHORT_CIRCUIT_SIGBUS_HANDLER"@)
            ==> a1.short_circuit_sigbus_handler == a2.short_circuit_sigbus_handler,
        !m1.contains_key("GOOSEFS_SHORT_CIRCUIT_SIGBUS_HANDLER"@)
            ==> a1.short_circuit_sigbus_handler == before.short_circuit_sigbus_handler,
        same_entry(m1, m2, "GOOSEFS_SHORT_CIRCUIT_THP"@)
            ==> a1.short_circuit_thp == a2.short_circuit_thp,
        !m1.contains_key("GOOSEFS_SHORT_CIRCUIT_THP"@)
            ==> a1.short_circuit_thp == before.short_circuit_thp,
{
}

/// Each variable reaches only its own field among those of short-circuit reads: where two sets of
/// variables agree on it, they give that field the same value, whatever else they hold; and a field
/// whose variable is missing stays.
pub proof fn law_short_circuit_variables_reach_only_their_fields(
    m1: Map<Seq<char>, Seq<char>>,
    m2: Map<Seq<char>, Seq<char>>,
    before: GoosefsConfig,
    a1: GoosefsConfig,
    a2: GoosefsConfig,
)
    requires
        env_applied(m1, before, a1),
        env_applied(m2, before, a2),
    ensures
        same_entry(m1, m2, "GOOSEFS_SHORT_CIRCUIT_ENABLED"@)
            ==> a1.short_circuit_enabled == a2.short_circuit_enabled,
        !m1.contains_key("GOOSEFS_SHORT_CIRCUIT_ENABLED"@)
            ==> a1.short_circuit_enabled == before.short_circuit_enabled,
        same_entry(m1, m2, "GOOSEFS_SHORT_CIRCUIT_CACHE_CAPACITY"@)
            ==> a1.short_circuit_cache_capacity == a2.short_circuit_cache_capacity,
        !m1.contains_key("GOOSEFS_SHORT_CIRCUIT_CACHE_CAPACITY"@)
            ==> a1.short_circuit_cache_capacity == before.short_circuit_cache_capacity,
        same_entry(m1, m2, "GOOSEFS_SHORT_CIRCUIT_CACHE_TTL_MS"@)
            ==> a1.short_circuit_cache_ttl.nanos == a2.short_circuit_cache_ttl.nanos,
        !m1.contains_key("GOOSEFS_SHORT_CIRCUIT_CACHE_TTL_MS"@)
            ==> a1.short_circuit_cache_ttl.nanos == before.short_circuit_cache_ttl.nanos,
        same_entry(m1, m2, "GOOSEFS_SHORT_CIRCUIT_NEG_CACHE_TTL_MS"@)
            ==> a1.short_circuit_neg_cache_ttl.nanos == a2.short_circuit_neg_cache_ttl.nanos,
        !m1.contains_key("GOOSEFS_SHORT_CIRCUIT_NEG_CACHE_TTL_MS"@)
            ==> a1.short_circuit_neg_cache_ttl.nanos == before.short_circuit_neg_cache_ttl.nanos,
        same_entry(m1, m2, "GOOSEFS_SHORT_CIRCUIT_ADVISE"@)
            ==> a1.short_circuit_advise@ == a2.short_circuit_advise@,
        !m1.contains_key("GOOSEFS_SHORT_CIRCUIT_ADVISE"@)
            ==> a1.short_circuit_advise@ == before.short_circuit_advise@,
        same_entry(m1, m2, "GOOSEFS_SHORT_CIRCUIT_PREFETCH_ENABLED"@)
            ==> a1.short_circuit_prefetch_enabled == a2.short_circuit_prefetch_enabled,
        !m1.contains_key("GOOSEFS_SHORT_CIRCUIT_PREFETCH_ENABLED"@)
            ==> a1.short_circuit_prefetch_enabled == before.short_circuit_prefetch_enabled,
        same_entry(m1, m2, "GOOSEFS_SHORT_CIRCUIT_PREFETCH_COALESCE_GAP"@)
            ==> a1.short_circuit_prefetch_coalesce_gap == a2.short_circuit_prefetch_coalesce_gap,
        !m1.contains_key("GOOSEFS_SHORT_CIRCUIT_PREFETCH_COALESCE_GAP"@)
            ==> a1.short_circuit_prefetch_coalesce_gap
                == before.short_circuit_prefetch_coalesce_gap,
        same_entry(m1, m2, "GOOSEFS_SHORT_CIRCUIT_PREFETCH_MAX_BATCH"@)
            ==> a1.short_circuit_prefetch_max_batch == a2.short_circuit_prefetch_max_batch,
        !m1.contains_key("GOOSEFS_SHORT_CIRCUIT_PREFETCH_MAX_BATCH"@)
            ==> a1.short_circuit_prefetch_max_batch == before.short_circuit_prefetch_max_batch,
        same_entry(m1, m2, "GOOSEFS_SHORT_CIRCUIT_MIN_BLOCK_SIZE"@)
            ==> a1.short_circuit_min_block_size == a2.short_circuit_min_block_size,
        !m1.contains_key("GOOSEFS_SHORT_CIRCUIT_MIN_BLOCK_SIZE"@)
            ==> a1.short_circuit_min_block_size == before.short_circuit_min_block_size,
        same_entry(m1, m2, "GOOSEFS_SHORT_CIRCUIT_SIGBUS_HANDLER"@)
            ==> a1.short_circuit_sigbus_handler == a2.short_circuit_sigbus_handler,
        !m1.contains_key("GOOSEFS_SHORT_CIRCUIT_SIGBUS_HANDLER"@)
            ==> a1.short_circuit_sigbus_handler == before.short_circuit_sigbus_handler,
        same_entry(m1, m2, "GOOSEFS_SHORT_CIRCUIT_THP"@)
            ==> a1.short_circuit_thp == a2.short_circuit_thp,
        !m1.contains_key("GOOSEFS_SHORT_CIRCUIT_THP"@)
            ==> a1.short_circuit_thp == before.short_circuit_thp,
{
    lemma_short_circuit_variables_alone(m1, m2, before, a1, a2);
}

/// Each variable sets its own field among those of short-circuit reads to the value that its text
/// denotes: the number that a numeral denotes, the switch, the text, or the items of a list.
pub proof fn law_short_circuit_variables_set_their_fields(
    m: Map<Seq<char>, Seq<char>>,
    before: GoosefsConfig,
    after: GoosefsConfig,
    n: int,
    text: Seq<char>,
    x: Seq<char>,
    y: Seq<char>,
)
    requires
        env_applied(m, before, after),
        is_plain_item(x),
        is_plain_item(y),
    ensures
        holds(m, "GOOSEFS_SHORT_CIRCUIT_ENABLED"@, "true"@) ==> after.short_circuit_enabled,
        holds(m, "GOOSEFS_SHORT_CIRCUIT_ENABLED"@, "false"@) ==> !after.short_circuit_enabled,
        holds(m, "GOOSEFS_SHORT_CIRCUIT_CACHE_CAPACITY"@, signed_decimal(n)) && 0 <= n <= usize::MAX
            ==> after.short_circuit_cache_capacity == n,
        holds(m, "GOOSEFS_SHORT_CIRCUIT_CACHE_TTL_MS"@, signed_decimal(n)) && 0 <= n <= u64::MAX
            ==> after.short_circuit_cache_ttl.nanos == n * 1_000_000,
        holds(m, "GOOSEFS_SHORT_CIRCUIT_NEG_CACHE_TTL_MS"@, signed_decimal(n)) && 0 <= n <= u64::MAX
            ==> after.short_circuit_neg_cache_ttl.nanos == n * 1_000_000,
        holds(m, "GOOSEFS_SHORT_CIRCUIT_ADVISE"@, text) && text.len() > 0
            ==> after.short_circuit_advise@ == text,
        holds(m, "GOOSEFS_SHORT_CIRCUIT_PREFETCH_ENABLED"@, "true"@)
            ==> after.short_circuit_prefetch_enabled,
        holds(m, "GOOSEFS_SHORT_CIRCUIT_PREFETCH_ENABLED"@, "false"@)
            ==> !after.short_circuit_prefetch_enabled,
        holds(m, "GOOSEFS_SHORT_CIRCUIT_PREFETCH_COALESCE_GAP"@, signed_decimal(n)) && 0 <= n <= usize::MAX
            ==> after.short_circuit_prefetch_coalesce_gap == n,
        holds(m, "GOOSEFS_SHORT_CIRCUIT_PREFETCH_MAX_BATCH"@, signed_decimal(n)) && 0 <= n <= usize::MAX
            ==> after.short_circuit_prefetch_max_batch == n,
        holds(m, "GOOSEFS_SHORT_CIRCUIT_MIN_BLOCK_SIZE"@, signed_decimal(n)) && i64::MIN <= n <= i64::MAX
            ==> after.short_circuit_min_block_size == n,
        holds(m, "GOOSEFS_SHORT_CIRCUIT_SIGBUS_HANDLER"@, "true"@)
            ==> after.short_circuit_sigbus_handler,
        holds(m, "GOOSEFS_SHORT_CIRCUIT_SIGBUS_HANDLER"@, "false"@)
            ==> !after.short_circuit_sigbus_handler,
        holds(m, "GOOSEFS_SHORT_CIRCUIT_THP"@, "true"@) ==> after.short_circuit_thp,
        holds(m, "GOOSEFS_SHORT_CIRCUIT_THP"@, "false"@) ==> !after.short_circuit_thp,
{
    lemma_entry_values(m, n, text, x, y);
}

} // verus!
