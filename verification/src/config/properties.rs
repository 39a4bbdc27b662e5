//! Configuration from `goosefs-site.properties`.

use vstd::prelude::*;
use vstd::string::*;

use crate::config::client::{is_default, same_config, GoosefsConfig};
use crate::config::env::{
    agree_where_set, env_applied, law_env_overrides, law_no_variables_no_change,
};
use crate::config::host::HostEnv;
use crate::config::keys::{
    PROP_MASTER_HOSTNAME, PROP_MASTER_RPC_ADDRESSES, PROP_MASTER_RPC_PORT,
    PROP_USER_BLOCK_SIZE_BYTES_DEFAULT, PROP_USER_NETWORK_DATA_TRANSFER_CHUNK_SIZE,
    PROP_USER_FILE_WRITETYPE_DEFAULT, PROP_USER_FILE_REPLICATION_NUMBER,
    PROP_USER_FILE_CHECK_BLOCK_REPLICAS, PROP_USER_FILE_READ_MAX_NODE_RETRY,
    PROP_USER_MASTER_CONNECTION_POOL_SIZE, PROP_USER_MASTER_POOL_SCHEDULE,
    PROP_USER_WORKER_CONNECTION_POOL_SIZE, PROP_SECURITY_AUTHENTICATION_TYPE,
    PROP_SECURITY_LOGIN_USERNAME, PROP_CONFIG_MANAGER_RPC_ADDRESSES, PROP_CONFIG_RPC_PORT,
    PROP_USER_CLIENT_TRANSPARENT_ACCELERATION_ENABLED,
    PROP_USER_CLIENT_TRANSPARENT_ACCELERATION_COSRANGER_ENABLED,
    PROP_SECURITY_AUTHORIZATION_PERMISSION_ENABLED, PROP_SECURITY_LOGIN_IMPERSONATION_USERNAME,
    PROP_USER_METRICS_COLLECTION_ENABLED, PROP_USER_METRICS_HEARTBEAT_INTERVAL,
    PROP_USER_APP_ID, PROP_METRICS_PUSHGATEWAY_ENABLED, PROP_METRICS_PUSHGATEWAY_ENDPOINT,
    PROP_METRICS_PUSHGATEWAY_PUSH_INTERVAL, PROP_METRICS_PUSHGATEWAY_JOB,
    PROP_METRICS_PUSHGATEWAY_INSTANCE, PROP_USER_CLIENT_CACHE_ENABLED,
    PROP_USER_CLIENT_CACHE_PAGE_SIZE, PROP_USER_CLIENT_CACHE_SIZE, PROP_USER_CLIENT_CACHE_DIRS,
    PROP_USER_CLIENT_CACHE_EVICTION_POLICY, PROP_USER_CLIENT_CACHE_ASYNC_WRITE_ENABLED,
    PROP_USER_CLIENT_CACHE_ASYNC_WRITE_THREADS, PROP_USER_CLIENT_CACHE_QUOTA_ENABLED,
    PROP_USER_CLIENT_CACHE_TTL_SECONDS, PROP_USER_CLIENT_CACHE_URING_ENABLED,
    PROP_USER_CLIENT_CACHE_URING_QUEUE_DEPTH, PROP_USER_CLIENT_CACHE_URING_THREAD_COUNT,
    PROP_USER_CLIENT_CACHE_SYNC_READ_ENABLED, PROP_USER_CLIENT_CACHE_SEQUENTIAL_READ_ENABLED,
    PROP_USER_METADATA_CACHE_ENABLED, STORAGE_OPT_METADATA_CACHE_ENABLED,
    PROP_USER_METADATA_CACHE_MAX_SIZE, STORAGE_OPT_METADATA_CACHE_MAX_SIZE,
    PROP_USER_METADATA_CACHE_EXPIRATION_TIME, STORAGE_OPT_METADATA_CACHE_EXPIRATION,
    PROP_USER_FILE_METADATA_SYNC_INTERVAL, STORAGE_OPT_FILE_METADATA_SYNC_INTERVAL,
    PROP_USER_FILE_METADATA_LOAD_TYPE, STORAGE_OPT_FILE_METADATA_LOAD_TYPE,
    PROP_USER_SHORT_CIRCUIT_ENABLED, PROP_CLIENT_SHORT_CIRCUIT_CACHE_CAPACITY,
    PROP_CLIENT_SHORT_CIRCUIT_CACHE_TTL_MS, PROP_CLIENT_SHORT_CIRCUIT_NEG_CACHE_TTL_MS,
    PROP_CLIENT_SHORT_CIRCUIT_ADVISE, PROP_CLIENT_SHORT_CIRCUIT_PREFETCH_ENABLED,
    PROP_CLIENT_SHORT_CIRCUIT_PREFETCH_COALESCE_GAP,
    PROP_CLIENT_SHORT_CIRCUIT_PREFETCH_MAX_BATCH, PROP_CLIENT_SHORT_CIRCUIT_MIN_BLOCK_SIZE,
    PROP_CLIENT_SHORT_CIRCUIT_SIGBUS_HANDLER, PROP_CLIENT_SHORT_CIRCUIT_THP,
};
use crate::config::kinds::ascii_uppercase;
use crate::config::settings::{
    auth_type_at, bytes_at, count_at, evictor_at, holds, int_at, is_plain_item, lemma_entry_values,
    lemma_list_entries, list_at, load_type_at, millis_nanos_at, opt_view, or, same_entry,
    schedule_at, switch_at, text_at, time_at, time_nanos_at, value_at, word_switch_at,
    write_type_at, Settings,
};
use crate::text::{
    ascii_lowercase, chars_of, decimal, decimal_string, drop_leading, find, is_white_space,
    law_trim_drops_white_space_at_the_ends, lemma_rspan, lemma_span, lemma_span_is, list_items,
    other_than, signed_decimal, span, string_views, trim, trimmed, white,
};

verus! {

/// Why a configuration could not be loaded.
#[derive(Debug)]
pub enum ConfigLoadError {
    /// The file could not be read.
    IoError {
        /// Path of the file.
        path: String,
        /// What the host reported.
        source: String,
    },
    /// The contents could not be understood.
    ParseError {
        /// What is wrong.
        message: String,
    },
}

impl ConfigLoadError {
    /// The sentence that describes the error.
    pub fn to_string(&self) -> (r: String)
        ensures
            r@ == (match *self {
                ConfigLoadError::IoError { path, source } => "failed to read config file '"@ + path@
                    + "': "@ + source@,
                ConfigLoadError::ParseError { message } => "failed to parse YAML config: "@
                    + message@,
            }),
    {
        match self {
            ConfigLoadError::IoError { path, source } => {
                let mut m: String = "failed to read config file '".to_owned();
                m.append(path);
                m.append("': ");
                m.append(source);
                m
            },
            ConfigLoadError::ParseError { message } => {
                let mut m: String = "failed to parse YAML config: ".to_owned();
                m.append(message);
                m
            },
        }
    }
}

/// The predicate "does not separate a key from its value" as a function value.
pub open spec fn inside_key() -> spec_fn(char) -> bool {
    |c: char| c != '=' && c != ':'
}

/// The key and the value of a line: what stands before and behind the first `=`
/// or `:`, without white space around it. Blank lines, lines that begin with `#`
/// or `!`, and lines without a separator or with an empty key have none.
pub open spec fn line_entry(line: Seq<char>) -> Option<(Seq<char>, Seq<char>)> {
    let t = trimmed(line);
    let k = span(t, inside_key()) as int;
    let key = trimmed(t.take(k));
    if t.len() == 0 || t[0] == '#' || t[0] == '!' || k >= t.len() || key.len() == 0 {
        None
    } else {
        Some((key, trimmed(t.skip(k + 1))))
    }
}

/// `m` with the entry of one line put in.
pub open spec fn with_line(m: Map<Seq<char>, Seq<char>>, line: Seq<char>) -> Map<
    Seq<char>,
    Seq<char>,
> {
    match line_entry(line) {
        Some((k, v)) => m.insert(k, v),
        None => m,
    }
}

/// `m` with the entries of all lines of `content` put in; a later entry replaces
/// an earlier one under the same key.
pub open spec fn with_lines(m: Map<Seq<char>, Seq<char>>, content: Seq<char>) -> Map<
    Seq<char>,
    Seq<char>,
>
    decreases content.len(),
{
    let k = span(content, other_than('\n')) as int;
    if k < content.len() {
        with_lines(with_line(m, content.take(k)), content.skip(k + 1))
    } else {
        with_line(m, content)
    }
}

/// The entries of a properties text.
pub struct PropertiesMap {
    /// The entries.
    pub props: Settings,
}

impl PropertiesMap {
    /// Reads a properties text.
    pub fn parse(content: &str) -> (r: Self)
        ensures
            r.props@ == with_lines(Map::empty(), content@),
    {
        let mut props: Settings = Settings::new();
        let mut rest: &str = content;
        loop
            invariant_except_break
                with_lines(props@, rest@) == with_lines(Map::empty(), content@),
            ensures
                props@ == with_lines(Map::empty(), content@),
            decreases rest@.len(),
        {
            let n: usize = rest.unicode_len();
            let k: usize = find(rest, '\n');
            proof {
                assert(rest@.take(k as int) =~= rest@.subrange(0, k as int));
                assert(k == n ==> rest@.take(k as int) =~= rest@);
            }
            let ghost before = props@;
            put_line(&mut props, rest.substring_char(0, k));
            if k >= n {
                break;
            }
            proof {
                assert(rest@.skip(k + 1) =~= rest@.subrange(k + 1, n as int));
            }
            rest = rest.substring_char(k + 1, n);
        }
        PropertiesMap { props }
    }

    /// The text under `key`.
    pub fn get(&self, key: &str) -> (r: Option<&str>)
        ensures
            match r {
                Some(v) => value_at(self.props@, key@) == Some(v@),
                None => value_at(self.props@, key@) is None,
            },
    {
        self.props.get(key)
    }

    /// The switch under `key`: `true`, `false`, `1` or `0` in letters of any case.
    pub fn get_bool(&self, key: &str) -> (r: Option<bool>)
        ensures
            r == switch_at(self.props@, key@),
    {
        self.props.get_bool(key)
    }

    /// The items of the comma-separated list under `key`.
    pub fn get_list(&self, key: &str) -> (r: Option<Vec<String>>)
        ensures
            match r {
                Some(v) => value_at(self.props@, key@) is Some && string_views(v@) == list_items(
                    value_at(self.props@, key@)->0,
                ),
                None => value_at(self.props@, key@) is None,
            },
    {
        self.props.get_list(key)
    }

    /// The default configuration with the entries applied.
    pub fn into_goosefs_config(self, host: &HostEnv) -> (r: GoosefsConfig)
        ensures
            exists|d: GoosefsConfig| #[trigger]
                is_default(d, *host) && properties_applied(self.props@, d, r),
    {
        let d: GoosefsConfig = GoosefsConfig::default_on(host);
        d.apply_properties(&self)
    }
}

/// Puts the entry of one line in.
fn put_line(props: &mut Settings, line: &str)
    ensures
        final(props)@ == with_line(old(props)@, line@),
{
    let t: &str = trim(line);
    let cs: Vec<char> = chars_of(t);
    let n: usize = cs.len();
    if n == 0 || cs[0] == '#' || cs[0] == '!' {
        return;
    }
    let mut k: usize = 0;
    while k < n && cs[k] != '=' && cs[k] != ':'
        invariant
            k <= n == cs@.len(),
            forall|i: int| 0 <= i < k ==> inside_key()(#[trigger] cs@[i]),
        decreases n - k,
    {
        k = k + 1;
    }
    proof {
        lemma_span_is(t@, inside_key(), k as int);
        assert(t@.take(k as int) =~= t@.subrange(0, k as int));
    }
    if k >= n {
        return;
    }
    let key: &str = trim(t.substring_char(0, k));
    if key.is_empty() {
        return;
    }
    proof {
        assert(t@.skip(k + 1) =~= t@.subrange(k + 1, n as int));
    }
    let value: &str = trim(t.substring_char(k + 1, n));
    props.insert(key.to_owned(), value.to_owned());
}

/// The address of the master named by a host name, with the port where one is
/// given and 9200 otherwise.
pub open spec fn named_master(m: Map<Seq<char>, Seq<char>>, name: Seq<char>) -> Seq<char> {
    name + ":"@ + decimal(or(int_at(m, PROP_MASTER_RPC_PORT@, 0, u16::MAX as int, 0), 9200) as nat)
}

/// How the entries `m` change the addresses: the list of addresses decides where
/// it is present; else the host name does. More than one address makes the list
/// of all addresses.
pub open spec fn masters_set(
    m: Map<Seq<char>, Seq<char>>,
    before: GoosefsConfig,
    after: GoosefsConfig,
) -> bool {
    &&& after.root@ == before.root@
    &&& match value_at(m, PROP_MASTER_RPC_ADDRESSES@) {
        Some(v) => {
            &&& after.master_addr@ == (if list_items(v).len() > 0 {
                list_items(v)[0]
            } else {
                before.master_addr@
            })
            &&& string_views(after.master_addrs@) == (if list_items(v).len() > 1 {
                list_items(v)
            } else {
                string_views(before.master_addrs@)
            })
        },
        None => {
            &&& after.master_addr@ == (match value_at(m, PROP_MASTER_HOSTNAME@) {
                Some(name) => named_master(m, name),
                None => before.master_addr@,
            })
            &&& string_views(after.master_addrs@) == string_views(before.master_addrs@)
        },
    }
}

/// How the entries `m` change the fields of connections and identities.
pub open spec fn connection_set(
    m: Map<Seq<char>, Seq<char>>,
    before: GoosefsConfig,
    after: GoosefsConfig,
) -> bool {
    &&& after.block_size == or(bytes_at(m, PROP_USER_BLOCK_SIZE_BYTES_DEFAULT@, 1), before.block_size as int)
    &&& after.chunk_size == or(bytes_at(m, PROP_USER_NETWORK_DATA_TRANSFER_CHUNK_SIZE@, 1), before.chunk_size as int)
    &&& after.connect_timeout == before.connect_timeout
    &&& after.request_timeout == before.request_timeout
    &&& after.use_vpc_mapping == before.use_vpc_mapping
    &&& after.write_type == or(write_type_at(m, PROP_USER_FILE_WRITETYPE_DEFAULT@), before.write_type)
    &&& after.file_replication_number == or(int_at(m, PROP_USER_FILE_REPLICATION_NUMBER@, i32::MIN as int, i32::MAX as int, 1), before.file_replication_number as int)
    &&& after.check_block_replicas == or(int_at(m, PROP_USER_FILE_CHECK_BLOCK_REPLICAS@, i32::MIN as int, i32::MAX as int, 0), before.check_block_replicas as int)
    &&& after.file_read_max_node_retry == or(int_at(m, PROP_USER_FILE_READ_MAX_NODE_RETRY@, i32::MIN as int, i32::MAX as int, 1), before.file_read_max_node_retry as int)
    &&& after.prefetch_window == before.prefetch_window
    &&& after.read_buffer_messages == before.read_buffer_messages
    &&& after.ack_interval_bytes == before.ack_interval_bytes
    &&& after.ack_interval_chunks == before.ack_interval_chunks
    &&& after.master_connection_pool_size == or(count_at(m, PROP_USER_MASTER_CONNECTION_POOL_SIZE@), before.master_connection_pool_size as int)
    &&& after.master_connection_pool_schedule == or(schedule_at(m, PROP_USER_MASTER_POOL_SCHEDULE@), before.master_connection_pool_schedule)
    &&& after.worker_connection_pool_size == or(count_at(m, PROP_USER_WORKER_CONNECTION_POOL_SIZE@), before.worker_connection_pool_size as int)
    &&& after.master_inquire_retry_max_duration == before.master_inquire_retry_max_duration
    &&& after.master_inquire_initial_sleep == before.master_inquire_initial_sleep
    &&& after.master_inquire_max_sleep == before.master_inquire_max_sleep
    &&& after.master_polling_timeout == before.master_polling_timeout
    &&& after.auth_type == or(auth_type_at(m, PROP_SECURITY_AUTHENTICATION_TYPE@), before.auth_type)
    &&& after.auth_username@ == or(text_at(m, PROP_SECURITY_LOGIN_USERNAME@), before.auth_username@)
    &&& after.auth_timeout == before.auth_timeout
    &&& string_views(after.config_manager_rpc_addresses@) == or(list_at(m, PROP_CONFIG_MANAGER_RPC_ADDRESSES@), string_views(before.config_manager_rpc_addresses@))
    &&& after.config_rpc_port == or(int_at(m, PROP_CONFIG_RPC_PORT@, 0, u16::MAX as int, 0), before.config_rpc_port as int)
    &&& after.transparent_acceleration_enabled == or(switch_at(m, PROP_USER_CLIENT_TRANSPARENT_ACCELERATION_ENABLED@), before.transparent_acceleration_enabled)
    &&& after.transparent_acceleration_cosranger_enabled == or(switch_at(m, PROP_USER_CLIENT_TRANSPARENT_ACCELERATION_COSRANGER_ENABLED@), before.transparent_acceleration_cosranger_enabled)
    &&& after.authorization_permission_enabled == or(switch_at(m, PROP_SECURITY_AUTHORIZATION_PERMISSION_ENABLED@), before.authorization_permission_enabled)
    &&& after.login_impersonation_username@ == or(text_at(m, PROP_SECURITY_LOGIN_IMPERSONATION_USERNAME@), before.login_impersonation_username@)
}

/// How the entries `m` change the fields of metrics.
pub open spec fn metrics_set(
    m: Map<Seq<char>, Seq<char>>,
    before: GoosefsConfig,
    after: GoosefsConfig,
) -> bool {
    &&& after.metrics_enabled == or(word_switch_at(m, PROP_USER_METRICS_COLLECTION_ENABLED@), before.metrics_enabled)
    &&& after.metrics_heartbeat_interval.nanos == or(millis_nanos_at(m, PROP_USER_METRICS_HEARTBEAT_INTERVAL@, 1000), before.metrics_heartbeat_interval.nanos as int)
    &&& after.metrics_heartbeat_timeout == before.metrics_heartbeat_timeout
    &&& opt_view(after.app_id) == (match text_at(m, PROP_USER_APP_ID@) {
        Some(v) => Some(v),
        None => opt_view(before.app_id),
    })
    &&& after.metrics_max_batch_size == before.metrics_max_batch_size
    &&& after.pushgateway_enabled == or(word_switch_at(m, PROP_METRICS_PUSHGATEWAY_ENABLED@), before.pushgateway_enabled)
    &&& after.pushgateway_endpoint@ == or(text_at(m, PROP_METRICS_PUSHGATEWAY_ENDPOINT@), before.pushgateway_endpoint@)
    &&& after.pushgateway_push_interval.nanos == or(millis_nanos_at(m, PROP_METRICS_PUSHGATEWAY_PUSH_INTERVAL@, 1000), before.pushgateway_push_interval.nanos as int)
    &&& after.pushgateway_job@ == or(text_at(m, PROP_METRICS_PUSHGATEWAY_JOB@), before.pushgateway_job@)
    &&& opt_view(after.pushgateway_instance) == (match text_at(m, PROP_METRICS_PUSHGATEWAY_INSTANCE@) {
        Some(v) => Some(v),
        None => opt_view(before.pushgateway_instance),
    })
}

/// How the entries `m` change the fields of the local page cache.
pub open spec fn page_cache_set(
    m: Map<Seq<char>, Seq<char>>,
    before: GoosefsConfig,
    after: GoosefsConfig,
) -> bool {
    &&& after.client_cache_enabled == or(switch_at(m, PROP_USER_CLIENT_CACHE_ENABLED@), before.client_cache_enabled)
    &&& after.client_cache_page_size == or(bytes_at(m, PROP_USER_CLIENT_CACHE_PAGE_SIZE@, 1), before.client_cache_page_size as int)
    &&& after.client_cache_size == or(bytes_at(m, PROP_USER_CLIENT_CACHE_SIZE@, 0), before.client_cache_size as int)
    &&& string_views(after.client_cache_dirs@) == or(list_at(m, PROP_USER_CLIENT_CACHE_DIRS@), string_views(before.client_cache_dirs@))
    &&& after.client_cache_evictor == or(evictor_at(m, PROP_USER_CLIENT_CACHE_EVICTION_POLICY@), before.client_cache_evictor)
    &&& after.client_cache_async_write_enabled == or(switch_at(m, PROP_USER_CLIENT_CACHE_ASYNC_WRITE_ENABLED@), before.client_cache_async_write_enabled)
    &&& after.client_cache_async_write_threads == or(int_at(m, PROP_USER_CLIENT_CACHE_ASYNC_WRITE_THREADS@, 0, usize::MAX as int, 1), before.client_cache_async_write_threads as int)
    &&& after.client_cache_quota_enabled == or(switch_at(m, PROP_USER_CLIENT_CACHE_QUOTA_ENABLED@), before.client_cache_quota_enabled)
    &&& after.client_cache_ttl_secs == or(int_at(m, PROP_USER_CLIENT_CACHE_TTL_SECONDS@, 0, u64::MAX as int, 0), before.client_cache_ttl_secs as int)
    &&& after.client_cache_uring_enabled == or(switch_at(m, PROP_USER_CLIENT_CACHE_URING_ENABLED@), before.client_cache_uring_enabled)
    &&& after.client_cache_uring_queue_depth == or(int_at(m, PROP_USER_CLIENT_CACHE_URING_QUEUE_DEPTH@, 0, usize::MAX as int, 1), before.client_cache_uring_queue_depth as int)
    &&& after.client_cache_uring_thread_count == or(int_at(m, PROP_USER_CLIENT_CACHE_URING_THREAD_COUNT@, 0, usize::MAX as int, 1), before.client_cache_uring_thread_count as int)
    &&& after.client_cache_sync_read_enabled == or(switch_at(m, PROP_USER_CLIENT_CACHE_SYNC_READ_ENABLED@), before.client_cache_sync_read_enabled)
    &&& after.client_cache_sequential_read_enabled == or(switch_at(m, PROP_USER_CLIENT_CACHE_SEQUENTIAL_READ_ENABLED@), before.client_cache_sequential_read_enabled)
}

/// How the entries `m` change the fields of cached metadata and coalesced ranges.
pub open spec fn metadata_set(
    m: Map<Seq<char>, Seq<char>>,
    before: GoosefsConfig,
    after: GoosefsConfig,
) -> bool {
    &&& after.metadata_cache_enabled == or(switch_at(m, STORAGE_OPT_METADATA_CACHE_ENABLED@), or(switch_at(m, PROP_USER_METADATA_CACHE_ENABLED@), before.metadata_cache_enabled))
    &&& after.metadata_cache_max_size == or(count_at(m, STORAGE_OPT_METADATA_CACHE_MAX_SIZE@), or(count_at(m, PROP_USER_METADATA_CACHE_MAX_SIZE@), before.metadata_cache_max_size as int))
    &&& after.metadata_cache_expiration.nanos == or(time_nanos_at(m, STORAGE_OPT_METADATA_CACHE_EXPIRATION@), or(time_nanos_at(m, PROP_USER_METADATA_CACHE_EXPIRATION_TIME@), before.metadata_cache_expiration.nanos as int))
    &&& after.file_metadata_sync_interval == or(time_at(m, STORAGE_OPT_FILE_METADATA_SYNC_INTERVAL@), or(time_at(m, PROP_USER_FILE_METADATA_SYNC_INTERVAL@), before.file_metadata_sync_interval as int))
    &&& after.file_metadata_load_type == or(load_type_at(m, STORAGE_OPT_FILE_METADATA_LOAD_TYPE@), or(load_type_at(m, PROP_USER_FILE_METADATA_LOAD_TYPE@), before.file_metadata_load_type))
    &&& after.range_coalesce_enabled == before.range_coalesce_enabled
    &&& after.range_coalesce_gap_bytes == before.range_coalesce_gap_bytes
    &&& after.range_coalesce_max_bytes == before.range_coalesce_max_bytes
}

/// How the entries `m` change the fields of short-circuit reads.
pub open spec fn short_circuit_set(
    m: Map<Seq<char>, Seq<char>>,
    before: GoosefsConfig,
    after: GoosefsConfig,
) -> bool {
    &&& after.short_circuit_enabled == or(switch_at(m, PROP_USER_SHORT_CIRCUIT_ENABLED@), before.short_circuit_enabled)
    &&& after.short_circuit_cache_capacity == or(int_at(m, PROP_CLIENT_SHORT_CIRCUIT_CACHE_CAPACITY@, 0, usize::MAX as int, 0), before.short_circuit_cache_capacity as int)
    &&& after.short_circuit_cache_ttl.nanos == or(millis_nanos_at(m, PROP_CLIENT_SHORT_CIRCUIT_CACHE_TTL_MS@, 0), before.short_circuit_cache_ttl.nanos as int)
    &&& after.short_circuit_neg_cache_ttl.nanos == or(millis_nanos_at(m, PROP_CLIENT_SHORT_CIRCUIT_NEG_CACHE_TTL_MS@, 0), before.short_circuit_neg_cache_ttl.nanos as int)
    &&& after.short_circuit_advise@ == or(text_at(m, PROP_CLIENT_SHORT_CIRCUIT_ADVISE@), before.short_circuit_advise@)
    &&& after.short_circuit_prefetch_enabled == or(switch_at(m, PROP_CLIENT_SHORT_CIRCUIT_PREFETCH_ENABLED@), before.short_circuit_prefetch_enabled)
    &&& after.short_circuit_prefetch_coalesce_gap == or(int_at(m, PROP_CLIENT_SHORT_CIRCUIT_PREFETCH_COALESCE_GAP@, 0, usize::MAX as int, 0), before.short_circuit_prefetch_coalesce_gap as int)
    &&& after.short_circuit_prefetch_max_batch == or(int_at(m, PROP_CLIENT_SHORT_CIRCUIT_PREFETCH_MAX_BATCH@, 0, usize::MAX as int, 0), before.short_circuit_prefetch_max_batch as int)
    &&& after.short_circuit_min_block_size == or(int_at(m, PROP_CLIENT_SHORT_CIRCUIT_MIN_BLOCK_SIZE@, i64::MIN as int, i64::MAX as int, i64::MIN as int), before.short_circuit_min_block_size as int)
    &&& after.short_circuit_sigbus_handler == or(switch_at(m, PROP_CLIENT_SHORT_CIRCUIT_SIGBUS_HANDLER@), before.short_circuit_sigbus_handler)
    &&& after.short_circuit_thp == or(switch_at(m, PROP_CLIENT_SHORT_CIRCUIT_THP@), before.short_circuit_thp)
}

/// How the entries `m` of a properties text change a configuration: each field
/// takes the value that its entry denotes, and stays where there is no entry or it
/// denotes no value.
pub open spec fn properties_applied(
    m: Map<Seq<char>, Seq<char>>,
    before: GoosefsConfig,
    after: GoosefsConfig,
) -> bool {
    &&& masters_set(m, before, after)
    &&& connection_set(m, before, after)
    &&& metrics_set(m, before, after)
    &&& page_cache_set(m, before, after)
    &&& metadata_set(m, before, after)
    &&& short_circuit_set(m, before, after)
}

/// The addresses that the entries give.
fn masters_from_properties(
    props: &Settings,
    master_addr: String,
    master_addrs: Vec<String>,
) -> (r: (String, Vec<String>))
    ensures
        match value_at(props@, PROP_MASTER_RPC_ADDRESSES@) {
            Some(v) => {
                &&& r.0@ == (if list_items(v).len() > 0 {
                    list_items(v)[0]
                } else {
                    master_addr@
                })
                &&& string_views(r.1@) == (if list_items(v).len() > 1 {
                    list_items(v)
                } else {
                    string_views(master_addrs@)
                })
            },
            None => {
                &&& r.0@ == (match value_at(props@, PROP_MASTER_HOSTNAME@) {
                    Some(name) => named_master(props@, name),
                    None => master_addr@,
                })
                &&& r.1 == master_addrs
            },
        },
{
    match props.get_list(PROP_MASTER_RPC_ADDRESSES) {
        Some(addrs) => {
            proof {
                assert(string_views(addrs@).len() == addrs@.len());
            }
            if addrs.len() == 0 {
                (master_addr, master_addrs)
            } else {
                proof {
                    assert(string_views(addrs@)[0] == addrs@[0]@);
                }
                let first: String = addrs[0].clone();
                if addrs.len() > 1 {
                    (first, addrs)
                } else {
                    (first, master_addrs)
                }
            }
        },
        None => match props.get(PROP_MASTER_HOSTNAME) {
            Some(name) => {
                let port: u16 = props.u16_or(PROP_MASTER_RPC_PORT, 9200);
                let mut addr: String = name.to_owned();
                addr.append(":");
                addr.append(&decimal_string(port as u128));
                (addr, master_addrs)
            },
            None => (master_addr, master_addrs),
        },
    }
}

/// Whether `r` is what loading gives on `host`: the defaults, then the entries of
/// the file that was found, then the environment variables.
pub open spec fn loaded(host: HostEnv, content: Option<Seq<char>>, r: GoosefsConfig) -> bool {
    exists|d: GoosefsConfig, base: GoosefsConfig|
        #![trigger is_default(d, host), env_applied(host.vars@, base, r)]
        is_default(d, host) && env_applied(host.vars@, base, r) && match content {
            Some(c) => properties_applied(with_lines(Map::empty(), c), d, base),
            None => base == d,
        }
}

impl GoosefsConfig {
    /// The configuration with the entries of a properties text applied.
    pub fn apply_properties(self, entries: &PropertiesMap) -> (r: Self)
        ensures
            properties_applied(entries.props@, self, r),
    {
        let props: &Settings = &entries.props;
        let (master_addr, master_addrs) = masters_from_properties(
            props,
            self.master_addr,
            self.master_addrs,
        );
        GoosefsConfig {
            master_addr,
            master_addrs,
            root: self.root,
            block_size: props.bytes_or(PROP_USER_BLOCK_SIZE_BYTES_DEFAULT, 1, self.block_size),
            chunk_size: props.bytes_or(PROP_USER_NETWORK_DATA_TRANSFER_CHUNK_SIZE, 1, self.chunk_size),
            connect_timeout: self.connect_timeout,
            request_timeout: self.request_timeout,
            use_vpc_mapping: self.use_vpc_mapping,
            write_type: props.write_type_or(PROP_USER_FILE_WRITETYPE_DEFAULT, self.write_type),
            file_replication_number: props.i32_or(PROP_USER_FILE_REPLICATION_NUMBER, 1, self.file_replication_number),
            check_block_replicas: props.i32_or(PROP_USER_FILE_CHECK_BLOCK_REPLICAS, 0, self.check_block_replicas),
            file_read_max_node_retry: props.i32_or(PROP_USER_FILE_READ_MAX_NODE_RETRY, 1, self.file_read_max_node_retry),
            prefetch_window: self.prefetch_window,
            read_buffer_messages: self.read_buffer_messages,
            ack_interval_bytes: self.ack_interval_bytes,
            ack_interval_chunks: self.ack_interval_chunks,
            master_connection_pool_size: props.count_or(PROP_USER_MASTER_CONNECTION_POOL_SIZE, self.master_connection_pool_size),
            master_connection_pool_schedule: props.schedule_or(PROP_USER_MASTER_POOL_SCHEDULE, self.master_connection_pool_schedule),
            worker_connection_pool_size: props.count_or(PROP_USER_WORKER_CONNECTION_POOL_SIZE, self.worker_connection_pool_size),
            master_inquire_retry_max_duration: self.master_inquire_retry_max_duration,
            master_inquire_initial_sleep: self.master_inquire_initial_sleep,
            master_inquire_max_sleep: self.master_inquire_max_sleep,
            master_polling_timeout: self.master_polling_timeout,
            auth_type: props.auth_type_or(PROP_SECURITY_AUTHENTICATION_TYPE, self.auth_type),
            auth_username: props.text_or(PROP_SECURITY_LOGIN_USERNAME, self.auth_username),
            auth_timeout: self.auth_timeout,
            config_manager_rpc_addresses: props.list_or(PROP_CONFIG_MANAGER_RPC_ADDRESSES, self.config_manager_rpc_addresses),
            config_rpc_port: props.u16_or(PROP_CONFIG_RPC_PORT, self.config_rpc_port),
            transparent_acceleration_enabled: props.switch_or(PROP_USER_CLIENT_TRANSPARENT_ACCELERATION_ENABLED, self.transparent_acceleration_enabled),
            transparent_acceleration_cosranger_enabled: props.switch_or(PROP_USER_CLIENT_TRANSPARENT_ACCELERATION_COSRANGER_ENABLED, self.transparent_acceleration_cosranger_enabled),
            authorization_permission_enabled: props.switch_or(PROP_SECURITY_AUTHORIZATION_PERMISSION_ENABLED, self.authorization_permission_enabled),
            login_impersonation_username: props.text_or(PROP_SECURITY_LOGIN_IMPERSONATION_USERNAME, self.login_impersonation_username),
            metrics_enabled: props.word_switch_or(PROP_USER_METRICS_COLLECTION_ENABLED, self.metrics_enabled),
            metrics_heartbeat_interval: props.millis_or(PROP_USER_METRICS_HEARTBEAT_INTERVAL, 1000, self.metrics_heartbeat_interval),
            metrics_heartbeat_timeout: self.metrics_heartbeat_timeout,
            app_id: props.some_text_or(PROP_USER_APP_ID, self.app_id),
            metrics_max_batch_size: self.metrics_max_batch_size,
            pushgateway_enabled: props.word_switch_or(PROP_METRICS_PUSHGATEWAY_ENABLED, self.pushgateway_enabled),
            pushgateway_endpoint: props.text_or(PROP_METRICS_PUSHGATEWAY_ENDPOINT, self.pushgateway_endpoint),
            pushgateway_push_interval: props.millis_or(PROP_METRICS_PUSHGATEWAY_PUSH_INTERVAL, 1000, self.pushgateway_push_interval),
            pushgateway_job: props.text_or(PROP_METRICS_PUSHGATEWAY_JOB, self.pushgateway_job),
            pushgateway_instance: props.some_text_or(PROP_METRICS_PUSHGATEWAY_INSTANCE, self.pushgateway_instance),
            client_cache_enabled: props.switch_or(PROP_USER_CLIENT_CACHE_ENABLED, self.client_cache_enabled),
            client_cache_page_size: props.bytes_or(PROP_USER_CLIENT_CACHE_PAGE_SIZE, 1, self.client_cache_page_size),
            client_cache_size: props.bytes_or(PROP_USER_CLIENT_CACHE_SIZE, 0, self.client_cache_size),
            client_cache_dirs: props.list_or(PROP_USER_CLIENT_CACHE_DIRS, self.client_cache_dirs),
            client_cache_evictor: props.evictor_or(PROP_USER_CLIENT_CACHE_EVICTION_POLICY, self.client_cache_evictor),
            client_cache_async_write_enabled: props.switch_or(PROP_USER_CLIENT_CACHE_ASYNC_WRITE_ENABLED, self.client_cache_async_write_enabled),
            client_cache_async_write_threads: props.usize_or(PROP_USER_CLIENT_CACHE_ASYNC_WRITE_THREADS, 1, self.client_cache_async_write_threads),
            client_cache_quota_enabled: props.switch_or(PROP_USER_CLIENT_CACHE_QUOTA_ENABLED, self.client_cache_quota_enabled),
            client_cache_ttl_secs: props.u64_or(PROP_USER_CLIENT_CACHE_TTL_SECONDS, 0, self.client_cache_ttl_secs),
            client_cache_uring_enabled: props.switch_or(PROP_USER_CLIENT_CACHE_URING_ENABLED, self.client_cache_uring_enabled),
            client_cache_uring_queue_depth: props.usize_or(PROP_USER_CLIENT_CACHE_URING_QUEUE_DEPTH, 1, self.client_cache_uring_queue_depth),
            client_cache_uring_thread_count: props.usize_or(PROP_USER_CLIENT_CACHE_URING_THREAD_COUNT, 1, self.client_cache_uring_thread_count),
            client_cache_sync_read_enabled: props.switch_or(PROP_USER_CLIENT_CACHE_SYNC_READ_ENABLED, self.client_cache_sync_read_enabled),
            client_cache_sequential_read_enabled: props.switch_or(PROP_USER_CLIENT_CACHE_SEQUENTIAL_READ_ENABLED, self.client_cache_sequential_read_enabled),
            metadata_cache_enabled: props.switch_or(STORAGE_OPT_METADATA_CACHE_ENABLED, props.switch_or(PROP_USER_METADATA_CACHE_ENABLED, self.metadata_cache_enabled)),
            metadata_cache_max_size: props.count_or(STORAGE_OPT_METADATA_CACHE_MAX_SIZE, props.count_or(PROP_USER_METADATA_CACHE_MAX_SIZE, self.metadata_cache_max_size)),
            metadata_cache_expiration: props.duration_or(STORAGE_OPT_METADATA_CACHE_EXPIRATION, props.duration_or(PROP_USER_METADATA_CACHE_EXPIRATION_TIME, self.metadata_cache_expiration)),
            file_metadata_sync_interval: props.time_or(STORAGE_OPT_FILE_METADATA_SYNC_INTERVAL, props.time_or(PROP_USER_FILE_METADATA_SYNC_INTERVAL, self.file_metadata_sync_interval)),
            file_metadata_load_type: props.load_type_or(STORAGE_OPT_FILE_METADATA_LOAD_TYPE, props.load_type_or(PROP_USER_FILE_METADATA_LOAD_TYPE, self.file_metadata_load_type)),
            range_coalesce_enabled: self.range_coalesce_enabled,
            range_coalesce_gap_bytes: self.range_coalesce_gap_bytes,
            range_coalesce_max_bytes: self.range_coalesce_max_bytes,
            short_circuit_enabled: props.switch_or(PROP_USER_SHORT_CIRCUIT_ENABLED, self.short_circuit_enabled),
            short_circuit_cache_capacity: props.usize_or(PROP_CLIENT_SHORT_CIRCUIT_CACHE_CAPACITY, 0, self.short_circuit_cache_capacity),
            short_circuit_cache_ttl: props.millis_or(PROP_CLIENT_SHORT_CIRCUIT_CACHE_TTL_MS, 0, self.short_circuit_cache_ttl),
            short_circuit_neg_cache_ttl: props.millis_or(PROP_CLIENT_SHORT_CIRCUIT_NEG_CACHE_TTL_MS, 0, self.short_circuit_neg_cache_ttl),
            short_circuit_advise: props.text_or(PROP_CLIENT_SHORT_CIRCUIT_ADVISE, self.short_circuit_advise),
            short_circuit_prefetch_enabled: props.switch_or(PROP_CLIENT_SHORT_CIRCUIT_PREFETCH_ENABLED, self.short_circuit_prefetch_enabled),
            short_circuit_prefetch_coalesce_gap: props.usize_or(PROP_CLIENT_SHORT_CIRCUIT_PREFETCH_COALESCE_GAP, 0, self.short_circuit_prefetch_coalesce_gap),
            short_circuit_prefetch_max_batch: props.usize_or(PROP_CLIENT_SHORT_CIRCUIT_PREFETCH_MAX_BATCH, 0, self.short_circuit_prefetch_max_batch),
            short_circuit_min_block_size: props.i64_or(PROP_CLIENT_SHORT_CIRCUIT_MIN_BLOCK_SIZE, self.short_circuit_min_block_size),
            short_circuit_sigbus_handler: props.switch_or(PROP_CLIENT_SHORT_CIRCUIT_SIGBUS_HANDLER, self.short_circuit_sigbus_handler),
            short_circuit_thp: props.switch_or(PROP_CLIENT_SHORT_CIRCUIT_THP, self.short_circuit_thp),
        }
    }

    /// The configuration that a properties text describes.
    pub fn from_properties_str(host: &HostEnv, content: &str) -> (r: Self)
        ensures
            exists|d: GoosefsConfig| #[trigger]
                is_default(d, *host) && properties_applied(
                    with_lines(Map::empty(), content@),
                    d,
                    r,
                ),
    {
        PropertiesMap::parse(content).into_goosefs_config(host)
    }

    /// The configuration that the file at `path` describes, `read` being what
    /// reading that file gave.
    pub fn from_properties(host: &HostEnv, path: &str, read: Result<String, String>) -> (r: Result<
        Self,
        ConfigLoadError,
    >)
        ensures
            match read {
                Ok(content) => r is Ok && exists|d: GoosefsConfig| #[trigger]
                    is_default(d, *host) && properties_applied(
                        with_lines(Map::empty(), content@),
                        d,
                        r->Ok_0,
                    ),
                Err(e) => r matches Err(ConfigLoadError::IoError { path: p, source }) && p@ == path@
                    && source@ == e@,
            },
    {
        match read {
            Ok(content) => Ok(GoosefsConfig::from_properties_str(host, &content)),
            Err(e) => Err(ConfigLoadError::IoError { path: path.to_owned(), source: e }),
        }
    }

    /// Loads the configuration with the whole chain of priorities: environment
    /// variables over the entries of the file that was found over the defaults.
    ///
    /// `found` is that file: its path, and what reading it gave. Loading fails only
    /// where a file was found and could not be read.
    pub fn from_properties_auto(
        host: &HostEnv,
        found: Option<(String, Result<String, String>)>,
    ) -> (r: Result<Self, ConfigLoadError>)
        ensures
            match found {
                None => r is Ok && loaded(*host, None, r->Ok_0),
                Some((_, Ok(content))) => r is Ok && loaded(*host, Some(content@), r->Ok_0),
                Some((path, Err(e))) => r matches Err(ConfigLoadError::IoError { path: p, source })
                    && p@ == path@ && source@ == e@,
            },
    {
        match found {
            None => {
                let d: GoosefsConfig = GoosefsConfig::default_on(host);
                Ok(d.apply_env(host))
            },
            Some((path, read)) => match GoosefsConfig::from_properties(host, &path, read) {
                Ok(base) => Ok(base.apply_env(host)),
                Err(e) => Err(e),
            },
        }
    }
}

/// Environment variables win over the file: whatever the file says, or whether there is one,
/// a variable that is set and denotes a value decides its field.
pub proof fn law_variables_win_over_the_file(
    host: HostEnv,
    file: Option<Seq<char>>,
    other: Option<Seq<char>>,
    r: GoosefsConfig,
    s: GoosefsConfig,
)
    requires
        loaded(host, file, r),
        loaded(host, other, s),
    ensures
        agree_where_set(host.vars@, r, s),
{
    let (d, base) = choose|d: GoosefsConfig, base: GoosefsConfig|
        #![trigger is_default(d, host), env_applied(host.vars@, base, r)]
        is_default(d, host) && env_applied(host.vars@, base, r) && match file {
            Some(c) => properties_applied(with_lines(Map::empty(), c), d, base),
            None => base == d,
        };
    let (d2, base2) = choose|d: GoosefsConfig, base: GoosefsConfig|
        #![trigger is_default(d, host), env_applied(host.vars@, base, s)]
        is_default(d, host) && env_applied(host.vars@, base, s) && match other {
            Some(c) => properties_applied(with_lines(Map::empty(), c), d, base),
            None => base == d,
        };
    law_env_overrides(host.vars@, base, base2, r, s);
}

/// Comments and blank lines change nothing.
pub proof fn law_comment_lines_ignored(m: Map<Seq<char>, Seq<char>>, line: Seq<char>)
    requires
        trimmed(line).len() == 0 || trimmed(line)[0] == '#' || trimmed(line)[0] == '!',
    ensures
        with_line(m, line) == m,
{
}

/// A text without entries changes nothing.
pub proof fn law_no_entries_no_change(before: GoosefsConfig, after: GoosefsConfig)
    requires
        properties_applied(Map::empty(), before, after),
    ensures
        same_config(before, after),
{
}

/// Whether a configuration depends on the entry under `k`.
pub open spec fn is_known(k: Seq<char>) -> bool {
    ||| k == PROP_MASTER_RPC_ADDRESSES@
    ||| k == PROP_MASTER_HOSTNAME@
    ||| k == PROP_MASTER_RPC_PORT@
    ||| k == PROP_USER_BLOCK_SIZE_BYTES_DEFAULT@
    ||| k == PROP_USER_NETWORK_DATA_TRANSFER_CHUNK_SIZE@
    ||| k == PROP_USER_FILE_WRITETYPE_DEFAULT@
    ||| k == PROP_USER_FILE_REPLICATION_NUMBER@
    ||| k == PROP_USER_FILE_CHECK_BLOCK_REPLICAS@
    ||| k == PROP_USER_FILE_READ_MAX_NODE_RETRY@
    ||| k == PROP_USER_MASTER_CONNECTION_POOL_SIZE@
    ||| k == PROP_USER_MASTER_POOL_SCHEDULE@
    ||| k == PROP_USER_WORKER_CONNECTION_POOL_SIZE@
    ||| k == PROP_SECURITY_AUTHENTICATION_TYPE@
    ||| k == PROP_SECURITY_LOGIN_USERNAME@
    ||| k == PROP_CONFIG_MANAGER_RPC_ADDRESSES@
    ||| k == PROP_CONFIG_RPC_PORT@
    ||| k == PROP_USER_CLIENT_TRANSPARENT_ACCELERATION_ENABLED@
    ||| k == PROP_USER_CLIENT_TRANSPARENT_ACCELERATION_COSRANGER_ENABLED@
    ||| k == PROP_SECURITY_AUTHORIZATION_PERMISSION_ENABLED@
    ||| k == PROP_SECURITY_LOGIN_IMPERSONATION_USERNAME@
    ||| k == PROP_USER_METRICS_COLLECTION_ENABLED@
    ||| k == PROP_USER_METRICS_HEARTBEAT_INTERVAL@
    ||| k == PROP_USER_APP_ID@
    ||| k == PROP_METRICS_PUSHGATEWAY_ENABLED@
    ||| k == PROP_METRICS_PUSHGATEWAY_ENDPOINT@
    ||| k == PROP_METRICS_PUSHGATEWAY_PUSH_INTERVAL@
    ||| k == PROP_METRICS_PUSHGATEWAY_JOB@
    ||| k == PROP_METRICS_PUSHGATEWAY_INSTANCE@
    ||| k == PROP_USER_CLIENT_CACHE_ENABLED@
    ||| k == PROP_USER_CLIENT_CACHE_PAGE_SIZE@
    ||| k == PROP_USER_CLIENT_CACHE_SIZE@
    ||| k == PROP_USER_CLIENT_CACHE_DIRS@
    ||| k == PROP_USER_CLIENT_CACHE_EVICTION_POLICY@
    ||| k == PROP_USER_CLIENT_CACHE_ASYNC_WRITE_ENABLED@
    ||| k == PROP_USER_CLIENT_CACHE_ASYNC_WRITE_THREADS@
    ||| k == PROP_USER_CLIENT_CACHE_QUOTA_ENABLED@
    ||| k == PROP_USER_CLIENT_CACHE_TTL_SECONDS@
    ||| k == PROP_USER_CLIENT_CACHE_URING_ENABLED@
    ||| k == PROP_USER_CLIENT_CACHE_URING_QUEUE_DEPTH@
    ||| k == PROP_USER_CLIENT_CACHE_URING_THREAD_COUNT@
    ||| k == PROP_USER_CLIENT_CACHE_SYNC_READ_ENABLED@
    ||| k == PROP_USER_CLIENT_CACHE_SEQUENTIAL_READ_ENABLED@
    ||| k == PROP_USER_METADATA_CACHE_ENABLED@
    ||| k == STORAGE_OPT_METADATA_CACHE_ENABLED@
    ||| k == PROP_USER_METADATA_CACHE_MAX_SIZE@
    ||| k == STORAGE_OPT_METADATA_CACHE_MAX_SIZE@
    ||| k == PROP_USER_METADATA_CACHE_EXPIRATION_TIME@
    ||| k == STORAGE_OPT_METADATA_CACHE_EXPIRATION@
    ||| k == PROP_USER_FILE_METADATA_SYNC_INTERVAL@
    ||| k == STORAGE_OPT_FILE_METADATA_SYNC_INTERVAL@
    ||| k == PROP_USER_FILE_METADATA_LOAD_TYPE@
    ||| k == STORAGE_OPT_FILE_METADATA_LOAD_TYPE@
    ||| k == PROP_USER_SHORT_CIRCUIT_ENABLED@
    ||| k == PROP_CLIENT_SHORT_CIRCUIT_CACHE_CAPACITY@
    ||| k == PROP_CLIENT_SHORT_CIRCUIT_CACHE_TTL_MS@
    ||| k == PROP_CLIENT_SHORT_CIRCUIT_NEG_CACHE_TTL_MS@
    ||| k == PROP_CLIENT_SHORT_CIRCUIT_ADVISE@
    ||| k == PROP_CLIENT_SHORT_CIRCUIT_PREFETCH_ENABLED@
    ||| k == PROP_CLIENT_SHORT_CIRCUIT_PREFETCH_COALESCE_GAP@
    ||| k == PROP_CLIENT_SHORT_CIRCUIT_PREFETCH_MAX_BATCH@
    ||| k == PROP_CLIENT_SHORT_CIRCUIT_MIN_BLOCK_SIZE@
    ||| k == PROP_CLIENT_SHORT_CIRCUIT_SIGBUS_HANDLER@
    ||| k == PROP_CLIENT_SHORT_CIRCUIT_THP@
}

proof fn lemma_value_at_insert(m: Map<Seq<char>, Seq<char>>, k: Seq<char>, v: Seq<char>)
    ensures
        forall|x: Seq<char>| x != k ==> #[trigger] value_at(m.insert(k, v), x) == value_at(m, x),
{
}

proof fn lemma_masters_ignores_unknown(
    m: Map<Seq<char>, Seq<char>>,
    k: Seq<char>,
    v: Seq<char>,
    before: GoosefsConfig,
    after: GoosefsConfig,
)
    requires
        !is_known(k),
        masters_set(m, before, after),
    ensures
        masters_set(m.insert(k, v), before, after),
{
    lemma_value_at_insert(m, k, v);
}

proof fn lemma_connection_ignores_unknown(
    m: Map<Seq<char>, Seq<char>>,
    k: Seq<char>,
    v: Seq<char>,
    before: GoosefsConfig,
    after: GoosefsConfig,
)
    requires
        !is_known(k),
        connection_set(m, before, after),
    ensures
        connection_set(m.insert(k, v), before, after),
{
    lemma_value_at_insert(m, k, v);
}

proof fn lemma_metrics_ignores_unknown(
    m: Map<Seq<char>, Seq<char>>,
    k: Seq<char>,
    v: Seq<char>,
    before: GoosefsConfig,
    after: GoosefsConfig,
)
    requires
        !is_known(k),
        metrics_set(m, before, after),
    ensures
        metrics_set(m.insert(k, v), before, after),
{
    lemma_value_at_insert(m, k, v);
}

proof fn lemma_page_cache_ignores_unknown(
    m: Map<Seq<char>, Seq<char>>,
    k: Seq<char>,
    v: Seq<char>,
    before: GoosefsConfig,
    after: GoosefsConfig,
)
    requires
        !is_known(k),
        page_cache_set(m, before, after),
    ensures
        page_cache_set(m.insert(k, v), before, after),
{
    lemma_value_at_insert(m, k, v);
}

proof fn lemma_metadata_ignores_unknown(
    m: Map<Seq<char>, Seq<char>>,
    k: Seq<char>,
    v: Seq<char>,
    before: GoosefsConfig,
    after: GoosefsConfig,
)
    requires
        !is_known(k),
        metadata_set(m, before, after),
    ensures
        metadata_set(m.insert(k, v), before, after),
{
    lemma_value_at_insert(m, k, v);
}

proof fn lemma_short_circuit_ignores_unknown(
    m: Map<Seq<char>, Seq<char>>,
    k: Seq<char>,
    v: Seq<char>,
    before: GoosefsConfig,
    after: GoosefsConfig,
)
    requires
        !is_known(k),
        short_circuit_set(m, before, after),
    ensures
        short_circuit_set(m.insert(k, v), before, after),
{
    lemma_value_at_insert(m, k, v);
}

/// Entries under other names change nothing.
pub proof fn law_unknown_entries_ignored(
    m: Map<Seq<char>, Seq<char>>,
    k: Seq<char>,
    v: Seq<char>,
    before: GoosefsConfig,
    after: GoosefsConfig,
)
    requires
        !is_known(k),
        properties_applied(m, before, after),
    ensures
        properties_applied(m.insert(k, v), before, after),
{
    lemma_masters_ignores_unknown(m, k, v, before, after);
    lemma_connection_ignores_unknown(m, k, v, before, after);
    lemma_metrics_ignores_unknown(m, k, v, before, after);
    lemma_page_cache_ignores_unknown(m, k, v, before, after);
    lemma_metadata_ignores_unknown(m, k, v, before, after);
    lemma_short_circuit_ignores_unknown(m, k, v, before, after);
}

/// A line `key = value` or `key: value` has that key and that value, whatever white space
/// stands around them, and whatever characters stand in the value.
pub proof fn law_line_is_key_and_value(
    a: Seq<char>,
    key: Seq<char>,
    b: Seq<char>,
    separator: char,
    c: Seq<char>,
    value: Seq<char>,
    d: Seq<char>,
    m: Map<Seq<char>, Seq<char>>,
)
    requires
        forall|i: int| 0 <= i < a.len() ==> is_white_space(#[trigger] a[i]),
        forall|i: int| 0 <= i < b.len() ==> is_white_space(#[trigger] b[i]),
        forall|i: int| 0 <= i < c.len() ==> is_white_space(#[trigger] c[i]),
        forall|i: int| 0 <= i < d.len() ==> is_white_space(#[trigger] d[i]),
        separator == '=' || separator == ':',
        key.len() > 0,
        key[0] != '#' && key[0] != '!',
        !is_white_space(key[0]) && !is_white_space(key[key.len() - 1]),
        forall|i: int| 0 <= i < key.len() ==> #[trigger] key[i] != '=' && key[i] != ':',
        value.len() > 0 ==> !is_white_space(value[0]) && !is_white_space(value[value.len() - 1]),
    ensures
        ({
            let line = a + key + b + seq![separator] + c + value + d;
            &&& line_entry(line) == Some((key, value))
            &&& with_line(m, line) == m.insert(key, value)
        }),
{
    let line = a + key + b + seq![separator] + c + value + d;
    let e = Seq::<char>::empty();
    let head = key + b + seq![separator];
    if value.len() > 0 {
        let t = head + c + value;
        assert(t[0] == key[0]);
        assert(t[t.len() - 1] == value[value.len() - 1]);
        law_trim_drops_white_space_at_the_ends(a, t, d);
        assert(a + t + d =~= line);
        lemma_line_parts(key, b, separator, c + value);
        assert(head + (c + value) =~= t);
        law_trim_drops_white_space_at_the_ends(c, value, e);
        assert(c + value + e =~= c + value);
    } else {
        let t = head;
        assert(t[0] == key[0]);
        assert(t[t.len() - 1] == separator);
        let cd = c + d;
        assert forall|i: int| 0 <= i < cd.len() implies is_white_space(#[trigger] cd[i]) by {
            if i < c.len() {
                assert(is_white_space(c[i]));
            } else {
                assert(is_white_space(d[i - c.len()]));
            }
        }
        law_trim_drops_white_space_at_the_ends(a, t, cd);
        assert(a + t + cd =~= line);
        lemma_line_parts(key, b, separator, e);
        assert(head + e =~= t);
        law_trim_drops_white_space_at_the_ends(e, e, e);
        assert(e + e + e =~= e);
        assert(value =~= e);
    }
}

proof fn lemma_line_parts(key: Seq<char>, b: Seq<char>, separator: char, rest: Seq<char>)
    requires
        forall|i: int| 0 <= i < b.len() ==> is_white_space(#[trigger] b[i]),
        separator == '=' || separator == ':',
        key.len() > 0,
        !is_white_space(key[0]) && !is_white_space(key[key.len() - 1]),
        forall|i: int| 0 <= i < key.len() ==> #[trigger] key[i] != '=' && key[i] != ':',
    ensures
        ({
            let t = key + b + seq![separator] + rest;
            let k = span(t, inside_key()) as int;
            &&& k == key.len() + b.len()
            &&& trimmed(t.take(k)) == key
            &&& t.skip(k + 1) == rest
        }),
{
    let t = key + b + seq![separator] + rest;
    let k = (key.len() + b.len()) as int;
    assert forall|i: int| 0 <= i < k implies inside_key()(#[trigger] t[i]) by {
        if i < key.len() {
            assert(t[i] == key[i]);
        } else {
            assert(is_white_space(b[i - key.len()]));
        }
    }
    assert(t[k] == separator);
    lemma_span_is(t, inside_key(), k);
    let e = Seq::<char>::empty();
    law_trim_drops_white_space_at_the_ends(e, key, b);
    assert(e + key + b =~= t.take(k));
    assert(t.skip(k + 1) =~= rest);
}

/// A line without a separator has no entry.
pub proof fn law_line_without_separator(m: Map<Seq<char>, Seq<char>>, line: Seq<char>)
    requires
        forall|i: int| 0 <= i < line.len() ==> #[trigger] line[i] != '=' && line[i] != ':',
    ensures
        with_line(m, line) == m,
{
    let t = trimmed(line);
    lemma_span(line, white());
    let u = drop_leading(line, white());
    lemma_rspan(u, white());
    assert forall|i: int| 0 <= i < t.len() implies inside_key()(#[trigger] t[i]) by {
        assert(t[i] == line[i + span(line, white())]);
    }
    lemma_span_is(t, inside_key(), t.len() as int);
}

/// A text is read line by line, from the first to the last, so that of two lines with the
/// same key the later one counts.
pub proof fn law_lines_in_order(
    m: Map<Seq<char>, Seq<char>>,
    line: Seq<char>,
    rest: Seq<char>,
)
    requires
        forall|i: int| 0 <= i < line.len() ==> #[trigger] line[i] != '\n',
    ensures
        with_lines(m, line) == with_line(m, line),
        with_lines(m, line + seq!['\n'] + rest) == with_lines(with_line(m, line), rest),
{
    assert forall|i: int| 0 <= i < line.len() implies other_than('\n')(#[trigger] line[i]) by {}
    lemma_span_is(line, other_than('\n'), line.len() as int);
    let all = line + seq!['\n'] + rest;
    assert forall|i: int| 0 <= i < line.len() implies other_than('\n')(#[trigger] all[i]) by {
        assert(all[i] == line[i]);
    }
    lemma_span_is(all, other_than('\n'), line.len() as int);
    assert(all.take(line.len() as int) =~= line);
    assert(all.skip(line.len() as int + 1) =~= rest);
}

/// The list of addresses names the masters, the first of which is the address of the master;
/// without it, the host name does, with the port, or with 9200. The root path stays.
pub proof fn law_address_entries(
    m: Map<Seq<char>, Seq<char>>,
    before: GoosefsConfig,
    after: GoosefsConfig,
    n: int,
    name: Seq<char>,
    x: Seq<char>,
    y: Seq<char>,
)
    requires
        properties_applied(m, before, after),
        is_plain_item(x),
        is_plain_item(y),
        0 <= n <= u16::MAX,
    ensures
        after.root@ == before.root@,
        holds(m, "goosefs.master.rpc.addresses"@, x) ==> after.master_addr@ == x && string_views(
            after.master_addrs@,
        ) == string_views(before.master_addrs@),
        holds(m, "goosefs.master.rpc.addresses"@, x + seq![','] + y) ==> after.master_addr@ == x
            && string_views(after.master_addrs@) == seq![x, y],
        !m.contains_key("goosefs.master.rpc.addresses"@) ==> string_views(after.master_addrs@)
            == string_views(before.master_addrs@),
        !m.contains_key("goosefs.master.rpc.addresses"@) && holds(
            m,
            "goosefs.master.hostname"@,
            name,
        ) && holds(m, "goosefs.master.rpc.port"@, signed_decimal(n)) ==> after.master_addr@ == name
            + seq![':'] + decimal(n as nat),
        !m.contains_key("goosefs.master.rpc.addresses"@) && holds(
            m,
            "goosefs.master.hostname"@,
            name,
        ) && !m.contains_key("goosefs.master.rpc.port"@) ==> after.master_addr@ == name
            + ":9200"@,
        !m.contains_key("goosefs.master.rpc.addresses"@) && !m.contains_key(
            "goosefs.master.hostname"@,
        ) ==> after.master_addr@ == before.master_addr@,
{
    lemma_entry_values(m, n, name, x, y);
    lemma_list_entries(x, y);
    reveal_strlit(":");
    reveal_strlit(":9200");
    assert(":"@ =~= seq![':']);
    reveal_with_fuel(decimal, 5);
    assert(":"@ + decimal(9200) =~= ":9200"@);
    assert(name + ":"@ + decimal(9200) =~= name + ":9200"@);
}

/// Only these three entries reach the addresses.
pub proof fn law_other_entries_leave_the_addresses(
    m1: Map<Seq<char>, Seq<char>>,
    m2: Map<Seq<char>, Seq<char>>,
    before: GoosefsConfig,
    a1: GoosefsConfig,
    a2: GoosefsConfig,
)
    requires
        properties_applied(m1, before, a1),
        properties_applied(m2, before, a2),
        same_entry(m1, m2, "goosefs.master.rpc.addresses"@),
        same_entry(m1, m2, "goosefs.master.hostname"@),
        same_entry(m1, m2, "goosefs.master.rpc.port"@),
    ensures
        a1.master_addr@ == a2.master_addr@,
        string_views(a1.master_addrs@) == string_views(a2.master_addrs@),
        a1.root@ == a2.root@,
{
}

proof fn lemma_connection_entries_alone(
    m1: Map<Seq<char>, Seq<char>>,
    m2: Map<Seq<char>, Seq<char>>,
    before: GoosefsConfig,
    a1: GoosefsConfig,
    a2: GoosefsConfig,
)
    requires
        connection_set(m1, before, a1),
        connection_set(m2, before, a2),
    ensures
        same_entry(m1, m2, "goosefs.user.block.size.bytes.default"@)
            ==> a1.block_size == a2.block_size,
        !m1.contains_key("goosefs.user.block.size.bytes.default"@)
            ==> a1.block_size == before.block_size,
        same_entry(m1, m2, "goosefs.user.network.data.transfer.chunk.size"@)
            ==> a1.chunk_size == a2.chunk_size,
        !m1.contains_key("goosefs.user.network.data.transfer.chunk.size"@)
            ==> a1.chunk_size == before.chunk_size,
        a1.connect_timeout == before.connect_timeout,
        a1.request_timeout == before.request_timeout,
        a1.use_vpc_mapping == before.use_vpc_mapping,
        same_entry(m1, m2, "goosefs.user.file.writetype.default"@)
            ==> a1.write_type == a2.write_type,
        !m1.contains_key("goosefs.user.file.writetype.default"@)
            ==> a1.write_type == before.write_type,
        same_entry(m1, m2, "goosefs.user.file.replication.number"@)
            ==> a1.file_replication_number == a2.file_replication_number,
        !m1.contains_key("goosefs.user.file.replication.number"@)
            ==> a1.file_replication_number == before.file_replication_number,
        same_entry(m1, m2, "goosefs.user.file.check.block.replicas"@)
            ==> a1.check_block_replicas == a2.check_block_replicas,
        !m1.contains_key("goosefs.user.file.check.block.replicas"@)
            ==> a1.check_block_replicas == before.check_block_replicas,
        same_entry(m1, m2, "goosefs.user.file.read.max.node.retry"@)
            ==> a1.file_read_max_node_retry == a2.file_read_max_node_retry,
        !m1.contains_key("goosefs.user.file.read.max.node.retry"@)
            ==> a1.file_read_max_node_retry == before.file_read_max_node_retry,
        a1.prefetch_window == before.prefetch_window,
        a1.read_buffer_messages == before.read_buffer_messages,
        a1.ack_interval_bytes == before.ack_interval_bytes,
        a1.ack_interval_chunks == before.ack_interval_chunks,
        same_entry(m1, m2, "goosefs.user.master.connection.pool.size"@)
            ==> a1.master_connection_pool_size == a2.master_connection_pool_size,
        !m1.contains_key("goosefs.user.master.connection.pool.size"@)
            ==> a1.master_connection_pool_size == before.master_connection_pool_size,
        same_entry(m1, m2, "goosefs.user.master.pool.schedule"@)
            ==> a1.master_connection_pool_schedule == a2.master_connection_pool_schedule,
        !m1.contains_key("goosefs.user.master.pool.schedule"@)
            ==> a1.master_connection_pool_schedule == before.master_connection_pool_schedule,
        same_entry(m1, m2, "goosefs.user.worker.connection.pool.size"@)
            ==> a1.worker_connection_pool_size == a2.worker_connection_pool_size,
        !m1.contains_key("goosefs.user.worker.connection.pool.size"@)
            ==> a1.worker_connection_pool_size == before.worker_connection_pool_size,
        a1.master_inquire_retry_max_duration == before.master_inquire_retry_max_duration,
        a1.master_inquire_initial_sleep == before.master_inquire_initial_sleep,
        a1.master_inquire_max_sleep == before.master_inquire_max_sleep,
        a1.master_polling_timeout == before.master_polling_timeout,
        same_entry(m1, m2, "goosefs.security.authentication.type"@)
            ==> a1.auth_type == a2.auth_type,
        !m1.contains_key("goosefs.security.authentication.type"@)
            ==> a1.auth_type == before.auth_type,
        same_entry(m1, m2, "goosefs.security.login.username"@)
            ==> a1.auth_username@ == a2.auth_username@,
        !m1.contains_key("goosefs.security.login.username"@)
            ==> a1.auth_username@ == before.auth_username@,
        a1.auth_timeout == before.auth_timeout,
        same_entry(m1, m2, "goosefs.config.manager.rpc.addresses"@)
            ==> string_views(a1.config_manager_rpc_addresses@)
                == string_views(a2.config_manager_rpc_addresses@),
        !m1.contains_key("goosefs.config.manager.rpc.addresses"@)
            ==> string_views(a1.config_manager_rpc_addresses@)
                == string_views(before.config_manager_rpc_addresses@),
        same_entry(m1, m2, "goosefs.config.rpc.port"@) ==> a1.config_rpc_port == a2.config_rpc_port,
        !m1.contains_key("goosefs.config.rpc.port"@)
            ==> a1.config_rpc_port == before.config_rpc_port,
        same_entry(m1, m2, "goosefs.user.client.transparent_acceleration.enabled"@)
            ==> a1.transparent_acceleration_enabled == a2.transparent_acceleration_enabled,
        !m1.contains_key("goosefs.user.client.transparent_acceleration.enabled"@)
            ==> a1.transparent_acceleration_enabled == before.transparent_acceleration_enabled,
        same_entry(m1, m2, "goosefs.user.client.transparent_acceleration.cosranger.enabled"@)
            ==> a1.transparent_acceleration_cosranger_enabled
                == a2.transparent_acceleration_cosranger_enabled,
        !m1.contains_key("goosefs.user.client.transparent_acceleration.cosranger.enabled"@)
            ==> a1.transparent_acceleration_cosranger_enabled
                == before.transparent_acceleration_cosranger_enabled,
        same_entry(m1, m2, "goosefs.security.authorization.permission.enabled"@)
            ==> a1.authorization_permission_enabled == a2.authorization_permission_enabled,
        !m1.contains_key("goosefs.security.authorization.permission.enabled"@)
            ==> a1.authorization_permission_enabled == before.authorization_permission_enabled,
        same_entry(m1, m2, "goosefs.security.login.impersonation.username"@)
            ==> a1.login_impersonation_username@ == a2.login_impersonation_username@,
        !m1.contains_key("goosefs.security.login.impersonation.username"@)
            ==> a1.login_impersonation_username@ == before.login_impersonation_username@,
{
}

/// Each entry reaches only its own field among those of connections and identities: where two sets of
/// entries agree on it, they give that field the same value, whatever else they hold; and a field
/// whose entry is missing stays.
pub proof fn law_connection_entries_reach_only_their_fields(
    m1: Map<Seq<char>, Seq<char>>,
    m2: Map<Seq<char>, Seq<char>>,
    before: GoosefsConfig,
    a1: GoosefsConfig,
    a2: GoosefsConfig,
)
    requires
        properties_applied(m1, before, a1),
        properties_applied(m2, before, a2),
    ensures
        same_entry(m1, m2, "goosefs.user.block.size.bytes.default"@)
            ==> a1.block_size == a2.block_size,
        !m1.contains_key("goosefs.user.block.size.bytes.default"@)
            ==> a1.block_size == before.block_size,
        same_entry(m1, m2, "goosefs.user.network.data.transfer.chunk.size"@)
            ==> a1.chunk_size == a2.chunk_size,
        !m1.contains_key("goosefs.user.network.data.transfer.chunk.size"@)
            ==> a1.chunk_size == before.chunk_size,
        a1.connect_timeout == before.connect_timeout,
        a1.request_timeout == before.request_timeout,
        a1.use_vpc_mapping == before.use_vpc_mapping,
        same_entry(m1, m2, "goosefs.user.file.writetype.default"@)
            ==> a1.write_type == a2.write_type,
        !m1.contains_key("goosefs.user.file.writetype.default"@)
            ==> a1.write_type == before.write_type,
        same_entry(m1, m2, "goosefs.user.file.replication.number"@)
            ==> a1.file_replication_number == a2.file_replication_number,
        !m1.contains_key("goosefs.user.file.replication.number"@)
            ==> a1.file_replication_number == before.file_replication_number,
        same_entry(m1, m2, "goosefs.user.file.check.block.replicas"@)
            ==> a1.check_block_replicas == a2.check_block_replicas,
        !m1.contains_key("goosefs.user.file.check.block.replicas"@)
            ==> a1.check_block_replicas == before.check_block_replicas,
        same_entry(m1, m2, "goosefs.user.file.read.max.node.retry"@)
            ==> a1.file_read_max_node_retry == a2.file_read_max_node_retry,
        !m1.contains_key("goosefs.user.file.read.max.node.retry"@)
            ==> a1.file_read_max_node_retry == before.file_read_max_node_retry,
        a1.prefetch_window == before.prefetch_window,
        a1.read_buffer_messages == before.read_buffer_messages,
        a1.ack_interval_bytes == before.ack_interval_bytes,
        a1.ack_interval_chunks == before.ack_interval_chunks,
        same_entry(m1, m2, "goosefs.user.master.connection.pool.size"@)
            ==> a1.master_connection_pool_size == a2.master_connection_pool_size,
        !m1.contains_key("goosefs.user.master.connection.pool.size"@)
            ==> a1.master_connection_pool_size == before.master_connection_pool_size,
        same_entry(m1, m2, "goosefs.user.master.pool.schedule"@)
            ==> a1.master_connection_pool_schedule == a2.master_connection_pool_schedule,
        !m1.contains_key("goosefs.user.master.pool.schedule"@)
            ==> a1.master_connection_pool_schedule == before.master_connection_pool_schedule,
        same_entry(m1, m2, "goosefs.user.worker.connection.pool.size"@)
            ==> a1.worker_connection_pool_size == a2.worker_connection_pool_size,
        !m1.contains_key("goosefs.user.worker.connection.pool.size"@)
            ==> a1.worker_connection_pool_size == before.worker_connection_pool_size,
        a1.master_inquire_retry_max_duration == before.master_inquire_retry_max_duration,
        a1.master_inquire_initial_sleep == before.master_inquire_initial_sleep,
        a1.master_inquire_max_sleep == before.master_inquire_max_sleep,
        a1.master_polling_timeout == before.master_polling_timeout,
        same_entry(m1, m2, "goosefs.security.authentication.type"@)
            ==> a1.auth_type == a2.auth_type,
        !m1.contains_key("goosefs.security.authentication.type"@)
            ==> a1.auth_type == before.auth_type,
        same_entry(m1, m2, "goosefs.security.login.username"@)
            ==> a1.auth_username@ == a2.auth_username@,
        !m1.contains_key("goosefs.security.login.username"@)
            ==> a1.auth_username@ == before.auth_username@,
        a1.auth_timeout == before.auth_timeout,
        same_entry(m1, m2, "goosefs.config.manager.rpc.addresses"@)
            ==> string_views(a1.config_manager_rpc_addresses@)
                == string_views(a2.config_manager_rpc_addresses@),
        !m1.contains_key("goosefs.config.manager.rpc.addresses"@)
            ==> string_views(a1.config_manager_rpc_addresses@)
                == string_views(before.config_manager_rpc_addresses@),
        same_entry(m1, m2, "goosefs.config.rpc.port"@) ==> a1.config_rpc_port == a2.config_rpc_port,
        !m1.contains_key("goosefs.config.rpc.port"@)
            ==> a1.config_rpc_port == before.config_rpc_port,
        same_entry(m1, m2, "goosefs.user.client.transparent_acceleration.enabled"@)
            ==> a1.transparent_acceleration_enabled == a2.transparent_acceleration_enabled,
        !m1.contains_key("goosefs.user.client.transparent_acceleration.enabled"@)
            ==> a1.transparent_acceleration_enabled == before.transparent_acceleration_enabled,
        same_entry(m1, m2, "goosefs.user.client.transparent_acceleration.cosranger.enabled"@)
            ==> a1.transparent_acceleration_cosranger_enabled
                == a2.transparent_acceleration_cosranger_enabled,
        !m1.contains_key("goosefs.user.client.transparent_acceleration.cosranger.enabled"@)
            ==> a1.transparent_acceleration_cosranger_enabled
                == before.transparent_acceleration_cosranger_enabled,
        same_entry(m1, m2, "goosefs.security.authorization.permission.enabled"@)
            ==> a1.authorization_permission_enabled == a2.authorization_permission_enabled,
        !m1.contains_key("goosefs.security.authorization.permission.enabled"@)
            ==> a1.authorization_permission_enabled == before.authorization_permission_enabled,
        same_entry(m1, m2, "goosefs.security.login.impersonation.username"@)
            ==> a1.login_impersonation_username@ == a2.login_impersonation_username@,
        !m1.contains_key("goosefs.security.login.impersonation.username"@)
            ==> a1.login_impersonation_username@ == before.login_impersonation_username@,
{
    lemma_connection_entries_alone(m1, m2, before, a1, a2);
}

/// Each entry sets its own field among those of connections and identities to the value that its text
/// denotes: the number that a numeral denotes, the switch, the text, or the items of a list.
pub proof fn law_connection_entries_set_their_fields(
    m: Map<Seq<char>, Seq<char>>,
    before: GoosefsConfig,
    after: GoosefsConfig,
    n: int,
    text: Seq<char>,
    x: Seq<char>,
    y: Seq<char>,
)
    requires
        properties_applied(m, before, after),
        is_plain_item(x),
        is_plain_item(y),
    ensures
        holds(m, "goosefs.user.block.size.bytes.default"@, signed_decimal(n)) && 1 <= n <= u64::MAX
            ==> after.block_size == n,
        holds(m, "goosefs.user.block.size.bytes.default"@, signed_decimal(n) + "KB"@) && 1 <= n && n * 1024 <= u64::MAX
            ==> after.block_size == n * 1024,
        holds(m, "goosefs.user.block.size.bytes.default"@, signed_decimal(n) + "MB"@) && 1 <= n && n * 1024 * 1024 <= u64::MAX
            ==> after.block_size == n * 1024 * 1024,
        holds(m, "goosefs.user.block.size.bytes.default"@, signed_decimal(n) + "GB"@) && 1 <= n && n * 1024 * 1024 * 1024 <= u64::MAX
            ==> after.block_size == n * 1024 * 1024 * 1024,
        holds(m, "goosefs.user.block.size.bytes.default"@, signed_decimal(n)) && n == 0
            ==> after.block_size == before.block_size,
        holds(m, "goosefs.user.network.data.transfer.chunk.size"@, signed_decimal(n)) && 1 <= n <= u64::MAX
            ==> after.chunk_size == n,
        holds(m, "goosefs.user.network.data.transfer.chunk.size"@, signed_decimal(n) + "KB"@) && 1 <= n && n * 1024 <= u64::MAX
            ==> after.chunk_size == n * 1024,
        holds(m, "goosefs.user.network.data.transfer.chunk.size"@, signed_decimal(n) + "MB"@) && 1 <= n && n * 1024 * 1024 <= u64::MAX
            ==> after.chunk_size == n * 1024 * 1024,
        holds(m, "goosefs.user.network.data.transfer.chunk.size"@, signed_decimal(n) + "GB"@) && 1 <= n && n * 1024 * 1024 * 1024 <= u64::MAX
            ==> after.chunk_size == n * 1024 * 1024 * 1024,
        holds(m, "goosefs.user.network.data.transfer.chunk.size"@, signed_decimal(n)) && n == 0
            ==> after.chunk_size == before.chunk_size,
        holds(m, "goosefs.user.file.writetype.default"@, text) && ascii_lowercase(text)
                == "must_cache"@
            ==> after.write_type == Some(1i32),
        holds(m, "goosefs.user.file.writetype.default"@, text) && ascii_lowercase(text)
                == "try_cache"@
            ==> after.write_type == Some(2i32),
        holds(m, "goosefs.user.file.writetype.default"@, text) && ascii_lowercase(text)
                == "cache_through"@
            ==> after.write_type == Some(3i32),
        holds(m, "goosefs.user.file.writetype.default"@, text) && ascii_lowercase(text)
                == "through"@
            ==> after.write_type == Some(4i32),
        holds(m, "goosefs.user.file.writetype.default"@, text) && ascii_lowercase(text)
                == "async_through"@
            ==> after.write_type == Some(5i32),
        holds(m, "goosefs.user.file.replication.number"@, signed_decimal(n)) && 1 <= n <= i32::MAX
            ==> after.file_replication_number == n,
        holds(m, "goosefs.user.file.replication.number"@, signed_decimal(n)) && i32::MIN <= n < 1
            ==> after.file_replication_number == before.file_replication_number,
        holds(m, "goosefs.user.file.check.block.replicas"@, signed_decimal(n)) && 0 <= n <= i32::MAX
            ==> after.check_block_replicas == n,
        holds(m, "goosefs.user.file.check.block.replicas"@, signed_decimal(n)) && i32::MIN <= n < 0
            ==> after.check_block_replicas == before.check_block_replicas,
        holds(m, "goosefs.user.file.read.max.node.retry"@, signed_decimal(n)) && 1 <= n <= i32::MAX
            ==> after.file_read_max_node_retry == n,
        holds(m, "goosefs.user.file.read.max.node.retry"@, signed_decimal(n)) && i32::MIN <= n < 1
            ==> after.file_read_max_node_retry == before.file_read_max_node_retry,
        holds(m, "goosefs.user.master.connection.pool.size"@, signed_decimal(n)) && 1 <= n <= usize::MAX
            ==> after.master_connection_pool_size == n,
        holds(m, "goosefs.user.master.connection.pool.size"@, signed_decimal(n)) && n == 0
            ==> after.master_connection_pool_size == 1,
        holds(m, "goosefs.user.master.pool.schedule"@, text) && ascii_lowercase(text)
                == "roundrobin"@
            ==> after.master_connection_pool_schedule is RoundRobin,
        holds(m, "goosefs.user.master.pool.schedule"@, text) && ascii_lowercase(text) == "p2c"@
            ==> after.master_connection_pool_schedule is P2C,
        holds(m, "goosefs.user.worker.connection.pool.size"@, signed_decimal(n)) && 1 <= n <= usize::MAX
            ==> after.worker_connection_pool_size == n,
        holds(m, "goosefs.user.worker.connection.pool.size"@, signed_decimal(n)) && n == 0
            ==> after.worker_connection_pool_size == 1,
        holds(m, "goosefs.security.authentication.type"@, text) && ascii_lowercase(text)
                == "nosasl"@
            ==> after.auth_type is NoSasl,
        holds(m, "goosefs.security.authentication.type"@, text) && ascii_lowercase(text)
                == "simple"@
            ==> after.auth_type is Simple,
        holds(m, "goosefs.security.login.username"@, text) && text.len() > 0
            ==> after.auth_username@ == text,
        holds(m, "goosefs.config.manager.rpc.addresses"@, x)
            ==> string_views(after.config_manager_rpc_addresses@) == seq![x],
        holds(m, "goosefs.config.manager.rpc.addresses"@, x + seq![','] + y)
            ==> string_views(after.config_manager_rpc_addresses@) == seq![x, y],
        holds(m, "goosefs.config.rpc.port"@, signed_decimal(n)) && 0 <= n <= u16::MAX
            ==> after.config_rpc_port == n,
        holds(m, "goosefs.user.client.transparent_acceleration.enabled"@, "true"@)
            ==> after.transparent_acceleration_enabled,
        holds(m, "goosefs.user.client.transparent_acceleration.enabled"@, "false"@)
            ==> !after.transparent_acceleration_enabled,
        holds(m, "goosefs.user.client.transparent_acceleration.cosranger.enabled"@, "true"@)
            ==> after.transparent_acceleration_cosranger_enabled,
        holds(m, "goosefs.user.client.transparent_acceleration.cosranger.enabled"@, "false"@)
            ==> !after.transparent_acceleration_cosranger_enabled,
        holds(m, "goosefs.security.authorization.permission.enabled"@, "true"@)
            ==> after.authorization_permission_enabled,
        holds(m, "goosefs.security.authorization.permission.enabled"@, "false"@)
            ==> !after.authorization_permission_enabled,
        holds(m, "goosefs.security.login.impersonation.username"@, text) && text.len() > 0
            ==> after.login_impersonation_username@ == text,
{
    lemma_entry_values(m, n, text, x, y);
}

proof fn lemma_metrics_entries_alone(
    m1: Map<Seq<char>, Seq<char>>,
    m2: Map<Seq<char>, Seq<char>>,
    before: GoosefsConfig,
    a1: GoosefsConfig,
    a2: GoosefsConfig,
)
    requires
        metrics_set(m1, before, a1),
        metrics_set(m2, before, a2),
    ensures
        same_entry(m1, m2, "goosefs.user.metrics.collection.enabled"@)
            ==> a1.metrics_enabled == a2.metrics_enabled,
        !m1.contains_key("goosefs.user.metrics.collection.enabled"@)
            ==> a1.metrics_enabled == before.metrics_enabled,
        same_entry(m1, m2, "goosefs.user.metrics.heartbeat.interval"@)
            ==> a1.metrics_heartbeat_interval.nanos == a2.metrics_heartbeat_interval.nanos,
        !m1.contains_key("goosefs.user.metrics.heartbeat.interval"@)
            ==> a1.metrics_heartbeat_interval.nanos == before.metrics_heartbeat_interval.nanos,
        a1.metrics_heartbeat_timeout == before.metrics_heartbeat_timeout,
        same_entry(m1, m2, "goosefs.user.app.id"@) ==> opt_view(a1.app_id) == opt_view(a2.app_id),
        !m1.contains_key("goosefs.user.app.id"@) ==> opt_view(a1.app_id) == opt_view(before.app_id),
        a1.metrics_max_batch_size == before.metrics_max_batch_size,
        same_entry(m1, m2, "goosefs.metrics.pushgateway.enabled"@)
            ==> a1.pushgateway_enabled == a2.pushgateway_enabled,
        !m1.contains_key("goosefs.metrics.pushgateway.enabled"@)
            ==> a1.pushgateway_enabled == before.pushgateway_enabled,
        same_entry(m1, m2, "goosefs.metrics.pushgateway.endpoint"@)
            ==> a1.pushgateway_endpoint@ == a2.pushgateway_endpoint@,
        !m1.contains_key("goosefs.metrics.pushgateway.endpoint"@)
            ==> a1.pushgateway_endpoint@ == before.pushgateway_endpoint@,
        same_entry(m1, m2, "goosefs.metrics.pushgateway.push.interval"@)
            ==> a1.pushgateway_push_interval.nanos == a2.pushgateway_push_interval.nanos,
        !m1.contains_key("goosefs.metrics.pushgateway.push.interval"@)
            ==> a1.pushgateway_push_interval.nanos == before.pushgateway_push_interval.nanos,
        same_entry(m1, m2, "goosefs.metrics.pushgateway.job"@)
            ==> a1.pushgateway_job@ == a2.pushgateway_job@,
        !m1.contains_key("goosefs.metrics.pushgateway.job"@)
            ==> a1.pushgateway_job@ == before.pushgateway_job@,
        same_entry(m1, m2, "goosefs.metrics.pushgateway.instance"@)
            ==> opt_view(a1.pushgateway_instance) == opt_view(a2.pushgateway_instance),
        !m1.contains_key("goosefs.metrics.pushgateway.instance"@)
            ==> opt_view(a1.pushgateway_instance) == opt_view(before.pushgateway_instance),
{
}

/// Each entry reaches only its own field among those of metrics: where two sets of
/// entries agree on it, they give that field the same value, whatever else they hold; and a field
/// whose entry is missing stays.
pub proof fn law_metrics_entries_reach_only_their_fields(
    m1: Map<Seq<char>, Seq<char>>,
    m2: Map<Seq<char>, Seq<char>>,
    before: GoosefsConfig,
    a1: GoosefsConfig,
    a2: GoosefsConfig,
)
    requires
        properties_applied(m1, before, a1),
        properties_applied(m2, before, a2),
    ensures
        same_entry(m1, m2, "goosefs.user.metrics.collection.enabled"@)
            ==> a1.metrics_enabled == a2.metrics_enabled,
        !m1.contains_key("goosefs.user.metrics.collection.enabled"@)
            ==> a1.metrics_enabled == before.metrics_enabled,
        same_entry(m1, m2, "goosefs.user.metrics.heartbeat.interval"@)
            ==> a1.metrics_heartbeat_interval.nanos == a2.metrics_heartbeat_interval.nanos,
        !m1.contains_key("goosefs.user.metrics.heartbeat.interval"@)
            ==> a1.metrics_heartbeat_interval.nanos == before.metrics_heartbeat_interval.nanos,
        a1.metrics_heartbeat_timeout == before.metrics_heartbeat_timeout,
        same_entry(m1, m2, "goosefs.user.app.id"@) ==> opt_view(a1.app_id) == opt_view(a2.app_id),
        !m1.contains_key("goosefs.user.app.id"@) ==> opt_view(a1.app_id) == opt_view(before.app_id),
        a1.metrics_max_batch_size == before.metrics_max_batch_size,
        same_entry(m1, m2, "goosefs.metrics.pushgateway.enabled"@)
            ==> a1.pushgateway_enabled == a2.pushgateway_enabled,
        !m1.contains_key("goosefs.metrics.pushgateway.enabled"@)
            ==> a1.pushgateway_enabled == before.pushgateway_enabled,
        same_entry(m1, m2, "goosefs.metrics.pushgateway.endpoint"@)
            ==> a1.pushgateway_endpoint@ == a2.pushgateway_endpoint@,
        !m1.contains_key("goosefs.metrics.pushgateway.endpoint"@)
            ==> a1.pushgateway_endpoint@ == before.pushgateway_endpoint@,
        same_entry(m1, m2, "goosefs.metrics.pushgateway.push.interval"@)
            ==> a1.pushgateway_push_interval.nanos == a2.pushgateway_push_interval.nanos,
        !m1.contains_key("goosefs.metrics.pushgateway.push.interval"@)
            ==> a1.pushgateway_push_interval.nanos == before.pushgateway_push_interval.nanos,
        same_entry(m1, m2, "goosefs.metrics.pushgateway.job"@)
            ==> a1.pushgateway_job@ == a2.pushgateway_job@,
        !m1.contains_key("goosefs.metrics.pushgateway.job"@)
            ==> a1.pushgateway_job@ == before.pushgateway_job@,
        same_entry(m1, m2, "goosefs.metrics.pushgateway.instance"@)
            ==> opt_view(a1.pushgateway_instance) == opt_view(a2.pushgateway_instance),
        !m1.contains_key("goosefs.metrics.pushgateway.instance"@)
            ==> opt_view(a1.pushgateway_instance) == opt_view(before.pushgateway_instance),
{
    lemma_metrics_entries_alone(m1, m2, before, a1, a2);
}

/// Each entry sets its own field among those of metrics to the value that its text
/// denotes: the number that a numeral denotes, the switch, the text, or the items of a list.
pub proof fn law_metrics_entries_set_their_fields(
    m: Map<Seq<char>, Seq<char>>,
    before: GoosefsConfig,
    after: GoosefsConfig,
    n: int,
    text: Seq<char>,
    x: Seq<char>,
    y: Seq<char>,
)
    requires
        properties_applied(m, before, after),
        is_plain_item(x),
        is_plain_item(y),
    ensures
        holds(m, "goosefs.user.metrics.collection.enabled"@, "true"@) ==> after.metrics_enabled,
        holds(m, "goosefs.user.metrics.collection.enabled"@, "false"@) ==> !after.metrics_enabled,
        holds(m, "goosefs.user.metrics.heartbeat.interval"@, signed_decimal(n)) && 1000 <= n <= u64::MAX
            ==> after.metrics_heartbeat_interval.nanos == n * 1_000_000,
        holds(m, "goosefs.user.metrics.heartbeat.interval"@, signed_decimal(n)) && 0 <= n < 1000
            ==> after.metrics_heartbeat_interval.nanos == before.metrics_heartbeat_interval.nanos,
        holds(m, "goosefs.user.app.id"@, text) && text.len() > 0
            ==> opt_view(after.app_id) == Some(text),
        holds(m, "goosefs.metrics.pushgateway.enabled"@, "true"@) ==> after.pushgateway_enabled,
        holds(m, "goosefs.metrics.pushgateway.enabled"@, "false"@) ==> !after.pushgateway_enabled,
        holds(m, "goosefs.metrics.pushgateway.endpoint"@, text) && text.len() > 0
            ==> after.pushgateway_endpoint@ == text,
        holds(m, "goosefs.metrics.pushgateway.push.interval"@, signed_decimal(n)) && 1000 <= n <= u64::MAX
            ==> after.pushgateway_push_interval.nanos == n * 1_000_000,
        holds(m, "goosefs.metrics.pushgateway.push.interval"@, signed_decimal(n)) && 0 <= n < 1000
            ==> after.pushgateway_push_interval.nanos == before.pushgateway_push_interval.nanos,
        holds(m, "goosefs.metrics.pushgateway.job"@, text) && text.len() > 0
            ==> after.pushgateway_job@ == text,
        holds(m, "goosefs.metrics.pushgateway.instance"@, text) && text.len() > 0
            ==> opt_view(after.pushgateway_instance) == Some(text),
{
    lemma_entry_values(m, n, text, x, y);
}

proof fn lemma_page_cache_entries_alone(
    m1: Map<Seq<char>, Seq<char>>,
    m2: Map<Seq<char>, Seq<char>>,
    before: GoosefsConfig,
    a1: GoosefsConfig,
    a2: GoosefsConfig,
)
    requires
        page_cache_set(m1, before, a1),
        page_cache_set(m2, before, a2),
    ensures
        same_entry(m1, m2, "goosefs.user.client.cache.enabled"@)
            ==> a1.client_cache_enabled == a2.client_cache_enabled,
        !m1.contains_key("goosefs.user.client.cache.enabled"@)
            ==> a1.client_cache_enabled == before.client_cache_enabled,
        same_entry(m1, m2, "goosefs.user.client.cache.page.size"@)
            ==> a1.client_cache_page_size == a2.client_cache_page_size,
        !m1.contains_key("goosefs.user.client.cache.page.size"@)
            ==> a1.client_cache_page_size == before.client_cache_page_size,
        same_entry(m1, m2, "goosefs.user.client.cache.size"@)
            ==> a1.client_cache_size == a2.client_cache_size,
        !m1.contains_key("goosefs.user.client.cache.size"@)
            ==> a1.client_cache_size == before.client_cache_size,
        same_entry(m1, m2, "goosefs.user.client.cache.dirs"@)
            ==> string_views(a1.client_cache_dirs@) == string_views(a2.client_cache_dirs@),
        !m1.contains_key("goosefs.user.client.cache.dirs"@)
            ==> string_views(a1.client_cache_dirs@) == string_views(before.client_cache_dirs@),
        same_entry(m1, m2, "goosefs.user.client.cache.eviction.policy"@)
            ==> a1.client_cache_evictor == a2.client_cache_evictor,
        !m1.contains_key("goosefs.user.client.cache.eviction.policy"@)
            ==> a1.client_cache_evictor == before.client_cache_evictor,
        same_entry(m1, m2, "goosefs.user.client.cache.async.write.enabled"@)
            ==> a1.client_cache_async_write_enabled == a2.client_cache_async_write_enabled,
        !m1.contains_key("goosefs.user.client.cache.async.write.enabled"@)
            ==> a1.client_cache_async_write_enabled == before.client_cache_async_write_enabled,
        same_entry(m1, m2, "goosefs.user.client.cache.async.write.threads"@)
            ==> a1.client_cache_async_write_threads == a2.client_cache_async_write_threads,
        !m1.contains_key("goosefs.user.client.cache.async.write.threads"@)
            ==> a1.client_cache_async_write_threads == before.client_cache_async_write_threads,
        same_entry(m1, m2, "goosefs.user.client.cache.quota.enabled"@)
            ==> a1.client_cache_quota_enabled == a2.client_cache_quota_enabled,
        !m1.contains_key("goosefs.user.client.cache.quota.enabled"@)
            ==> a1.client_cache_quota_enabled == before.client_cache_quota_enabled,
        same_entry(m1, m2, "goosefs.user.client.cache.ttl.seconds"@)
            ==> a1.client_cache_ttl_secs == a2.client_cache_ttl_secs,
        !m1.contains_key("goosefs.user.client.cache.ttl.seconds"@)
            ==> a1.client_cache_ttl_secs == before.client_cache_ttl_secs,
        same_entry(m1, m2, "goosefs.user.client.cache.uring.enabled"@)
            ==> a1.client_cache_uring_enabled == a2.client_cache_uring_enabled,
        !m1.contains_key("goosefs.user.client.cache.uring.enabled"@)
            ==> a1.client_cache_uring_enabled == before.client_cache_uring_enabled,
        same_entry(m1, m2, "goosefs.user.client.cache.uring.queue.depth"@)
            ==> a1.client_cache_uring_queue_depth == a2.client_cache_uring_queue_depth,
        !m1.contains_key("goosefs.user.client.cache.uring.queue.depth"@)
            ==> a1.client_cache_uring_queue_depth == before.client_cache_uring_queue_depth,
        same_entry(m1, m2, "goosefs.user.client.cache.uring.thread.count"@)
            ==> a1.client_cache_uring_thread_count == a2.client_cache_uring_thread_count,
        !m1.contains_key("goosefs.user.client.cache.uring.thread.count"@)
            ==> a1.client_cache_uring_thread_count == before.client_cache_uring_thread_count,
        same_entry(m1, m2, "goosefs.user.client.cache.sync.read.enabled"@)
            ==> a1.client_cache_sync_read_enabled == a2.client_cache_sync_read_enabled,
        !m1.contains_key("goosefs.user.client.cache.sync.read.enabled"@)
            ==> a1.client_cache_sync_read_enabled == before.client_cache_sync_read_enabled,
        same_entry(m1, m2, "goosefs.user.client.cache.sequential.read.enabled"@)
            ==> a1.client_cache_sequential_read_enabled == a2.client_cache_sequential_read_enabled,
        !m1.contains_key("goosefs.user.client.cache.sequential.read.enabled"@)
            ==> a1.client_cache_sequential_read_enabled
                == before.client_cache_sequential_read_enabled,
{
}

/// Each entry reaches only its own field among those of the local page cache: where two sets of
/// entries agree on it, they give that field the same value, whatever else they hold; and a field
/// whose entry is missing stays.
pub proof fn law_page_cache_entries_reach_only_their_fields(
    m1: Map<Seq<char>, Seq<char>>,
    m2: Map<Seq<char>, Seq<char>>,
    before: GoosefsConfig,
    a1: GoosefsConfig,
    a2: GoosefsConfig,
)
    requires
        properties_applied(m1, before, a1),
        properties_applied(m2, before, a2),
    ensures
        same_entry(m1, m2, "goosefs.user.client.cache.enabled"@)
            ==> a1.client_cache_enabled == a2.client_cache_enabled,
        !m1.contains_key("goosefs.user.client.cache.enabled"@)
            ==> a1.client_cache_enabled == before.client_cache_enabled,
        same_entry(m1, m2, "goosefs.user.client.cache.page.size"@)
            ==> a1.client_cache_page_size == a2.client_cache_page_size,
        !m1.contains_key("goosefs.user.client.cache.page.size"@)
            ==> a1.client_cache_page_size == before.client_cache_page_size,
        same_entry(m1, m2, "goosefs.user.client.cache.size"@)
            ==> a1.client_cache_size == a2.client_cache_size,
        !m1.contains_key("goosefs.user.client.cache.size"@)
            ==> a1.client_cache_size == before.client_cache_size,
        same_entry(m1, m2, "goosefs.user.client.cache.dirs"@)
            ==> string_views(a1.client_cache_dirs@) == string_views(a2.client_cache_dirs@),
        !m1.contains_key("goosefs.user.client.cache.dirs"@)
            ==> string_views(a1.client_cache_dirs@) == string_views(before.client_cache_dirs@),
        same_entry(m1, m2, "goosefs.user.client.cache.eviction.policy"@)
            ==> a1.client_cache_evictor == a2.client_cache_evictor,
        !m1.contains_key("goosefs.user.client.cache.eviction.policy"@)
            ==> a1.client_cache_evictor == before.client_cache_evictor,
        same_entry(m1, m2, "goosefs.user.client.cache.async.write.enabled"@)
            ==> a1.client_cache_async_write_enabled == a2.client_cache_async_write_enabled,
        !m1.contains_key("goosefs.user.client.cache.async.write.enabled"@)
            ==> a1.client_cache_async_write_enabled == before.client_cache_async_write_enabled,
        same_entry(m1, m2, "goosefs.user.client.cache.async.write.threads"@)
            ==> a1.client_cache_async_write_threads == a2.client_cache_async_write_threads,
        !m1.contains_key("goosefs.user.client.cache.async.write.threads"@)
            ==> a1.client_cache_async_write_threads == before.client_cache_async_write_threads,
        same_entry(m1, m2, "goosefs.user.client.cache.quota.enabled"@)
            ==> a1.client_cache_quota_enabled == a2.client_cache_quota_enabled,
        !m1.contains_key("goosefs.user.client.cache.quota.enabled"@)
            ==> a1.client_cache_quota_enabled == before.client_cache_quota_enabled,
        same_entry(m1, m2, "goosefs.user.client.cache.ttl.seconds"@)
            ==> a1.client_cache_ttl_secs == a2.client_cache_ttl_secs,
        !m1.contains_key("goosefs.user.client.cache.ttl.seconds"@)
            ==> a1.client_cache_ttl_secs == before.client_cache_ttl_secs,
        same_entry(m1, m2, "goosefs.user.client.cache.uring.enabled"@)
            ==> a1.client_cache_uring_enabled == a2.client_cache_uring_enabled,
        !m1.contains_key("goosefs.user.client.cache.uring.enabled"@)
            ==> a1.client_cache_uring_enabled == before.client_cache_uring_enabled,
        same_entry(m1, m2, "goosefs.user.client.cache.uring.queue.depth"@)
            ==> a1.client_cache_uring_queue_depth == a2.client_cache_uring_queue_depth,
        !m1.contains_key("goosefs.user.client.cache.uring.queue.depth"@)
            ==> a1.client_cache_uring_queue_depth == before.client_cache_uring_queue_depth,
        same_entry(m1, m2, "goosefs.user.client.cache.uring.thread.count"@)
            ==> a1.client_cache_uring_thread_count == a2.client_cache_uring_thread_count,
        !m1.contains_key("goosefs.user.client.cache.uring.thread.count"@)
            ==> a1.client_cache_uring_thread_count == before.client_cache_uring_thread_count,
        same_entry(m1, m2, "goosefs.user.client.cache.sync.read.enabled"@)
            ==> a1.client_cache_sync_read_enabled == a2.client_cache_sync_read_enabled,
        !m1.contains_key("goosefs.user.client.cache.sync.read.enabled"@)
            ==> a1.client_cache_sync_read_enabled == before.client_cache_sync_read_enabled,
        same_entry(m1, m2, "goosefs.user.client.cache.sequential.read.enabled"@)
            ==> a1.client_cache_sequential_read_enabled == a2.client_cache_sequential_read_enabled,
        !m1.contains_key("goosefs.user.client.cache.sequential.read.enabled"@)
            ==> a1.client_cache_sequential_read_enabled
                == before.client_cache_sequential_read_enabled,
{
    lemma_page_cache_entries_alone(m1, m2, before, a1, a2);
}

/// Each entry sets its own field among those of the local page cache to the value that its text
/// denotes: the number that a numeral denotes, the switch, the text, or the items of a list.
pub proof fn law_page_cache_entries_set_their_fields(
    m: Map<Seq<char>, Seq<char>>,
    before: GoosefsConfig,
    after: GoosefsConfig,
    n: int,
    text: Seq<char>,
    x: Seq<char>,
    y: Seq<char>,
)
    requires
        properties_applied(m, before, after),
        is_plain_item(x),
        is_plain_item(y),
    ensures
        holds(m, "goosefs.user.client.cache.enabled"@, "true"@) ==> after.client_cache_enabled,
        holds(m, "goosefs.user.client.cache.enabled"@, "false"@) ==> !after.client_cache_enabled,
        holds(m, "goosefs.user.client.cache.page.size"@, signed_decimal(n)) && 1 <= n <= u64::MAX
            ==> after.client_cache_page_size == n,
        holds(m, "goosefs.user.client.cache.page.size"@, signed_decimal(n) + "KB"@) && 1 <= n && n * 1024 <= u64::MAX
            ==> after.client_cache_page_size == n * 1024,
        holds(m, "goosefs.user.client.cache.page.size"@, signed_decimal(n) + "MB"@) && 1 <= n && n * 1024 * 1024 <= u64::MAX
            ==> after.client_cache_page_size == n * 1024 * 1024,
        holds(m, "goosefs.user.client.cache.page.size"@, signed_decimal(n) + "GB"@) && 1 <= n && n * 1024 * 1024 * 1024 <= u64::MAX
            ==> after.client_cache_page_size == n * 1024 * 1024 * 1024,
        holds(m, "goosefs.user.client.cache.page.size"@, signed_decimal(n)) && n == 0
            ==> after.client_cache_page_size == before.client_cache_page_size,
        holds(m, "goosefs.user.client.cache.size"@, signed_decimal(n)) && 0 <= n <= u64::MAX
            ==> after.client_cache_size == n,
        holds(m, "goosefs.user.client.cache.size"@, signed_decimal(n) + "KB"@) && 1 <= n && n * 1024 <= u64::MAX
            ==> after.client_cache_size == n * 1024,
        holds(m, "goosefs.user.client.cache.size"@, signed_decimal(n) + "MB"@) && 1 <= n && n * 1024 * 1024 <= u64::MAX
            ==> after.client_cache_size == n * 1024 * 1024,
        holds(m, "goosefs.user.client.cache.size"@, signed_decimal(n) + "GB"@) && 1 <= n && n * 1024 * 1024 * 1024 <= u64::MAX
            ==> after.client_cache_size == n * 1024 * 1024 * 1024,
        holds(m, "goosefs.user.client.cache.dirs"@, x)
            ==> string_views(after.client_cache_dirs@) == seq![x],
        holds(m, "goosefs.user.client.cache.dirs"@, x + seq![','] + y)
            ==> string_views(after.client_cache_dirs@) == seq![x, y],
        holds(m, "goosefs.user.client.cache.eviction.policy"@, text) && ascii_uppercase(text)
                == "LRU"@
            ==> after.client_cache_evictor is Lru,
        holds(m, "goosefs.user.client.cache.eviction.policy"@, text) && ascii_uppercase(text)
                == "LFU"@
            ==> after.client_cache_evictor is Lfu,
        holds(m, "goosefs.user.client.cache.async.write.enabled"@, "true"@)
            ==> after.client_cache_async_write_enabled,
        holds(m, "goosefs.user.client.cache.async.write.enabled"@, "false"@)
            ==> !after.client_cache_async_write_enabled,
        holds(m, "goosefs.user.client.cache.async.write.threads"@, signed_decimal(n)) && 1 <= n <= usize::MAX
            ==> after.client_cache_async_write_threads == n,
        holds(m, "goosefs.user.client.cache.async.write.threads"@, signed_decimal(n)) && 0 <= n < 1
            ==> after.client_cache_async_write_threads == before.client_cache_async_write_threads,
        holds(m, "goosefs.user.client.cache.quota.enabled"@, "true"@)
            ==> after.client_cache_quota_enabled,
        holds(m, "goosefs.user.client.cache.quota.enabled"@, "false"@)
            ==> !after.client_cache_quota_enabled,
        holds(m, "goosefs.user.client.cache.ttl.seconds"@, signed_decimal(n)) && 0 <= n <= u64::MAX
            ==> after.client_cache_ttl_secs == n,
        holds(m, "goosefs.user.client.cache.uring.enabled"@, "true"@)
            ==> after.client_cache_uring_enabled,
        holds(m, "goosefs.user.client.cache.uring.enabled"@, "false"@)
            ==> !after.client_cache_uring_enabled,
        holds(m, "goosefs.user.client.cache.uring.queue.depth"@, signed_decimal(n)) && 1 <= n <= usize::MAX
            ==> after.client_cache_uring_queue_depth == n,
        holds(m, "goosefs.user.client.cache.uring.queue.depth"@, signed_decimal(n)) && 0 <= n < 1
            ==> after.client_cache_uring_queue_depth == before.client_cache_uring_queue_depth,
        holds(m, "goosefs.user.client.cache.uring.thread.count"@, signed_decimal(n)) && 1 <= n <= usize::MAX
            ==> after.client_cache_uring_thread_count == n,
        holds(m, "goosefs.user.client.cache.uring.thread.count"@, signed_decimal(n)) && 0 <= n < 1
            ==> after.client_cache_uring_thread_count == before.client_cache_uring_thread_count,
        holds(m, "goosefs.user.client.cache.sync.read.enabled"@, "true"@)
            ==> after.client_cache_sync_read_enabled,
        holds(m, "goosefs.user.client.cache.sync.read.enabled"@, "false"@)
            ==> !after.client_cache_sync_read_enabled,
        holds(m, "goosefs.user.client.cache.sequential.read.enabled"@, "true"@)
            ==> after.client_cache_sequential_read_enabled,
        holds(m, "goosefs.user.client.cache.sequential.read.enabled"@, "false"@)
            ==> !after.client_cache_sequential_read_enabled,
{
    lemma_entry_values(m, n, text, x, y);
}

proof fn lemma_metadata_entries_alone(
    m1: Map<Seq<char>, Seq<char>>,
    m2: Map<Seq<char>, Seq<char>>,
    before: GoosefsConfig,
    a1: GoosefsConfig,
    a2: GoosefsConfig,
)
    requires
        metadata_set(m1, before, a1),
        metadata_set(m2, before, a2),
    ensures
        same_entry(m1, m2, "goosefs_metadata_cache_enabled"@) && same_entry(m1, m2, "goosefs.user.metadata.cache.enabled"@)
            ==> a1.metadata_cache_enabled == a2.metadata_cache_enabled,
        !m1.contains_key("goosefs_metadata_cache_enabled"@) && !m1.contains_key("goosefs.user.metadata.cache.enabled"@)
            ==> a1.metadata_cache_enabled == before.metadata_cache_enabled,
        same_entry(m1, m2, "goosefs_metadata_cache_max_size"@) && same_entry(m1, m2, "goosefs.user.metadata.cache.max.size"@)
            ==> a1.metadata_cache_max_size == a2.metadata_cache_max_size,
        !m1.contains_key("goosefs_metadata_cache_max_size"@) && !m1.contains_key("goosefs.user.metadata.cache.max.size"@)
            ==> a1.metadata_cache_max_size == before.metadata_cache_max_size,
        same_entry(m1, m2, "goosefs_metadata_cache_expiration"@) && same_entry(m1, m2, "goosefs.user.metadata.cache.expiration.time"@)
            ==> a1.metadata_cache_expiration.nanos == a2.metadata_cache_expiration.nanos,
        !m1.contains_key("goosefs_metadata_cache_expiration"@) && !m1.contains_key("goosefs.user.metadata.cache.expiration.time"@)
            ==> a1.metadata_cache_expiration.nanos == before.metadata_cache_expiration.nanos,
        same_entry(m1, m2, "goosefs_file_metadata_sync_interval"@) && same_entry(m1, m2, "goosefs.user.file.metadata.sync.interval"@)
            ==> a1.file_metadata_sync_interval == a2.file_metadata_sync_interval,
        !m1.contains_key("goosefs_file_metadata_sync_interval"@) && !m1.contains_key("goosefs.user.file.metadata.sync.interval"@)
            ==> a1.file_metadata_sync_interval == before.file_metadata_sync_interval,
        same_entry(m1, m2, "goosefs_file_metadata_load_type"@) && same_entry(m1, m2, "goosefs.user.file.metadata.load.type"@)
            ==> a1.file_metadata_load_type == a2.file_metadata_load_type,
        !m1.contains_key("goosefs_file_metadata_load_type"@) && !m1.contains_key("goosefs.user.file.metadata.load.type"@)
            ==> a1.file_metadata_load_type == before.file_metadata_load_type,
        a1.range_coalesce_enabled == before.range_coalesce_enabled,
        a1.range_coalesce_gap_bytes == before.range_coalesce_gap_bytes,
        a1.range_coalesce_max_bytes == before.range_coalesce_max_bytes,
{
}

/// Each entry reaches only its own field among those of cached metadata and coalesced ranges: where two sets of
/// entries agree on it, they give that field the same value, whatever else they hold; and a field
/// whose entry is missing stays.
pub proof fn law_metadata_entries_reach_only_their_fields(
    m1: Map<Seq<char>, Seq<char>>,
    m2: Map<Seq<char>, Seq<char>>,
    before: GoosefsConfig,
    a1: GoosefsConfig,
    a2: GoosefsConfig,
)
    requires
        properties_applied(m1, before, a1),
        properties_applied(m2, before, a2),
    ensures
        same_entry(m1, m2, "goosefs_metadata_cache_enabled"@) && same_entry(m1, m2, "goosefs.user.metadata.cache.enabled"@)
            ==> a1.metadata_cache_enabled == a2.metadata_cache_enabled,
        !m1.contains_key("goosefs_metadata_cache_enabled"@) && !m1.contains_key("goosefs.user.metadata.cache.enabled"@)
            ==> a1.metadata_cache_enabled == before.metadata_cache_enabled,
        same_entry(m1, m2, "goosefs_metadata_cache_max_size"@) && same_entry(m1, m2, "goosefs.user.metadata.cache.max.size"@)
            ==> a1.metadata_cache_max_size == a2.metadata_cache_max_size,
        !m1.contains_key("goosefs_metadata_cache_max_size"@) && !m1.contains_key("goosefs.user.metadata.cache.max.size"@)
            ==> a1.metadata_cache_max_size == before.metadata_cache_max_size,
        same_entry(m1, m2, "goosefs_metadata_cache_expiration"@) && same_entry(m1, m2, "goosefs.user.metadata.cache.expiration.time"@)
            ==> a1.metadata_cache_expiration.nanos == a2.metadata_cache_expiration.nanos,
        !m1.contains_key("goosefs_metadata_cache_expiration"@) && !m1.contains_key("goosefs.user.metadata.cache.expiration.time"@)
            ==> a1.metadata_cache_expiration.nanos == before.metadata_cache_expiration.nanos,
        same_entry(m1, m2, "goosefs_file_metadata_sync_interval"@) && same_entry(m1, m2, "goosefs.user.file.metadata.sync.interval"@)
            ==> a1.file_metadata_sync_interval == a2.file_metadata_sync_interval,
        !m1.contains_key("goosefs_file_metadata_sync_interval"@) && !m1.contains_key("goosefs.user.file.metadata.sync.interval"@)
            ==> a1.file_metadata_sync_interval == before.file_metadata_sync_interval,
        same_entry(m1, m2, "goosefs_file_metadata_load_type"@) && same_entry(m1, m2, "goosefs.user.file.metadata.load.type"@)
            ==> a1.file_metadata_load_type == a2.file_metadata_load_type,
        !m1.contains_key("goosefs_file_metadata_load_type"@) && !m1.contains_key("goosefs.user.file.metadata.load.type"@)
            ==> a1.file_metadata_load_type == before.file_metadata_load_type,
        a1.range_coalesce_enabled == before.range_coalesce_enabled,
        a1.range_coalesce_gap_bytes == before.range_coalesce_gap_bytes,
        a1.range_coalesce_max_bytes == before.range_coalesce_max_bytes,
{
    lemma_metadata_entries_alone(m1, m2, before, a1, a2);
}

/// Each entry sets its own field among those of cached metadata and coalesced ranges to the value that its text
/// denotes: the number that a numeral denotes, the switch, the text, or the items of a list.
pub proof fn law_metadata_entries_set_their_fields(
    m: Map<Seq<char>, Seq<char>>,
    before: GoosefsConfig,
    after: GoosefsConfig,
    n: int,
    text: Seq<char>,
    x: Seq<char>,
    y: Seq<char>,
)
    requires
        properties_applied(m, before, after),
        is_plain_item(x),
        is_plain_item(y),
    ensures
        holds(m, "goosefs_metadata_cache_enabled"@, "true"@) ==> after.metadata_cache_enabled,
        holds(m, "goosefs_metadata_cache_enabled"@, "false"@) ==> !after.metadata_cache_enabled,
        holds(m, "goosefs.user.metadata.cache.enabled"@, "true"@) && !m.contains_key("goosefs_metadata_cache_enabled"@)
            ==> after.metadata_cache_enabled,
        holds(m, "goosefs.user.metadata.cache.enabled"@, "false"@) && !m.contains_key("goosefs_metadata_cache_enabled"@)
            ==> !after.metadata_cache_enabled,
        holds(m, "goosefs_metadata_cache_max_size"@, signed_decimal(n)) && 1 <= n <= usize::MAX
            ==> after.metadata_cache_max_size == n,
        holds(m, "goosefs_metadata_cache_max_size"@, signed_decimal(n)) && n == 0
            ==> after.metadata_cache_max_size == 1,
        holds(m, "goosefs.user.metadata.cache.max.size"@, signed_decimal(n)) && !m.contains_key("goosefs_metadata_cache_max_size"@) && 1 <= n <= usize::MAX
            ==> after.metadata_cache_max_size == n,
        holds(m, "goosefs.user.metadata.cache.max.size"@, signed_decimal(n)) && !m.contains_key("goosefs_metadata_cache_max_size"@) && n == 0
            ==> after.metadata_cache_max_size == 1,
        holds(m, "goosefs_metadata_cache_expiration"@, signed_decimal(n)) && 0 <= n <= 0x20_0000_0000_0000
            ==> after.metadata_cache_expiration.nanos == n * 1_000_000,
        holds(m, "goosefs_metadata_cache_expiration"@, signed_decimal(n) + "s"@) && 0 <= n && n * 1000 <= 0x20_0000_0000_0000
            ==> after.metadata_cache_expiration.nanos == n * 1000 * 1_000_000,
        holds(m, "goosefs.user.metadata.cache.expiration.time"@, signed_decimal(n)) && !m.contains_key("goosefs_metadata_cache_expiration"@) && 0 <= n <= 0x20_0000_0000_0000
            ==> after.metadata_cache_expiration.nanos == n * 1_000_000,
        holds(m, "goosefs.user.metadata.cache.expiration.time"@, signed_decimal(n) + "s"@) && !m.contains_key("goosefs_metadata_cache_expiration"@) && 0 <= n && n * 1000 <= 0x20_0000_0000_0000
            ==> after.metadata_cache_expiration.nanos == n * 1000 * 1_000_000,
        holds(m, "goosefs_file_metadata_sync_interval"@, signed_decimal(n)) && -0x20_0000_0000_0000 <= n <= 0x20_0000_0000_0000
            ==> after.file_metadata_sync_interval == n,
        holds(m, "goosefs_file_metadata_sync_interval"@, signed_decimal(n) + "s"@) && 0 <= n && n * 1000 <= 0x20_0000_0000_0000
            ==> after.file_metadata_sync_interval == n * 1000,
        holds(m, "goosefs.user.file.metadata.sync.interval"@, signed_decimal(n)) && !m.contains_key("goosefs_file_metadata_sync_interval"@) && -0x20_0000_0000_0000 <= n <= 0x20_0000_0000_0000
            ==> after.file_metadata_sync_interval == n,
        holds(m, "goosefs.user.file.metadata.sync.interval"@, signed_decimal(n) + "s"@) && !m.contains_key("goosefs_file_metadata_sync_interval"@) && 0 <= n && n * 1000 <= 0x20_0000_0000_0000
            ==> after.file_metadata_sync_interval == n * 1000,
        holds(m, "goosefs_file_metadata_load_type"@, text) && ascii_lowercase(text) == "once"@
            ==> after.file_metadata_load_type is Once,
        holds(m, "goosefs_file_metadata_load_type"@, text) && ascii_lowercase(text) == "always"@
            ==> after.file_metadata_load_type is Always,
        holds(m, "goosefs_file_metadata_load_type"@, text) && ascii_lowercase(text) == "never"@
            ==> after.file_metadata_load_type is Never,
        holds(m, "goosefs.user.file.metadata.load.type"@, text) && !m.contains_key("goosefs_file_metadata_load_type"@) && ascii_lowercase(text) == "once"@
            ==> after.file_metadata_load_type is Once,
        holds(m, "goosefs.user.file.metadata.load.type"@, text) && !m.contains_key("goosefs_file_metadata_load_type"@) && ascii_lowercase(text) == "always"@
            ==> after.file_metadata_load_type is Always,
        holds(m, "goosefs.user.file.metadata.load.type"@, text) && !m.contains_key("goosefs_file_metadata_load_type"@) && ascii_lowercase(text) == "never"@
            ==> after.file_metadata_load_type is Never,
{
    lemma_entry_values(m, n, text, x, y);
}

proof fn lemma_short_circuit_entries_alone(
    m1: Map<Seq<char>, Seq<char>>,
    m2: Map<Seq<char>, Seq<char>>,
    before: GoosefsConfig,
    a1: GoosefsConfig,
    a2: GoosefsConfig,
)
    requires
        short_circuit_set(m1, before, a1),
        short_circuit_set(m2, before, a2),
    ensures
        same_entry(m1, m2, "goosefs.user.short.circuit.enabled"@)
            ==> a1.short_circuit_enabled == a2.short_circuit_enabled,
        !m1.contains_key("goosefs.user.short.circuit.enabled"@)
            ==> a1.short_circuit_enabled == before.short_circuit_enabled,
        same_entry(m1, m2, "goosefs.client.short.circuit.cache.capacity"@)
            ==> a1.short_circuit_cache_capacity == a2.short_circuit_cache_capacity,
        !m1.contains_key("goosefs.client.short.circuit.cache.capacity"@)
            ==> a1.short_circuit_cache_capacity == before.short_circuit_cache_capacity,
        same_entry(m1, m2, "goosefs.client.short.circuit.cache.ttl.ms"@)
            ==> a1.short_circuit_cache_ttl.nanos == a2.short_circuit_cache_ttl.nanos,
        !m1.contains_key("goosefs.client.short.circuit.cache.ttl.ms"@)
            ==> a1.short_circuit_cache_ttl.nanos == before.short_circuit_cache_ttl.nanos,
        same_entry(m1, m2, "goosefs.client.short.circuit.neg.cache.ttl.ms"@)
            ==> a1.short_circuit_neg_cache_ttl.nanos == a2.short_circuit_neg_cache_ttl.nanos,
        !m1.contains_key("goosefs.client.short.circuit.neg.cache.ttl.ms"@)
            ==> a1.short_circuit_neg_cache_ttl.nanos == before.short_circuit_neg_cache_ttl.nanos,
        same_entry(m1, m2, "goosefs.client.short.circuit.advise"@)
            ==> a1.short_circuit_advise@ == a2.short_circuit_advise@,
        !m1.contains_key("goosefs.client.short.circuit.advise"@)
            ==> a1.short_circuit_advise@ == before.short_circuit_advise@,
        same_entry(m1, m2, "goosefs.client.short.circuit.prefetch.enabled"@)
            ==> a1.short_circuit_prefetch_enabled == a2.short_circuit_prefetch_enabled,
        !m1.contains_key("goosefs.client.short.circuit.prefetch.enabled"@)
            ==> a1.short_circuit_prefetch_enabled == before.short_circuit_prefetch_enabled,
        same_entry(m1, m2, "goosefs.client.short.circuit.prefetch.coalesce.gap"@)
            ==> a1.short_circuit_prefetch_coalesce_gap == a2.short_circuit_prefetch_coalesce_gap,
        !m1.contains_key("goosefs.client.short.circuit.prefetch.coalesce.gap"@)
            ==> a1.short_circuit_prefetch_coalesce_gap
                == before.short_circuit_prefetch_coalesce_gap,
        same_entry(m1, m2, "goosefs.client.short.circuit.prefetch.max.batch"@)
            ==> a1.short_circuit_prefetch_max_batch == a2.short_circuit_prefetch_max_batch,
        !m1.contains_key("goosefs.client.short.circuit.prefetch.max.batch"@)
            ==> a1.short_circuit_prefetch_max_batch == before.short_circuit_prefetch_max_batch,
        same_entry(m1, m2, "goosefs.client.short.circuit.min.block.size"@)
            ==> a1.short_circuit_min_block_size == a2.short_circuit_min_block_size,
        !m1.contains_key("goosefs.client.short.circuit.min.block.size"@)
            ==> a1.short_circuit_min_block_size == before.short_circuit_min_block_size,
        same_entry(m1, m2, "goosefs.client.short.circuit.sigbus.handler"@)
            ==> a1.short_circuit_sigbus_handler == a2.short_circuit_sigbus_handler,
        !m1.contains_key("goosefs.client.short.circuit.sigbus.handler"@)
            ==> a1.short_circuit_sigbus_handler == before.short_circuit_sigbus_handler,
        same_entry(m1, m2, "goosefs.client.short.circuit.thp"@)
            ==> a1.short_circuit_thp == a2.short_circuit_thp,
        !m1.contains_key("goosefs.client.short.circuit.thp"@)
            ==> a1.short_circuit_thp == before.short_circuit_thp,
{
}

/// Each entry reaches only its own field among those of short-circuit reads: where two sets of
/// entries agree on it, they give that field the same value, whatever else they hold; and a field
/// whose entry is missing stays.
pub proof fn law_short_circuit_entries_reach_only_their_fields(
    m1: Map<Seq<char>, Seq<char>>,
    m2: Map<Seq<char>, Seq<char>>,
    before: GoosefsConfig,
    a1: GoosefsConfig,
    a2: GoosefsConfig,
)
    requires
        properties_applied(m1, before, a1),
        properties_applied(m2, before, a2),
    ensures
        same_entry(m1, m2, "goosefs.user.short.circuit.enabled"@)
            ==> a1.short_circuit_enabled == a2.short_circuit_enabled,
        !m1.contains_key("goosefs.user.short.circuit.enabled"@)
            ==> a1.short_circuit_enabled == before.short_circuit_enabled,
        same_entry(m1, m2, "goosefs.client.short.circuit.cache.capacity"@)
            ==> a1.short_circuit_cache_capacity == a2.short_circuit_cache_capacity,
        !m1.contains_key("goosefs.client.short.circuit.cache.capacity"@)
            ==> a1.short_circuit_cache_capacity == before.short_circuit_cache_capacity,
        same_entry(m1, m2, "goosefs.client.short.circuit.cache.ttl.ms"@)
            ==> a1.short_circuit_cache_ttl.nanos == a2.short_circuit_cache_ttl.nanos,
        !m1.contains_key("goosefs.client.short.circuit.cache.ttl.ms"@)
            ==> a1.short_circuit_cache_ttl.nanos == before.short_circuit_cache_ttl.nanos,
        same_entry(m1, m2, "goosefs.client.short.circuit.neg.cache.ttl.ms"@)
            ==> a1.short_circuit_neg_cache_ttl.nanos == a2.short_circuit_neg_cache_ttl.nanos,
        !m1.contains_key("goosefs.client.short.circuit.neg.cache.ttl.ms"@)
            ==> a1.short_circuit_neg_cache_ttl.nanos == before.short_circuit_neg_cache_ttl.nanos,
        same_entry(m1, m2, "goosefs.client.short.circuit.advise"@)
            ==> a1.short_circuit_advise@ == a2.short_circuit_advise@,
        !m1.contains_key("goosefs.client.short.circuit.advise"@)
            ==> a1.short_circuit_advise@ == before.short_circuit_advise@,
        same_entry(m1, m2, "goosefs.client.short.circuit.prefetch.enabled"@)
            ==> a1.short_circuit_prefetch_enabled == a2.short_circuit_prefetch_enabled,
        !m1.contains_key("goosefs.client.short.circuit.prefetch.enabled"@)
            ==> a1.short_circuit_prefetch_enabled == before.short_circuit_prefetch_enabled,
        same_entry(m1, m2, "goosefs.client.short.circuit.prefetch.coalesce.gap"@)
            ==> a1.short_circuit_prefetch_coalesce_gap == a2.short_circuit_prefetch_coalesce_gap,
        !m1.contains_key("goosefs.client.short.circuit.prefetch.coalesce.gap"@)
            ==> a1.short_circuit_prefetch_coalesce_gap
                == before.short_circuit_prefetch_coalesce_gap,
        same_entry(m1, m2, "goosefs.client.short.circuit.prefetch.max.batch"@)
            ==> a1.short_circuit_prefetch_max_batch == a2.short_circuit_prefetch_max_batch,
        !m1.contains_key("goosefs.client.short.circuit.prefetch.max.batch"@)
            ==> a1.short_circuit_prefetch_max_batch == before.short_circuit_prefetch_max_batch,
        same_entry(m1, m2, "goosefs.client.short.circuit.min.block.size"@)
            ==> a1.short_circuit_min_block_size == a2.short_circuit_min_block_size,
        !m1.contains_key("goosefs.client.short.circuit.min.block.size"@)
            ==> a1.short_circuit_min_block_size == before.short_circuit_min_block_size,
        same_entry(m1, m2, "goosefs.client.short.circuit.sigbus.handler"@)
            ==> a1.short_circuit_sigbus_handler == a2.short_circuit_sigbus_handler,
        !m1.contains_key("goosefs.client.short.circuit.sigbus.handler"@)
            ==> a1.short_circuit_sigbus_handler == before.short_circuit_sigbus_handler,
        same_entry(m1, m2, "goosefs.client.short.circuit.thp"@)
            ==> a1.short_circuit_thp == a2.short_circuit_thp,
        !m1.contains_key("goosefs.client.short.circuit.thp"@)
            ==> a1.short_circuit_thp == before.short_circuit_thp,
{
    lemma_short_circuit_entries_alone(m1, m2, before, a1, a2);
}

/// Each entry sets its own field among those of short-circuit reads to the value that its text
/// denotes: the number that a numeral denotes, the switch, the text, or the items of a list.
pub proof fn law_short_circuit_entries_set_their_fields(
    m: Map<Seq<char>, Seq<char>>,
    before: GoosefsConfig,
    after: GoosefsConfig,
    n: int,
    text: Seq<char>,
    x: Seq<char>,
    y: Seq<char>,
)
    requires
        properties_applied(m, before, after),
        is_plain_item(x),
        is_plain_item(y),
    ensures
        holds(m, "goosefs.user.short.circuit.enabled"@, "true"@) ==> after.short_circuit_enabled,
        holds(m, "goosefs.user.short.circuit.enabled"@, "false"@) ==> !after.short_circuit_enabled,
        holds(m, "goosefs.client.short.circuit.cache.capacity"@, signed_decimal(n)) && 0 <= n <= usize::MAX
            ==> after.short_circuit_cache_capacity == n,
        holds(m, "goosefs.client.short.circuit.cache.ttl.ms"@, signed_decimal(n)) && 0 <= n <= u64::MAX
            ==> after.short_circuit_cache_ttl.nanos == n * 1_000_000,
        holds(m, "goosefs.client.short.circuit.neg.cache.ttl.ms"@, signed_decimal(n)) && 0 <= n <= u64::MAX
            ==> after.short_circuit_neg_cache_ttl.nanos == n * 1_000_000,
        holds(m, "goosefs.client.short.circuit.advise"@, text) && text.len() > 0
            ==> after.short_circuit_advise@ == text,
        holds(m, "goosefs.client.short.circuit.prefetch.enabled"@, "true"@)
            ==> after.short_circuit_prefetch_enabled,
        holds(m, "goosefs.client.short.circuit.prefetch.enabled"@, "false"@)
            ==> !after.short_circuit_prefetch_enabled,
        holds(m, "goosefs.client.short.circuit.prefetch.coalesce.gap"@, signed_decimal(n)) && 0 <= n <= usize::MAX
            ==> after.short_circuit_prefetch_coalesce_gap == n,
        holds(m, "goosefs.client.short.circuit.prefetch.max.batch"@, signed_decimal(n)) && 0 <= n <= usize::MAX
            ==> after.short_circuit_prefetch_max_batch == n,
        holds(m, "goosefs.client.short.circuit.min.block.size"@, signed_decimal(n)) && i64::MIN <= n <= i64::MAX
            ==> after.short_circuit_min_block_size == n,
        holds(m, "goosefs.client.short.circuit.sigbus.handler"@, "true"@)
            ==> after.short_circuit_sigbus_handler,
        holds(m, "goosefs.client.short.circuit.sigbus.handler"@, "false"@)
            ==> !after.short_circuit_sigbus_handler,
        holds(m, "goosefs.client.short.circuit.thp"@, "true"@) ==> after.short_circuit_thp,
        holds(m, "goosefs.client.short.circuit.thp"@, "false"@) ==> !after.short_circuit_thp,
{
    lemma_entry_values(m, n, text, x, y);
}

/// A text of one line `key=value` has that entry and no other.
pub proof fn law_text_of_one_line(key: Seq<char>, value: Seq<char>)
    requires
        key.len() > 0,
        key[0] != '#' && key[0] != '!',
        !is_white_space(key[0]) && !is_white_space(key[key.len() - 1]),
        forall|i: int|
            0 <= i < key.len() ==> #[trigger] key[i] != '=' && key[i] != ':' && key[i] != '\n',
        value.len() > 0 ==> !is_white_space(value[0]) && !is_white_space(value[value.len() - 1]),
        forall|i: int| 0 <= i < value.len() ==> #[trigger] value[i] != '\n',
    ensures
        with_lines(Map::empty(), key + seq!['='] + value) == Map::<
            Seq<char>,
            Seq<char>,
        >::empty().insert(key, value),
{
    let e = Seq::<char>::empty();
    let line = key + seq!['='] + value;
    law_line_is_key_and_value(e, key, e, '=', e, value, e, Map::empty());
    assert(e + key + e + seq!['='] + e + value + e =~= line);
    assert forall|i: int| 0 <= i < line.len() implies #[trigger] line[i] != '\n' by {
        if i < key.len() {
            assert(key[i] != '\n');
        } else if i > key.len() {
            assert(value[i - key.len() - 1] != '\n');
        }
    }
    law_lines_in_order(Map::empty(), line, e);
}

proof fn lemma_same_config_set(
    m: Map<Seq<char>, Seq<char>>,
    d: GoosefsConfig,
    base: GoosefsConfig,
    r: GoosefsConfig,
)
    requires
        properties_applied(m, d, base),
        same_config(base, r),
    ensures
        properties_applied(m, d, r),
{
    assert(masters_set(m, d, r));
    assert(connection_set(m, d, r));
    assert(metrics_set(m, d, r));
    assert(page_cache_set(m, d, r));
    assert(metadata_set(m, d, r));
    assert(short_circuit_set(m, d, r));
}

/// Without variables, loading gives the defaults with the entries of the file, where there is
/// a file, and the defaults where there is none.
pub proof fn law_file_counts_without_variables(
    host: HostEnv,
    file: Option<Seq<char>>,
    r: GoosefsConfig,
)
    requires
        loaded(host, file, r),
        host.vars@ == Map::<Seq<char>, Seq<char>>::empty(),
    ensures
        match file {
            Some(c) => exists|d: GoosefsConfig| #[trigger]
                is_default(d, host) && properties_applied(with_lines(Map::empty(), c), d, r),
            None => exists|d: GoosefsConfig| #[trigger] is_default(d, host) && same_config(d, r),
        },
{
    let (d, base) = choose|d: GoosefsConfig, base: GoosefsConfig|
        #![trigger is_default(d, host), env_applied(host.vars@, base, r)]
        is_default(d, host) && env_applied(host.vars@, base, r) && match file {
            Some(c) => properties_applied(with_lines(Map::empty(), c), d, base),
            None => base == d,
        };
    law_no_variables_no_change(base, r);
    assert(is_default(d, host));
    if let Some(c) = file {
        lemma_same_config_set(with_lines(Map::empty(), c), d, base, r);
    }
}

} // verus!
