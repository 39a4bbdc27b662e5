//! Names of configuration entries.

use vstd::prelude::*;

verus! {

/// The user name that switches impersonation off.
pub const IMPERSONATION_NONE: &'static str = "_NONE_";

/// Storage option: master address.
pub const STORAGE_OPT_MASTER_ADDR: &'static str = "goosefs_master_addr";

/// Storage option: write type.
pub const STORAGE_OPT_WRITE_TYPE: &'static str = "goosefs_write_type";

/// Storage option: block size.
pub const STORAGE_OPT_BLOCK_SIZE: &'static str = "goosefs_block_size";

/// Storage option: chunk size.
pub const STORAGE_OPT_CHUNK_SIZE: &'static str = "goosefs_chunk_size";

/// Storage option: auth type.
pub const STORAGE_OPT_AUTH_TYPE: &'static str = "goosefs_auth_type";

/// Storage option: auth username.
pub const STORAGE_OPT_AUTH_USERNAME: &'static str = "goosefs_auth_username";

/// Property: the directory of the configuration file. Its environment variable is [`ENV_CONF_DIR`].
pub const CONF_DIR: &'static str = "goosefs.conf.dir";

/// Environment variable: path of the configuration file.
pub const ENV_CONFIG_FILE: &'static str = "GOOSEFS_CONFIG_FILE";

/// Environment variable: directory of the configuration file.
pub const ENV_CONF_DIR: &'static str = "GOOSEFS_CONF_DIR";

/// Environment variable: directory of the installation.
pub const ENV_HOME: &'static str = "GOOSEFS_HOME";

/// Environment variable: master address.
pub const ENV_MASTER_ADDR: &'static str = "GOOSEFS_MASTER_ADDR";

/// Environment variable: write type.
pub const ENV_WRITE_TYPE: &'static str = "GOOSEFS_WRITE_TYPE";

/// Environment variable: file replication number.
pub const ENV_FILE_REPLICATION_NUMBER: &'static str = "GOOSEFS_USER_FILE_REPLICATION_NUMBER";

/// Environment variable: check block replicas.
pub const ENV_CHECK_BLOCK_REPLICAS: &'static str = "GOOSEFS_USER_FILE_CHECK_BLOCK_REPLICAS";

/// Environment variable: file read max node retry.
pub const ENV_FILE_READ_MAX_NODE_RETRY: &'static str = "GOOSEFS_USER_FILE_READ_MAX_NODE_RETRY";

/// Environment variable: block size.
pub const ENV_BLOCK_SIZE: &'static str = "GOOSEFS_BLOCK_SIZE";

/// Environment variable: chunk size.
pub const ENV_CHUNK_SIZE: &'static str = "GOOSEFS_CHUNK_SIZE";

/// Environment variable: auth type.
pub const ENV_AUTH_TYPE: &'static str = "GOOSEFS_AUTH_TYPE";

/// Environment variable: auth username.
pub const ENV_AUTH_USERNAME: &'static str = "GOOSEFS_AUTH_USERNAME";

/// Environment variable: config manager RPC addresses.
pub const ENV_CONFIG_MANAGER_RPC_ADDRESSES: &'static str = "GOOSEFS_CONFIG_MANAGER_RPC_ADDRESSES";

/// Environment variable: config RPC port.
pub const ENV_CONFIG_RPC_PORT: &'static str = "GOOSEFS_CONFIG_RPC_PORT";

/// Environment variable: transparent acceleration enabled.
pub const ENV_TRANSPARENT_ACCELERATION_ENABLED: &'static str =
    "GOOSEFS_TRANSPARENT_ACCELERATION_ENABLED";

/// Environment variable: transparent acceleration cosranger enabled.
pub const ENV_TRANSPARENT_ACCELERATION_COSRANGER_ENABLED: &'static str =
    "GOOSEFS_TRANSPARENT_ACCELERATION_COSRANGER_ENABLED";

/// Environment variable: authorization permission enabled.
pub const ENV_AUTHORIZATION_PERMISSION_ENABLED: &'static str =
    "GOOSEFS_AUTHORIZATION_PERMISSION_ENABLED";

/// Environment variable: login impersonation username.
pub const ENV_LOGIN_IMPERSONATION_USERNAME: &'static str = "GOOSEFS_LOGIN_IMPERSONATION_USERNAME";

/// Environment variable: metrics enabled.
pub const ENV_METRICS_ENABLED: &'static str = "GOOSEFS_USER_METRICS_COLLECTION_ENABLED";

/// Environment variable: metrics heartbeat interval (milliseconds).
pub const ENV_METRICS_HEARTBEAT_INTERVAL_MS: &'static str =
    "GOOSEFS_USER_METRICS_HEARTBEAT_INTERVAL_MS";

/// Environment variable: app identifier.
pub const ENV_APP_ID: &'static str = "GOOSEFS_USER_APP_ID";

/// Environment variable: pushgateway enabled.
pub const ENV_PUSHGATEWAY_ENABLED: &'static str = "GOOSEFS_METRICS_PUSHGATEWAY_ENABLED";

/// Environment variable: pushgateway endpoint.
pub const ENV_PUSHGATEWAY_ENDPOINT: &'static str = "GOOSEFS_METRICS_PUSHGATEWAY_ENDPOINT";

/// Environment variable: pushgateway push interval (milliseconds).
pub const ENV_PUSHGATEWAY_PUSH_INTERVAL_MS: &'static str =
    "GOOSEFS_METRICS_PUSHGATEWAY_PUSH_INTERVAL_MS";

/// Environment variable: pushgateway job.
pub const ENV_PUSHGATEWAY_JOB: &'static str = "GOOSEFS_METRICS_PUSHGATEWAY_JOB";

/// Environment variable: pushgateway instance.
pub const ENV_PUSHGATEWAY_INSTANCE: &'static str = "GOOSEFS_METRICS_PUSHGATEWAY_INSTANCE";

/// Environment variable: client cache enabled.
pub const ENV_CLIENT_CACHE_ENABLED: &'static str = "GOOSEFS_USER_CLIENT_CACHE_ENABLED";

/// Environment variable: client cache page size.
pub const ENV_CLIENT_CACHE_PAGE_SIZE: &'static str = "GOOSEFS_USER_CLIENT_CACHE_PAGE_SIZE";

/// Environment variable: client cache size.
pub const ENV_CLIENT_CACHE_SIZE: &'static str = "GOOSEFS_USER_CLIENT_CACHE_SIZE";

/// Environment variable: client cache dirs.
pub const ENV_CLIENT_CACHE_DIRS: &'static str = "GOOSEFS_USER_CLIENT_CACHE_DIRS";

/// Environment variable: client cache evictor.
pub const ENV_CLIENT_CACHE_EVICTOR: &'static str = "GOOSEFS_USER_CLIENT_CACHE_EVICTION_POLICY";

/// Environment variable: client cache async write enabled.
pub const ENV_CLIENT_CACHE_ASYNC_WRITE_ENABLED: &'static str =
    "GOOSEFS_USER_CLIENT_CACHE_ASYNC_WRITE_ENABLED";

/// Environment variable: client cache async write threads.
pub const ENV_CLIENT_CACHE_ASYNC_WRITE_THREADS: &'static str =
    "GOOSEFS_USER_CLIENT_CACHE_ASYNC_WRITE_THREADS";

/// Environment variable: client cache quota enabled.
pub const ENV_CLIENT_CACHE_QUOTA_ENABLED: &'static str = "GOOSEFS_USER_CLIENT_CACHE_QUOTA_ENABLED";

/// Environment variable: client cache ttl (seconds).
pub const ENV_CLIENT_CACHE_TTL_SECS: &'static str = "GOOSEFS_USER_CLIENT_CACHE_TTL_SECONDS";

/// Environment variable: client cache sequential read enabled.
pub const ENV_CLIENT_CACHE_SEQUENTIAL_READ_ENABLED: &'static str =
    "GOOSEFS_USER_CLIENT_CACHE_SEQUENTIAL_READ_ENABLED";

/// Environment variable: client cache uring enabled.
pub const ENV_CLIENT_CACHE_URING_ENABLED: &'static str = "GOOSEFS_USER_CLIENT_CACHE_URING_ENABLED";

/// Environment variable: client cache uring queue depth.
pub const ENV_CLIENT_CACHE_URING_QUEUE_DEPTH: &'static str =
    "GOOSEFS_USER_CLIENT_CACHE_URING_QUEUE_DEPTH";

/// Environment variable: client cache uring thread count.
pub const ENV_CLIENT_CACHE_URING_THREAD_COUNT: &'static str =
    "GOOSEFS_USER_CLIENT_CACHE_URING_THREAD_COUNT";

/// Environment variable: client cache sync read enabled.
pub const ENV_CLIENT_CACHE_SYNC_READ_ENABLED: &'static str =
    "GOOSEFS_USER_CLIENT_CACHE_SYNC_READ_ENABLED";

/// Environment variable: worker connection pool size.
pub const ENV_WORKER_CONNECTION_POOL_SIZE: &'static str = "GOOSEFS_WORKER_CONNECTION_POOL_SIZE";

/// Environment variable: master connection pool size.
pub const ENV_MASTER_CONNECTION_POOL_SIZE: &'static str = "GOOSEFS_MASTER_CONNECTION_POOL_SIZE";

/// Environment variable: master pool schedule.
pub const ENV_MASTER_POOL_SCHEDULE: &'static str = "GOOSEFS_MASTER_POOL_SCHEDULE";

/// Environment variable: metadata cache enabled.
pub const ENV_METADATA_CACHE_ENABLED: &'static str = "GOOSEFS_METADATA_CACHE_ENABLED";

/// Environment variable: metadata cache max size.
pub const ENV_METADATA_CACHE_MAX_SIZE: &'static str = "GOOSEFS_METADATA_CACHE_MAX_SIZE";

/// Environment variable: metadata cache expiration.
pub const ENV_METADATA_CACHE_EXPIRATION: &'static str = "GOOSEFS_METADATA_CACHE_EXPIRATION";

/// Environment variable: file metadata sync interval.
pub const ENV_FILE_METADATA_SYNC_INTERVAL: &'static str = "GOOSEFS_FILE_METADATA_SYNC_INTERVAL";

/// Environment variable: file metadata load type.
pub const ENV_FILE_METADATA_LOAD_TYPE: &'static str = "GOOSEFS_FILE_METADATA_LOAD_TYPE";

/// Storage option: config manager RPC addresses.
pub const STORAGE_OPT_CONFIG_MANAGER_RPC_ADDRESSES: &'static str =
    "goosefs_config_manager_rpc_addresses";

/// Storage option: config RPC port.
pub const STORAGE_OPT_CONFIG_RPC_PORT: &'static str = "goosefs_config_rpc_port";

/// Storage option: transparent acceleration enabled.
pub const STORAGE_OPT_TRANSPARENT_ACCELERATION_ENABLED: &'static str =
    "goosefs_transparent_acceleration_enabled";

/// Storage option: transparent acceleration cosranger enabled.
pub const STORAGE_OPT_TRANSPARENT_ACCELERATION_COSRANGER_ENABLED: &'static str =
    "goosefs_transparent_acceleration_cosranger_enabled";

/// Storage option: authorization permission enabled.
pub const STORAGE_OPT_AUTHORIZATION_PERMISSION_ENABLED: &'static str =
    "goosefs_authorization_permission_enabled";

/// Storage option: login impersonation username.
pub const STORAGE_OPT_LOGIN_IMPERSONATION_USERNAME: &'static str =
    "goosefs_login_impersonation_username";

/// Storage option: client cache enabled.
pub const STORAGE_OPT_CLIENT_CACHE_ENABLED: &'static str = "goosefs_client_cache_enabled";

/// Storage option: client cache page size.
pub const STORAGE_OPT_CLIENT_CACHE_PAGE_SIZE: &'static str = "goosefs_client_cache_page_size";

/// Storage option: client cache size.
pub const STORAGE_OPT_CLIENT_CACHE_SIZE: &'static str = "goosefs_client_cache_size";

/// Storage option: client cache dirs.
pub const STORAGE_OPT_CLIENT_CACHE_DIRS: &'static str = "goosefs_client_cache_dirs";

/// Storage option: client cache evictor.
pub const STORAGE_OPT_CLIENT_CACHE_EVICTOR: &'static str = "goosefs_client_cache_eviction_policy";

/// Storage option: client cache uring enabled.
pub const STORAGE_OPT_CLIENT_CACHE_URING_ENABLED: &'static str =
    "goosefs_client_cache_uring_enabled";

/// Storage option: client cache uring queue depth.
pub const STORAGE_OPT_CLIENT_CACHE_URING_QUEUE_DEPTH: &'static str =
    "goosefs_client_cache_uring_queue_depth";

/// Storage option: client cache uring thread count.
pub const STORAGE_OPT_CLIENT_CACHE_URING_THREAD_COUNT: &'static str =
    "goosefs_client_cache_uring_thread_count";

/// Storage option: worker connection pool size.
pub const STORAGE_OPT_WORKER_CONNECTION_POOL_SIZE: &'static str =
    "goosefs_worker_connection_pool_size";

/// Storage option: master connection pool size.
pub const STORAGE_OPT_MASTER_CONNECTION_POOL_SIZE: &'static str =
    "goosefs_master_connection_pool_size";

/// Storage option: master pool schedule.
pub const STORAGE_OPT_MASTER_POOL_SCHEDULE: &'static str = "goosefs_master_pool_schedule";

/// Storage option: metadata cache enabled.
pub const STORAGE_OPT_METADATA_CACHE_ENABLED: &'static str = "goosefs_metadata_cache_enabled";

/// Storage option: metadata cache max size.
pub const STORAGE_OPT_METADATA_CACHE_MAX_SIZE: &'static str = "goosefs_metadata_cache_max_size";

/// Storage option: metadata cache expiration.
pub const STORAGE_OPT_METADATA_CACHE_EXPIRATION: &'static str = "goosefs_metadata_cache_expiration";

/// Storage option: file metadata sync interval.
pub const STORAGE_OPT_FILE_METADATA_SYNC_INTERVAL: &'static str =
    "goosefs_file_metadata_sync_interval";

/// Storage option: file metadata load type.
pub const STORAGE_OPT_FILE_METADATA_LOAD_TYPE: &'static str = "goosefs_file_metadata_load_type";

/// Environment variable: short circuit enabled.
pub const ENV_SHORT_CIRCUIT_ENABLED: &'static str = "GOOSEFS_SHORT_CIRCUIT_ENABLED";

/// Environment variable: short circuit cache capacity.
pub const ENV_SHORT_CIRCUIT_CACHE_CAPACITY: &'static str = "GOOSEFS_SHORT_CIRCUIT_CACHE_CAPACITY";

/// Environment variable: short circuit cache ttl (milliseconds).
pub const ENV_SHORT_CIRCUIT_CACHE_TTL_MS: &'static str = "GOOSEFS_SHORT_CIRCUIT_CACHE_TTL_MS";

/// Environment variable: short circuit neg cache ttl (milliseconds).
pub const ENV_SHORT_CIRCUIT_NEG_CACHE_TTL_MS: &'static str =
    "GOOSEFS_SHORT_CIRCUIT_NEG_CACHE_TTL_MS";

/// Environment variable: short circuit advise.
pub const ENV_SHORT_CIRCUIT_ADVISE: &'static str = "GOOSEFS_SHORT_CIRCUIT_ADVISE";

/// Environment variable: short circuit prefetch enabled.
pub const ENV_SHORT_CIRCUIT_PREFETCH_ENABLED: &'static str =
    "GOOSEFS_SHORT_CIRCUIT_PREFETCH_ENABLED";

/// Environment variable: short circuit prefetch coalesce gap.
pub const ENV_SHORT_CIRCUIT_PREFETCH_COALESCE_GAP: &'static str =
    "GOOSEFS_SHORT_CIRCUIT_PREFETCH_COALESCE_GAP";

/// Environment variable: short circuit prefetch max batch.
pub const ENV_SHORT_CIRCUIT_PREFETCH_MAX_BATCH: &'static str =
    "GOOSEFS_SHORT_CIRCUIT_PREFETCH_MAX_BATCH";

/// Environment variable: short circuit min block size.
pub const ENV_SHORT_CIRCUIT_MIN_BLOCK_SIZE: &'static str = "GOOSEFS_SHORT_CIRCUIT_MIN_BLOCK_SIZE";

/// Environment variable: short circuit SIGBUS handler.
pub const ENV_SHORT_CIRCUIT_SIGBUS_HANDLER: &'static str = "GOOSEFS_SHORT_CIRCUIT_SIGBUS_HANDLER";

/// Environment variable: short circuit transparent huge pages.
pub const ENV_SHORT_CIRCUIT_THP: &'static str = "GOOSEFS_SHORT_CIRCUIT_THP";

/// Storage option: short circuit enabled.
pub const STORAGE_OPT_SHORT_CIRCUIT_ENABLED: &'static str = "goosefs_short_circuit_enabled";

/// Storage option: short circuit cache capacity.
pub const STORAGE_OPT_SHORT_CIRCUIT_CACHE_CAPACITY: &'static str =
    "goosefs_short_circuit_cache_capacity";

/// Storage option: short circuit cache ttl (milliseconds).
pub const STORAGE_OPT_SHORT_CIRCUIT_CACHE_TTL_MS: &'static str =
    "goosefs_short_circuit_cache_ttl_ms";

/// Storage option: short circuit neg cache ttl (milliseconds).
pub const STORAGE_OPT_SHORT_CIRCUIT_NEG_CACHE_TTL_MS: &'static str =
    "goosefs_short_circuit_neg_cache_ttl_ms";

/// Storage option: short circuit advise.
pub const STORAGE_OPT_SHORT_CIRCUIT_ADVISE: &'static str = "goosefs_short_circuit_advise";

/// Storage option: short circuit prefetch enabled.
pub const STORAGE_OPT_SHORT_CIRCUIT_PREFETCH_ENABLED: &'static str =
    "goosefs_short_circuit_prefetch_enabled";

/// Storage option: short circuit prefetch coalesce gap.
pub const STORAGE_OPT_SHORT_CIRCUIT_PREFETCH_COALESCE_GAP: &'static str =
    "goosefs_short_circuit_prefetch_coalesce_gap";

/// Storage option: short circuit prefetch max batch.
pub const STORAGE_OPT_SHORT_CIRCUIT_PREFETCH_MAX_BATCH: &'static str =
    "goosefs_short_circuit_prefetch_max_batch";

/// Storage option: short circuit min block size.
pub const STORAGE_OPT_SHORT_CIRCUIT_MIN_BLOCK_SIZE: &'static str =
    "goosefs_short_circuit_min_block_size";

/// Storage option: short circuit SIGBUS handler.
pub const STORAGE_OPT_SHORT_CIRCUIT_SIGBUS_HANDLER: &'static str =
    "goosefs_short_circuit_sigbus_handler";

/// Storage option: short circuit transparent huge pages.
pub const STORAGE_OPT_SHORT_CIRCUIT_THP: &'static str = "goosefs_short_circuit_thp";

/// Property: master RPC addresses.
pub const PROP_MASTER_RPC_ADDRESSES: &'static str = "goosefs.master.rpc.addresses";

/// Property: master hostname.
pub const PROP_MASTER_HOSTNAME: &'static str = "goosefs.master.hostname";

/// Property: master RPC port.
pub const PROP_MASTER_RPC_PORT: &'static str = "goosefs.master.rpc.port";

/// Property: config manager RPC addresses.
pub const PROP_CONFIG_MANAGER_RPC_ADDRESSES: &'static str = "goosefs.config.manager.rpc.addresses";

/// Property: config RPC port.
pub const PROP_CONFIG_RPC_PORT: &'static str = "goosefs.config.rpc.port";

/// Property: security authentication type.
pub const PROP_SECURITY_AUTHENTICATION_TYPE: &'static str = "goosefs.security.authentication.type";

/// Property: security authorization permission enabled.
pub const PROP_SECURITY_AUTHORIZATION_PERMISSION_ENABLED: &'static str =
    "goosefs.security.authorization.permission.enabled";

/// Property: security login impersonation username.
pub const PROP_SECURITY_LOGIN_IMPERSONATION_USERNAME: &'static str =
    "goosefs.security.login.impersonation.username";

/// Property: security login username.
pub const PROP_SECURITY_LOGIN_USERNAME: &'static str = "goosefs.security.login.username";

/// Property: user client transparent acceleration enabled.
pub const PROP_USER_CLIENT_TRANSPARENT_ACCELERATION_ENABLED: &'static str =
    "goosefs.user.client.transparent_acceleration.enabled";

/// Property: user client transparent acceleration cosranger enabled.
pub const PROP_USER_CLIENT_TRANSPARENT_ACCELERATION_COSRANGER_ENABLED: &'static str =
    "goosefs.user.client.transparent_acceleration.cosranger.enabled";

/// Property: user file writetype default.
pub const PROP_USER_FILE_WRITETYPE_DEFAULT: &'static str = "goosefs.user.file.writetype.default";

/// Property: user file replication number.
pub const PROP_USER_FILE_REPLICATION_NUMBER: &'static str = "goosefs.user.file.replication.number";

/// Property: user file check block replicas.
pub const PROP_USER_FILE_CHECK_BLOCK_REPLICAS: &'static str =
    "goosefs.user.file.check.block.replicas";

/// Property: user file read max node retry.
pub const PROP_USER_FILE_READ_MAX_NODE_RETRY: &'static str =
    "goosefs.user.file.read.max.node.retry";

/// Property: user block size bytes default.
pub const PROP_USER_BLOCK_SIZE_BYTES_DEFAULT: &'static str =
    "goosefs.user.block.size.bytes.default";

/// Property: user network data transfer chunk size.
pub const PROP_USER_NETWORK_DATA_TRANSFER_CHUNK_SIZE: &'static str =
    "goosefs.user.network.data.transfer.chunk.size";

/// Property: user metrics collection enabled.
pub const PROP_USER_METRICS_COLLECTION_ENABLED: &'static str =
    "goosefs.user.metrics.collection.enabled";

/// Property: user metrics heartbeat interval.
pub const PROP_USER_METRICS_HEARTBEAT_INTERVAL: &'static str =
    "goosefs.user.metrics.heartbeat.interval";

/// Property: user app id.
pub const PROP_USER_APP_ID: &'static str = "goosefs.user.app.id";

/// Property: metrics pushgateway enabled.
pub const PROP_METRICS_PUSHGATEWAY_ENABLED: &'static str = "goosefs.metrics.pushgateway.enabled";

/// Property: metrics pushgateway endpoint.
pub const PROP_METRICS_PUSHGATEWAY_ENDPOINT: &'static str = "goosefs.metrics.pushgateway.endpoint";

/// Property: metrics pushgateway push interval.
pub const PROP_METRICS_PUSHGATEWAY_PUSH_INTERVAL: &'static str =
    "goosefs.metrics.pushgateway.push.interval";

/// Property: metrics pushgateway job.
pub const PROP_METRICS_PUSHGATEWAY_JOB: &'static str = "goosefs.metrics.pushgateway.job";

/// Property: metrics pushgateway instance.
pub const PROP_METRICS_PUSHGATEWAY_INSTANCE: &'static str = "goosefs.metrics.pushgateway.instance";

/// Property: user client cache enabled.
pub const PROP_USER_CLIENT_CACHE_ENABLED: &'static str = "goosefs.user.client.cache.enabled";

/// Property: user client cache page size.
pub const PROP_USER_CLIENT_CACHE_PAGE_SIZE: &'static str = "goosefs.user.client.cache.page.size";

/// Property: user client cache size.
pub const PROP_USER_CLIENT_CACHE_SIZE: &'static str = "goosefs.user.client.cache.size";

/// Property: user client cache dirs.
pub const PROP_USER_CLIENT_CACHE_DIRS: &'static str = "goosefs.user.client.cache.dirs";

/// Property: user client cache eviction policy.
pub const PROP_USER_CLIENT_CACHE_EVICTION_POLICY: &'static str =
    "goosefs.user.client.cache.eviction.policy";

/// Property: user client cache async write enabled.
pub const PROP_USER_CLIENT_CACHE_ASYNC_WRITE_ENABLED: &'static str =
    "goosefs.user.client.cache.async.write.enabled";

/// Property: user client cache async write threads.
pub const PROP_USER_CLIENT_CACHE_ASYNC_WRITE_THREADS: &'static str =
    "goosefs.user.client.cache.async.write.threads";

/// Property: user client cache quota enabled.
pub const PROP_USER_CLIENT_CACHE_QUOTA_ENABLED: &'static str =
    "goosefs.user.client.cache.quota.enabled";

/// Property: user client cache ttl seconds.
pub const PROP_USER_CLIENT_CACHE_TTL_SECONDS: &'static str =
    "goosefs.user.client.cache.ttl.seconds";

/// Property: user client cache sequential read enabled.
pub const PROP_USER_CLIENT_CACHE_SEQUENTIAL_READ_ENABLED: &'static str =
    "goosefs.user.client.cache.sequential.read.enabled";

/// Property: user client cache uring enabled.
pub const PROP_USER_CLIENT_CACHE_URING_ENABLED: &'static str =
    "goosefs.user.client.cache.uring.enabled";

/// Property: user client cache uring queue depth.
pub const PROP_USER_CLIENT_CACHE_URING_QUEUE_DEPTH: &'static str =
    "goosefs.user.client.cache.uring.queue.depth";

/// Property: user client cache uring thread count.
pub const PROP_USER_CLIENT_CACHE_URING_THREAD_COUNT: &'static str =
    "goosefs.user.client.cache.uring.thread.count";

/// Property: user client cache sync read enabled.
pub const PROP_USER_CLIENT_CACHE_SYNC_READ_ENABLED: &'static str =
    "goosefs.user.client.cache.sync.read.enabled";

/// Property: user worker connection pool size.
pub const PROP_USER_WORKER_CONNECTION_POOL_SIZE: &'static str =
    "goosefs.user.worker.connection.pool.size";

/// Property: user master connection pool size.
pub const PROP_USER_MASTER_CONNECTION_POOL_SIZE: &'static str =
    "goosefs.user.master.connection.pool.size";

/// Property: user master pool schedule.
pub const PROP_USER_MASTER_POOL_SCHEDULE: &'static str = "goosefs.user.master.pool.schedule";

/// Property: user metadata cache enabled.
pub const PROP_USER_METADATA_CACHE_ENABLED: &'static str = "goosefs.user.metadata.cache.enabled";

/// Property: user metadata cache max size.
pub const PROP_USER_METADATA_CACHE_MAX_SIZE: &'static str = "goosefs.user.metadata.cache.max.size";

/// Property: user metadata cache expiration time.
pub const PROP_USER_METADATA_CACHE_EXPIRATION_TIME: &'static str =
    "goosefs.user.metadata.cache.expiration.time";

/// Property: user file metadata sync interval.
pub const PROP_USER_FILE_METADATA_SYNC_INTERVAL: &'static str =
    "goosefs.user.file.metadata.sync.interval";

/// Property: user file metadata load type.
pub const PROP_USER_FILE_METADATA_LOAD_TYPE: &'static str = "goosefs.user.file.metadata.load.type";

/// Property: user short circuit enabled.
pub const PROP_USER_SHORT_CIRCUIT_ENABLED: &'static str = "goosefs.user.short.circuit.enabled";

/// Property: client short circuit cache capacity.
pub const PROP_CLIENT_SHORT_CIRCUIT_CACHE_CAPACITY: &'static str =
    "goosefs.client.short.circuit.cache.capacity";

/// Property: client short circuit cache ttl ms.
pub const PROP_CLIENT_SHORT_CIRCUIT_CACHE_TTL_MS: &'static str =
    "goosefs.client.short.circuit.cache.ttl.ms";

/// Property: client short circuit neg cache ttl ms.
pub const PROP_CLIENT_SHORT_CIRCUIT_NEG_CACHE_TTL_MS: &'static str =
    "goosefs.client.short.circuit.neg.cache.ttl.ms";

/// Property: client short circuit advise.
pub const PROP_CLIENT_SHORT_CIRCUIT_ADVISE: &'static str = "goosefs.client.short.circuit.advise";

/// Property: client short circuit prefetch enabled.
pub const PROP_CLIENT_SHORT_CIRCUIT_PREFETCH_ENABLED: &'static str =
    "goosefs.client.short.circuit.prefetch.enabled";

/// Property: client short circuit prefetch coalesce gap.
pub const PROP_CLIENT_SHORT_CIRCUIT_PREFETCH_COALESCE_GAP: &'static str =
    "goosefs.client.short.circuit.prefetch.coalesce.gap";

/// Property: client short circuit prefetch max batch.
pub const PROP_CLIENT_SHORT_CIRCUIT_PREFETCH_MAX_BATCH: &'static str =
    "goosefs.client.short.circuit.prefetch.max.batch";

/// Property: client short circuit min block size.
pub const PROP_CLIENT_SHORT_CIRCUIT_MIN_BLOCK_SIZE: &'static str =
    "goosefs.client.short.circuit.min.block.size";

/// Property: client short circuit sigbus handler.
pub const PROP_CLIENT_SHORT_CIRCUIT_SIGBUS_HANDLER: &'static str =
    "goosefs.client.short.circuit.sigbus.handler";

/// Property: client short circuit thp.
pub const PROP_CLIENT_SHORT_CIRCUIT_THP: &'static str = "goosefs.client.short.circuit.thp";

/// Name of the configuration file.
pub const PROPERTIES_FILENAME: &'static str = "goosefs-site.properties";

} // verus!
