use goosefs_client::config::client::{
    DEFAULT_WORKER_CONNECTION_POOL_MAX,
    DEFAULT_WORKER_CONNECTION_POOL_MIN,
    GoosefsConfig,
    default_client_cache_dirs,
    default_client_cache_page_size,
    default_client_cache_size,
    default_client_cache_uring_enabled,
    default_client_cache_uring_queue_depth,
    default_client_cache_uring_thread_count,
    default_master_connection_pool_size,
    default_range_coalesce_gap_bytes,
    default_range_coalesce_max_bytes,
    default_worker_connection_pool_size,
};
use goosefs_client::config::host::HostEnv;
use goosefs_client::config::keys::{
    ENV_AUTHORIZATION_PERMISSION_ENABLED,
    ENV_BLOCK_SIZE,
    ENV_CHECK_BLOCK_REPLICAS,
    ENV_CHUNK_SIZE,
    ENV_CLIENT_CACHE_DIRS,
    ENV_CLIENT_CACHE_ENABLED,
    ENV_CLIENT_CACHE_EVICTOR,
    ENV_CLIENT_CACHE_PAGE_SIZE,
    ENV_CLIENT_CACHE_SIZE,
    ENV_CLIENT_CACHE_SYNC_READ_ENABLED,
    ENV_CLIENT_CACHE_TTL_SECS,
    ENV_CLIENT_CACHE_URING_ENABLED,
    ENV_CLIENT_CACHE_URING_QUEUE_DEPTH,
    ENV_CLIENT_CACHE_URING_THREAD_COUNT,
    ENV_CONFIG_FILE,
    ENV_CONFIG_MANAGER_RPC_ADDRESSES,
    ENV_CONFIG_RPC_PORT,
    ENV_FILE_METADATA_LOAD_TYPE,
    ENV_FILE_METADATA_SYNC_INTERVAL,
    ENV_FILE_READ_MAX_NODE_RETRY,
    ENV_FILE_REPLICATION_NUMBER,
    ENV_LOGIN_IMPERSONATION_USERNAME,
    ENV_MASTER_ADDR,
    ENV_MASTER_CONNECTION_POOL_SIZE,
    ENV_MASTER_POOL_SCHEDULE,
    ENV_METADATA_CACHE_ENABLED,
    ENV_METADATA_CACHE_EXPIRATION,
    ENV_METADATA_CACHE_MAX_SIZE,
    ENV_METRICS_ENABLED,
    ENV_SHORT_CIRCUIT_ADVISE,
    ENV_SHORT_CIRCUIT_CACHE_TTL_MS,
    ENV_SHORT_CIRCUIT_ENABLED,
    ENV_TRANSPARENT_ACCELERATION_COSRANGER_ENABLED,
    ENV_TRANSPARENT_ACCELERATION_ENABLED,
    ENV_WORKER_CONNECTION_POOL_SIZE,
    ENV_WRITE_TYPE,
    IMPERSONATION_NONE,
    STORAGE_OPT_AUTHORIZATION_PERMISSION_ENABLED,
    STORAGE_OPT_BLOCK_SIZE,
    STORAGE_OPT_CHUNK_SIZE,
    STORAGE_OPT_CONFIG_MANAGER_RPC_ADDRESSES,
    STORAGE_OPT_CONFIG_RPC_PORT,
    STORAGE_OPT_FILE_METADATA_LOAD_TYPE,
    STORAGE_OPT_FILE_METADATA_SYNC_INTERVAL,
    STORAGE_OPT_LOGIN_IMPERSONATION_USERNAME,
    STORAGE_OPT_MASTER_ADDR,
    STORAGE_OPT_MASTER_CONNECTION_POOL_SIZE,
    STORAGE_OPT_MASTER_POOL_SCHEDULE,
    STORAGE_OPT_METADATA_CACHE_ENABLED,
    STORAGE_OPT_METADATA_CACHE_EXPIRATION,
    STORAGE_OPT_METADATA_CACHE_MAX_SIZE,
    STORAGE_OPT_SHORT_CIRCUIT_CACHE_TTL_MS,
    STORAGE_OPT_SHORT_CIRCUIT_ENABLED,
    STORAGE_OPT_SHORT_CIRCUIT_MIN_BLOCK_SIZE,
    STORAGE_OPT_TRANSPARENT_ACCELERATION_COSRANGER_ENABLED,
    STORAGE_OPT_TRANSPARENT_ACCELERATION_ENABLED,
    STORAGE_OPT_WORKER_CONNECTION_POOL_SIZE,
    STORAGE_OPT_WRITE_TYPE,
};
use goosefs_client::config::kinds::{CacheEvictorType, MasterPoolSchedule};
use goosefs_client::config::properties::ConfigLoadError;
use goosefs_client::config::refresher::{ConfigRefresher, TransparentAccelerationSwitch};
use goosefs_client::config::uri::UriParseError;
use goosefs_client::config::values::parse_byte_size;
use goosefs_client::config::write_type::WriteType;
use goosefs_client::proto::{LoadMetadataPType, WritePType};
use goosefs_client::time::{parse_time_size, Duration, Instant};

fn host_with(vars: &[(&str, &str)]) -> HostEnv {
    let owned: Vec<(String, String)> =
        vars.iter().map(|(k, v)| (k.to_string(), v.to_string())).collect();
    HostEnv::new(&owned, Some(8), true)
}

fn host() -> HostEnv {
    host_with(&[])
}

fn default_config() -> GoosefsConfig {
    GoosefsConfig::default_on(&host())
}

fn instant(secs: u128) -> Instant {
    Instant { nanos: secs * 1_000_000_000 }
}

#[test]
fn test_default_config() {
    let config = default_config();
    assert_eq!(config.master_addr, "127.0.0.1:9200");
    assert!(config.master_addrs.is_empty());
    assert_eq!(config.block_size, 64 * 1024 * 1024);
    assert_eq!(config.chunk_size, 1024 * 1024);
    assert_eq!(config.file_replication_number, 1);
    assert_eq!(config.check_block_replicas, 0);
    assert_eq!(config.file_read_max_node_retry, 3);
    assert!(!config.is_multi_master());
    assert!(config.validate().is_ok());
}

#[test]
fn test_worker_connection_pool_size_default_is_capped_at_max() {
    let config = default_config();
    assert!(
        config.worker_connection_pool_size >= DEFAULT_WORKER_CONNECTION_POOL_MIN,
        "default must be >= {}, got {}",
        DEFAULT_WORKER_CONNECTION_POOL_MIN,
        config.worker_connection_pool_size,
    );
    assert!(
        config.worker_connection_pool_size <= DEFAULT_WORKER_CONNECTION_POOL_MAX,
        "default must be <= {}, got {}",
        DEFAULT_WORKER_CONNECTION_POOL_MAX,
        config.worker_connection_pool_size,
    );
}

#[test]
fn the_last_worker_pool_size_counts() {
    for (a, b, expected) in [(3, 7, 7), (7, 3, 3), (7, 0, 1), (0, 2, 2)] {
        let base = GoosefsConfig::new(&host(), "127.0.0.1:9200");
        let once = base.clone().with_worker_connection_pool_size(b);
        let twice =
            base.with_worker_connection_pool_size(a).with_worker_connection_pool_size(b);
        assert_eq!(twice.worker_connection_pool_size, expected);
        assert_eq!(format!("{twice:?}"), format!("{once:?}"));
    }
}

#[test]
fn test_worker_connection_pool_size_explicit_override() {
    let cfg = GoosefsConfig::new(&host(), "127.0.0.1:9200").with_worker_connection_pool_size(8);
    assert_eq!(cfg.worker_connection_pool_size, 8);

    let clamped = GoosefsConfig::new(&host(), "127.0.0.1:9200").with_worker_connection_pool_size(0);
    assert_eq!(
        clamped.worker_connection_pool_size, 1,
        "0 must be clamped to 1"
    );
}

#[test]
fn test_new_ha_config() {
    let config = GoosefsConfig::new_ha(&host(), vec![
        "10.0.0.1:9200".to_string(),
        "10.0.0.2:9200".to_string(),
        "10.0.0.3:9200".to_string(),
    ]);
    assert_eq!(config.master_addr, "10.0.0.1:9200");
    assert_eq!(config.master_addrs.len(), 3);
    assert!(config.is_multi_master());
    assert!(config.validate().is_ok());
}

#[test]
fn test_master_addresses_single() {
    let config = GoosefsConfig::new(&host(), "10.0.0.1:9200");
    let addrs = config.master_addresses();
    assert_eq!(addrs, vec!["10.0.0.1:9200"]);
    assert!(!config.is_multi_master());
}

#[test]
fn test_master_addresses_multi() {
    let config = GoosefsConfig::new_ha(&host(), vec![
        "10.0.0.1:9200".to_string(),
        "10.0.0.2:9200".to_string(),
    ]);
    let addrs = config.master_addresses();
    assert_eq!(addrs.len(), 2);
    assert!(config.is_multi_master());
}

#[test]
fn test_from_uri_single_master_with_root() {
    let cfg = GoosefsConfig::from_uri(&host(), "gfs://10.0.0.1:9200/data").unwrap();
    assert_eq!(cfg.master_addr, "10.0.0.1:9200");
    assert!(!cfg.is_multi_master());
    assert_eq!(cfg.master_addrs, Vec::<String>::new());
    assert_eq!(cfg.root, "/data");
}

#[test]
fn test_from_uri_ha_three_masters_with_root() {
    let cfg = GoosefsConfig::from_uri(
        &host(),
        "gfs://172.16.16.27:9200,172.16.16.23:9200,172.16.16.38:9200/xxxx",
    )
    .unwrap();
    assert_eq!(cfg.master_addr, "172.16.16.27:9200");
    assert_eq!(cfg.master_addrs.len(), 3);
    assert!(cfg.is_multi_master());
    assert_eq!(cfg.root, "/xxxx");
}

#[test]
fn test_from_uri_no_root() {
    let cfg = GoosefsConfig::from_uri(&host(), "gfs://a:9200,b:9200").unwrap();
    assert_eq!(cfg.master_addrs.len(), 2);
    assert_eq!(cfg.root, "");
}

#[test]
fn test_from_uri_root_with_trailing_slash() {
    let cfg = GoosefsConfig::from_uri(&host(), "gfs://a:9200/goosefs-data/").unwrap();
    assert_eq!(cfg.root, "/goosefs-data");
}

#[test]
fn test_from_uri_bare_slash_collapses_to_empty_root() {
    let cfg = GoosefsConfig::from_uri(&host(), "gfs://a:9200/").unwrap();
    assert_eq!(cfg.root, "");
}

#[test]
fn test_from_uri_trims_whitespace_between_addresses() {
    let cfg = GoosefsConfig::from_uri(&host(), "gfs://a:9200, b:9200 ,c:9200/root").unwrap();
    assert_eq!(cfg.master_addrs, vec!["a:9200", "b:9200", "c:9200"]);
    assert_eq!(cfg.root, "/root");
}

#[test]
fn test_from_uri_rejects_invalid_scheme() {
    assert!(matches!(
        GoosefsConfig::from_uri(&host(), "http://a:9200/x"),
        Err(UriParseError::InvalidScheme { .. })
    ));
    assert!(matches!(
        GoosefsConfig::from_uri(&host(), "a:9200,b:9200"),
        Err(UriParseError::InvalidScheme { .. })
    ));
}

#[test]
fn test_from_uri_rejects_empty_authority() {
    assert!(matches!(
        GoosefsConfig::from_uri(&host(), "gfs:///path"),
        Err(UriParseError::EmptyAuthority { .. })
    ));
    assert!(matches!(
        GoosefsConfig::from_uri(&host(), "gfs:// , , /path"),
        Err(UriParseError::EmptyAuthority { .. })
    ));
}

#[test]
fn test_from_uri_full_path_uses_root() {
    let cfg = GoosefsConfig::from_uri(&host(), "gfs://a:9200/data").unwrap();
    assert_eq!(cfg.full_path("/file.txt"), "/data/file.txt");
    assert_eq!(cfg.full_path("file.txt"), "/data/file.txt");
}

#[test]
fn test_full_path_with_root() {
    let config = GoosefsConfig {
        root: "/data".to_string(),
        ..default_config()
    };
    assert_eq!(config.full_path("/file.txt"), "/data/file.txt");
    assert_eq!(config.full_path("file.txt"), "/data/file.txt");
}

#[test]
fn test_full_path_without_root() {
    let config = default_config();
    assert_eq!(config.full_path("/file.txt"), "/file.txt");
}

#[test]
fn test_validate_empty_master() {
    let config = GoosefsConfig {
        master_addr: String::new(),
        master_addrs: Vec::new(),
        ..default_config()
    };
    assert!(config.validate().is_err());
}

#[test]
fn test_validate_empty_addr_in_list() {
    let config = GoosefsConfig {
        master_addr: "10.0.0.1:9200".to_string(),
        master_addrs: vec!["10.0.0.1:9200".to_string(), "".to_string()],
        ..default_config()
    };
    assert!(config.validate().is_err());
}

#[test]
fn test_validate_chunk_larger_than_block() {
    let config = GoosefsConfig {
        chunk_size: 128 * 1024 * 1024,
        block_size: 64 * 1024 * 1024,
        ..default_config()
    };
    assert!(config.validate().is_err());
}

#[test]
fn test_part_v_tuning_defaults_and_builders() {
    let config = default_config();
    assert_eq!(config.prefetch_window, 8);
    assert_eq!(config.read_buffer_messages, 16);
    assert_eq!(config.ack_interval_bytes, 0);
    assert_eq!(config.ack_interval_chunks, 1);
    assert_eq!(config.master_connection_pool_size, 1);
    assert_eq!(
        config.master_connection_pool_schedule,
        MasterPoolSchedule::RoundRobin
    );

    let tuned = GoosefsConfig::new(&host(), "127.0.0.1:9200")
        .with_prefetch_window(16)
        .with_ack_interval_bytes(8 * 1024 * 1024)
        .with_master_connection_pool_size(0);
    assert_eq!(tuned.prefetch_window, 16);
    assert_eq!(tuned.ack_interval_bytes, 8 * 1024 * 1024);
    assert_eq!(tuned.master_connection_pool_size, 1);

    let pooled = GoosefsConfig::new(&host(), "127.0.0.1:9200").with_master_connection_pool_size(8);
    assert_eq!(pooled.master_connection_pool_size, 8);
}

#[test]
fn test_write_type_default_is_none() {
    let config = default_config();
    assert!(config.write_type.is_none());
    assert!(config.get_write_type().is_none());
}

#[test]
fn test_with_write_type_builder() {
    let config = GoosefsConfig::new(&host(), "127.0.0.1:9200").with_write_type(WritePType::CacheThrough);
    assert_eq!(config.write_type, Some(3));
    assert_eq!(config.get_write_type(), Some(WritePType::CacheThrough));
}

#[test]
fn test_file_replication_number_builder_and_properties() {
    let config = GoosefsConfig::new(&host(), "127.0.0.1:9200").with_file_replication_number(3);
    assert_eq!(config.file_replication_number, 3);
    let config = config.with_file_replication_number(0);
    assert_eq!(config.file_replication_number, 3);

    let cfg = GoosefsConfig::from_properties_str(
        &host(),
        "goosefs.user.file.replication.number=2\n\
         goosefs.master.rpc.addresses=127.0.0.1:9200\n",
    );
    assert_eq!(cfg.file_replication_number, 2);
}

#[test]
fn test_write_p_type_all_variants_config() {
    let cases = vec![
        (WritePType::MustCache, 1),
        (WritePType::TryCache, 2),
        (WritePType::CacheThrough, 3),
        (WritePType::Through, 4),
        (WritePType::AsyncThrough, 5),
    ];
    for (wt, expected_i32) in cases {
        let config = GoosefsConfig::new(&host(), "127.0.0.1:9200").with_write_type(wt);
        assert_eq!(config.write_type, Some(expected_i32));
        assert_eq!(config.get_write_type(), Some(wt));
    }
}

#[test]
fn test_write_type_invalid_i32() {
    let config = GoosefsConfig {
        write_type: Some(999),
        ..default_config()
    };
    assert!(config.get_write_type().is_none());
}

#[test]
fn test_write_type_from_str_lowercase() {
    assert_eq!(
        "must_cache".parse::<WriteType>().unwrap(),
        WriteType::MustCache
    );
    assert_eq!(
        "try_cache".parse::<WriteType>().unwrap(),
        WriteType::TryCache
    );
    assert_eq!(
        "cache_through".parse::<WriteType>().unwrap(),
        WriteType::CacheThrough
    );
    assert_eq!("through".parse::<WriteType>().unwrap(), WriteType::Through);
    assert_eq!(
        "async_through".parse::<WriteType>().unwrap(),
        WriteType::AsyncThrough
    );
}

#[test]
fn test_write_type_from_str_uppercase() {
    assert_eq!(
        "MUST_CACHE".parse::<WriteType>().unwrap(),
        WriteType::MustCache
    );
    assert_eq!(
        "TRY_CACHE".parse::<WriteType>().unwrap(),
        WriteType::TryCache
    );
    assert_eq!(
        "CACHE_THROUGH".parse::<WriteType>().unwrap(),
        WriteType::CacheThrough
    );
    assert_eq!("THROUGH".parse::<WriteType>().unwrap(), WriteType::Through);
    assert_eq!(
        "ASYNC_THROUGH".parse::<WriteType>().unwrap(),
        WriteType::AsyncThrough
    );
}

#[test]
fn test_write_type_from_str_mixed_case() {
    assert_eq!(
        "Cache_Through".parse::<WriteType>().unwrap(),
        WriteType::CacheThrough
    );
    assert_eq!("Through".parse::<WriteType>().unwrap(), WriteType::Through);
}

#[test]
fn test_write_type_from_str_invalid() {
    assert!("invalid".parse::<WriteType>().is_err());
    assert!("".parse::<WriteType>().is_err());
    assert!("cache-through".parse::<WriteType>().is_err());
}

#[test]
fn test_write_type_display() {
    assert_eq!(WriteType::MustCache.to_string(), "must_cache");
    assert_eq!(WriteType::TryCache.to_string(), "try_cache");
    assert_eq!(WriteType::CacheThrough.to_string(), "cache_through");
    assert_eq!(WriteType::Through.to_string(), "through");
    assert_eq!(WriteType::AsyncThrough.to_string(), "async_through");
}

#[test]
fn test_write_type_as_str() {
    assert_eq!(WriteType::CacheThrough.as_str(), "cache_through");
    assert_eq!(WriteType::Through.as_str(), "through");
}

#[test]
fn test_write_type_as_i32() {
    assert_eq!(WriteType::MustCache.as_i32(), 1);
    assert_eq!(WriteType::TryCache.as_i32(), 2);
    assert_eq!(WriteType::CacheThrough.as_i32(), 3);
    assert_eq!(WriteType::Through.as_i32(), 4);
    assert_eq!(WriteType::AsyncThrough.as_i32(), 5);
}

#[test]
fn test_write_type_to_write_p_type() {
    assert_eq!(
        WritePType::from(WriteType::MustCache),
        WritePType::MustCache
    );
    assert_eq!(
        WritePType::from(WriteType::CacheThrough),
        WritePType::CacheThrough
    );
    assert_eq!(WritePType::from(WriteType::Through), WritePType::Through);
}

#[test]
fn test_write_p_type_to_write_type() {
    assert_eq!(
        WriteType::try_from_proto(WritePType::MustCache).unwrap(),
        WriteType::MustCache
    );
    assert_eq!(
        WriteType::try_from_proto(WritePType::CacheThrough).unwrap(),
        WriteType::CacheThrough
    );
    assert_eq!(
        WriteType::try_from_proto(WritePType::Through).unwrap(),
        WriteType::Through
    );
    assert!(WriteType::try_from_proto(WritePType::UnspecifiedWriteType).is_err());
    assert!(WriteType::try_from_proto(WritePType::NoneType).is_err());
}

#[test]
fn test_write_p_type_try_from_unspecified() {
    assert!(WriteType::try_from_proto(WritePType::UnspecifiedWriteType).is_err());
    assert!(WriteType::try_from_proto(WritePType::NoneType).is_err());
}

#[test]
fn test_write_type_all_variants() {
    assert_eq!(WriteType::all().len(), 5);
    for wt in &WriteType::all() {
        let s = wt.as_str();
        let parsed: WriteType = s.parse().unwrap();
        assert_eq!(&parsed, wt);
        let pt = WritePType::from(*wt);
        let back = WriteType::try_from_proto(pt).unwrap();
        assert_eq!(back, *wt);
    }
}

#[test]
fn test_config_with_write_type_enum() {
    let config =
        GoosefsConfig::new(&host(), "127.0.0.1:9200").with_write_type_enum(WriteType::CacheThrough);
    assert_eq!(config.write_type, Some(3));
    assert_eq!(config.get_write_type(), Some(WritePType::CacheThrough));
}

#[test]
fn test_config_with_write_type_str() {
    let config = GoosefsConfig::new(&host(), "127.0.0.1:9200")
        .with_write_type_str("through")
        .unwrap();
    assert_eq!(config.write_type, Some(4));
    assert_eq!(config.get_write_type(), Some(WritePType::Through));
}

#[test]
fn test_config_with_write_type_str_invalid() {
    let result = GoosefsConfig::new(&host(), "127.0.0.1:9200").with_write_type_str("bad_value");
    assert!(result.is_err());
}

#[test]
fn test_storage_option_constants() {
    assert_eq!(STORAGE_OPT_MASTER_ADDR, "goosefs_master_addr");
    assert_eq!(STORAGE_OPT_WRITE_TYPE, "goosefs_write_type");
    assert_eq!(STORAGE_OPT_BLOCK_SIZE, "goosefs_block_size");
    assert_eq!(STORAGE_OPT_CHUNK_SIZE, "goosefs_chunk_size");
}

#[test]
fn test_env_var_constants() {
    assert_eq!(ENV_MASTER_ADDR, "GOOSEFS_MASTER_ADDR");
    assert_eq!(ENV_WRITE_TYPE, "GOOSEFS_WRITE_TYPE");
    assert_eq!(
        ENV_FILE_REPLICATION_NUMBER,
        "GOOSEFS_USER_FILE_REPLICATION_NUMBER"
    );
    assert_eq!(
        ENV_FILE_READ_MAX_NODE_RETRY,
        "GOOSEFS_USER_FILE_READ_MAX_NODE_RETRY"
    );
    assert_eq!(
        ENV_CHECK_BLOCK_REPLICAS,
        "GOOSEFS_USER_FILE_CHECK_BLOCK_REPLICAS"
    );
    assert_eq!(ENV_BLOCK_SIZE, "GOOSEFS_BLOCK_SIZE");
    assert_eq!(ENV_CHUNK_SIZE, "GOOSEFS_CHUNK_SIZE");
}

#[test]
fn test_default_retry_config() {
    let config = default_config();
    assert_eq!(
        config.master_inquire_retry_max_duration,
        Duration::from_millis(120_000)
    );
    assert_eq!(
        config.master_inquire_initial_sleep,
        Duration::from_millis(50)
    );
    assert_eq!(
        config.master_inquire_max_sleep,
        Duration::from_millis(3_000)
    );
}

#[test]
fn test_from_properties_str_basic() {
    let props = "\
goosefs.master.hostname=10.0.0.1
goosefs.master.rpc.port=9200
goosefs.security.authentication.type=SIMPLE
goosefs.user.file.writetype.default=CACHE_THROUGH
goosefs.user.block.size.bytes.default=64MB
goosefs.user.network.data.transfer.chunk.size=1MB
";
    let cfg = GoosefsConfig::from_properties_str(&host(), props);
    assert_eq!(cfg.master_addr, "10.0.0.1:9200");
    assert_eq!(cfg.get_write_type(), Some(WritePType::CacheThrough));
    assert_eq!(cfg.block_size, 64 * 1024 * 1024);
    assert_eq!(cfg.chunk_size, 1024 * 1024);
}

#[test]
fn test_from_properties_str_ha_addresses() {
    let props = "goosefs.master.rpc.addresses=10.0.0.1:9200,10.0.0.2:9200,10.0.0.3:9200\n";
    let cfg = GoosefsConfig::from_properties_str(&host(), props);
    assert_eq!(cfg.master_addr, "10.0.0.1:9200");
    assert_eq!(cfg.master_addrs.len(), 3);
    assert!(cfg.is_multi_master());
}

#[test]
fn test_from_properties_str_byte_size_kb() {
    let props = "goosefs.user.network.data.transfer.chunk.size=512KB\n";
    let cfg = GoosefsConfig::from_properties_str(&host(), props);
    assert_eq!(cfg.chunk_size, 512 * 1024);
}

#[test]
fn test_from_properties_str_byte_size_plain_int() {
    let props = "goosefs.user.block.size.bytes.default=134217728\n";
    let cfg = GoosefsConfig::from_properties_str(&host(), props);
    assert_eq!(cfg.block_size, 128 * 1024 * 1024);
}

#[test]
fn test_from_properties_str_empty_uses_defaults() {
    let cfg = GoosefsConfig::from_properties_str(&host(), "");
    assert_eq!(cfg.master_addr, "127.0.0.1:9200");
    assert_eq!(cfg.block_size, 64 * 1024 * 1024);
}

#[test]
fn test_from_properties_str_comments_ignored() {
    let props = "\
# This is a comment
goosefs.master.hostname=10.0.0.1
! Another comment style
#goosefs.master.rpc.port=9999
goosefs.master.rpc.port=9200
";
    let cfg = GoosefsConfig::from_properties_str(&host(), props);
    assert_eq!(cfg.master_addr, "10.0.0.1:9200");
}

#[test]
fn test_parse_byte_size() {
    assert_eq!(parse_byte_size("64MB").unwrap(), 64 * 1024 * 1024);
    assert_eq!(parse_byte_size("1GB").unwrap(), 1024 * 1024 * 1024);
    assert_eq!(parse_byte_size("512KB").unwrap(), 512 * 1024);
    assert_eq!(parse_byte_size("1048576").unwrap(), 1024 * 1024);
    assert!(parse_byte_size("bad").is_err());
}

#[test]
fn test_parse_byte_size_overflow_surfaces_err() {
    assert!(
        parse_byte_size("99999999999GB").is_err(),
        "overflow on '99999999999GB' must be reported as Err, not silently wrapped"
    );
    assert!(
        parse_byte_size("99999999999TB").is_err(),
        "overflow on '99999999999TB' must be reported as Err"
    );
    assert!(
        parse_byte_size(&format!("{}KB", u64::MAX)).is_err(),
        "u64::MAX KB must overflow"
    );
    assert_eq!(parse_byte_size("8GB").unwrap(), 8u64 * 1024 * 1024 * 1024);
}

#[test]
fn test_apply_env_master_addr() {
    let env = host_with(&[("GOOSEFS_MASTER_ADDR", "192.168.1.1:9200")]);
    let cfg = default_config().apply_env(&env);
    assert_eq!(cfg.master_addr, "192.168.1.1:9200");
}

#[test]
fn test_apply_env_ha_addresses() {
    let env = host_with(&[("GOOSEFS_MASTER_ADDR", "10.0.0.1:9200,10.0.0.2:9200")]);
    let cfg = default_config().apply_env(&env);
    assert_eq!(cfg.master_addrs.len(), 2);
    assert_eq!(cfg.master_addr, "10.0.0.1:9200");
}

#[test]
fn test_apply_env_uri_form() {
    let env = host_with(&[("GOOSEFS_MASTER_ADDR", "gfs://172.16.16.27:9200,172.16.16.23:9200,172.16.16.38:9200/xxxx")]);
    let cfg = default_config().apply_env(&env);
    assert_eq!(cfg.master_addr, "172.16.16.27:9200");
    assert_eq!(cfg.master_addrs.len(), 3);
    assert_eq!(cfg.root, "/xxxx");
}

#[test]
fn test_apply_env_uri_form_single_master() {
    let env = host_with(&[("GOOSEFS_MASTER_ADDR", "gfs://10.0.0.1:9200/data")]);
    let cfg = default_config().apply_env(&env);
    assert_eq!(cfg.master_addr, "10.0.0.1:9200");
    assert!(cfg.master_addrs.is_empty());
    assert_eq!(cfg.root, "/data");
}

#[test]
fn test_apply_env_write_type() {
    let env = host_with(&[("GOOSEFS_WRITE_TYPE", "THROUGH")]);
    let cfg = default_config().apply_env(&env);
    assert_eq!(cfg.get_write_type(), Some(WritePType::Through));
}

#[test]
fn test_apply_env_file_replication_number() {
    let env = host_with(&[(ENV_FILE_REPLICATION_NUMBER, "3")]);
    let cfg = default_config().apply_env(&env);
    assert_eq!(cfg.file_replication_number, 3);
}

#[test]
fn test_apply_env_file_read_max_node_retry() {
    let env = host_with(&[(ENV_FILE_READ_MAX_NODE_RETRY, "5")]);
    let cfg = default_config().apply_env(&env);
    assert_eq!(cfg.file_read_max_node_retry, 5);
}

#[test]
fn test_apply_env_block_size() {
    let env = host_with(&[("GOOSEFS_BLOCK_SIZE", "134217728")]);
    let cfg = default_config().apply_env(&env);
    assert_eq!(cfg.block_size, 128 * 1024 * 1024);
}

#[test]
fn test_apply_env_metrics_enabled_false() {
    let env = host_with(&[(ENV_METRICS_ENABLED, "false")]);
    let cfg = default_config().apply_env(&env);
    assert!(
        !cfg.metrics_enabled,
        "ENV_METRICS_ENABLED=false must disable metrics"
    );
}

#[test]
fn test_apply_env_metrics_enabled_true_case_insensitive() {
    let env = host_with(&[(ENV_METRICS_ENABLED, "TRUE")]);
    let cfg = default_config()
        .with_metrics_enabled(false)
        .apply_env(&env);
    assert!(
        cfg.metrics_enabled,
        "ENV_METRICS_ENABLED=TRUE (any case) must enable metrics"
    );
}

#[test]
fn test_apply_env_metrics_enabled_invalid_is_ignored() {
    let env = host_with(&[(ENV_METRICS_ENABLED, "yes")]);
    let cfg = default_config().apply_env(&env);
    assert!(
        cfg.metrics_enabled,
        "unparseable ENV_METRICS_ENABLED must leave the field at its previous value"
    );
}

#[test]
fn test_default_new_fields() {
    let cfg = default_config();
    assert!(cfg.config_manager_rpc_addresses.is_empty());
    assert_eq!(cfg.config_rpc_port, 9214);
    assert!(cfg.transparent_acceleration_enabled);
    assert!(!cfg.transparent_acceleration_cosranger_enabled);
    assert!(!cfg.authorization_permission_enabled);
    assert_eq!(cfg.login_impersonation_username, "_HDFS_USER_");
}

#[test]
fn test_from_properties_str_config_manager() {
    let props = "\
goosefs.config.manager.rpc.addresses=10.0.0.1:9214,10.0.0.2:9214
goosefs.config.rpc.port=9300
";
    let cfg = GoosefsConfig::from_properties_str(&host(), props);
    assert_eq!(cfg.config_manager_rpc_addresses.len(), 2);
    assert_eq!(cfg.config_manager_rpc_addresses[0], "10.0.0.1:9214");
    assert_eq!(cfg.config_rpc_port, 9300);
}

#[test]
fn test_from_properties_str_security_extended() {
    let props = "\
goosefs.security.authentication.type=SIMPLE
goosefs.security.authorization.permission.enabled=true
goosefs.security.login.impersonation.username=_NONE_
goosefs.security.login.username=testuser
";
    let cfg = GoosefsConfig::from_properties_str(&host(), props);
    assert!(cfg.authorization_permission_enabled);
    assert_eq!(cfg.login_impersonation_username, "_NONE_");
    assert_eq!(cfg.auth_username, "testuser");
}

#[test]
fn test_from_properties_str_transparent_acceleration() {
    let props = "\
goosefs.user.client.transparent_acceleration.enabled=false
goosefs.user.client.transparent_acceleration.cosranger.enabled=true
";
    let cfg = GoosefsConfig::from_properties_str(&host(), props);
    assert!(!cfg.transparent_acceleration_enabled);
    assert!(cfg.transparent_acceleration_cosranger_enabled);
}

#[test]
fn test_from_properties_str_full_config() {
    let props = "\
goosefs.master.hostname=10.0.0.1
goosefs.master.rpc.port=9200
goosefs.config.manager.rpc.addresses=10.0.0.1:9214
goosefs.config.rpc.port=9214
goosefs.security.authentication.type=SIMPLE
goosefs.security.authorization.permission.enabled=true
goosefs.security.login.impersonation.username=_HDFS_USER_
goosefs.security.login.username=myuser
goosefs.user.client.transparent_acceleration.enabled=true
goosefs.user.client.transparent_acceleration.cosranger.enabled=false
goosefs.user.file.writetype.default=CACHE_THROUGH
goosefs.user.block.size.bytes.default=64MB
goosefs.user.network.data.transfer.chunk.size=1MB
";
    let cfg = GoosefsConfig::from_properties_str(&host(), props);
    assert_eq!(cfg.master_addr, "10.0.0.1:9200");
    assert_eq!(cfg.config_manager_rpc_addresses, vec!["10.0.0.1:9214"]);
    assert_eq!(cfg.config_rpc_port, 9214);
    assert!(cfg.authorization_permission_enabled);
    assert_eq!(cfg.login_impersonation_username, "_HDFS_USER_");
    assert_eq!(cfg.auth_username, "myuser");
    assert!(cfg.transparent_acceleration_enabled);
    assert!(!cfg.transparent_acceleration_cosranger_enabled);
    assert_eq!(cfg.get_write_type(), Some(WritePType::CacheThrough));
    assert_eq!(cfg.block_size, 64 * 1024 * 1024);
    assert_eq!(cfg.chunk_size, 1024 * 1024);
}

#[test]
fn test_new_env_var_constants() {
    assert_eq!(
        ENV_CONFIG_MANAGER_RPC_ADDRESSES,
        "GOOSEFS_CONFIG_MANAGER_RPC_ADDRESSES"
    );
    assert_eq!(ENV_CONFIG_RPC_PORT, "GOOSEFS_CONFIG_RPC_PORT");
    assert_eq!(
        ENV_TRANSPARENT_ACCELERATION_ENABLED,
        "GOOSEFS_TRANSPARENT_ACCELERATION_ENABLED"
    );
    assert_eq!(
        ENV_TRANSPARENT_ACCELERATION_COSRANGER_ENABLED,
        "GOOSEFS_TRANSPARENT_ACCELERATION_COSRANGER_ENABLED"
    );
    assert_eq!(
        ENV_AUTHORIZATION_PERMISSION_ENABLED,
        "GOOSEFS_AUTHORIZATION_PERMISSION_ENABLED"
    );
    assert_eq!(
        ENV_LOGIN_IMPERSONATION_USERNAME,
        "GOOSEFS_LOGIN_IMPERSONATION_USERNAME"
    );
}

#[test]
fn test_new_storage_option_constants() {
    assert_eq!(
        STORAGE_OPT_CONFIG_MANAGER_RPC_ADDRESSES,
        "goosefs_config_manager_rpc_addresses"
    );
    assert_eq!(STORAGE_OPT_CONFIG_RPC_PORT, "goosefs_config_rpc_port");
    assert_eq!(
        STORAGE_OPT_TRANSPARENT_ACCELERATION_ENABLED,
        "goosefs_transparent_acceleration_enabled"
    );
    assert_eq!(
        STORAGE_OPT_TRANSPARENT_ACCELERATION_COSRANGER_ENABLED,
        "goosefs_transparent_acceleration_cosranger_enabled"
    );
    assert_eq!(
        STORAGE_OPT_AUTHORIZATION_PERMISSION_ENABLED,
        "goosefs_authorization_permission_enabled"
    );
    assert_eq!(
        STORAGE_OPT_LOGIN_IMPERSONATION_USERNAME,
        "goosefs_login_impersonation_username"
    );
}

#[test]
fn test_perf_tuning_constant_names() {
    assert_eq!(
        ENV_WORKER_CONNECTION_POOL_SIZE,
        "GOOSEFS_WORKER_CONNECTION_POOL_SIZE"
    );
    assert_eq!(
        ENV_MASTER_CONNECTION_POOL_SIZE,
        "GOOSEFS_MASTER_CONNECTION_POOL_SIZE"
    );
    assert_eq!(ENV_MASTER_POOL_SCHEDULE, "GOOSEFS_MASTER_POOL_SCHEDULE");
    assert_eq!(ENV_METADATA_CACHE_ENABLED, "GOOSEFS_METADATA_CACHE_ENABLED");
    assert_eq!(
        ENV_METADATA_CACHE_MAX_SIZE,
        "GOOSEFS_METADATA_CACHE_MAX_SIZE"
    );
    assert_eq!(
        ENV_METADATA_CACHE_EXPIRATION,
        "GOOSEFS_METADATA_CACHE_EXPIRATION"
    );
    assert_eq!(
        ENV_FILE_METADATA_SYNC_INTERVAL,
        "GOOSEFS_FILE_METADATA_SYNC_INTERVAL"
    );
    assert_eq!(
        ENV_FILE_METADATA_LOAD_TYPE,
        "GOOSEFS_FILE_METADATA_LOAD_TYPE"
    );
    assert_eq!(
        STORAGE_OPT_WORKER_CONNECTION_POOL_SIZE,
        "goosefs_worker_connection_pool_size"
    );
    assert_eq!(
        STORAGE_OPT_MASTER_CONNECTION_POOL_SIZE,
        "goosefs_master_connection_pool_size"
    );
    assert_eq!(
        STORAGE_OPT_MASTER_POOL_SCHEDULE,
        "goosefs_master_pool_schedule"
    );
    assert_eq!(
        STORAGE_OPT_METADATA_CACHE_ENABLED,
        "goosefs_metadata_cache_enabled"
    );
    assert_eq!(
        STORAGE_OPT_METADATA_CACHE_MAX_SIZE,
        "goosefs_metadata_cache_max_size"
    );
    assert_eq!(
        STORAGE_OPT_METADATA_CACHE_EXPIRATION,
        "goosefs_metadata_cache_expiration"
    );
    assert_eq!(
        STORAGE_OPT_FILE_METADATA_SYNC_INTERVAL,
        "goosefs_file_metadata_sync_interval"
    );
    assert_eq!(
        STORAGE_OPT_FILE_METADATA_LOAD_TYPE,
        "goosefs_file_metadata_load_type"
    );
}

#[test]
fn test_apply_env_worker_connection_pool_size() {
    let env = host_with(&[("GOOSEFS_WORKER_CONNECTION_POOL_SIZE", "8")]);
    let cfg = default_config().apply_env(&env);
    assert_eq!(cfg.worker_connection_pool_size, 8);
}

#[test]
fn test_apply_env_worker_connection_pool_size_clamp() {
    let env = host_with(&[("GOOSEFS_WORKER_CONNECTION_POOL_SIZE", "0")]);
    let cfg = default_config().apply_env(&env);
    assert_eq!(cfg.worker_connection_pool_size, 1);
}

#[test]
fn test_apply_env_worker_connection_pool_size_invalid_keeps_default() {
    let env = host_with(&[("GOOSEFS_WORKER_CONNECTION_POOL_SIZE", "not-a-number")]);
    let default_size = default_worker_connection_pool_size(&host());
    let cfg = default_config().apply_env(&env);
    assert_eq!(cfg.worker_connection_pool_size, default_size);
}

#[test]
fn test_apply_env_master_connection_pool_size() {
    let env = host_with(&[("GOOSEFS_MASTER_CONNECTION_POOL_SIZE", "8")]);
    let cfg = default_config().apply_env(&env);
    assert_eq!(cfg.master_connection_pool_size, 8);
}

#[test]
fn test_apply_env_master_connection_pool_size_clamp() {
    let env = host_with(&[("GOOSEFS_MASTER_CONNECTION_POOL_SIZE", "0")]);
    let cfg = default_config().apply_env(&env);
    assert_eq!(cfg.master_connection_pool_size, 1);
}

#[test]
fn test_apply_env_master_connection_pool_size_invalid_keeps_default() {
    let env = host_with(&[("GOOSEFS_MASTER_CONNECTION_POOL_SIZE", "not-a-number")]);
    let cfg = default_config().apply_env(&env);
    assert_eq!(
        cfg.master_connection_pool_size,
        default_master_connection_pool_size()
    );
}

#[test]
fn test_apply_env_master_pool_schedule_p2c() {
    let env = host_with(&[("GOOSEFS_MASTER_POOL_SCHEDULE", "p2c")]);
    let cfg = default_config().apply_env(&env);
    assert_eq!(cfg.master_connection_pool_schedule, MasterPoolSchedule::P2C);
}

#[test]
fn test_apply_env_master_pool_schedule_invalid_keeps_default() {
    let env = host_with(&[("GOOSEFS_MASTER_POOL_SCHEDULE", "totally-bogus")]);
    let cfg = default_config().apply_env(&env);
    assert_eq!(
        cfg.master_connection_pool_schedule,
        MasterPoolSchedule::default()
    );
}

#[test]
fn test_apply_env_metadata_cache_enabled() {
    let env = host_with(&[("GOOSEFS_METADATA_CACHE_ENABLED", "true"), ("GOOSEFS_METADATA_CACHE_EXPIRATION", "2day"), ("GOOSEFS_METADATA_CACHE_MAX_SIZE", "1000000")]);
    let cfg = default_config().apply_env(&env);
    assert!(cfg.metadata_cache_enabled);
    assert_eq!(
        cfg.metadata_cache_expiration,
        Duration::from_secs(2 * 86400)
    );
    assert_eq!(cfg.metadata_cache_max_size, 1_000_000);
}

#[test]
fn test_apply_env_metadata_cache_expiration_10min() {
    let env = host_with(&[("GOOSEFS_METADATA_CACHE_EXPIRATION", "10min")]);
    let cfg = default_config().apply_env(&env);
    assert_eq!(cfg.metadata_cache_expiration, Duration::from_secs(600));
}

#[test]
fn test_apply_env_metadata_cache_max_size_clamp() {
    let env = host_with(&[("GOOSEFS_METADATA_CACHE_MAX_SIZE", "0")]);
    let cfg = default_config().apply_env(&env);
    assert_eq!(cfg.metadata_cache_max_size, 1);
}

#[test]
fn test_apply_env_file_metadata_sync_interval_zero() {
    let env = host_with(&[("GOOSEFS_FILE_METADATA_SYNC_INTERVAL", "0")]);
    let cfg = default_config().apply_env(&env);
    assert_eq!(cfg.file_metadata_sync_interval, 0);
}

#[test]
fn test_apply_env_file_metadata_load_type_always() {
    let env = host_with(&[("GOOSEFS_FILE_METADATA_LOAD_TYPE", "always")]);
    let cfg = default_config().apply_env(&env);
    assert_eq!(cfg.file_metadata_load_type, LoadMetadataPType::Always);
}

#[test]
fn test_from_properties_str_perf_tuning_knobs() {
    let props = "\
goosefs.user.worker.connection.pool.size=6
goosefs.user.master.connection.pool.size=8
goosefs.user.master.pool.schedule=p2c
goosefs.user.metadata.cache.enabled=true
goosefs.user.metadata.cache.expiration.time=2day
goosefs.user.metadata.cache.max.size=1000000
";
    let cfg = GoosefsConfig::from_properties_str(&host(), props);
    assert_eq!(cfg.worker_connection_pool_size, 6);
    assert_eq!(cfg.master_connection_pool_size, 8);
    assert_eq!(cfg.master_connection_pool_schedule, MasterPoolSchedule::P2C);
    assert!(cfg.metadata_cache_enabled);
    assert_eq!(
        cfg.metadata_cache_expiration,
        Duration::from_secs(2 * 86400)
    );
    assert_eq!(cfg.metadata_cache_max_size, 1_000_000);
}

#[test]
fn test_metadata_cache_java_defaults() {
    let cfg = default_config();
    assert!(!cfg.metadata_cache_enabled);
    assert_eq!(cfg.metadata_cache_expiration, Duration::from_secs(600));
    assert_eq!(cfg.metadata_cache_max_size, 100_000);
    assert_eq!(cfg.file_metadata_sync_interval, -1);
    assert_eq!(cfg.file_metadata_load_type, LoadMetadataPType::Once);
}

#[test]
fn test_metadata_cache_enabled_only_keeps_java_ttl_and_size() {
    let cfg = default_config().with_metadata_cache_enabled(true);
    assert!(cfg.metadata_cache_enabled);
    assert_eq!(cfg.metadata_cache_expiration, Duration::from_secs(600));
    assert_eq!(cfg.metadata_cache_max_size, 100_000);
}

#[test]
fn test_old_file_info_cache_keys_are_ignored() {
    let props = "\
goosefs.user.file.info.cache.ttl.ms=1500
goosefs.user.file.info.cache.capacity=2048
";
    let cfg = GoosefsConfig::from_properties_str(&host(), props);
    assert!(!cfg.metadata_cache_enabled);
    assert_eq!(cfg.metadata_cache_expiration, Duration::from_secs(600));
    assert_eq!(cfg.metadata_cache_max_size, 100_000);
}

#[test]
fn test_from_properties_str_sync_interval_and_load_type() {
    let props = "\
goosefs.user.file.metadata.sync.interval=0
goosefs.user.file.metadata.load.type=ALWAYS
";
    let cfg = GoosefsConfig::from_properties_str(&host(), props);
    assert_eq!(cfg.file_metadata_sync_interval, 0);
    assert_eq!(cfg.file_metadata_load_type, LoadMetadataPType::Always);
}

#[test]
fn test_storage_opt_metadata_cache_enabled() {
    let props = "goosefs_metadata_cache_enabled=true\ngoosefs_metadata_cache_expiration=30s\n";
    let cfg = GoosefsConfig::from_properties_str(&host(), props);
    assert!(cfg.metadata_cache_enabled);
    assert_eq!(cfg.metadata_cache_expiration, Duration::from_secs(30));
}

#[test]
fn test_parse_time_size_java_units() {
    assert_eq!(parse_time_size("10min"), Some(600_000));
    assert_eq!(parse_time_size("30s"), Some(30_000));
    assert_eq!(parse_time_size("2day"), Some(2 * 86_400_000));
    assert_eq!(parse_time_size("0"), Some(0));
    assert_eq!(parse_time_size("-1"), Some(-1));
    assert_eq!(parse_time_size("100"), Some(100));
    assert_eq!(parse_time_size("bogus"), None);
}

#[test]
fn test_builder_file_metadata_sync_interval_overrides() {
    let cfg = default_config()
        .with_file_metadata_sync_interval(0)
        .with_file_metadata_load_type(LoadMetadataPType::Never);
    assert_eq!(cfg.file_metadata_sync_interval, 0);
    assert_eq!(cfg.file_metadata_load_type, LoadMetadataPType::Never);
}

#[test]
fn test_from_properties_str_worker_pool_zero_clamped() {
    let props = "goosefs.user.worker.connection.pool.size=0\n";
    let cfg = GoosefsConfig::from_properties_str(&host(), props);
    assert_eq!(cfg.worker_connection_pool_size, 1);
}

#[test]
fn test_from_properties_str_master_pool_zero_clamped() {
    let props = "goosefs.user.master.connection.pool.size=0\n";
    let cfg = GoosefsConfig::from_properties_str(&host(), props);
    assert_eq!(cfg.master_connection_pool_size, 1);
}

#[test]
fn test_from_properties_str_master_pool_schedule_variants() {
    for (val, expected) in [
        ("roundrobin", MasterPoolSchedule::RoundRobin),
        ("round_robin", MasterPoolSchedule::RoundRobin),
        ("round-robin", MasterPoolSchedule::RoundRobin),
        ("RoundRobin", MasterPoolSchedule::RoundRobin),
        ("P2C", MasterPoolSchedule::P2C),
        ("p2c", MasterPoolSchedule::P2C),
    ] {
        let props = format!("goosefs.user.master.pool.schedule={val}\n");
        let cfg = GoosefsConfig::from_properties_str(&host(), &props);
        assert_eq!(
            cfg.master_connection_pool_schedule, expected,
            "failed for value {val:?}"
        );
    }
}

#[test]
fn test_from_properties_str_master_pool_schedule_invalid_keeps_default() {
    let props = "goosefs.user.master.pool.schedule=definitely-not-real\n";
    let cfg = GoosefsConfig::from_properties_str(&host(), props);
    assert_eq!(
        cfg.master_connection_pool_schedule,
        MasterPoolSchedule::default()
    );
}

#[test]
fn test_default_client_cache_and_range_coalesce_knobs() {
    let cfg = default_config();
    assert!(
        !cfg.client_cache_enabled,
        "client page cache must stay disabled by default"
    );
    assert_eq!(cfg.client_cache_page_size, default_client_cache_page_size());
    assert_eq!(cfg.client_cache_size, default_client_cache_size());
    assert_eq!(cfg.client_cache_dirs, default_client_cache_dirs());
    assert_eq!(
        cfg.client_cache_uring_enabled,
        default_client_cache_uring_enabled(&host())
    );
    assert_eq!(
        cfg.client_cache_uring_queue_depth,
        default_client_cache_uring_queue_depth()
    );
    assert_eq!(
        cfg.client_cache_uring_thread_count,
        default_client_cache_uring_thread_count()
    );
    assert!(
        !cfg.client_cache_sync_read_enabled,
        "sync pread read mode must stay disabled by default"
    );
    assert!(!cfg.range_coalesce_enabled);
    assert_eq!(
        cfg.range_coalesce_gap_bytes,
        default_range_coalesce_gap_bytes()
    );
    assert_eq!(
        cfg.range_coalesce_max_bytes,
        default_range_coalesce_max_bytes()
    );
}

#[test]
fn test_apply_env_client_cache_knobs() {
    let env = host_with(&[(ENV_CLIENT_CACHE_ENABLED, "true"), (ENV_CLIENT_CACHE_PAGE_SIZE, "65536"), (ENV_CLIENT_CACHE_SIZE, "1048576"), (ENV_CLIENT_CACHE_DIRS, "/tmp/a,/tmp/b"), (ENV_CLIENT_CACHE_EVICTOR, "lfu"), (ENV_CLIENT_CACHE_URING_ENABLED, "false"), (ENV_CLIENT_CACHE_URING_QUEUE_DEPTH, "4096"), (ENV_CLIENT_CACHE_URING_THREAD_COUNT, "8"), (ENV_CLIENT_CACHE_SYNC_READ_ENABLED, "true"), (ENV_CLIENT_CACHE_TTL_SECS, "30")]);
    let cfg = default_config().apply_env(&env);

    assert!(cfg.client_cache_enabled);
    assert_eq!(cfg.client_cache_page_size, 65536);
    assert_eq!(cfg.client_cache_size, 1_048_576);
    assert_eq!(
        cfg.client_cache_dirs,
        vec!["/tmp/a".to_string(), "/tmp/b".to_string()]
    );
    assert_eq!(cfg.client_cache_evictor, CacheEvictorType::Lfu);
    assert!(!cfg.client_cache_uring_enabled);
    assert_eq!(cfg.client_cache_uring_queue_depth, 4096);
    assert_eq!(cfg.client_cache_uring_thread_count, 8);
    assert!(cfg.client_cache_sync_read_enabled);
    assert_eq!(cfg.client_cache_ttl_secs, 30);
}

#[test]
fn test_from_properties_str_client_cache_knobs() {
    let props = "\
goosefs.user.client.cache.enabled=true
goosefs.user.client.cache.page.size=32768
goosefs.user.client.cache.size=2097152
goosefs.user.client.cache.dirs=/var/cache/a,/var/cache/b
goosefs.user.client.cache.eviction.policy=lru
goosefs.user.client.cache.uring.enabled=true
goosefs.user.client.cache.uring.queue.depth=8192
goosefs.user.client.cache.uring.thread.count=4
goosefs.user.client.cache.sync.read.enabled=true
goosefs.user.client.cache.ttl.seconds=60
";
    let cfg = GoosefsConfig::from_properties_str(&host(), props);
    assert!(cfg.client_cache_enabled);
    assert_eq!(cfg.client_cache_page_size, 32768);
    assert_eq!(cfg.client_cache_size, 2_097_152);
    assert_eq!(
        cfg.client_cache_dirs,
        vec!["/var/cache/a".to_string(), "/var/cache/b".to_string()]
    );
    assert_eq!(cfg.client_cache_evictor, CacheEvictorType::Lru);
    assert!(cfg.client_cache_uring_enabled);
    assert_eq!(cfg.client_cache_uring_queue_depth, 8192);
    assert_eq!(cfg.client_cache_uring_thread_count, 4);
    assert!(cfg.client_cache_sync_read_enabled);
    assert_eq!(cfg.client_cache_ttl_secs, 60);
}

#[test]
fn test_apply_env_short_circuit_knobs() {
    let env = host_with(&[("GOOSEFS_SHORT_CIRCUIT_ENABLED", "false"), ("GOOSEFS_SHORT_CIRCUIT_CACHE_CAPACITY", "128"), ("GOOSEFS_SHORT_CIRCUIT_CACHE_TTL_MS", "45000"), ("GOOSEFS_SHORT_CIRCUIT_NEG_CACHE_TTL_MS", "1500"), ("GOOSEFS_SHORT_CIRCUIT_ADVISE", "sequential"), ("GOOSEFS_SHORT_CIRCUIT_PREFETCH_ENABLED", "false"), ("GOOSEFS_SHORT_CIRCUIT_PREFETCH_COALESCE_GAP", "131072"), ("GOOSEFS_SHORT_CIRCUIT_PREFETCH_MAX_BATCH", "512"), ("GOOSEFS_SHORT_CIRCUIT_MIN_BLOCK_SIZE", "4194304"), ("GOOSEFS_SHORT_CIRCUIT_SIGBUS_HANDLER", "false"), ("GOOSEFS_SHORT_CIRCUIT_THP", "true")]);

    let cfg = default_config().apply_env(&env);

    assert!(!cfg.short_circuit_enabled);
    assert_eq!(cfg.short_circuit_cache_capacity, 128);
    assert_eq!(cfg.short_circuit_cache_ttl, Duration::from_millis(45000));
    assert_eq!(cfg.short_circuit_neg_cache_ttl, Duration::from_millis(1500));
    assert_eq!(cfg.short_circuit_advise, "sequential");
    assert!(!cfg.short_circuit_prefetch_enabled);
    assert_eq!(cfg.short_circuit_prefetch_coalesce_gap, 131072);
    assert_eq!(cfg.short_circuit_prefetch_max_batch, 512);
    assert_eq!(cfg.short_circuit_min_block_size, 4 * 1024 * 1024);
    assert!(!cfg.short_circuit_sigbus_handler);
    assert!(cfg.short_circuit_thp);
}

#[test]
fn test_from_properties_str_short_circuit_knobs() {
    let props = "\
goosefs.user.short.circuit.enabled=false
goosefs.client.short.circuit.cache.capacity=256
goosefs.client.short.circuit.cache.ttl.ms=60000
goosefs.client.short.circuit.neg.cache.ttl.ms=2500
goosefs.client.short.circuit.advise=none
goosefs.client.short.circuit.prefetch.enabled=false
goosefs.client.short.circuit.prefetch.coalesce.gap=262144
goosefs.client.short.circuit.prefetch.max.batch=2048
goosefs.client.short.circuit.min.block.size=8388608
goosefs.client.short.circuit.sigbus.handler=false
goosefs.client.short.circuit.thp=true
";
    let cfg = GoosefsConfig::from_properties_str(&host(), props);
    assert!(!cfg.short_circuit_enabled);
    assert_eq!(cfg.short_circuit_cache_capacity, 256);
    assert_eq!(cfg.short_circuit_cache_ttl, Duration::from_millis(60000));
    assert_eq!(cfg.short_circuit_neg_cache_ttl, Duration::from_millis(2500));
    assert_eq!(cfg.short_circuit_advise, "none");
    assert!(!cfg.short_circuit_prefetch_enabled);
    assert_eq!(cfg.short_circuit_prefetch_coalesce_gap, 262144);
    assert_eq!(cfg.short_circuit_prefetch_max_batch, 2048);
    assert_eq!(cfg.short_circuit_min_block_size, 8 * 1024 * 1024);
    assert!(!cfg.short_circuit_sigbus_handler);
    assert!(cfg.short_circuit_thp);
}

#[test]
fn test_builder_short_circuit_chain() {
    let cfg = GoosefsConfig::new(&host(), "127.0.0.1:9200")
        .with_short_circuit_enabled(false)
        .with_short_circuit_cache_capacity(200)
        .with_short_circuit_cache_ttl(Duration::from_secs(45))
        .with_short_circuit_neg_cache_ttl(Duration::from_secs(2))
        .with_short_circuit_advise("sequential")
        .with_short_circuit_prefetch_enabled(false)
        .with_short_circuit_prefetch_coalesce_gap(1024)
        .with_short_circuit_prefetch_max_batch(64)
        .with_short_circuit_min_block_size(1_048_576)
        .with_short_circuit_sigbus_handler(false)
        .with_short_circuit_thp(true);

    assert!(!cfg.short_circuit_enabled);
    assert_eq!(cfg.short_circuit_cache_capacity, 200);
    assert_eq!(cfg.short_circuit_cache_ttl, Duration::from_secs(45));
    assert_eq!(cfg.short_circuit_neg_cache_ttl, Duration::from_secs(2));
    assert_eq!(cfg.short_circuit_advise, "sequential");
    assert!(!cfg.short_circuit_prefetch_enabled);
    assert_eq!(cfg.short_circuit_prefetch_coalesce_gap, 1024);
    assert_eq!(cfg.short_circuit_prefetch_max_batch, 64);
    assert_eq!(cfg.short_circuit_min_block_size, 1_048_576);
    assert!(!cfg.short_circuit_sigbus_handler);
    assert!(cfg.short_circuit_thp);
}

#[test]
fn test_short_circuit_canonical_key_names() {
    assert_eq!(ENV_SHORT_CIRCUIT_ENABLED, "GOOSEFS_SHORT_CIRCUIT_ENABLED");
    assert_eq!(
        ENV_SHORT_CIRCUIT_CACHE_TTL_MS,
        "GOOSEFS_SHORT_CIRCUIT_CACHE_TTL_MS"
    );
    assert_eq!(ENV_SHORT_CIRCUIT_ADVISE, "GOOSEFS_SHORT_CIRCUIT_ADVISE");
    assert_eq!(
        STORAGE_OPT_SHORT_CIRCUIT_ENABLED,
        "goosefs_short_circuit_enabled"
    );
    assert_eq!(
        STORAGE_OPT_SHORT_CIRCUIT_CACHE_TTL_MS,
        "goosefs_short_circuit_cache_ttl_ms"
    );
    assert_eq!(
        STORAGE_OPT_SHORT_CIRCUIT_MIN_BLOCK_SIZE,
        "goosefs_short_circuit_min_block_size"
    );
}

#[test]
fn test_impersonation_none_constant() {
    assert_eq!(IMPERSONATION_NONE, "_NONE_");
}

#[test]
fn metrics_defaults_correct() {
    let cfg = default_config();
    assert!(
        cfg.metrics_enabled,
        "metrics_enabled should default to true"
    );
    assert_eq!(
        cfg.metrics_heartbeat_interval,
        Duration::from_secs(10),
        "metrics_heartbeat_interval should default to 10 s"
    );
    assert_eq!(
        cfg.metrics_heartbeat_timeout,
        Duration::from_secs(5),
        "metrics_heartbeat_timeout should default to 5 s"
    );
    assert!(cfg.app_id.is_none(), "app_id should default to None");
    assert_eq!(
        cfg.metrics_max_batch_size, 1024,
        "metrics_max_batch_size should default to 1024"
    );
    assert!(cfg.validate().is_ok());
}

#[test]
fn metrics_interval_zero_rejected() {
    let cfg = GoosefsConfig {
        metrics_heartbeat_interval: Duration::from_millis(0),
        ..default_config()
    };
    let err = cfg.validate().unwrap_err();
    assert!(
        err.contains("metrics_heartbeat_interval"),
        "error should mention field name: {err}"
    );
}

#[test]
fn metrics_interval_999ms_rejected() {
    let cfg = GoosefsConfig {
        metrics_heartbeat_interval: Duration::from_millis(999),
        ..default_config()
    };
    assert!(cfg.validate().is_err());
}

#[test]
fn metrics_interval_1000ms_accepted() {
    let cfg = GoosefsConfig {
        metrics_heartbeat_interval: Duration::from_millis(2000),
        metrics_heartbeat_timeout: Duration::from_secs(1),
        ..default_config()
    };
    assert!(cfg.validate().is_ok());
}

#[test]
fn metrics_heartbeat_timeout_below_one_second_rejected() {
    let cfg = GoosefsConfig {
        metrics_heartbeat_timeout: Duration::from_millis(500),
        ..default_config()
    };
    let err = cfg.validate().unwrap_err();
    assert!(
        err.contains("metrics_heartbeat_timeout"),
        "error should mention field name: {err}"
    );
}

#[test]
fn metrics_heartbeat_timeout_equal_to_interval_rejected() {
    let cfg = GoosefsConfig {
        metrics_heartbeat_interval: Duration::from_secs(10),
        metrics_heartbeat_timeout: Duration::from_secs(10),
        ..default_config()
    };
    let err = cfg.validate().unwrap_err();
    assert!(
        err.contains("must be < metrics_heartbeat_interval"),
        "error should explain ordering rule: {err}"
    );
}

#[test]
fn metrics_heartbeat_timeout_greater_than_interval_rejected() {
    let cfg = GoosefsConfig {
        metrics_heartbeat_interval: Duration::from_secs(2),
        metrics_heartbeat_timeout: Duration::from_secs(5),
        ..default_config()
    };
    assert!(cfg.validate().is_err());
}

#[test]
fn metrics_heartbeat_timeout_just_below_interval_accepted() {
    let cfg = GoosefsConfig {
        metrics_heartbeat_interval: Duration::from_secs(10),
        metrics_heartbeat_timeout: Duration::from_millis(9_999),
        ..default_config()
    };
    assert!(cfg.validate().is_ok());
}

#[test]
fn with_metrics_heartbeat_timeout_setter_works() {
    let cfg = GoosefsConfig::new(&host(), "127.0.0.1:9200")
        .with_metrics_heartbeat_interval(Duration::from_secs(8))
        .with_metrics_heartbeat_timeout(Duration::from_secs(3));
    assert_eq!(cfg.metrics_heartbeat_timeout, Duration::from_secs(3));
    assert!(cfg.validate().is_ok());
}

#[test]
fn metrics_disabled_via_builder() {
    let cfg = GoosefsConfig::new(&host(), "127.0.0.1:9200")
        .with_metrics_enabled(false)
        .with_app_id("my-service");
    assert!(!cfg.metrics_enabled);
    assert_eq!(cfg.app_id.as_deref(), Some("my-service"));
    assert!(cfg.validate().is_ok());
}

#[test]
fn metrics_properties_parsing() {
    let props = "\
goosefs.user.metrics.collection.enabled=false\n\
goosefs.user.metrics.heartbeat.interval=30000\n\
goosefs.user.app.id=test-app\n";
    let cfg = GoosefsConfig::from_properties_str(&host(), props);
    assert!(!cfg.metrics_enabled);
    assert_eq!(cfg.metrics_heartbeat_interval, Duration::from_secs(30));
    assert_eq!(cfg.app_id.as_deref(), Some("test-app"));
}

#[test]
fn metrics_properties_interval_too_small_ignored() {
    let props = "goosefs.user.metrics.heartbeat.interval=500\n";
    let cfg = GoosefsConfig::from_properties_str(&host(), props);
    assert_eq!(
        cfg.metrics_heartbeat_interval,
        Duration::from_secs(10),
        "sub-1000 ms value should be ignored, keeping default 10 s"
    );
}

#[test]
fn test_apply_env_file_replication_number_invalid_keeps_default() {
    let env = host_with(&[(ENV_FILE_REPLICATION_NUMBER, "0")]);
    let cfg = default_config().apply_env(&env);
    assert_eq!(cfg.file_replication_number, 1);

    let env = host_with(&[(ENV_FILE_REPLICATION_NUMBER, "not-a-number")]);
    let cfg = default_config().apply_env(&env);
    assert_eq!(cfg.file_replication_number, 1);
}

#[test]
fn test_apply_env_master_pool_schedule_case_and_separator_insensitive() {
    for val in ["round_robin", "round-robin", "RoundRobin", "ROUNDROBIN"] {
        let env = host_with(&[("GOOSEFS_MASTER_POOL_SCHEDULE", val)]);
        let cfg = default_config().apply_env(&env);
        assert_eq!(
            cfg.master_connection_pool_schedule,
            MasterPoolSchedule::RoundRobin,
            "failed for value {val:?}"
        );
    }
}

#[test]
fn test_from_properties_auto_file_replication_number() {
    let content = "goosefs.master.rpc.addresses=127.0.0.1:9200\n\
                   goosefs.user.file.replication.number=2\n";
    let found = || Some(("/conf/goosefs-site.properties".to_string(), Ok(content.to_string())));

    let cfg = GoosefsConfig::from_properties_auto(&host(), found()).unwrap();
    assert_eq!(cfg.file_replication_number, 2);

    let env = host_with(&[(ENV_FILE_REPLICATION_NUMBER, "4")]);
    let cfg = GoosefsConfig::from_properties_auto(&env, found()).unwrap();
    assert_eq!(cfg.file_replication_number, 4);
}

#[test]
fn test_short_circuit_enabled_default_is_false() {
    assert!(!default_config().short_circuit_enabled);

    let cfg = GoosefsConfig::from_properties_str(&host(), "goosefs.master.hostname=127.0.0.1");
    assert!(!cfg.short_circuit_enabled);

    let cfg = default_config().apply_env(&host());
    assert!(!cfg.short_circuit_enabled);
}

#[test]
fn test_config_refresher_from_config_seeds_initial_values() {
    let cfg = GoosefsConfig {
        transparent_acceleration_enabled: false,
        transparent_acceleration_cosranger_enabled: true,
        ..default_config()
    };
    let refresher = ConfigRefresher::from_config(&cfg, instant(0));
    let sw = refresher.current_switch();
    assert!(!sw.enabled, "should seed enabled=false from config");
    assert!(sw.cosranger_enabled, "should seed cosranger=true from config");
}

#[test]
fn test_config_refresher_default_creates_with_default_values() {
    let refresher = ConfigRefresher::from_config(&default_config(), instant(0));
    let sw = refresher.current_switch();
    assert!(sw.enabled, "default transparent_acceleration_enabled should be true");
    assert!(!sw.cosranger_enabled, "default cosranger_enabled should be false");
}

#[test]
fn test_config_refresher_current_switch_is_lock_free() {
    let cfg = GoosefsConfig {
        transparent_acceleration_enabled: true,
        transparent_acceleration_cosranger_enabled: true,
        ..default_config()
    };
    let mut refresher = ConfigRefresher::from_config(&cfg, instant(0));
    let sw1 = refresher.current_switch();
    let sw2 = refresher.refresh_transparent_acceleration_switch(instant(1), instant(1), &None);
    assert_eq!(sw1, sw2);
}

#[test]
fn test_config_refresher_only_refreshes_switch_params() {
    let user_config = GoosefsConfig {
        master_addr: "10.0.0.99:9999".to_string(),
        block_size: 128 * 1024 * 1024,
        chunk_size: 2 * 1024 * 1024,
        write_type: Some(WritePType::Through.as_i32()),
        auth_username: "custom_user".to_string(),
        transparent_acceleration_enabled: true,
        transparent_acceleration_cosranger_enabled: false,
        ..default_config()
    };
    let mut refresher = ConfigRefresher::from_config(&user_config, instant(0));
    let switch = refresher.refresh_transparent_acceleration_switch(instant(1), instant(1), &None);
    assert_eq!(
        switch,
        TransparentAccelerationSwitch { enabled: true, cosranger_enabled: false }
    );
    assert_eq!(user_config.master_addr, "10.0.0.99:9999");
    assert_eq!(user_config.block_size, 128 * 1024 * 1024);
    assert_eq!(user_config.chunk_size, 2 * 1024 * 1024);
    assert_eq!(user_config.write_type, Some(WritePType::Through.as_i32()));
    assert_eq!(user_config.auth_username, "custom_user");
}

#[test]
fn test_config_refresher_file_overrides_only_switch_params() {
    let content = "goosefs.master.hostname=file-host-should-not-affect-user\n\
                   goosefs.master.rpc.port=1234\n\
                   goosefs.user.block.size.bytes.default=1GB\n\
                   goosefs.user.client.transparent_acceleration.enabled=false\n\
                   goosefs.user.client.transparent_acceleration.cosranger.enabled=true\n";
    let env = host_with(&[(ENV_CONFIG_FILE, "/conf/goosefs-site.properties")]);
    let user_config = GoosefsConfig {
        master_addr: "user-master:9200".to_string(),
        block_size: 256 * 1024 * 1024,
        chunk_size: 4 * 1024 * 1024,
        write_type: Some(WritePType::CacheThrough.as_i32()),
        auth_username: "my_user".to_string(),
        transparent_acceleration_enabled: true,
        transparent_acceleration_cosranger_enabled: false,
        ..default_config()
    };
    let refresher = ConfigRefresher::from_config(&user_config, instant(0));
    let mut refresher_immediate = ConfigRefresher {
        last_load_time: None,
        expire_duration: Duration::from_millis(0),
        transparent_acceleration_enabled: user_config.transparent_acceleration_enabled,
        cosranger_enabled: user_config.transparent_acceleration_cosranger_enabled,
    };
    let reloaded = GoosefsConfig::from_properties_auto(
        &env,
        Some(("/conf/goosefs-site.properties".to_string(), Ok(content.to_string()))),
    );
    let switch = refresher_immediate.refresh_transparent_acceleration_switch(
        instant(1),
        instant(2),
        &Some(reloaded),
    );
    assert!(!switch.enabled);
    assert!(switch.cosranger_enabled);
    assert_eq!(user_config.master_addr, "user-master:9200");
    assert_eq!(user_config.block_size, 256 * 1024 * 1024);
    assert_eq!(user_config.chunk_size, 4 * 1024 * 1024);
    assert_eq!(user_config.write_type, Some(WritePType::CacheThrough.as_i32()));
    assert_eq!(user_config.auth_username, "my_user");
    assert!(user_config.transparent_acceleration_enabled);
    assert!(!user_config.transparent_acceleration_cosranger_enabled);
    let sw_original = refresher.current_switch();
    assert!(sw_original.enabled);
    assert!(!sw_original.cosranger_enabled);
}

#[test]
fn test_config_refresher_no_file_keeps_user_values() {
    let user_config = GoosefsConfig {
        transparent_acceleration_enabled: false,
        transparent_acceleration_cosranger_enabled: true,
        ..default_config()
    };
    let mut refresher = ConfigRefresher {
        last_load_time: None,
        expire_duration: Duration::from_millis(0),
        transparent_acceleration_enabled: false,
        cosranger_enabled: true,
    };
    let reloaded = GoosefsConfig::from_properties_auto(&host(), None);
    let switch = refresher.refresh_transparent_acceleration_switch(
        instant(0),
        instant(0),
        &Some(reloaded),
    );
    assert!(!user_config.transparent_acceleration_enabled);
    assert!(user_config.transparent_acceleration_cosranger_enabled);
    assert!(switch.enabled);
    assert!(!switch.cosranger_enabled);
}

#[test]
fn refresher_keeps_switches_where_loading_fails() {
    let mut refresher = ConfigRefresher {
        last_load_time: None,
        expire_duration: Duration::from_secs(30),
        transparent_acceleration_enabled: false,
        cosranger_enabled: true,
    };
    let reloaded = GoosefsConfig::from_properties_auto(
        &host(),
        Some(("/conf/x".to_string(), Err("denied".to_string()))),
    );
    assert!(matches!(&reloaded, Err(ConfigLoadError::IoError { path, source })
        if path == "/conf/x" && source == "denied"));
    let switch = refresher.refresh_transparent_acceleration_switch(
        instant(5),
        instant(6),
        &Some(reloaded),
    );
    assert!(!switch.enabled);
    assert!(switch.cosranger_enabled);
    assert_eq!(refresher.last_load_time, Some(instant(6)));
    assert!(!refresher.needs_reload(instant(35)));
    assert!(refresher.needs_reload(instant(36)));
}
