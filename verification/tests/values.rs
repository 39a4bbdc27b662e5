use goosefs_client::auth::AuthType;
use goosefs_client::config::client::GoosefsConfig;
use goosefs_client::config::host::{config_file_candidates, discover_config_file, join, HostEnv};
use goosefs_client::config::kinds::{CacheEvictorType, MasterPoolSchedule};
use goosefs_client::config::properties::{ConfigLoadError, PropertiesMap};
use goosefs_client::config::uri::{parse_gfs_uri, UriParseError};
use goosefs_client::config::values::{
    parse_bool_any_case, parse_bool_loose, parse_byte_size, parse_load_metadata_type,
};
use goosefs_client::config::write_type::WriteType;
use goosefs_client::number::{parse_i32, parse_i64, parse_u16, parse_u64, parse_usize};
use goosefs_client::proto::{LoadMetadataPType, WritePType};
use goosefs_client::text::{
    char_ascii_lower, char_is_white_space, comma_list, decimal_string, find, signed_decimal_string,
    starts_with, to_ascii_lowercase, trim, trim_end_matches, trim_start, trim_start_matches,
};
use goosefs_client::time::{duration_from_time_size_ms, parse_time_size, Duration, Instant};

fn host_with(vars: &[(&str, &str)]) -> HostEnv {
    let owned: Vec<(String, String)> =
        vars.iter().map(|(k, v)| (k.to_string(), v.to_string())).collect();
    HostEnv::new(&owned, Some(8), true)
}

#[test]
fn characters_are_classified_as_in_std() {
    for c in '\u{0}'..='\u{10ffff}' {
        assert_eq!(char_is_white_space(c), c.is_whitespace(), "{:?}", c);
        assert_eq!(char_ascii_lower(c), c.to_ascii_lowercase(), "{:?}", c);
    }
}

#[test]
fn no_other_letter_has_a_letter_of_the_words_as_its_lower_case() {
    let words = "roundrobinp2ctruefalse";
    for c in '\u{80}'..='\u{10ffff}' {
        let lower: String = c.to_lowercase().collect();
        assert!(!words.contains(lower.as_str()), "{:?}", c);
    }
}

#[test]
fn no_other_letter_has_a_letter_of_the_byte_units_as_its_upper_case() {
    for c in '\u{80}'..='\u{10ffff}' {
        let upper: String = c.to_uppercase().collect();
        assert!(!upper.ends_with(['G', 'M', 'K', 'B']), "{:?}", c);
    }
}

#[test]
fn texts_are_cut_as_in_std() {
    let samples = [
        "", " ", "a", " a ", "\t\u{3000}a b\u{2028}\n", "//", "/a//", "//a/b//", "a\u{1d4b}\u{85}",
    ];
    for s in samples {
        assert_eq!(trim(s), s.trim());
        assert_eq!(trim_start(s), s.trim_start());
        assert_eq!(trim_start_matches(s, '/'), s.trim_start_matches('/'));
        assert_eq!(trim_end_matches(s, '/'), s.trim_end_matches('/'));
        assert_eq!(to_ascii_lowercase(s), s.to_ascii_lowercase());
        assert_eq!(find(s, 'a'), s.chars().position(|c| c == 'a').unwrap_or(s.chars().count()));
        for p in samples {
            assert_eq!(starts_with(s, p), s.starts_with(p));
        }
    }
}

#[test]
fn lists_are_trimmed_and_empty_items_dropped() {
    assert_eq!(comma_list(" a , ,b,, c d "), vec!["a", "b", "c d"]);
    assert!(comma_list(" , ,").is_empty());
    assert_eq!(comma_list("one"), vec!["one"]);
}

#[test]
fn numbers_are_written_as_in_std() {
    for n in [0u128, 7, 10, 12345, u64::MAX as u128, u128::MAX] {
        assert_eq!(decimal_string(n), n.to_string());
    }
    for n in [0i64, -1, 42, i64::MAX, i64::MIN] {
        assert_eq!(signed_decimal_string(n), n.to_string());
    }
}

#[test]
fn numbers_are_read_as_in_std() {
    let samples = [
        "", "+", "-", "0", "-0", "+7", "--1", "+-1", "1 ", " 1", "12a", "a12", "65535", "65536",
        "2147483647", "2147483648", "-2147483648", "-2147483649", "9223372036854775807",
        "9223372036854775808", "-9223372036854775808", "-9223372036854775809",
        "18446744073709551615", "18446744073709551616", "99999999999999999999999x", "000012",
        "-5", "\u{0661}", "1_000",
    ];
    for s in samples {
        let (a, b) = (parse_u64(s), s.parse::<u64>());
        assert_eq!(a.map_err(|e| e.message().to_string()), b.map_err(|e| e.to_string()), "{:?}", s);
        let (a, b) = (parse_usize(s), s.parse::<usize>());
        assert_eq!(a.map_err(|e| e.message().to_string()), b.map_err(|e| e.to_string()), "{:?}", s);
        let (a, b) = (parse_u16(s), s.parse::<u16>());
        assert_eq!(a.map_err(|e| e.message().to_string()), b.map_err(|e| e.to_string()), "{:?}", s);
        let (a, b) = (parse_i32(s), s.parse::<i32>());
        assert_eq!(a.map_err(|e| e.message().to_string()), b.map_err(|e| e.to_string()), "{:?}", s);
        let (a, b) = (parse_i64(s), s.parse::<i64>());
        assert_eq!(a.map_err(|e| e.message().to_string()), b.map_err(|e| e.to_string()), "{:?}", s);
    }
}

fn in_double_precision(digits: &str, millis: f64, negative: bool) -> i64 {
    let value = digits.parse::<f64>().unwrap() * millis;
    if negative {
        (-value) as i64
    } else {
        value as i64
    }
}

#[test]
fn spans_of_time_are_computed_in_double_precision() {
    let units = [
        ("", 1.0), ("ms", 1.0), ("Millisecond", 1.0), ("s", 1e3), ("SEC", 1e3), ("second", 1e3),
        ("m", 6e4), ("min", 6e4), ("minute", 6e4), ("h", 3.6e6), ("hr", 3.6e6), ("hour", 3.6e6),
        ("d", 8.64e7), ("day", 8.64e7),
    ];
    let mut numbers: Vec<String> = vec![
        "0".into(), "1".into(), "60".into(), "9007199254740991".into(), "9007199254740993".into(),
        "9007199254740995".into(), "18014398509481985".into(), "9223372036854775807".into(),
        "9223372036854775808".into(), "18446744073709551617".into(), "0000000000000000000000012".into(),
        "99999999999999999999999999999999".into(), "1".repeat(400),
    ];
    let mut x: u64 = 88172645463325252;
    for _ in 0..2000 {
        x ^= x << 13;
        x ^= x >> 7;
        x ^= x << 17;
        numbers.push((x >> (x % 60)).to_string());
    }
    for n in &numbers {
        for (unit, millis) in units {
            let plain = in_double_precision(n, millis, false);
            assert_eq!(parse_time_size(&format!(" {} {} ", n, unit)), Some(plain));
            assert_eq!(parse_time_size(&format!("+{}{}", n, unit)), Some(plain));
            let negative = in_double_precision(n, millis, true);
            assert_eq!(parse_time_size(&format!("-{}{}", n, unit)), Some(negative));
        }
    }
    for s in ["", "-", "+", "s", "1x", "1.5s", "1 s s", "- 1", "1day2"] {
        assert_eq!(parse_time_size(s), None, "{:?}", s);
    }
}

#[test]
fn short_spans_of_time_are_exact() {
    assert_eq!(parse_time_size("9007199254740s"), Some(9007199254740000));
    assert_eq!(parse_time_size("-104249991d"), Some(-9007199222400000));
    assert_eq!(parse_time_size("9007199254740992"), Some(9007199254740992));
    assert_eq!(parse_time_size("-9007199254740992"), Some(-9007199254740992));
}

#[test]
fn negative_spans_last_no_time() {
    assert_eq!(duration_from_time_size_ms(-5), Duration::zero());
    assert_eq!(duration_from_time_size_ms(0), Duration::zero());
    assert_eq!(duration_from_time_size_ms(5).nanos, 5_000_000);
    let (early, late) = (Instant { nanos: 3 }, Instant { nanos: 10 });
    assert_eq!(late.duration_since(early).nanos, 7);
    assert_eq!(early.duration_since(late).nanos, 0);
    assert_eq!(Duration::from_secs(2).as_millis(), 2000);
}

#[test]
fn byte_sizes_say_what_is_wrong() {
    assert_eq!(parse_byte_size(" 3 kB "), Ok(3072));
    assert_eq!(
        parse_byte_size("x MB"),
        Err("invalid byte size 'x MB': invalid digit found in string".to_string())
    );
    assert_eq!(
        parse_byte_size("gb"),
        Err("invalid byte size 'gb': cannot parse integer from empty string".to_string())
    );
    assert_eq!(
        parse_byte_size("17179869184GB"),
        Err("byte size '17179869184GB' overflows u64".to_string())
    );
    assert_eq!(parse_byte_size("17179869183GB"), Ok(18446744072635809792));
}

#[test]
fn switches_are_read_in_three_ways() {
    assert_eq!(parse_bool_loose(" TRUE "), Some(true));
    assert_eq!(parse_bool_loose("0"), Some(false));
    assert_eq!(parse_bool_loose("yes"), None);
    assert_eq!(parse_bool_any_case("FaLse"), Some(false));
    assert_eq!(parse_bool_any_case(" true"), None);
    assert_eq!(parse_bool_any_case("1"), None);
}

#[test]
fn the_schedule_error_shows_the_text_in_lower_case() {
    assert_eq!(MasterPoolSchedule::parse("P2-C"), Ok(MasterPoolSchedule::P2C));
    assert_eq!("Round_Robin".parse::<MasterPoolSchedule>(), Ok(MasterPoolSchedule::RoundRobin));
    assert_eq!(
        MasterPoolSchedule::parse("\u{c4}B-\u{130}_X"),
        Err("unknown master pool schedule: \u{e4}bi\u{307}x".to_string())
    );
}

#[test]
fn names_that_do_not_exist_are_errors() {
    assert_eq!(
        CacheEvictorType::parse(" fifo "),
        Err("unknown cache evictor type: FIFO".to_string())
    );
    assert_eq!(" lfu".parse::<CacheEvictorType>(), Ok(CacheEvictorType::Lfu));
    assert_eq!(CacheEvictorType::default(), CacheEvictorType::Lru);
    assert_eq!(AuthType::parse("NoSasl"), Ok(AuthType::NoSasl));
    assert_eq!(
        AuthType::parse("kerberos"),
        Err("unknown auth type 'kerberos'. Expected one of: nosasl, simple".to_string())
    );
    assert_eq!(
        WriteType::parse("none"),
        Err("unknown write type 'none'. Expected one of: must_cache, try_cache, cache_through, \
             through, async_through"
            .to_string())
    );
}

#[test]
fn write_types_survive_a_round_trip() {
    for t in WriteType::all() {
        assert_eq!(WriteType::parse(t.as_str()), Ok(t));
        assert_eq!(WriteType::parse(&t.as_str().to_uppercase()), Ok(t));
        let wire = WritePType::from(t);
        assert_eq!(WriteType::try_from_proto(wire), Ok(t));
        assert_eq!(WritePType::from_i32(t.as_i32()), Some(wire));
    }
    assert_eq!(WritePType::from_i32(7), None);
    assert_eq!(WritePType::from_i32(-1), None);
    assert_eq!(
        WriteType::try_from_proto(WritePType::NoneType),
        Err("cannot convert WritePType::None to WriteType".to_string())
    );
    assert_eq!(
        WriteType::try_from_proto(WritePType::UnspecifiedWriteType),
        Err("cannot convert WritePType::UnspecifiedWriteType to WriteType".to_string())
    );
}

#[test]
fn load_types_survive_a_round_trip() {
    for t in [LoadMetadataPType::Never, LoadMetadataPType::Once, LoadMetadataPType::Always] {
        assert_eq!(parse_load_metadata_type(t.as_str_name()), Some(t));
    }
    assert_eq!(parse_load_metadata_type(" Once "), Some(LoadMetadataPType::Once));
    assert_eq!(parse_load_metadata_type("sometimes"), None);
}

#[test]
fn uri_errors_quote_the_text() {
    let e = parse_gfs_uri("a\"b\n").unwrap_err();
    assert_eq!(
        e.to_string(),
        "invalid Goosefs URI (expected 'gfs://<host:port>[,...][/path]'): \"a\\\"b\\n\""
    );
    assert_eq!(e, UriParseError::InvalidScheme { input: "a\"b\n".to_string() });
    let e = parse_gfs_uri("gfs:// , /x").unwrap_err();
    assert_eq!(e.to_string(), "Goosefs URI has no master addresses: \"gfs:// , /x\"");
}

#[test]
fn load_errors_say_what_happened() {
    let io = ConfigLoadError::IoError { path: "/p".to_string(), source: "denied".to_string() };
    assert_eq!(io.to_string(), "failed to read config file '/p': denied");
    let parse = ConfigLoadError::ParseError { message: "bad".to_string() };
    assert_eq!(parse.to_string(), "failed to parse YAML config: bad");
}

#[test]
fn the_first_file_that_exists_is_taken() {
    let host = host_with(&[
        ("GOOSEFS_CONFIG_FILE", "/x/own.properties"),
        ("GOOSEFS_CONF_DIR", "/conf"),
        ("GOOSEFS_HOME", "/opt/goosefs/"),
        ("HOME", "/home/me"),
    ]);
    let paths = config_file_candidates(&host);
    assert_eq!(
        paths,
        vec![
            "/x/own.properties",
            "/conf/goosefs-site.properties",
            "/opt/goosefs/conf/goosefs-site.properties",
            "/home/me/.goosefs/goosefs-site.properties",
            "/etc/goosefs/goosefs-site.properties",
        ]
    );
    for first in 0..paths.len() {
        let present: Vec<bool> = (0..paths.len()).map(|i| i >= first).collect();
        assert_eq!(discover_config_file(&host, &present), Some(paths[first].clone()));
    }
    assert_eq!(discover_config_file(&host, &vec![false; 5]), None);
    let bare = host_with(&[("USERPROFILE", "/u")]);
    assert_eq!(
        config_file_candidates(&bare),
        vec!["/u/.goosefs/goosefs-site.properties", "/etc/goosefs/goosefs-site.properties"]
    );
    assert_eq!(join("", "a"), "a");
    assert_eq!(join("d/", "a"), "d/a");
    assert_eq!(join("d", "a"), "d/a");
}

#[test]
fn variables_win_over_the_file_and_the_file_over_the_defaults() {
    let host = host_with(&[("GOOSEFS_BLOCK_SIZE", "7"), ("USER", "me")]);
    let file = "goosefs.user.block.size.bytes.default=1MB\n\
                goosefs.user.file.replication.number=3\n\
                goosefs.unknown.key=5\n";
    let found = Some(("/f".to_string(), Ok(file.to_string())));
    let c = GoosefsConfig::from_properties_auto(&host, found).unwrap();
    assert_eq!(c.block_size, 7);
    assert_eq!(c.file_replication_number, 3);
    assert_eq!(c.chunk_size, 1_048_576);
    assert_eq!(c.auth_username, "me");
    let missing = GoosefsConfig::from_properties_auto(&host, None).unwrap();
    assert_eq!(missing.block_size, 7);
    assert_eq!(missing.file_replication_number, 1);
    let unreadable = Some(("/f".to_string(), Err("gone".to_string())));
    assert!(matches!(
        GoosefsConfig::from_properties_auto(&host, unreadable),
        Err(ConfigLoadError::IoError { path, source }) if path == "/f" && source == "gone"
    ));
}

#[test]
fn applying_variables_twice_changes_nothing_more() {
    let host = host_with(&[
        ("GOOSEFS_MASTER_ADDR", "gfs://a:1,b:2/root/"),
        ("GOOSEFS_BLOCK_SIZE", "4096"),
        ("GOOSEFS_WRITE_TYPE", "through"),
        ("GOOSEFS_AUTH_TYPE", "nosasl"),
    ]);
    let once = GoosefsConfig::from_env(&host);
    let twice = once.clone().apply_env(&host);
    assert_eq!(format!("{:?}", once), format!("{:?}", twice));
    assert_eq!(once.master_addrs, vec!["a:1", "b:2"]);
    assert_eq!(once.root, "/root");
    let nothing = once.clone().apply_env(&host_with(&[]));
    assert_eq!(format!("{:?}", once), format!("{:?}", nothing));
}

#[test]
fn properties_are_read_line_by_line() {
    let text = "# comment\n! comment\n\n a = 1 : 2 \nb:3=4\nnothing\n = 5\na=6\r\nlast=";
    let p = PropertiesMap::parse(text);
    assert_eq!(p.get("a"), Some("6"));
    assert_eq!(p.get("b"), Some("3=4"));
    assert_eq!(p.get("nothing"), None);
    assert_eq!(p.get(""), None);
    assert_eq!(p.get("last"), Some(""));
    let q = PropertiesMap::parse("on: 1\nlist = x, ,y\n");
    assert_eq!(q.get_bool("on"), Some(true));
    assert_eq!(q.get_bool("off"), None);
    assert_eq!(q.get_list("list"), Some(vec!["x".to_string(), "y".to_string()]));
    assert_eq!(q.get_list("none"), None);
}

#[test]
fn every_fault_of_a_configuration_is_named() {
    let good = GoosefsConfig::new(&host_with(&[]), "m:1");
    assert_eq!(good.validate(), Ok(()));
    let fault = |c: GoosefsConfig| c.validate().unwrap_err();
    assert_eq!(
        fault(GoosefsConfig { master_addr: String::new(), ..good.clone() }),
        "at least one master address must be provided (master_addr or master_addrs)"
    );
    assert_eq!(
        fault(GoosefsConfig { master_addrs: vec!["a".into(), "".into()], ..good.clone() }),
        "master_addrs contains an empty address"
    );
    assert_eq!(
        fault(GoosefsConfig { block_size: 0, ..good.clone() }),
        "block_size must be > 0"
    );
    assert_eq!(
        fault(GoosefsConfig { chunk_size: 0, ..good.clone() }),
        "chunk_size must be > 0"
    );
    assert_eq!(
        fault(GoosefsConfig { chunk_size: 9, block_size: 8, ..good.clone() }),
        "chunk_size must be <= block_size"
    );
    let millis = Duration::from_millis;
    assert_eq!(
        fault(GoosefsConfig { metrics_heartbeat_interval: millis(999), ..good.clone() }),
        "metrics_heartbeat_interval must be >= 1000ms (got 999ms)"
    );
    assert_eq!(
        fault(GoosefsConfig { metrics_heartbeat_timeout: millis(1), ..good.clone() }),
        "metrics_heartbeat_timeout must be >= 1000ms (got 1ms)"
    );
    assert_eq!(
        fault(GoosefsConfig { metrics_heartbeat_timeout: millis(10_000), ..good.clone() }),
        "metrics_heartbeat_timeout (10000ms) must be < metrics_heartbeat_interval (10000ms) to \
         prevent in-flight RPCs from piling up across ticks"
    );
}

#[test]
fn paths_are_joined_with_one_slash() {
    let rooted = |root: &str| GoosefsConfig {
        root: root.to_string(),
        ..GoosefsConfig::new(&host_with(&[]), "m:1")
    };
    for root in ["/r", "/r/", "/r//"] {
        for path in ["p", "/p", "//p"] {
            assert_eq!(rooted(root).full_path(path), "/r/p");
        }
    }
    assert_eq!(rooted("").full_path("//p"), "//p");
    assert_eq!(rooted("").master_endpoint(), "http://m:1");
    assert_eq!(rooted("").worker_endpoint("w", -1), "http://w:-1");
}

#[test]
fn builders_set_their_field_and_keep_limits() {
    let base = || GoosefsConfig::new(&host_with(&[]), "m:1");
    let c = base()
        .with_auth_username("me")
        .with_check_block_replicas(2)
        .with_check_block_replicas(-1)
        .with_file_read_max_node_retry(5)
        .with_file_read_max_node_retry(0)
        .with_master_pool_schedule(MasterPoolSchedule::P2C)
        .with_metadata_cache_max_size(0)
        .with_metadata_cache_expiration(Duration::from_secs(3))
        .with_range_coalesce_enabled(true)
        .with_range_coalesce_gap_bytes(9)
        .with_range_coalesce_max_bytes(0)
        .with_pushgateway_enabled(true)
        .with_pushgateway_endpoint("http://gate")
        .with_pushgateway_push_interval(Duration::from_secs(2))
        .with_pushgateway_job("job")
        .with_pushgateway_instance("one");
    assert_eq!(c.auth_username, "me");
    assert_eq!(c.check_block_replicas, 2);
    assert_eq!(c.file_read_max_node_retry, 5);
    assert_eq!(c.master_connection_pool_schedule, MasterPoolSchedule::P2C);
    assert_eq!(c.metadata_cache_max_size, 1);
    assert_eq!(c.metadata_cache_expiration, Duration::from_secs(3));
    assert!(c.range_coalesce_enabled);
    assert_eq!(c.range_coalesce_gap_bytes, 9);
    assert_eq!(c.range_coalesce_max_bytes, 1);
    assert!(c.pushgateway_enabled);
    assert_eq!(c.pushgateway_endpoint, "http://gate");
    assert_eq!(c.pushgateway_push_interval, Duration::from_secs(2));
    assert_eq!(c.pushgateway_job, "job");
    assert_eq!(c.pushgateway_instance, Some("one".to_string()));
    assert_eq!(base().with_auth_type_str("NOSASL").unwrap().auth_type, AuthType::NoSasl);
    assert_eq!(
        base().with_auth_type_str("x").unwrap_err(),
        "unknown auth type 'x'. Expected one of: nosasl, simple"
    );
}
