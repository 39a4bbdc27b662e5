//! Building, reading and checking a configuration.

use vstd::prelude::*;
use vstd::string::*;

use crate::auth::{auth_type_named, AuthType};
use crate::config::client::{
    is_default, law_defaults, GoosefsConfig, MIN_METRICS_HEARTBEAT_INTERVAL_MS,
};
use crate::config::host::{login_name, HostEnv};
use crate::config::kinds::MasterPoolSchedule;
use crate::config::settings::{is_plain_item, opt_view};
use crate::config::uri::{
    law_uri_addresses, parse_gfs_uri, uri_addresses, uri_root, UriParseError,
};
use crate::config::write_type::{write_type_named, WriteType};
use crate::proto::{LoadMetadataPType, WritePType};
use crate::text::{
    decimal, decimal_string, drop_leading, drop_trailing, exactly, has_prefix,
    law_trailing_characters_are_dropped, lemma_rspan, lemma_span, lemma_span_is, signed_decimal,
    signed_decimal_string, string_views, trim_end_matches, trim_start_matches,
};
use crate::time::Duration;

verus! {

/// Whether `r` is the default configuration on `host` but for its addresses and
/// its root path, which are these.
pub open spec fn is_default_with(
    r: GoosefsConfig,
    host: HostEnv,
    addr: Seq<char>,
    addrs: Seq<Seq<char>>,
    root: Seq<char>,
) -> bool {
    &&& r.master_addr@ == addr
    &&& string_views(r.master_addrs@) == addrs
    &&& r.root@ == root
    &&& exists|d: GoosefsConfig| #[trigger]
        is_default(d, host) && r == (GoosefsConfig {
            master_addr: r.master_addr,
            master_addrs: r.master_addrs,
            root: r.root,
            ..d
        })
}

/// The list of all addresses that goes with `addrs`: none where there is one
/// address only.
pub open spec fn several(addrs: Seq<Seq<char>>) -> Seq<Seq<char>> {
    if addrs.len() > 1 {
        addrs
    } else {
        Seq::empty()
    }
}

/// The full path of `path` below `root`: exactly one `/` stands between them.
pub open spec fn path_below(root: Seq<char>, path: Seq<char>) -> Seq<char> {
    if root.len() == 0 {
        path
    } else {
        drop_trailing(root, exactly('/')) + "/"@ + drop_leading(path, exactly('/'))
    }
}

/// What is wrong with a configuration, if anything is.
pub open spec fn fault(c: GoosefsConfig) -> Option<Seq<char>> {
    let interval = c.metrics_heartbeat_interval.nanos;
    let timeout = c.metrics_heartbeat_timeout.nanos;
    if c.master_addr@.len() == 0 && c.master_addrs@.len() == 0 {
        Some("at least one master address must be provided (master_addr or master_addrs)"@)
    } else if exists|i: int| 0 <= i < c.master_addrs@.len() && (#[trigger] c.master_addrs@[i])@.len()
        == 0 {
        Some("master_addrs contains an empty address"@)
    } else if c.block_size == 0 {
        Some("block_size must be > 0"@)
    } else if c.chunk_size == 0 {
        Some("chunk_size must be > 0"@)
    } else if c.chunk_size > c.block_size {
        Some("chunk_size must be <= block_size"@)
    } else if interval < 1_000_000_000 {
        Some(
            "metrics_heartbeat_interval must be >= "@ + decimal(1_000) + "ms (got "@ + decimal(
                (interval / 1_000_000) as nat,
            ) + "ms)"@,
        )
    } else if timeout < 1_000_000_000 {
        Some(
            "metrics_heartbeat_timeout must be >= 1000ms (got "@ + decimal(
                (timeout / 1_000_000) as nat,
            ) + "ms)"@,
        )
    } else if timeout >= interval {
        Some(
            "metrics_heartbeat_timeout ("@ + decimal((timeout / 1_000_000) as nat)
                + "ms) must be < metrics_heartbeat_interval ("@ + decimal(
                (interval / 1_000_000) as nat,
            ) + "ms) to prevent in-flight RPCs from piling up across ticks"@,
        )
    } else {
        None
    }
}

impl GoosefsConfig {
    /// The default configuration on `host` with one master.
    pub fn new(host: &HostEnv, master_addr: &str) -> (r: Self)
        ensures
            is_default_with(r, *host, master_addr@, Seq::empty(), Seq::empty()),
    {
        let d: GoosefsConfig = GoosefsConfig::default_on(host);
        GoosefsConfig { master_addr: master_addr.to_owned(), ..d }
    }

    /// The default configuration on `host` with several masters, the first of
    /// which is also the address of the master.
    pub fn new_ha(host: &HostEnv, addrs: Vec<String>) -> (r: Self)
        requires
            addrs@.len() > 0,
        ensures
            is_default_with(r, *host, addrs@[0]@, string_views(addrs@), Seq::empty()),
            r.master_addrs == addrs,
    {
        let d: GoosefsConfig = GoosefsConfig::default_on(host);
        GoosefsConfig { master_addr: addrs[0].clone(), master_addrs: addrs, ..d }
    }

    /// The default configuration on `host` with the given masters: one makes the
    /// same as [`GoosefsConfig::new`], more the same as [`GoosefsConfig::new_ha`].
    pub fn from_addresses(host: &HostEnv, addrs: Vec<String>) -> (r: Self)
        requires
            addrs@.len() > 0,
        ensures
            is_default_with(r, *host, addrs@[0]@, several(string_views(addrs@)), Seq::empty()),
    {
        proof {
            assert(string_views(addrs@).len() == addrs@.len());
        }
        if addrs.len() == 1 {
            GoosefsConfig::new(host, &addrs[0])
        } else {
            GoosefsConfig::new_ha(host, addrs)
        }
    }

    /// The default configuration on `host` with the masters and the root path that
    /// a URI `gfs://<host:port>[,<host:port>...][/<root-path>]` names.
    pub fn from_uri(host: &HostEnv, uri: &str) -> (r: Result<Self, UriParseError>)
        ensures
            match r {
                Ok(c) => {
                    &&& has_prefix(uri@, "gfs://"@)
                    &&& uri_addresses(uri@).len() > 0
                    &&& is_default_with(
                        c,
                        *host,
                        uri_addresses(uri@)[0],
                        several(uri_addresses(uri@)),
                        uri_root(uri@),
                    )
                },
                Err(UriParseError::InvalidScheme { input }) => !has_prefix(uri@, "gfs://"@) && input@
                    == uri@,
                Err(UriParseError::EmptyAuthority { input }) => has_prefix(uri@, "gfs://"@)
                    && uri_addresses(uri@).len() == 0 && input@ == uri@,
            },
    {
        match parse_gfs_uri(uri) {
            Ok((addrs, root)) => {
                proof {
                    assert(string_views(addrs@)[0] == addrs@[0]@);
                }
                let plain: GoosefsConfig = GoosefsConfig::from_addresses(host, addrs);
                let c: GoosefsConfig = GoosefsConfig { root, ..plain };
                proof {
                    let d = choose|d: GoosefsConfig| #[trigger]
                        is_default(d, *host) && plain == (GoosefsConfig {
                            master_addr: plain.master_addr,
                            master_addrs: plain.master_addrs,
                            root: plain.root,
                            ..d
                        });
                    assert(is_default(d, *host));
                    assert(uri_root(uri@).len() == 0 ==> uri_root(uri@) =~= Seq::<char>::empty());
                }
                Ok(c)
            },
            Err(e) => Err(e),
        }
    }

    /// The addresses of all masters: the list of them, or the one address where
    /// that list is empty.
    pub fn master_addresses(&self) -> (r: Vec<String>)
        ensures
            string_views(r@) == (if self.master_addrs@.len() == 0 {
                seq![self.master_addr@]
            } else {
                string_views(self.master_addrs@)
            }),
    {
        let mut out: Vec<String> = Vec::new();
        if self.master_addrs.len() == 0 {
            out.push(self.master_addr.clone());
            proof {
                assert(string_views(out@) =~= seq![self.master_addr@]);
            }
            out
        } else {
            let mut i: usize = 0;
            while i < self.master_addrs.len()
                invariant
                    i <= self.master_addrs@.len(),
                    string_views(out@) == string_views(self.master_addrs@).take(i as int),
                decreases self.master_addrs@.len() - i,
            {
                let ghost before = out@;
                out.push(self.master_addrs[i].clone());
                i = i + 1;
                proof {
                    assert(string_views(out@) =~= string_views(before).push(
                        self.master_addrs@[i - 1]@,
                    ));
                    assert(string_views(out@) =~= string_views(self.master_addrs@).take(i as int));
                }
            }
            proof {
                assert(string_views(out@) =~= string_views(self.master_addrs@));
            }
            out
        }
    }

    /// Whether there is more than one master.
    pub fn is_multi_master(&self) -> (r: bool)
        ensures
            r == (self.master_addrs@.len() > 1),
    {
        self.master_addrs.len() > 1
    }

    /// The full path of `path` below the root path.
    pub fn full_path(&self, path: &str) -> (r: String)
        ensures
            r@ == path_below(self.root@, path@),
    {
        if self.root.as_str().is_empty() {
            path.to_owned()
        } else {
            let mut p: String = trim_end_matches(&self.root, '/').to_owned();
            p.append("/");
            p.append(trim_start_matches(path, '/'));
            p
        }
    }

    /// The endpoint of the master.
    pub fn master_endpoint(&self) -> (r: String)
        ensures
            r@ == "http://"@ + self.master_addr@,
    {
        let mut e: String = "http://".to_owned();
        e.append(&self.master_addr);
        e
    }

    /// The endpoint of a worker.
    pub fn worker_endpoint(&self, host: &str, rpc_port: i32) -> (r: String)
        ensures
            r@ == "http://"@ + host@ + ":"@ + signed_decimal(rpc_port as int),
    {
        let mut e: String = "http://".to_owned();
        e.append(host);
        e.append(":");
        e.append(&signed_decimal_string(rpc_port as i64));
        e
    }

    /// Sets how the client authenticates, by name (case-insensitive): `nosasl` or
    /// `simple`.
    pub fn with_auth_type_str(self, auth_type: &str) -> (r: Result<Self, String>)
        ensures
            match r {
                Ok(c) => auth_type_named(auth_type@) is Some && c == (GoosefsConfig {
                    auth_type: auth_type_named(auth_type@)->0,
                    ..self
                }),
                Err(e) => auth_type_named(auth_type@) is None && e@ == "unknown auth type '"@
                    + auth_type@ + "'. Expected one of: nosasl, simple"@,
            },
    {
        match AuthType::parse(auth_type) {
            Ok(t) => Ok(self.with_auth_type(t)),
            Err(e) => Err(e),
        }
    }

    /// Sets the write type of new files from its value in the wire format.
    pub fn with_write_type(self, wt: WritePType) -> (r: Self)
        ensures
            r == (GoosefsConfig { write_type: Some(wt.number()), ..self }),
    {
        GoosefsConfig { write_type: Some(wt.as_i32()), ..self }
    }

    /// Sets the write type of new files.
    pub fn with_write_type_enum(self, wt: WriteType) -> (r: Self)
        ensures
            r == (GoosefsConfig { write_type: Some(wt.proto().number()), ..self }),
    {
        GoosefsConfig { write_type: Some(wt.as_i32()), ..self }
    }

    /// Sets the write type of new files by name (case-insensitive).
    pub fn with_write_type_str(self, wt: &str) -> (r: Result<Self, String>)
        ensures
            match r {
                Ok(c) => write_type_named(wt@) is Some && c == (GoosefsConfig {
                    write_type: Some((write_type_named(wt@)->0).proto().number()),
                    ..self
                }),
                Err(e) => write_type_named(wt@) is None && e@ == "unknown write type '"@ + wt@
                    + "'. Expected one of: "@
                    + "must_cache, try_cache, cache_through, through, async_through"@,
            },
    {
        match WriteType::parse(wt) {
            Ok(t) => Ok(self.with_write_type_enum(t)),
            Err(e) => Err(e),
        }
    }

    /// The write type of new files in the wire format, where it is set to a number
    /// that stands for one.
    pub fn get_write_type(&self) -> (r: Option<WritePType>)
        ensures
            match self.write_type {
                None => r is None,
                Some(n) => match r {
                    Some(t) => t.number() == n,
                    None => forall|t: WritePType| #[trigger] t.number() != n,
                },
            },
    {
        match self.write_type {
            Some(n) => WritePType::from_i32(n),
            None => None,
        }
    }

    /// Sets: how the client authenticates.
    pub fn with_auth_type(self, auth_type: AuthType) -> (r: Self)
        ensures
            r == (GoosefsConfig { auth_type: auth_type, ..self }),
    {
        GoosefsConfig { auth_type: auth_type, ..self }
    }

    /// Sets: the user as whom the client authenticates.
    pub fn with_auth_username(self, username: &str) -> (r: Self)
        ensures
            r.auth_username@ == username@,
            r == (GoosefsConfig { auth_username: r.auth_username, ..self }),
    {
        GoosefsConfig { auth_username: username.to_owned(), ..self }
    }

    /// Sets: how many workers hold a block. Values below 1 are ignored.
    pub fn with_file_replication_number(self, n: i32) -> (r: Self)
        ensures
            r == (if n > 0 {
                GoosefsConfig { file_replication_number: n, ..self }
            } else {
                self
            }),
    {
        if n > 0 {
            GoosefsConfig { file_replication_number: n, ..self }
        } else {
            self
        }
    }

    /// Sets: how many workers are asked for an unknown replica. Negative values are ignored.
    pub fn with_check_block_replicas(self, n: i32) -> (r: Self)
        ensures
            r == (if n >= 0 {
                GoosefsConfig { check_block_replicas: n, ..self }
            } else {
                self
            }),
    {
        if n >= 0 {
            GoosefsConfig { check_block_replicas: n, ..self }
        } else {
            self
        }
    }

    /// Sets: how many workers may be tried for one block. Values below 1 are ignored.
    pub fn with_file_read_max_node_retry(self, n: i32) -> (r: Self)
        ensures
            r == (if n > 0 {
                GoosefsConfig { file_read_max_node_retry: n, ..self }
            } else {
                self
            }),
    {
        if n > 0 {
            GoosefsConfig { file_read_max_node_retry: n, ..self }
        } else {
            self
        }
    }

    /// Sets: how many chunks a worker sends ahead.
    pub fn with_prefetch_window(self, window: i32) -> (r: Self)
        ensures
            r == (GoosefsConfig { prefetch_window: window, ..self }),
    {
        GoosefsConfig { prefetch_window: window, ..self }
    }

    /// Sets: after how many bytes the client acknowledges.
    pub fn with_ack_interval_bytes(self, bytes: i64) -> (r: Self)
        ensures
            r == (GoosefsConfig { ack_interval_bytes: bytes, ..self }),
    {
        GoosefsConfig { ack_interval_bytes: bytes, ..self }
    }

    /// Sets: how many connections to the master are pooled; at least 1.
    pub fn with_master_connection_pool_size(self, size: usize) -> (r: Self)
        ensures
            r == (GoosefsConfig {
                master_connection_pool_size: if size < 1 {
                    1
                } else {
                    size
                },
                ..self
            }),
    {
        GoosefsConfig {
            master_connection_pool_size: if size < 1 {
                1
            } else {
                size
            },
            ..self
        }
    }

    /// Sets: how the connections of the master pool are chosen.
    pub fn with_master_pool_schedule(self, schedule: MasterPoolSchedule) -> (r: Self)
        ensures
            r == (GoosefsConfig { master_connection_pool_schedule: schedule, ..self }),
    {
        GoosefsConfig { master_connection_pool_schedule: schedule, ..self }
    }

    /// Sets: how many connections to each worker are pooled; at least 1.
    pub fn with_worker_connection_pool_size(self, size: usize) -> (r: Self)
        ensures
            r == worker_pool_sized(self, size),
    {
        GoosefsConfig {
            worker_connection_pool_size: if size < 1 {
                1
            } else {
                size
            },
            ..self
        }
    }

    /// Sets: whether metadata is cached.
    pub fn with_metadata_cache_enabled(self, enabled: bool) -> (r: Self)
        ensures
            r == (GoosefsConfig { metadata_cache_enabled: enabled, ..self }),
    {
        GoosefsConfig { metadata_cache_enabled: enabled, ..self }
    }

    /// Sets: how many paths the metadata cache holds; at least 1.
    pub fn with_metadata_cache_max_size(self, max_size: usize) -> (r: Self)
        ensures
            r == (GoosefsConfig {
                metadata_cache_max_size: if max_size < 1 {
                    1
                } else {
                    max_size
                },
                ..self
            }),
    {
        GoosefsConfig {
            metadata_cache_max_size: if max_size < 1 {
                1
            } else {
                max_size
            },
            ..self
        }
    }

    /// Sets: how long an entry of the metadata cache lives.
    pub fn with_metadata_cache_expiration(self, expiration: Duration) -> (r: Self)
        ensures
            r == (GoosefsConfig { metadata_cache_expiration: expiration, ..self }),
    {
        GoosefsConfig { metadata_cache_expiration: expiration, ..self }
    }

    /// Sets: sync interval of file metadata in milliseconds.
    pub fn with_file_metadata_sync_interval(self, interval_ms: i64) -> (r: Self)
        ensures
            r == (GoosefsConfig { file_metadata_sync_interval: interval_ms, ..self }),
    {
        GoosefsConfig { file_metadata_sync_interval: interval_ms, ..self }
    }

    /// Sets: when metadata is loaded from the underlying storage.
    pub fn with_file_metadata_load_type(self, load_type: LoadMetadataPType) -> (r: Self)
        ensures
            r == (GoosefsConfig { file_metadata_load_type: load_type, ..self }),
    {
        GoosefsConfig { file_metadata_load_type: load_type, ..self }
    }

    /// Sets: whether blocks of a local worker are read from its memory map.
    pub fn with_short_circuit_enabled(self, enabled: bool) -> (r: Self)
        ensures
            r == (GoosefsConfig { short_circuit_enabled: enabled, ..self }),
    {
        GoosefsConfig { short_circuit_enabled: enabled, ..self }
    }

    /// Sets: how many local block readers are kept.
    pub fn with_short_circuit_cache_capacity(self, capacity: usize) -> (r: Self)
        ensures
            r == (GoosefsConfig { short_circuit_cache_capacity: capacity, ..self }),
    {
        GoosefsConfig { short_circuit_cache_capacity: capacity, ..self }
    }

    /// Sets: how long an idle local block reader is kept.
    pub fn with_short_circuit_cache_ttl(self, ttl: Duration) -> (r: Self)
        ensures
            r == (GoosefsConfig { short_circuit_cache_ttl: ttl, ..self }),
    {
        GoosefsConfig { short_circuit_cache_ttl: ttl, ..self }
    }

    /// Sets: how long a failed block is not tried again.
    pub fn with_short_circuit_neg_cache_ttl(self, ttl: Duration) -> (r: Self)
        ensures
            r == (GoosefsConfig { short_circuit_neg_cache_ttl: ttl, ..self }),
    {
        GoosefsConfig { short_circuit_neg_cache_ttl: ttl, ..self }
    }

    /// Sets: read-ahead advice for local blocks.
    pub fn with_short_circuit_advise(self, advise: &str) -> (r: Self)
        ensures
            r.short_circuit_advise@ == advise@,
            r == (GoosefsConfig { short_circuit_advise: r.short_circuit_advise, ..self }),
    {
        GoosefsConfig { short_circuit_advise: advise.to_owned(), ..self }
    }

    /// Sets: whether local blocks are prefetched on request.
    pub fn with_short_circuit_prefetch_enabled(self, enabled: bool) -> (r: Self)
        ensures
            r == (GoosefsConfig { short_circuit_prefetch_enabled: enabled, ..self }),
    {
        GoosefsConfig { short_circuit_prefetch_enabled: enabled, ..self }
    }

    /// Sets: widest gap of ranges that are prefetched together.
    pub fn with_short_circuit_prefetch_coalesce_gap(self, gap: usize) -> (r: Self)
        ensures
            r == (GoosefsConfig { short_circuit_prefetch_coalesce_gap: gap, ..self }),
    {
        GoosefsConfig { short_circuit_prefetch_coalesce_gap: gap, ..self }
    }

    /// Sets: how many ranges one prefetch advises.
    pub fn with_short_circuit_prefetch_max_batch(self, batch: usize) -> (r: Self)
        ensures
            r == (GoosefsConfig { short_circuit_prefetch_max_batch: batch, ..self }),
    {
        GoosefsConfig { short_circuit_prefetch_max_batch: batch, ..self }
    }

    /// Sets: smallest block that is read locally.
    pub fn with_short_circuit_min_block_size(self, size: i64) -> (r: Self)
        ensures
            r == (GoosefsConfig { short_circuit_min_block_size: size, ..self }),
    {
        GoosefsConfig { short_circuit_min_block_size: size, ..self }
    }

    /// Sets: whether the diagnostic handler for bus errors is installed.
    pub fn with_short_circuit_sigbus_handler(self, enabled: bool) -> (r: Self)
        ensures
            r == (GoosefsConfig { short_circuit_sigbus_handler: enabled, ..self }),
    {
        GoosefsConfig { short_circuit_sigbus_handler: enabled, ..self }
    }

    /// Sets: whether huge pages are requested for local blocks.
    pub fn with_short_circuit_thp(self, enabled: bool) -> (r: Self)
        ensures
            r == (GoosefsConfig { short_circuit_thp: enabled, ..self }),
    {
        GoosefsConfig { short_circuit_thp: enabled, ..self }
    }

    /// Sets: whether near ranges of one read are fetched together.
    pub fn with_range_coalesce_enabled(self, enabled: bool) -> (r: Self)
        ensures
            r == (GoosefsConfig { range_coalesce_enabled: enabled, ..self }),
    {
        GoosefsConfig { range_coalesce_enabled: enabled, ..self }
    }

    /// Sets: widest gap of ranges that are fetched together.
    pub fn with_range_coalesce_gap_bytes(self, gap: u64) -> (r: Self)
        ensures
            r == (GoosefsConfig { range_coalesce_gap_bytes: gap, ..self }),
    {
        GoosefsConfig { range_coalesce_gap_bytes: gap, ..self }
    }

    /// Sets: longest fetch of ranges that are fetched together; at least 1.
    pub fn with_range_coalesce_max_bytes(self, max_bytes: u64) -> (r: Self)
        ensures
            r == (GoosefsConfig {
                range_coalesce_max_bytes: if max_bytes < 1 {
                    1
                } else {
                    max_bytes
                },
                ..self
            }),
    {
        GoosefsConfig {
            range_coalesce_max_bytes: if max_bytes < 1 {
                1
            } else {
                max_bytes
            },
            ..self
        }
    }

    /// Sets: whether metrics are collected and reported.
    pub fn with_metrics_enabled(self, enabled: bool) -> (r: Self)
        ensures
            r == (GoosefsConfig { metrics_enabled: enabled, ..self }),
    {
        GoosefsConfig { metrics_enabled: enabled, ..self }
    }

    /// Sets: time between two reports of metrics.
    pub fn with_metrics_heartbeat_interval(self, interval: Duration) -> (r: Self)
        requires
            interval.nanos >= 1_000_000_000,
        ensures
            r == (GoosefsConfig { metrics_heartbeat_interval: interval, ..self }),
    {
        GoosefsConfig { metrics_heartbeat_interval: interval, ..self }
    }

    /// Sets: how long one report of metrics may take.
    pub fn with_metrics_heartbeat_timeout(self, timeout: Duration) -> (r: Self)
        requires
            timeout.nanos >= 1_000_000_000,
        ensures
            r == (GoosefsConfig { metrics_heartbeat_timeout: timeout, ..self }),
    {
        GoosefsConfig { metrics_heartbeat_timeout: timeout, ..self }
    }

    /// Sets: name of the application in reported metrics.
    pub fn with_app_id(self, app_id: &str) -> (r: Self)
        ensures
            opt_view(r.app_id) == Some(app_id@),
            r == (GoosefsConfig { app_id: r.app_id, ..self }),
    {
        GoosefsConfig { app_id: Some(app_id.to_owned()), ..self }
    }

    /// Sets: whether metrics are pushed to a push gateway.
    pub fn with_pushgateway_enabled(self, enabled: bool) -> (r: Self)
        ensures
            r == (GoosefsConfig { pushgateway_enabled: enabled, ..self }),
    {
        GoosefsConfig { pushgateway_enabled: enabled, ..self }
    }

    /// Sets: URL of the push gateway.
    pub fn with_pushgateway_endpoint(self, endpoint: &str) -> (r: Self)
        ensures
            r.pushgateway_endpoint@ == endpoint@,
            r == (GoosefsConfig { pushgateway_endpoint: r.pushgateway_endpoint, ..self }),
    {
        GoosefsConfig { pushgateway_endpoint: endpoint.to_owned(), ..self }
    }

    /// Sets: time between two pushes.
    pub fn with_pushgateway_push_interval(self, interval: Duration) -> (r: Self)
        requires
            interval.nanos >= 1_000_000_000,
        ensures
            r == (GoosefsConfig { pushgateway_push_interval: interval, ..self }),
    {
        GoosefsConfig { pushgateway_push_interval: interval, ..self }
    }

    /// Sets: job label of pushed metrics.
    pub fn with_pushgateway_job(self, job: &str) -> (r: Self)
        ensures
            r.pushgateway_job@ == job@,
            r == (GoosefsConfig { pushgateway_job: r.pushgateway_job, ..self }),
    {
        GoosefsConfig { pushgateway_job: job.to_owned(), ..self }
    }

    /// Sets: instance label of pushed metrics.
    pub fn with_pushgateway_instance(self, instance: &str) -> (r: Self)
        ensures
            opt_view(r.pushgateway_instance) == Some(instance@),
            r == (GoosefsConfig { pushgateway_instance: r.pushgateway_instance, ..self }),
    {
        GoosefsConfig { pushgateway_instance: Some(instance.to_owned()), ..self }
    }

    /// Checks the configuration. The error says what is wrong with it.
    pub fn validate(&self) -> (r: Result<(), String>)
        ensures
            match r {
                Ok(_) => fault(*self) is None,
                Err(e) => fault(*self) == Some(e@),
            },
    {
        if self.master_addr.as_str().is_empty() && self.master_addrs.len() == 0 {
            return Err(
                "at least one master address must be provided (master_addr or master_addrs)".to_owned(),
            );
        }
        let mut i: usize = 0;
        while i < self.master_addrs.len()
            invariant
                i <= self.master_addrs@.len(),
                self.master_addr@.len() > 0 || self.master_addrs@.len() > 0,
                forall|j: int| 0 <= j < i ==> (#[trigger] self.master_addrs@[j])@.len() > 0,
            decreases self.master_addrs@.len() - i,
        {
            if self.master_addrs[i].as_str().is_empty() {
                proof {
                    assert(self.master_addrs@[i as int]@.len() == 0);
                }
                return Err("master_addrs contains an empty address".to_owned());
            }
            i = i + 1;
        }
        if self.block_size == 0 {
            return Err("block_size must be > 0".to_owned());
        }
        if self.chunk_size == 0 {
            return Err("chunk_size must be > 0".to_owned());
        }
        if self.chunk_size > self.block_size {
            return Err("chunk_size must be <= block_size".to_owned());
        }
        let interval: Duration = self.metrics_heartbeat_interval;
        let timeout: Duration = self.metrics_heartbeat_timeout;
        if interval.nanos < Duration::from_millis(MIN_METRICS_HEARTBEAT_INTERVAL_MS).nanos {
            let mut m: String = "metrics_heartbeat_interval must be >= ".to_owned();
            m.append(&decimal_string(MIN_METRICS_HEARTBEAT_INTERVAL_MS as u128));
            m.append("ms (got ");
            m.append(&decimal_string(interval.as_millis()));
            m.append("ms)");
            return Err(m);
        }
        if timeout.nanos < Duration::from_secs(1).nanos {
            let mut m: String = "metrics_heartbeat_timeout must be >= 1000ms (got ".to_owned();
            m.append(&decimal_string(timeout.as_millis()));
            m.append("ms)");
            return Err(m);
        }
        if timeout.nanos >= interval.nanos {
            let mut m: String = "metrics_heartbeat_timeout (".to_owned();
            m.append(&decimal_string(timeout.as_millis()));
            m.append("ms) must be < metrics_heartbeat_interval (");
            m.append(&decimal_string(interval.as_millis()));
            m.append("ms) to prevent in-flight RPCs from piling up across ticks");
            return Err(m);
        }
        Ok(())
    }
}

/// A configuration is valid exactly where all of these hold.
pub proof fn law_valid_configuration(c: GoosefsConfig)
    ensures
        fault(c) is None <==> {
            &&& c.master_addr@.len() > 0 || c.master_addrs@.len() > 0
            &&& forall|i: int|
                0 <= i < c.master_addrs@.len() ==> (#[trigger] c.master_addrs@[i])@.len() > 0
            &&& 0 < c.chunk_size <= c.block_size
            &&& 1_000_000_000 <= c.metrics_heartbeat_timeout.nanos
                < c.metrics_heartbeat_interval.nanos
        },
{
}

/// The default configuration is valid on every host.
pub proof fn law_default_is_valid(c: GoosefsConfig, host: HostEnv)
    requires
        is_default(c, host),
    ensures
        fault(c) is None,
{
    reveal_strlit("127.0.0.1:9200");
    assert(string_views(c.master_addrs@).len() == c.master_addrs@.len());
}

/// The configuration `c` with `size` pooled connections to each worker, but at least 1.
pub open spec fn worker_pool_sized(c: GoosefsConfig, size: usize) -> GoosefsConfig {
    GoosefsConfig {
        worker_connection_pool_size: if size < 1 {
            1
        } else {
            size
        },
        ..c
    }
}

/// Of two settings of the number of pooled connections to each worker, the last one counts:
/// the result has the fields of `c`, with the number that was set last, but at least 1.
pub proof fn law_last_worker_pool_size_counts(c: GoosefsConfig, a: usize, b: usize)
    ensures
        worker_pool_sized(worker_pool_sized(c, a), b) == worker_pool_sized(c, b),
        worker_pool_sized(worker_pool_sized(c, a), b) == (GoosefsConfig {
            worker_connection_pool_size: if b < 1 {
                1
            } else {
                b
            },
            ..c
        }),
{
}

/// A full path does not depend on how many `/` begin the path, nor on how many
/// end the root path.
pub proof fn law_full_path_joins_once(root: Seq<char>, path: Seq<char>)
    requires
        root.len() > 0,
    ensures
        path_below(root, seq!['/'] + path) == path_below(root, path),
        path_below(root.push('/'), path) == path_below(root, path),
{
    let p = seq!['/'] + path;
    assert(p.skip(1) =~= path);
    lemma_span(path, exactly('/'));
    assert(drop_leading(p, exactly('/')) =~= drop_leading(path, exactly('/')));
    let r = root.push('/');
    assert(r.drop_last() =~= root);
    lemma_rspan(root, exactly('/'));
    assert(drop_trailing(r, exactly('/')) =~= drop_trailing(root, exactly('/')));
}

/// A path below a root is the root, one `/` and the path; without a root it is the path.
pub proof fn law_full_path_is_root_and_path(
    root: Seq<char>,
    path: Seq<char>,
    ends: nat,
    begins: nat,
)
    requires
        root.len() > 0 ==> root[root.len() - 1] != '/',
        path.len() > 0 ==> path[0] != '/',
    ensures
        root.len() > 0 ==> path_below(
            root + Seq::new(ends, |i: int| '/'),
            Seq::new(begins, |i: int| '/') + path,
        ) == root + seq!['/'] + path,
        path_below(Seq::empty(), path) == path,
{
    reveal_strlit("/");
    assert("/"@ =~= seq!['/']);
    law_trailing_characters_are_dropped(root, '/', ends);
    let p = Seq::new(begins, |i: int| '/') + path;
    lemma_span_is(p, exactly('/'), begins as int);
    assert(drop_leading(p, exactly('/')) =~= path);
}

/// The list of all masters has those that were given, in their order, where there are several
/// and none where there is one.
pub proof fn law_several_addresses(addrs: Seq<Seq<char>>, i: int)
    requires
        0 <= i < addrs.len(),
    ensures
        addrs.len() > 1 ==> several(addrs).len() == addrs.len() && several(addrs)[i] == addrs[i],
        addrs.len() == 1 ==> several(addrs).len() == 0,
{
}

/// Each fault is told apart: the message that comes is that of the first thing that is wrong.
pub proof fn law_faults_are_named(c: GoosefsConfig)
    requires
        c.master_addr@.len() > 0,
        c.master_addrs@.len() == 0,
    ensures
        c.block_size == 0 ==> fault(c) == Some("block_size must be > 0"@),
        c.block_size > 0 && c.chunk_size == 0 ==> fault(c) == Some("chunk_size must be > 0"@),
        0 < c.block_size < c.chunk_size ==> fault(c) == Some("chunk_size must be <= block_size"@),
        0 < c.chunk_size <= c.block_size ==> {
            let interval = c.metrics_heartbeat_interval.nanos;
            let timeout = c.metrics_heartbeat_timeout.nanos;
            let second: nat = 1000 * 1000 * 1000;
            &&& interval < second ==> fault(c) == Some(
                "metrics_heartbeat_interval must be >= "@ + decimal(1000) + "ms (got "@ + decimal(
                    (interval as nat) / (1000 * 1000),
                ) + "ms)"@,
            )
            &&& interval >= second && timeout < second ==> fault(c) == Some(
                "metrics_heartbeat_timeout must be >= 1000ms (got "@ + decimal(
                    (timeout as nat) / (1000 * 1000),
                ) + "ms)"@,
            )
            &&& second <= interval <= timeout ==> fault(c) == Some(
                "metrics_heartbeat_timeout ("@ + decimal((timeout as nat) / (1000 * 1000))
                    + "ms) must be < metrics_heartbeat_interval ("@ + decimal(
                    (interval as nat) / (1000 * 1000),
                ) + "ms) to prevent in-flight RPCs from piling up across ticks"@,
            )
            &&& second <= timeout < interval ==> fault(c) is None
        },
{
}

/// A configuration without any address is faulty, and so is one with an empty address in its
/// list.
pub proof fn law_addresses_are_needed(c: GoosefsConfig, i: int)
    ensures
        c.master_addr@.len() == 0 && c.master_addrs@.len() == 0 ==> fault(c) == Some(
            "at least one master address must be provided (master_addr or master_addrs)"@,
        ),
        0 <= i < c.master_addrs@.len() && c.master_addrs@[i]@.len() == 0 ==> fault(c) == Some(
            "master_addrs contains an empty address"@,
        ),
{
}

/// A pool of connections to a worker has as many as were asked for, and one where none were;
/// everything else stays.
pub proof fn law_worker_pools_have_a_connection(c: GoosefsConfig, size: usize)
    ensures
        worker_pool_sized(c, 0).worker_connection_pool_size == 1,
        size >= 1 ==> worker_pool_sized(c, size).worker_connection_pool_size == size,
        worker_pool_sized(c, size) == (GoosefsConfig {
            worker_connection_pool_size: worker_pool_sized(c, size).worker_connection_pool_size,
            ..c
        }),
{
}

/// A client of given masters is the default one in everything but its masters and its root.
pub proof fn law_given_masters_leave_the_defaults(
    c: GoosefsConfig,
    host: HostEnv,
    addr: Seq<char>,
    addrs: Seq<Seq<char>>,
    root: Seq<char>,
)
    requires
        is_default_with(c, host, addr, addrs, root),
    ensures
        c.master_addr@ == addr,
        string_views(c.master_addrs@) == addrs,
        c.root@ == root,
        c.block_size == 64 * 1024 * 1024,
        c.chunk_size == 1024 * 1024,
        c.write_type is None,
        c.auth_type is Simple,
        c.auth_username@ == login_name(host.vars@),
        c.metrics_enabled,
        c.metrics_heartbeat_interval.nanos == 10 * 1_000_000_000,
        !c.client_cache_enabled,
        !c.metadata_cache_enabled,
        !c.range_coalesce_enabled,
        !c.short_circuit_enabled,
        c.transparent_acceleration_enabled,
{
    let d = choose|d: GoosefsConfig| #[trigger]
        is_default(d, host) && c == (GoosefsConfig {
            master_addr: c.master_addr,
            master_addrs: c.master_addrs,
            root: c.root,
            ..d
        });
    law_defaults(d, host);
}

/// A client of a URI with one address talks to that address, and reads paths below the path
/// of the URI; with two addresses it knows both, the first of which is the master's.
pub proof fn law_uri_configures_a_client(
    c: GoosefsConfig,
    host: HostEnv,
    x: Seq<char>,
    y: Seq<char>,
    two: bool,
    path: Seq<char>,
    name: Seq<char>,
)
    requires
        is_plain_item(x),
        is_plain_item(y),
        forall|i: int| 0 <= i < x.len() ==> #[trigger] x[i] != '/',
        forall|i: int| 0 <= i < y.len() ==> #[trigger] y[i] != '/',
        path.len() > 0 ==> path[0] == '/' && path[path.len() - 1] != '/',
        name.len() > 0 ==> name[0] != '/',
        ({
            let authority = if two {
                x + seq![','] + y
            } else {
                x
            };
            let uri = "gfs://"@ + authority + path;
            is_default_with(c, host, uri_addresses(uri)[0], several(uri_addresses(uri)), uri_root(uri))
        }),
    ensures
        c.master_addr@ == x,
        !two ==> c.master_addrs@.len() == 0,
        two ==> string_views(c.master_addrs@) == seq![x, y],
        c.root@ == path,
        path.len() > 0 ==> path_below(c.root@, name) == path + seq!['/'] + name,
        path.len() == 0 ==> path_below(c.root@, name) == name,
{
    law_uri_addresses(x, y, path);
    assert(string_views(c.master_addrs@).len() == c.master_addrs@.len());
    law_full_path_is_root_and_path(path, name, 0, 0);
    let none = Seq::new(0, |i: int| '/');
    assert(path + none =~= path);
    assert(none + name =~= name);
    if path.len() == 0 {
        assert(path =~= Seq::<char>::empty());
    }
}

} // verus!
