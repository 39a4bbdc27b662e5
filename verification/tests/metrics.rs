use goosefs_client::metadata_cache::MetadataCacheStats;
use goosefs_client::metrics::cache_report::publish;
use goosefs_client::metrics::name;
use goosefs_client::metrics::registry::{counter, gauge, Counter, Gauge, Registry};

#[test]
fn counter_inc_and_get() {
    let mut c = Counter::default();
    assert_eq!(c.get(), 0);

    c.inc(42);
    assert_eq!(c.get(), 42);

    c.inc(8);
    assert_eq!(c.get(), 50);

    c.inc(-10);
    assert_eq!(c.get(), 40);
}

#[test]
fn counter_negative_increment() {
    let mut c = Counter::default();
    c.inc(-5);
    assert_eq!(c.get(), -5);
}

#[test]
fn gauge_set_and_get() {
    let mut g = Gauge::default();
    assert_eq!(g.get(), 0);

    g.set(99);
    assert_eq!(g.get(), 99);

    g.set(-10);
    assert_eq!(g.get(), -10);
}

#[test]
fn registry_counter_factory() {
    let mut r = Registry::new();
    let c1 = counter(&mut r, "my_counter");
    assert_eq!(r.counter_at(c1).get(), 0);
    r.counter_at(c1).inc(10);

    let c2 = counter(&mut r, "my_counter");
    assert_eq!(r.counter_at(c2).get(), 10);

    let c3 = counter(&mut r, "other_counter");
    assert_eq!(r.counter_at(c3).get(), 0);
}

#[test]
fn registry_gauge_factory() {
    let mut r = Registry::new();
    let g1 = gauge(&mut r, "my_gauge");
    assert_eq!(r.gauge_at(g1).get(), 0);
    r.gauge_at(g1).set(55);

    let g2 = gauge(&mut r, "my_gauge");
    assert_eq!(r.gauge_at(g2).get(), 55);

    let g3 = gauge(&mut r, "other_gauge");
    assert_eq!(r.gauge_at(g3).get(), 0);
}

#[test]
fn name_constants() {
    assert_eq!(name::CLIENT_BYTES_READ_LOCAL, "Client.BytesReadLocal");
    assert_eq!(name::CLIENT_BYTES_WRITTEN_LOCAL, "Client.BytesWrittenLocal");
    assert_eq!(name::CLIENT_BYTES_WRITTEN_UFS, "Client.BytesWrittenUfs");
}

#[test]
fn name_constants_rpc_ops() {
    assert_eq!(name::CLIENT_READ_OPS_TOTAL, "Client.ReadOpsTotal");
    assert_eq!(name::CLIENT_WRITE_OPS_TOTAL, "Client.WriteOpsTotal");
    assert_eq!(name::CLIENT_GET_STATUS_OPS, "Client.GetStatusOps");
    assert_eq!(name::CLIENT_LIST_STATUS_OPS, "Client.ListStatusOps");
    assert_eq!(name::CLIENT_CREATE_FILE_OPS, "Client.CreateFileOps");
    assert_eq!(name::CLIENT_CREATE_DIR_OPS, "Client.CreateDirOps");
    assert_eq!(name::CLIENT_DELETE_OPS, "Client.DeleteOps");
    assert_eq!(name::CLIENT_RENAME_OPS, "Client.RenameOps");
    assert_eq!(name::CLIENT_METADATA_CACHE_HITS, "Client.MetadataCacheHits");
    assert_eq!(
        name::CLIENT_METADATA_CACHE_MISSES,
        "Client.MetadataCacheMisses"
    );
    assert_eq!(
        name::CLIENT_METADATA_CACHE_EXPIRATIONS,
        "Client.MetadataCacheExpirations"
    );
    assert_eq!(
        name::CLIENT_METADATA_CACHE_INVALIDATIONS,
        "Client.MetadataCacheInvalidations"
    );
    assert_eq!(
        name::CLIENT_METADATA_CACHE_NEGATIVE_HITS,
        "Client.MetadataCacheNegativeHits"
    );
    assert_eq!(name::CLIENT_METADATA_CACHE_SIZE, "Client.MetadataCacheSize");
    assert_eq!(
        name::CLIENT_METADATA_CACHE_ENABLED,
        "Client.MetadataCacheEnabled"
    );
}

#[test]
fn name_constants_errors() {
    assert_eq!(name::CLIENT_RPC_ERRORS_TOTAL, "Client.RpcErrorsTotal");
    assert_eq!(name::CLIENT_RPC_AUTH_ERRORS, "Client.RpcAuthErrors");
    assert_eq!(
        name::CLIENT_RPC_UNAVAILABLE_ERRORS,
        "Client.RpcUnavailableErrors"
    );
    assert_eq!(name::CLIENT_READ_FAILURES, "Client.ReadFailures");
    assert_eq!(name::CLIENT_WRITE_FAILURES, "Client.WriteFailures");
}

#[test]
fn name_constants_latency() {
    assert_eq!(name::CLIENT_READ_LATENCY_US, "Client.ReadLatencyUs");
    assert_eq!(name::CLIENT_WRITE_LATENCY_US, "Client.WriteLatencyUs");
    assert_eq!(
        name::CLIENT_GET_STATUS_LATENCY_US,
        "Client.GetStatusLatencyUs"
    );
    assert_eq!(
        name::CLIENT_LIST_STATUS_LATENCY_US,
        "Client.ListStatusLatencyUs"
    );
}

#[test]
fn name_constants_pool_and_blocks() {
    assert_eq!(
        name::CLIENT_WORKER_CONNECTIONS_ACTIVE,
        "Client.WorkerConnectionsActive"
    );
    assert_eq!(
        name::CLIENT_WORKER_RECONNECTS_TOTAL,
        "Client.WorkerReconnectsTotal"
    );
    assert_eq!(
        name::CLIENT_WORKER_RECONNECTS_COALESCED,
        "Client.WorkerReconnectsCoalesced"
    );
    assert_eq!(
        name::CLIENT_BLOCKS_READ_IN_PROGRESS,
        "Client.BlocksReadInProgress"
    );
    assert_eq!(
        name::CLIENT_BLOCKS_WRITTEN_IN_PROGRESS,
        "Client.BlocksWrittenInProgress"
    );
    assert_eq!(name::CLIENT_BLOCKS_READ_TOTAL, "Client.BlocksReadTotal");
    assert_eq!(
        name::CLIENT_BLOCKS_WRITTEN_TOTAL,
        "Client.BlocksWrittenTotal"
    );
}

#[test]
fn name_constants_sc_decision_histogram() {
    assert_eq!(
        name::CLIENT_SC_DECISION_HIT,
        "Client.ShortCircuitDecisionHit"
    );
    assert_eq!(
        name::CLIENT_SC_DECISION_SKIPPED,
        "Client.ShortCircuitDecisionSkipped"
    );
    assert_eq!(
        name::CLIENT_SC_DECISION_FALLBACK_OPEN,
        "Client.ShortCircuitDecisionFallbackOpen"
    );
    assert_eq!(
        name::CLIENT_SC_DECISION_FALLBACK_READ,
        "Client.ShortCircuitDecisionFallbackRead"
    );
    assert_eq!(
        name::CLIENT_SC_DECISION_SEMANTIC_ERROR,
        "Client.ShortCircuitDecisionSemanticError"
    );
}

#[test]
fn sc_decision_counters_are_registered_and_shared() {
    let mut r = Registry::new();
    for cname in [
        name::CLIENT_SC_DECISION_HIT,
        name::CLIENT_SC_DECISION_SKIPPED,
        name::CLIENT_SC_DECISION_FALLBACK_OPEN,
        name::CLIENT_SC_DECISION_FALLBACK_READ,
        name::CLIENT_SC_DECISION_SEMANTIC_ERROR,
    ] {
        let c1 = counter(&mut r, cname);
        let c2 = counter(&mut r, cname);
        let base = r.counter_at(c1).get();
        r.counter_at(c2).inc(1);
        assert_eq!(
            r.counter_at(c1).get(),
            base + 1,
            "counter '{}' must be process-wide shared",
            cname
        );
    }
}

#[test]
fn sc_decision_counter_names_are_pairwise_distinct() {
    let names = [
        name::CLIENT_SC_DECISION_HIT,
        name::CLIENT_SC_DECISION_SKIPPED,
        name::CLIENT_SC_DECISION_FALLBACK_OPEN,
        name::CLIENT_SC_DECISION_FALLBACK_READ,
        name::CLIENT_SC_DECISION_SEMANTIC_ERROR,
    ];
    for i in 0..names.len() {
        for j in (i + 1)..names.len() {
            assert_ne!(names[i], names[j], "duplicate SC decision name");
        }
    }
}

#[test]
fn a_counter_wraps_around() {
    let mut c = Counter::default();
    c.inc(i64::MAX);
    c.inc(1);
    assert_eq!(c.get(), i64::MIN);
}

#[test]
fn counting_twice_is_counting_the_sum() {
    for (a, b) in [(3, 4), (i64::MAX, i64::MAX), (i64::MIN, -1), (i64::MIN, i64::MAX)] {
        let (mut twice, mut once) = (Counter::default(), Counter::default());
        twice.inc(5);
        twice.inc(a);
        twice.inc(b);
        let mut sum = Counter::default();
        sum.inc(a);
        sum.inc(b);
        once.inc(5);
        once.inc(sum.get());
        assert_eq!(twice.get(), once.get());
        assert_eq!(twice.get(), a.wrapping_add(b).wrapping_add(5));
    }
}

#[test]
fn counters_and_gauges_do_not_share_names() {
    let mut r = Registry::new();
    r.count("x", 3);
    r.measure("x", 7);
    r.count("x", 4);
    let c = counter(&mut r, "x");
    let g = gauge(&mut r, "x");
    assert_eq!(r.counter_at(c).get(), 7);
    assert_eq!(r.gauge_at(g).get(), 7);
    let other = counter(&mut r, "y");
    assert_ne!(c, other);
}

#[test]
fn what_the_cache_counted_is_published() {
    let mut r = Registry::new();
    let zero = MetadataCacheStats::default();
    let later = MetadataCacheStats {
        hits: 3,
        misses: 2,
        expired: 1,
        invalidations: 5,
        negative_hits: 1,
    };
    publish(&mut r, &zero, &later, 17);
    let hits = counter(&mut r, name::CLIENT_METADATA_CACHE_HITS);
    assert_eq!(r.counter_at(hits).get(), 3);
    let invalidations = counter(&mut r, name::CLIENT_METADATA_CACHE_INVALIDATIONS);
    assert_eq!(r.counter_at(invalidations).get(), 5);
    let size = gauge(&mut r, name::CLIENT_METADATA_CACHE_SIZE);
    assert_eq!(r.gauge_at(size).get(), 17);
    publish(&mut r, &later, &later, 16);
    assert_eq!(r.counter_at(hits).get(), 3);
    assert_eq!(r.gauge_at(size).get(), 16);
}
