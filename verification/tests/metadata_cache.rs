use goosefs_client::error::Error;
use goosefs_client::metadata_cache::{
    listing_fetched, listing_from_cache, normalize_path, parent_path, should_skip_listing_cache,
    status_fetched, status_from_cache, status_is_completed, MetadataCache, StatusLookup, StatusStep,
};
use goosefs_client::metadata_cache_disabled;
use goosefs_client::proto::{BlockInfo, BlockLocation, FileBlockInfo, FileInfo, LoadMetadataPType};
use goosefs_client::time::{Duration, Instant};
use std::sync::Arc;

fn at(millis: u128) -> Instant {
    Instant { nanos: millis * 1_000_000 }
}

fn info_of_length(len: i64) -> FileInfo {
    FileInfo { length: Some(len), completed: Some(true), ..Default::default() }
}

fn incomplete_info(len: i64) -> FileInfo {
    FileInfo { length: Some(len), completed: Some(false), ..Default::default() }
}

fn enabled_cache() -> MetadataCache {
    MetadataCache::maybe_new(Duration::from_secs(60), 128).unwrap()
}

/// Asks for a status; `fetch` stands for the Master.
fn get_status(
    cache: &mut Option<MetadataCache>,
    path: &str,
    sync_interval_ms: i64,
    fetch: impl FnOnce() -> Result<FileInfo, Error>,
) -> Result<Arc<FileInfo>, Error> {
    match status_from_cache(cache, path, sync_interval_ms, at(0)) {
        StatusStep::Serve(info) => Ok(info),
        StatusStep::Fail(e) => Err(e),
        StatusStep::Fetch => {
            let fetched = fetch();
            status_fetched(cache, path, at(0), fetched)
        }
    }
}

/// Asks for a listing; `fetch` stands for the Master.
fn list_status(
    cache: &mut Option<MetadataCache>,
    path: &str,
    skip: bool,
    fetch: impl FnOnce() -> Result<Vec<FileInfo>, Error>,
) -> Result<Arc<Vec<FileInfo>>, Error> {
    match listing_from_cache(cache, path, skip, at(0)) {
        Some(list) => Ok(list),
        None => {
            let fetched = fetch();
            listing_fetched(cache, path, skip, at(0), fetched)
        }
    }
}

#[test]
fn maybe_new_none_when_ttl_zero() {
    assert!(MetadataCache::maybe_new(Duration::zero(), 1024).is_none());
}

#[test]
fn maybe_new_none_when_enabled_false() {
    assert!(MetadataCache::maybe_new(Duration::zero(), 100_000).is_none());
}

#[test]
fn maybe_new_clamps_capacity_to_one() {
    let mut cache = MetadataCache::maybe_new(Duration::from_secs(1), 0)
        .expect("cache should be enabled with non-zero ttl");
    cache.insert("/a", info_of_length(1), at(0));
    cache.insert("/b", info_of_length(2), at(0));
    assert!(
        matches!(cache.lookup_status("/a", at(0)), StatusLookup::Miss),
        "LRU cap = 1 must evict older"
    );
    assert!(matches!(cache.lookup_status("/b", at(0)), StatusLookup::Present(_)));
}

#[test]
fn hit_and_miss_counters_and_lookup_work() {
    let mut cache = enabled_cache();
    assert!(matches!(cache.lookup_status("/x", at(0)), StatusLookup::Miss));
    cache.insert("/x", info_of_length(42), at(0));
    match cache.lookup_status("/x", at(0)) {
        StatusLookup::Present(got) => assert_eq!(got.length, Some(42)),
        StatusLookup::Miss => panic!("expected Present, got Miss"),
        StatusLookup::NotFound => panic!("expected Present, got NotFound"),
    }
    let s = cache.stats();
    assert_eq!(s.hits, 1);
    assert_eq!(s.misses, 1);
    assert_eq!(s.expired, 0);
}

#[test]
fn not_found_slot_roundtrip() {
    let mut cache = enabled_cache();
    cache.insert_not_found("/missing", at(0));
    assert!(matches!(cache.lookup_status("/missing", at(0)), StatusLookup::NotFound));
    assert_eq!(cache.stats().negative_hits, 1);
    assert_eq!(cache.stats().hits, 1);
}

#[test]
fn listing_not_split_into_status() {
    let mut cache = enabled_cache();
    let child = FileInfo {
        path: Some("/dir/child".into()),
        length: Some(7),
        completed: Some(true),
        ..Default::default()
    };
    cache.insert_listing("/dir", Arc::new(vec![child]), at(0));
    assert!(matches!(cache.lookup_status("/dir/child", at(0)), StatusLookup::Miss));
    assert!(matches!(cache.lookup_status("/dir", at(0)), StatusLookup::Miss));
    assert_eq!(cache.get_listing("/dir", at(0)).unwrap().len(), 1);
}

#[test]
fn invalidate_with_parent_drops_both() {
    let mut cache = enabled_cache();
    cache.insert("/data/file", info_of_length(1), at(0));
    cache.insert_listing("/data", Arc::new(vec![info_of_length(1)]), at(0));
    cache.invalidate_with_parent("/data/file");
    assert!(matches!(cache.lookup_status("/data/file", at(0)), StatusLookup::Miss));
    assert!(cache.get_listing("/data", at(0)).is_none());
}

#[test]
fn incomplete_status_not_served_as_hit() {
    let mut cache = enabled_cache();
    cache.insert("/wip", incomplete_info(10), at(0));
    match cache.lookup_status("/wip", at(0)) {
        StatusLookup::Present(info) => {
            assert!(!status_is_completed(&info));
        }
        StatusLookup::Miss => panic!("expected Present(incomplete), got Miss"),
        StatusLookup::NotFound => panic!("expected Present(incomplete), got NotFound"),
    }
    let s = cache.stats();
    assert_eq!(s.hits, 0, "incomplete fall-through is not a hit");
    assert_eq!(s.misses, 1);
}

#[test]
fn ttl_expires_both_status_and_listing() {
    let mut cache = MetadataCache::maybe_new(Duration::from_millis(1), 128).unwrap();
    cache.insert("/e", info_of_length(7), at(0));
    cache.insert_listing("/e", Arc::new(vec![info_of_length(1)]), at(0));
    assert!(matches!(cache.lookup_status("/e", at(5)), StatusLookup::Miss));
    assert!(cache.get_listing("/e", at(5)).is_none());
    assert!(cache.stats().expired >= 1);
    assert_eq!(cache.len(), 0);
}

#[test]
fn insert_listing_refreshes_inserted_at() {
    let ttl = Duration::from_secs(10);
    let mut cache = MetadataCache::maybe_new(ttl, 128).unwrap();
    cache.insert("/d", info_of_length(1), at(0));
    cache.insert_listing("/d", Arc::new(vec![info_of_length(2)]), at(6_000));
    assert!(matches!(cache.lookup_status("/d", at(12_000)), StatusLookup::Present(_)));
    assert!(cache.get_listing("/d", at(12_000)).is_some());
}

#[test]
fn ttl_expiry_evicts_and_counts() {
    let mut cache = MetadataCache::maybe_new(Duration::from_millis(1), 128).unwrap();
    cache.insert("/e", info_of_length(7), at(0));
    assert!(matches!(cache.lookup_status("/e", at(5)), StatusLookup::Miss));
    let s = cache.stats();
    assert_eq!(s.expired, 1);
    assert_eq!(s.misses, 1);
    assert_eq!(cache.len(), 0);
}

#[test]
fn invalidate_removes_entry_and_counts() {
    let mut cache = enabled_cache();
    cache.insert("/i", info_of_length(1), at(0));
    assert_eq!(cache.len(), 1);
    cache.invalidate("/i");
    assert_eq!(cache.len(), 0);
    assert_eq!(cache.stats().invalidations, 1);
    cache.invalidate("/i");
    assert_eq!(cache.stats().invalidations, 1);
}

#[test]
fn clear_drops_all_and_counts_as_invalidations() {
    let mut cache = enabled_cache();
    for i in 0..5 {
        cache.insert(&format!("/k{}", i), info_of_length(i as i64), at(0));
    }
    assert_eq!(cache.len(), 5);
    cache.clear();
    assert_eq!(cache.len(), 0);
    assert_eq!(cache.stats().invalidations, 5);
}

#[test]
fn get_updates_lru_recency() {
    let mut cache = MetadataCache::maybe_new(Duration::from_secs(60), 2).unwrap();
    cache.insert("/a", info_of_length(1), at(0));
    cache.insert("/b", info_of_length(2), at(0));
    assert!(matches!(cache.lookup_status("/a", at(0)), StatusLookup::Present(_)));
    cache.insert("/c", info_of_length(3), at(0));
    assert!(matches!(cache.lookup_status("/a", at(0)), StatusLookup::Present(_)));
    assert!(matches!(cache.lookup_status("/b", at(0)), StatusLookup::Miss));
    assert!(matches!(cache.lookup_status("/c", at(0)), StatusLookup::Present(_)));
}

#[test]
fn insert_arc_shares_arc_identity_with_get() {
    let mut cache = enabled_cache();
    let original = Arc::new(info_of_length(99));
    cache.insert_arc("/shared", Arc::clone(&original), at(0));
    match cache.lookup_status("/shared", at(0)) {
        StatusLookup::Present(got) => {
            assert!(Arc::ptr_eq(&original, &got));
        }
        _ => panic!("expected Present"),
    }
}

#[test]
fn parent_path_helpers() {
    assert_eq!(parent_path("/data/hello.txt"), Some("/data".to_string()));
    assert_eq!(parent_path("/hello.txt"), Some("/".to_string()));
    assert_eq!(parent_path("/"), None);
    assert_eq!(parent_path("/a/b/c/file.parquet"), Some("/a/b/c".to_string()));
    assert_eq!(parent_path("/data/dir/"), Some("/data".to_string()));
}

#[test]
fn normalize_path_strips_trailing_slash() {
    assert_eq!(&*normalize_path("/foo/"), "/foo");
    assert_eq!(&*normalize_path("/"), "/");
    assert_eq!(&*normalize_path("foo"), "/foo");
}

#[test]
fn get_status_through_cache_second_call_is_hit() {
    let mut cache = Some(enabled_cache());
    let mut rpcs = 0;
    for _ in 0..2 {
        get_status(&mut cache, "/f", -1, || {
            rpcs += 1;
            Ok(info_of_length(1))
        })
        .unwrap();
    }
    assert_eq!(rpcs, 1);
}

#[test]
fn get_status_through_cache_disabled_always_rpcs() {
    let mut rpcs = 0;
    for _ in 0..2 {
        get_status(&mut None, "/f", -1, || {
            rpcs += 1;
            Ok(info_of_length(1))
        })
        .unwrap();
    }
    assert_eq!(rpcs, 2);
}

#[test]
fn get_status_not_found_cached() {
    let mut cache = Some(enabled_cache());
    let mut rpcs = 0;
    for _ in 0..2 {
        let err = get_status(&mut cache, "/gone", -1, || {
            rpcs += 1;
            Err(Error::NotFound { path: "/gone".into() })
        })
        .unwrap_err();
        assert!(err.is_not_found());
    }
    assert_eq!(rpcs, 1);
}

#[test]
fn sync_interval_zero_skips_status_cache() {
    let mut cache = Some(enabled_cache());
    let mut rpcs = 0;
    for _ in 0..2 {
        get_status(&mut cache, "/f", 0, || {
            rpcs += 1;
            Ok(info_of_length(1))
        })
        .unwrap();
    }
    assert_eq!(rpcs, 2);
}

#[test]
fn create_invalidates_negative_cache() {
    let mut cache = enabled_cache();
    cache.insert_not_found("/new", at(0));
    cache.invalidate_with_parent("/new");
    let mut cache = Some(cache);
    let mut rpcs = 0;
    get_status(&mut cache, "/new", -1, || {
        rpcs += 1;
        Ok(info_of_length(1))
    })
    .unwrap();
    assert_eq!(rpcs, 1);
}

#[test]
fn list_status_through_cache_second_call_is_hit() {
    let mut cache = Some(enabled_cache());
    let mut rpcs = 0;
    for _ in 0..2 {
        list_status(&mut cache, "/d", false, || {
            rpcs += 1;
            Ok(vec![info_of_length(1)])
        })
        .unwrap();
    }
    assert_eq!(rpcs, 1);
}

#[test]
fn list_status_skip_always_rpcs() {
    let mut cache = Some(enabled_cache());
    let mut rpcs = 0;
    let skip = should_skip_listing_cache(false, LoadMetadataPType::Always, false, -1);
    assert!(skip);
    for _ in 0..2 {
        list_status(&mut cache, "/d", skip, || {
            rpcs += 1;
            Ok(vec![info_of_length(1)])
        })
        .unwrap();
    }
    assert_eq!(rpcs, 2);
}

#[test]
fn incomplete_falls_through_to_rpc() {
    let mut cache = enabled_cache();
    cache.insert("/wip", incomplete_info(3), at(0));
    let mut cache = Some(cache);
    let mut rpcs = 0;
    let got = get_status(&mut cache, "/wip", -1, || {
        rpcs += 1;
        Ok(info_of_length(3))
    })
    .unwrap();
    assert_eq!(rpcs, 1);
    assert!(status_is_completed(&got));
}

#[test]
fn write_invalidate_drops_stale_status() {
    let mut cache = enabled_cache();
    cache.insert("/data/file", info_of_length(10), at(0));
    let mut cache = Some(cache);
    let hit = get_status(&mut cache, "/data/file", -1, || {
        panic!("must be a cache hit before invalidate");
    })
    .unwrap();
    assert_eq!(hit.length, Some(10));

    cache.as_mut().unwrap().invalidate_with_parent("/data/file");

    let mut rpcs = 0;
    let got = get_status(&mut cache, "/data/file", -1, || {
        rpcs += 1;
        Ok(info_of_length(99))
    })
    .unwrap();
    assert_eq!(rpcs, 1);
    assert_eq!(got.length, Some(99), "must not return pre-write length");
}

#[test]
fn mkdir_invalidates_negative_cache_then_get_rpcs() {
    let mut cache = enabled_cache();
    cache.insert_not_found("/data/dir", at(0));
    cache.invalidate_with_parent("/data/dir");
    let mut cache = Some(cache);
    let mut rpcs = 0;
    let got = get_status(&mut cache, "/data/dir", -1, || {
        rpcs += 1;
        Ok(FileInfo { folder: Some(true), completed: Some(true), ..Default::default() })
    })
    .unwrap();
    assert_eq!(rpcs, 1);
    assert_eq!(got.folder, Some(true));
}

#[test]
fn write_invalidate_drops_parent_listing() {
    let mut cache = enabled_cache();
    cache.insert_listing("/data", Arc::new(vec![info_of_length(1)]), at(0));
    let mut cache = Some(cache);
    let skip = should_skip_listing_cache(false, LoadMetadataPType::Once, false, -1);
    let first = list_status(&mut cache, "/data", skip, || {
        panic!("parent listing must hit before invalidate");
    })
    .unwrap();
    assert_eq!(first.len(), 1);

    cache.as_mut().unwrap().invalidate_with_parent("/data/child");

    let mut rpcs = 0;
    let after = list_status(&mut cache, "/data", skip, || {
        rpcs += 1;
        Ok(vec![info_of_length(1), info_of_length(2)])
    })
    .unwrap();
    assert_eq!(rpcs, 1);
    assert_eq!(after.len(), 2);
}

#[test]
fn rename_invalidates_src_dst_and_parents() {
    let mut cache = enabled_cache();
    cache.insert("/a/src", info_of_length(1), at(0));
    cache.insert("/b/dst", info_of_length(2), at(0));
    cache.insert_listing("/a", Arc::new(vec![info_of_length(1)]), at(0));
    cache.insert_listing("/b", Arc::new(vec![info_of_length(2)]), at(0));

    cache.invalidate_with_parent("/a/src");
    cache.invalidate_with_parent("/b/dst");
    let mut cache = Some(cache);

    let mut status_rpcs = 0;
    get_status(&mut cache, "/a/src", -1, || {
        status_rpcs += 1;
        Err(Error::NotFound { path: "/a/src".into() })
    })
    .unwrap_err();
    get_status(&mut cache, "/b/dst", -1, || {
        status_rpcs += 1;
        Ok(info_of_length(1))
    })
    .unwrap();
    assert_eq!(status_rpcs, 2);

    let skip = should_skip_listing_cache(false, LoadMetadataPType::Once, false, -1);
    let mut list_rpcs = 0;
    list_status(&mut cache, "/a", skip, || {
        list_rpcs += 1;
        Ok(vec![])
    })
    .unwrap();
    list_status(&mut cache, "/b", skip, || {
        list_rpcs += 1;
        Ok(vec![info_of_length(1)])
    })
    .unwrap();
    assert_eq!(list_rpcs, 2);
}

#[test]
fn load_metadata_only_skips_listing_cache() {
    let mut cache = enabled_cache();
    cache.insert_listing("/d", Arc::new(vec![info_of_length(1)]), at(0));
    let mut cache = Some(cache);
    let skip = should_skip_listing_cache(false, LoadMetadataPType::Once, true, -1);
    assert!(skip);
    let mut rpcs = 0;
    for _ in 0..2 {
        list_status(&mut cache, "/d", skip, || {
            rpcs += 1;
            Ok(vec![info_of_length(9)])
        })
        .unwrap();
    }
    assert_eq!(rpcs, 2);
    let kept = cache.as_mut().unwrap().get_listing("/d", at(0)).unwrap();
    assert_eq!(kept.len(), 1);
    assert_eq!(kept[0].length, Some(1));
}

#[test]
fn recursive_skips_listing_cache() {
    let mut cache = enabled_cache();
    cache.insert_listing("/d", Arc::new(vec![info_of_length(1)]), at(0));
    let mut cache = Some(cache);
    let skip = should_skip_listing_cache(true, LoadMetadataPType::Once, false, -1);
    assert!(skip);
    let mut rpcs = 0;
    for _ in 0..2 {
        list_status(&mut cache, "/d", skip, || {
            rpcs += 1;
            Ok(vec![info_of_length(1), info_of_length(2)])
        })
        .unwrap();
    }
    assert_eq!(rpcs, 2);
}

fn info_with_empty_locations(block_id: i64) -> FileInfo {
    FileInfo {
        length: Some(100),
        completed: Some(true),
        block_ids: vec![block_id],
        file_block_infos: vec![FileBlockInfo {
            offset: Some(0),
            block_info: Some(BlockInfo {
                block_id: Some(block_id),
                length: Some(100),
                locations: vec![],
            }),
        }],
        ..Default::default()
    }
}

#[test]
fn checkblocks_locations_not_written_back_to_cache() {
    let mut cache = enabled_cache();
    let original = Arc::new(info_with_empty_locations(42));
    cache.insert_arc("/f", Arc::clone(&original), at(0));
    let mut cache = Some(cache);

    let mut fetched = (*get_status(&mut cache, "/f", -1, || {
        panic!("must be a cache hit");
    })
    .unwrap())
    .clone();
    fetched.file_block_infos[0]
        .block_info
        .as_mut()
        .unwrap()
        .locations
        .push(BlockLocation { worker_id: Some(7), worker_address: None });
    assert_eq!(fetched.file_block_infos[0].block_info.as_ref().unwrap().locations.len(), 1);

    match cache.as_mut().unwrap().lookup_status("/f", at(0)) {
        StatusLookup::Present(cached) => {
            assert!(Arc::ptr_eq(&original, &cached));
            assert!(cached.file_block_infos[0]
                .block_info
                .as_ref()
                .unwrap()
                .locations
                .is_empty());
        }
        _ => panic!("expected Present"),
    }
}

#[test]
fn paths_are_cached_under_every_spelling() {
    let mut cache = enabled_cache();
    cache.insert("data/file/", info_of_length(5), at(0));
    assert!(matches!(cache.lookup_status("/data/file", at(0)), StatusLookup::Present(_)));
    assert_eq!(cache.len(), 1);
}

#[test]
fn entry_lives_until_its_ttl_and_not_longer() {
    let mut cache = MetadataCache::maybe_new(Duration::from_millis(10), 4).unwrap();
    cache.insert("/a", info_of_length(5), at(100));
    assert!(matches!(cache.lookup_status("/a", at(109)), StatusLookup::Present(_)));
    assert!(matches!(cache.lookup_status("/a", at(110)), StatusLookup::Miss));
    assert_eq!(cache.ttl(), Duration::from_millis(10));
}

#[test]
fn other_errors_are_not_cached() {
    let mut cache = Some(enabled_cache());
    let mut rpcs = 0;
    for _ in 0..2 {
        let err = get_status(&mut cache, "/f", -1, || {
            rpcs += 1;
            Err(Error::Rpc { message: "unavailable".into() })
        })
        .unwrap_err();
        assert_eq!(err, Error::Rpc { message: "unavailable".into() });
    }
    assert_eq!(rpcs, 2);
}

#[test]
fn a_status_that_skipped_the_cache_is_written_back() {
    let mut cache = Some(enabled_cache());
    get_status(&mut cache, "/f", 0, || Ok(info_of_length(8))).unwrap();
    let hit = get_status(&mut cache, "/f", -1, || panic!("must be a cache hit")).unwrap();
    assert_eq!(hit.length, Some(8));
}

#[test]
fn skip_decision_of_listings() {
    assert!(!should_skip_listing_cache(false, LoadMetadataPType::Once, false, -1));
    assert!(!should_skip_listing_cache(false, LoadMetadataPType::Never, false, 5));
    assert!(should_skip_listing_cache(false, LoadMetadataPType::Once, false, 0));
}

#[test]
fn a_build_without_a_cache_has_none() {
    assert!(metadata_cache_disabled::MetadataCache::maybe_new(Duration::from_secs(60), 128)
        .is_none());
    assert_eq!(metadata_cache_disabled::normalize_path("a/"), "/a");
    let r = metadata_cache_disabled::invalidate_on_success(None, "/a", Ok::<i32, Error>(3));
    assert_eq!(r.unwrap(), 3);
}
