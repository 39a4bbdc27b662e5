use bytes::{Bytes, BytesMut};
use goosefs_client::block::mapper::{BlockMapper, BlockReadPlan};
use goosefs_client::cache::{fill_mode, page_cache_eligible, FillMode};
use goosefs_client::config::client::GoosefsConfig;
use goosefs_client::config::host::HostEnv;
use goosefs_client::error::Error;
use goosefs_client::fs::options::{InStreamOptions, OpenFileOptions};
use goosefs_client::fs::uri_status::URIStatus;
use goosefs_client::io::block_read::{BlockAction, BlockEvent, BlockRead};
use goosefs_client::io::external_read::{AtStep, BlockPart};
use goosefs_client::io::failover::{Action, Caller, Event, WorkerAccess};
use goosefs_client::io::file_in_stream::{require_valid, GoosefsFileInStream};
use goosefs_client::io::file_reader::{require_workers, GoosefsFileReader, SegmentSource};
use goosefs_client::io::open_dedup::OpenDedup;
use goosefs_client::io::range_coalesce::{plan, NO_FETCH};
use goosefs_client::io::read_ranges::RangesRead;
use goosefs_client::io::short_circuit::{LocalAction, LocalEvent, ShortCircuitError};
use goosefs_client::io::stream_read::{BlockAt, ReadStep};
use goosefs_client::io::stream_seek::{SeekFrom, SeekStep};
use goosefs_client::io::whole_read::WholeRead;
use goosefs_client::io::TRANSFER_POSITIONED_READ_THRESHOLD;
use goosefs_client::metrics::name;
use goosefs_client::metrics::registry::{counter, Registry};
use goosefs_client::proto::{
    BlockInfo, BlockLocation, FileBlockInfo, FileInfo, WorkerInfo, WorkerNetAddress,
};
use goosefs_client::time::Instant;
use std::sync::Arc;

fn config() -> GoosefsConfig {
    GoosefsConfig::new(&HostEnv::new(&vec![], Some(4), true), "127.0.0.1:9200")
}

// Readers.

fn reader_info(length: i64, block_size: i64) -> FileInfo {
    let num_blocks = if block_size > 0 { (length + block_size - 1) / block_size } else { 0 };
    let block_ids: Vec<i64> = (1001..(1001 + num_blocks.max(0))).collect();
    FileInfo {
        length: Some(length),
        block_size_bytes: Some(block_size),
        block_ids,
        completed: Some(true),
        folder: Some(false),
        ufs_path: Some(String::new()),
        ..Default::default()
    }
}

fn make_reader(length: i64, block_size: i64) -> GoosefsFileReader {
    GoosefsFileReader::build(
        config(),
        "/synthetic",
        Arc::new(reader_info(length, block_size)),
        0,
        length as u64,
    )
    .unwrap_or_else(|_| panic!("build reader"))
}

#[test]
fn file_reader_test_block_logical_size() {
    let bs = 64 * 1024 * 1024i64;
    let len = 2 * bs + bs / 2;
    let reader = make_reader(len, bs);

    assert_eq!(reader.block_logical_size(0), bs);
    assert_eq!(reader.block_logical_size(1), bs);
    assert_eq!(reader.block_logical_size(2), bs / 2);
    assert_eq!(reader.block_logical_size(99), 0);
}

#[test]
fn test_build_defaults_disable_cache_and_sc() {
    let reader = make_reader(1024, 1024);
    assert!(!reader.cache, "cache must default to disabled");
    assert!(!reader.cache_fill, "fill must default to false");
    assert!(!reader.short_circuit, "short-circuit must default to disabled");
}

#[test]
fn hr1_non_positive_file_id_is_not_page_cache_eligible() {
    let reader = make_reader(1024, 1024);
    assert_eq!(reader.file_info.file_id, None);
    assert!(!page_cache_eligible(reader.file_info.file_id.unwrap_or(0)));
    assert!(!reader.cache);

    assert!(!page_cache_eligible(0));
    assert!(!page_cache_eligible(-7));
    assert!(page_cache_eligible(42));
}

#[test]
fn test_worker_addr_formatting() {
    let wi = WorkerInfo {
        address: Some(WorkerNetAddress {
            host: Some("10.0.0.5".to_string()),
            rpc_port: Some(9207),
        }),
        ..Default::default()
    };
    assert_eq!(GoosefsFileReader::worker_addr(&wi).unwrap(), "10.0.0.5:9207");

    let wi_defaults =
        WorkerInfo { address: Some(WorkerNetAddress::default()), ..Default::default() };
    assert_eq!(GoosefsFileReader::worker_addr(&wi_defaults).unwrap(), "127.0.0.1:9203");
}

#[test]
fn test_worker_addr_missing_address_errors() {
    let wi = WorkerInfo { address: None, ..Default::default() };
    assert!(GoosefsFileReader::worker_addr(&wi).is_err());
}

#[test]
fn splice_from_plan_reconstructs_caller_order_and_bytes() {
    let inputs = &[(200u64, 10u64), (0, 20), (10, 5), (100, 4)];
    let p = plan(inputs, 100, 60);
    assert!(!p.fetches.is_empty());

    let synth = |off: u64, len: u64| -> Bytes {
        let v: Vec<u8> = (0..len).map(|i| ((off + i) & 0xff) as u8).collect();
        Bytes::from(v)
    };
    let fetch_bufs: Vec<Bytes> = p.fetches.iter().map(|f| synth(f.offset, f.len)).collect();

    let out = GoosefsFileReader::splice_from_plan(&p, &fetch_bufs);
    assert_eq!(out.len(), inputs.len(), "output length must match input");
    for (i, &(off, len)) in inputs.iter().enumerate() {
        let expected = synth(off, len);
        assert_eq!(
            out[i].as_ref(),
            expected.as_ref(),
            "output[{i}] byte mismatch for input ({off},{len})"
        );
    }
}

#[test]
fn splice_from_plan_preserves_empty_ranges_at_original_position() {
    let inputs = &[(100u64, 0u64), (0, 10), (7, 0), (50, 5)];
    let p = plan(inputs, 0, 4096);
    assert_eq!(p.fetches.len(), 2);

    let synth = |off: u64, len: u64| -> Bytes {
        Bytes::from((0..len).map(|i| ((off + i) & 0x7f) as u8).collect::<Vec<_>>())
    };
    let fetch_bufs: Vec<Bytes> = p.fetches.iter().map(|f| synth(f.offset, f.len)).collect();

    let out = GoosefsFileReader::splice_from_plan(&p, &fetch_bufs);
    assert_eq!(out.len(), 4);
    assert!(out[0].is_empty(), "empty input must yield empty Bytes");
    assert_eq!(out[1].len(), 10);
    assert!(out[2].is_empty(), "empty input must yield empty Bytes");
    assert_eq!(out[3].len(), 5);
}

#[test]
fn range_coalesce_disabled_by_default() {
    let cfg = GoosefsConfig::default_on(&HostEnv::new(&vec![], Some(4), true));
    assert!(!cfg.range_coalesce_enabled, "range_coalesce_enabled must default to false");
    assert_eq!(cfg.range_coalesce_gap_bytes, 64 * 1024);
    assert_eq!(cfg.range_coalesce_max_bytes, 4 * 1024 * 1024);
}

#[test]
fn ranges_merge_up_to_gap_and_limit() {
    let p = plan(&[(0, 10), (14, 6), (40, 10), (35, 10)], 4, 1000);
    let fetches: Vec<(u64, u64)> = p.fetches.iter().map(|f| (f.offset, f.len)).collect();
    assert_eq!(fetches, vec![(0, 20), (35, 15)]);
    assert_eq!(p.slices[2].fetch_index, 1);
    assert_eq!(p.slices[2].offset_in_fetch, 5);

    let p = plan(&[(0, 10), (10, 10), (20, 10)], 0, 20);
    let fetches: Vec<(u64, u64)> = p.fetches.iter().map(|f| (f.offset, f.len)).collect();
    assert_eq!(fetches, vec![(0, 20), (20, 10)]);

    let p = plan(&[(5, 100)], 0, 20);
    assert_eq!(p.fetches[0].len, 100);
    let p = plan(&[(5, 0)], 0, 20);
    assert!(p.fetches.is_empty());
    assert_eq!(p.slices[0].fetch_index, NO_FETCH);
}

fn file_bytes(len: usize) -> Vec<u8> {
    (0..len).map(|i| (i * 7 + i / 256) as u8).collect()
}

fn run_ranges(cfg: &GoosefsConfig, ranges: Vec<(u64, u64)>, file: &[u8]) -> (Vec<Bytes>, usize) {
    let mut read = RangesRead::start(cfg, ranges);
    let mut fetches = 0;
    while let Some((off, len)) = read.request() {
        fetches += 1;
        let bytes = Bytes::copy_from_slice(&file[off as usize..(off + len) as usize]);
        read.accept(bytes).unwrap();
    }
    (read.finish(), fetches)
}

#[test]
fn ranges_are_the_same_with_and_without_merging() {
    let file = file_bytes(5000);
    let ranges = vec![(4000u64, 100u64), (0, 50), (60, 40), (10, 0), (90, 300), (4090, 20)];
    let mut cfg = config();
    let (single, n_single) = run_ranges(&cfg, ranges.clone(), &file);
    cfg.range_coalesce_enabled = true;
    let (merged, n_merged) = run_ranges(&cfg, ranges.clone(), &file);
    assert_eq!(single, merged);
    assert_eq!(n_single, 5);
    assert_eq!(n_merged, 1);
    for (i, (off, len)) in ranges.iter().enumerate() {
        assert_eq!(single[i].as_ref(), &file[*off as usize..(off + len) as usize]);
    }
}

#[test]
fn a_short_merged_fetch_is_an_error() {
    let mut cfg = config();
    cfg.range_coalesce_enabled = true;
    let mut read = RangesRead::start(&cfg, vec![(10, 20)]);
    assert_eq!(read.request(), Some((10, 20)));
    let err = read.accept(Bytes::from(vec![0u8; 19])).unwrap_err();
    assert_eq!(
        err,
        Error::BlockIoError {
            message: "read_ranges: merged fetch (offset=10, len=20) returned 19 bytes".to_string()
        }
    );
}

#[test]
fn plans_split_at_block_boundaries() {
    let info = reader_info(250, 100);
    let plans = BlockMapper::plan_read(&info, 50, 150);
    assert_eq!(
        plans,
        vec![
            BlockReadPlan { block_id: 1001, block_index: 0, offset_in_block: 50, length: 50 },
            BlockReadPlan { block_id: 1002, block_index: 1, offset_in_block: 0, length: 100 },
        ]
    );
    let tail = BlockMapper::plan_read(&info, 240, u64::MAX);
    assert_eq!(
        tail,
        vec![BlockReadPlan { block_id: 1003, block_index: 2, offset_in_block: 40, length: 10 }]
    );
    assert!(BlockMapper::plan_read(&info, 250, 10).is_empty());
    assert!(BlockMapper::plan_read(&info, 0, 0).is_empty());
    assert!(BlockMapper::plan_read(&FileInfo::default(), 0, 10).is_empty());
}

fn read_range(reader: &GoosefsFileReader, file: &[u8], from: i64, to: i64) -> Bytes {
    let bs = reader.file_info.block_size_bytes.unwrap() as u64;
    let mut read = reader.read_file_range(from, to);
    while let Some((_, p)) = read.pending() {
        let start = (p.block_index * bs + p.offset_in_block) as usize;
        let data = Bytes::copy_from_slice(&file[start..start + p.length as usize]);
        read.accept(&data).unwrap();
    }
    read.finish()
}

#[test]
fn a_reader_gives_the_file() {
    let file = file_bytes(1050);
    let mut reader = make_reader(1050, 100);
    assert_eq!(reader.block_count(), 11);
    assert_eq!(reader.expected_length(), 1050);
    assert_eq!(reader.path(), "/synthetic");
    assert_eq!((reader.offset(), reader.length(), reader.file_length()), (0, 1050, 1050));
    assert_eq!(reader.segment_source(), SegmentSource::Workers);
    let mut out = BytesMut::new();
    while let Some((from, to)) = reader.read_next_block() {
        let data = read_range(&reader, &file, from, to);
        reader.segment_read(data.len() as u64);
        out.extend_from_slice(&data);
    }
    assert_eq!(out.as_ref(), &file[..]);
    assert_eq!(reader.bytes_read(), 1050);
    assert_eq!(reader.current_block_index(), 11);
    assert!(reader.is_complete());
    assert_eq!(read_range(&reader, &file, 95, 305).as_ref(), &file[95..305]);
    assert_eq!(read_range(&reader, &file, 1000, 9999).as_ref(), &file[1000..]);
    assert!(read_range(&reader, &file, 10, 10).is_empty());
}

#[test]
fn a_reader_skips_blocks_that_are_not_known() {
    let mut info = reader_info(300, 100);
    info.block_ids[1] = 0;
    let mut reader =
        GoosefsFileReader::build(config(), "/f", Arc::new(info), 0, 300).ok().unwrap();
    assert_eq!(reader.read_next_block(), Some((0, 100)));
    reader.segment_read(100);
    assert_eq!(reader.read_next_block(), Some((200, 300)));
    reader.segment_read(100);
    assert_eq!(reader.read_next_block(), None);
    assert!(reader.is_complete());
}

#[test]
fn a_block_without_bytes_is_an_error() {
    let reader = make_reader(300, 100);
    let mut read = reader.read_file_range(100, 200);
    let err = read.accept(&Bytes::new()).unwrap_err();
    assert_eq!(
        err,
        Error::Internal { message: "read_file_range: 0 bytes for block 1002".to_string() }
    );
}

fn located(id: i64, offset: i64, worker: i64) -> FileBlockInfo {
    FileBlockInfo {
        block_info: Some(BlockInfo {
            block_id: Some(id),
            length: Some(100),
            locations: vec![BlockLocation { worker_id: Some(worker), worker_address: None }],
        }),
        offset: Some(offset),
    }
}

#[test]
fn block_lists_name_blocks_and_replicas() {
    let mut info = reader_info(200, 100);
    info.file_block_infos = vec![located(77, 0, 5), located(0, 100, 6)];
    let reader = GoosefsFileReader::build(config(), "/f", Arc::new(info), 0, 200).ok().unwrap();
    assert_eq!(reader.resolve_block_id(&reader.plans[0]), 77);
    assert_eq!(reader.resolve_block_id(&reader.plans[1]), 1002);
    assert_eq!(reader.block_locations(77).unwrap()[0].worker_id, Some(5));
    assert!(reader.block_locations(1002).is_none());
}

#[test]
fn ufs_options_name_the_block() {
    let mut info = reader_info(200, 100);
    assert!(GoosefsFileReader::build(config(), "/f", Arc::new(info.clone()), 0, 200)
        .ok()
        .unwrap()
        .ufs_read_options
        .is_none());
    info.ufs_path = Some("cos://bucket/f".to_string());
    info.mount_id = Some(9);
    let reader = GoosefsFileReader::build(config(), "/f", Arc::new(info), 0, 200).ok().unwrap();
    let opts = reader.build_ufs_read_options(&reader.plans[1]).unwrap();
    assert_eq!(opts.ufs_path.as_deref(), Some("cos://bucket/f"));
    assert_eq!(opts.offset_in_file, Some(100));
    assert_eq!(opts.block_size, Some(100));
    assert_eq!(opts.mount_id, Some(9));
    assert_eq!(opts.no_cache, Some(false));
    assert_eq!(opts.max_ufs_read_concurrency, None);
}

#[test]
fn the_page_cache_is_attached_to_files_with_an_identifier() {
    let mut reader = make_reader(100, 100);
    reader.attach_cache(true, true);
    assert!(reader.short_circuit);
    assert!(!reader.cache);
    assert_eq!(reader.file_version(), None);

    let mut info = reader_info(100, 100);
    info.file_id = Some(42);
    info.last_modification_time_ms = Some(7);
    let mut reader = GoosefsFileReader::build(config(), "/f", Arc::new(info), 0, 100).ok().unwrap();
    assert_eq!(reader.file_version(), Some((42, 100, 7)));
    reader.attach_cache(false, true);
    assert!(reader.cache && reader.cache_fill && !reader.short_circuit);
    assert_eq!(reader.cache_file_id, "42");
    let expected = fill_mode(true, reader.config.client_cache_async_write_enabled);
    assert_eq!(reader.segment_source(), SegmentSource::Cache(expected));
    assert_eq!(fill_mode(false, true), FillMode::Never);
    assert_eq!(fill_mode(true, true), FillMode::Async);
    assert_eq!(fill_mode(true, false), FillMode::Sync);
}

#[test]
fn opens_are_told_once_a_minute() {
    let secs = |s: u128| Instant { nanos: s * 1_000_000_000 };
    let mut dedup = OpenDedup::new();
    let key = (1, 100, 5);
    assert!(!dedup.skip(key, secs(0)));
    dedup.note(key, secs(0));
    assert!(dedup.skip(key, secs(59)));
    assert!(!dedup.skip(key, secs(60)));
    assert!(!dedup.skip((1, 101, 5), secs(1)));
    assert!(!dedup.skip((1, 100, 6), secs(1)));
    for i in 0..4100 {
        dedup.note((2, i, 0), secs(1));
    }
    dedup.note(key, secs(100));
    dedup.note((3, 0, 0), secs(100));
    assert!(dedup.skip(key, secs(101)));
    assert!(!dedup.skip((2, 5, 0), secs(100)));
}

#[test]
fn reading_needs_workers_and_a_valid_configuration() {
    assert!(require_workers(1).is_ok());
    assert_eq!(
        require_workers(0).unwrap_err(),
        Error::NoWorkerAvailable { message: "no workers available for reading".to_string() }
    );
    assert!(require_valid(&config()).is_ok());
    let mut bad = config();
    bad.master_addr = String::new();
    assert!(matches!(require_valid(&bad), Err(Error::ConfigError { .. })));
}

// Streams.

fn make_status(length: i64, block_size: i64) -> URIStatus {
    let num_blocks = (length + block_size - 1) / block_size;
    let block_ids: Vec<i64> = (1001..(1001 + num_blocks)).collect();
    let fi = FileInfo {
        length: Some(length),
        block_size_bytes: Some(block_size),
        block_ids: block_ids.clone(),
        completed: Some(true),
        folder: Some(false),
        ufs_path: Some(String::new()),
        ..Default::default()
    };
    URIStatus::from_proto(fi)
}

fn make_stream(status: URIStatus) -> GoosefsFileInStream {
    let config = config();
    let file_length = status.length;
    GoosefsFileInStream {
        file_length,
        status,
        config,
        options: InStreamOptions::default(),
        pos: 0,
        carry_over: BytesMut::new(),
        block_in_stream: false,
        block_in_stream_block_id: -1,
        positioned: false,
        worker_pool: false,
        cache: false,
        cache_page_size: 1024 * 1024,
        cache_file_id: String::new(),
        cache_fill: false,
        cache_async_write: false,
        cache_sequential_read: false,
        short_circuit: false,
        sc_seq_block: -1,
    }
}

#[test]
fn test_block_index_calculation() {
    let bs = 64 * 1024 * 1024i64;
    let len = 3 * bs;
    let status = make_status(len, bs);

    let stream = make_stream(status);

    assert_eq!(stream.block_index_for_pos(0), 0);
    assert_eq!(stream.block_index_for_pos(bs - 1), 0);
    assert_eq!(stream.block_index_for_pos(bs), 1);
    assert_eq!(stream.block_index_for_pos(2 * bs), 2);
}

#[test]
fn hr1_non_positive_file_id_disables_page_cache_eligibility() {
    let mut status = make_status(1024, 1024);
    status.file_id = 0;
    assert!(!page_cache_eligible(status.file_id));
    let stream = make_stream(status);
    assert!(!stream.cache, "synthetic stream without open must not enable cache");

    let mut status_neg = make_status(1024, 1024);
    status_neg.file_id = -1;
    assert!(!page_cache_eligible(status_neg.file_id));

    let mut status_ok = make_status(1024, 1024);
    status_ok.file_id = 1001;
    assert!(page_cache_eligible(status_ok.file_id));
}

#[test]
fn test_offset_in_block() {
    let bs = 64 * 1024 * 1024i64;
    let status = make_status(2 * bs, bs);
    let stream = make_stream(status);

    assert_eq!(stream.offset_in_block(0), 0);
    assert_eq!(stream.offset_in_block(100), 100);
    assert_eq!(stream.offset_in_block(bs), 0);
    assert_eq!(stream.offset_in_block(bs + 42), 42);
}

#[test]
fn test_remaining_in_block() {
    let bs = 64 * 1024 * 1024i64;
    let status = make_status(2 * bs, bs);
    let stream = make_stream(status);

    assert_eq!(stream.remaining_in_block(0), bs);
    assert_eq!(stream.remaining_in_block(bs - 100), 100);
    assert_eq!(stream.remaining_in_block(bs), bs);
}

#[test]
fn test_block_id_at() {
    let bs = 64 * 1024 * 1024i64;
    let status = make_status(2 * bs, bs);
    let stream = make_stream(status);

    assert_eq!(stream.block_id_at(0).unwrap(), 1001);
    assert_eq!(stream.block_id_at(1).unwrap(), 1002);
    assert!(stream.block_id_at(99).is_err());
}

#[test]
fn test_is_eof() {
    let bs = 1024i64;
    let status = make_status(bs, bs);
    let mut stream = make_stream(status);

    assert!(!stream.is_eof());
    stream.pos = bs;
    assert!(stream.is_eof());
}

#[test]
fn test_remaining() {
    let bs = 1024i64;
    let status = make_status(bs, bs);
    let mut stream = make_stream(status);

    assert_eq!(stream.remaining(), bs);
    stream.pos = 100;
    assert_eq!(stream.remaining(), bs - 100);
    stream.pos = bs;
    assert_eq!(stream.remaining(), 0);
}

#[test]
fn test_pos_accounts_for_carry_over() {
    let bs = 1024i64;
    let status = make_status(bs, bs);
    let mut stream = make_stream(status);

    stream.pos = 200;
    stream.carry_over.extend_from_slice(&[0u8; 50]);
    assert_eq!(stream.pos(), 150);
    assert_eq!(stream.remaining(), bs - 150);
    assert!(!stream.is_eof());

    stream.carry_over.clear();
    assert_eq!(stream.pos(), 200);
    assert_eq!(stream.remaining(), bs - 200);
}

#[test]
fn test_is_eof_with_carry_over() {
    let bs = 1024i64;
    let status = make_status(bs, bs);
    let mut stream = make_stream(status);

    stream.pos = bs;
    stream.carry_over.extend_from_slice(&[7u8; 20]);
    assert!(!stream.is_eof(), "carry_over still has bytes — not EOF");

    stream.carry_over.clear();
    assert!(stream.is_eof(), "chunk reader done and carry_over drained — EOF");
}

#[test]
fn test_legacy_mode_no_pool() {
    let bs = 1024i64;
    let status = make_status(bs, bs);
    let stream = make_stream(status);
    assert!(!stream.worker_pool);
    assert!(!stream.short_circuit);
}

#[test]
fn file_in_stream_test_block_logical_size() {
    let bs = 64 * 1024 * 1024i64;
    let len = 2 * bs + bs / 2;
    let status = make_status(len, bs);
    let stream = make_stream(status);

    assert_eq!(stream.block_logical_size(0), bs);
    assert_eq!(stream.block_logical_size(1), bs);
    assert_eq!(stream.block_logical_size(2), bs / 2);
    assert_eq!(stream.block_logical_size(99), 0);
}

#[test]
fn a_file_is_opened_as_the_context_allows() {
    let mut status = make_status(1024, 512);
    status.file_id = 12;
    let opts = OpenFileOptions::default();
    let s = GoosefsFileInStream::open(config(), "/f", status.clone(), opts).ok().unwrap();
    assert!(!s.worker_pool && !s.cache && !s.short_circuit && s.cache_file_id.is_empty());
    assert_eq!((s.pos(), s.len(), s.is_empty()), (0, 1024, false));

    let s = GoosefsFileInStream::open_with_context(
        config(),
        "/f",
        status.clone(),
        opts,
        true,
        true,
    )
    .ok()
    .unwrap();
    assert!(s.worker_pool && s.cache && s.cache_fill && s.short_circuit);
    assert_eq!(s.cache_file_id, "12");

    let s = GoosefsFileInStream::open_with_context(
        config(),
        "/f",
        status.clone(),
        OpenFileOptions::no_cache(),
        true,
        false,
    )
    .ok()
    .unwrap();
    assert!(s.cache && !s.cache_fill && !s.short_circuit);

    status.completed = false;
    let err = GoosefsFileInStream::open(config(), "/f", status.clone(), opts).err().unwrap();
    assert_eq!(err, Error::FileIncomplete { message: "/f is incomplete".to_string() });
    status.folder = true;
    let err = GoosefsFileInStream::open(config(), "/f", status, opts).err().unwrap();
    assert_eq!(err, Error::OpenDirectory { path: "/f".to_string() });
}

/// Reads the whole file through the stream, with chunks and buffers of the given sizes.
fn stream_all(stream: &mut GoosefsFileInStream, file: &[u8], chunk: usize, room: usize) -> Vec<u8> {
    let bs = stream.status.block_size_bytes;
    let mut out = Vec::new();
    let mut left_in_stream: i64 = 0;
    loop {
        let mut buf = vec![0u8; room];
        let mut step = stream.read(&mut buf);
        let n = loop {
            step = match step {
                ReadStep::Done(n) => break n,
                ReadStep::OpenStream { block, offset, len } => {
                    assert_eq!(block.index as i64 * bs + offset, stream.pos);
                    left_in_stream = len;
                    stream.stream_opened(block)
                }
                ReadStep::PullChunk => {
                    if left_in_stream == 0 {
                        break stream.read_from_sequential_stream(&mut buf, None, false);
                    }
                    let n = chunk.min(left_in_stream as usize);
                    let at = stream.pos as usize;
                    left_in_stream -= n as i64;
                    let data = Bytes::copy_from_slice(&file[at..at + n]);
                    break stream.read_from_sequential_stream(
                        &mut buf,
                        Some(data),
                        left_in_stream == 0,
                    );
                }
                other => panic!("unexpected {other:?}"),
            };
        };
        if n == 0 {
            break;
        }
        out.extend_from_slice(&buf[..n]);
    }
    out
}

#[test]
fn no_byte_is_lost_whatever_the_sizes_are() {
    let file = file_bytes(1000);
    for (chunk, room) in [(1, 1), (7, 3), (3, 7), (300, 64), (64, 300), (1000, 1000), (100, 33)] {
        let mut stream = make_stream(make_status(1000, 256));
        assert_eq!(stream_all(&mut stream, &file, chunk, room), file, "{chunk} {room}");
        assert!(stream.is_eof());
        assert_eq!(stream.pos(), 1000);
    }
}

#[test]
fn a_small_move_forward_skips_and_keeps_the_rest() {
    let file = file_bytes(1000);
    let mut stream = make_stream(make_status(1000, 1000));
    let mut buf = [0u8; 10];
    let block = BlockAt { index: 0, id: 1001, size: 1000 };
    assert!(matches!(stream.read(&mut buf), ReadStep::OpenStream { offset: 0, len: 1000, .. }));
    stream.stream_opened(block);
    let chunk = Bytes::copy_from_slice(&file[0..20]);
    assert_eq!(stream.read_from_sequential_stream(&mut buf, Some(chunk), false), 10);
    assert_eq!(buf, file[0..10]);
    assert_eq!(stream.pos(), 10);

    assert_eq!(stream.seek(10), SeekStep::Done(10));
    assert_eq!(stream.seek_from(SeekFrom::Current(0)), SeekStep::Done(10));
    assert_eq!(stream.carry_over.len(), 10);

    assert_eq!(stream.seek(45), SeekStep::Skip { target: 45, count: 25 });
    let left = stream.skip_bytes(25, Some(Bytes::copy_from_slice(&file[20..40])));
    assert_eq!(left, 5);
    let left = stream.skip_bytes(left, Some(Bytes::copy_from_slice(&file[40..60])));
    assert_eq!(left, 0);
    assert_eq!(stream.skip_done(45), 45);
    assert_eq!(stream.pos(), 45);
    assert!(matches!(stream.read(&mut buf), ReadStep::Done(10)));
    assert_eq!(buf, file[45..55]);
}

#[test]
fn other_moves_give_the_stream_up() {
    assert_eq!(TRANSFER_POSITIONED_READ_THRESHOLD, 8 * 1024);
    let block = BlockAt { index: 0, id: 1001, size: 20_000 };
    for target in [5_000i64, 8_192 + 9_000, 25_000] {
        let mut stream = make_stream(make_status(40_000, 20_000));
        stream.pos = 9_000;
        stream.stream_opened(block);
        assert_eq!(stream.seek(target), SeekStep::Done(target));
        assert!(!stream.block_in_stream);
        assert_eq!(stream.block_in_stream_block_id, -1);
        assert_eq!(stream.pos(), target);
    }
    let mut stream = make_stream(make_status(40_000, 20_000));
    assert_eq!(stream.seek(-5), SeekStep::Done(0));
    assert_eq!(stream.seek(99_999), SeekStep::Done(40_000));
    assert_eq!(stream.seek_from(SeekFrom::End(-10)), SeekStep::Done(39_990));
    assert_eq!(stream.seek_from(SeekFrom::Current(-90)), SeekStep::Done(39_900));
    assert_eq!(stream.seek_from(SeekFrom::Start(7)), SeekStep::Done(7));
    assert_eq!(stream.seek_from(SeekFrom::Start(u64::MAX)), SeekStep::Done(40_000));
    assert_eq!(stream.seek_from(SeekFrom::End(i64::MAX)), SeekStep::Done(40_000));
}

#[test]
fn sequential_reads_prefer_cache_then_memory_map() {
    let file = file_bytes(1000);
    let mut stream = make_stream(make_status(1000, 600));
    stream.cache = true;
    stream.cache_sequential_read = true;
    let mut buf = [0u8; 64];
    stream.pos = 990;
    match stream.read(&mut buf) {
        ReadStep::ThroughCache { offset, end } => {
            assert_eq!((offset, end), (990, 1000));
            let data = Bytes::copy_from_slice(&file[990..1000]);
            assert_eq!(stream.cached_bytes(&mut buf, &data), 10);
        }
        other => panic!("unexpected {other:?}"),
    }
    assert_eq!(buf[..10], file[990..1000]);
    assert!(stream.is_eof());

    let mut stream = make_stream(make_status(1000, 600));
    stream.short_circuit = true;
    stream.pos = 580;
    let block = match stream.read(&mut buf) {
        ReadStep::AskLocal(block) => block,
        other => panic!("unexpected {other:?}"),
    };
    assert_eq!(block, BlockAt { index: 0, id: 1001, size: 600 });
    assert!(matches!(
        stream.sc_should_use_seq(block, false, 64),
        ReadStep::OpenStream { offset: 580, len: 20, .. }
    ));
    assert!(matches!(stream.sc_should_use_seq(block, true, 64), ReadStep::OpenLocal(_)));
    assert!(matches!(
        stream.sc_sequential_opened(block, true, 64),
        ReadStep::ReadLocal { offset: 580, len: 20, .. }
    ));
    let data = Bytes::copy_from_slice(&file[580..600]);
    let (close, step) = stream.sc_sequential_read(&mut buf, block, 20, Ok(data));
    assert!(!close && matches!(step, ReadStep::Done(20)));
    assert_eq!(buf[..20], file[580..600]);
    assert_eq!(stream.sc_seq_block, 1001);
    stream.pos = 500;
    assert!(matches!(stream.read(&mut buf), ReadStep::OpenLocal(_)));
    let (close, step) =
        stream.sc_sequential_read(&mut buf, block, 20, Err(ShortCircuitError::Other));
    assert!(close && matches!(step, ReadStep::OpenStream { .. }));
    assert_eq!(stream.sc_seq_block, -1);
    let (_, step) = stream.sc_sequential_read(
        &mut buf,
        block,
        20,
        Err(ShortCircuitError::OutOfRange { off: 1, len: 2, file_size: 3 }),
    );
    match step {
        ReadStep::Fail(Error::InvalidArgument { message }) => assert_eq!(
            message,
            "short-circuit sequential read out of range on block 1001: \
             off=1 len=2 block_size=3"
        ),
        other => panic!("unexpected {other:?}"),
    }
}

#[test]
fn a_block_that_is_not_known_fails_the_read() {
    let mut status = make_status(1000, 100);
    status.block_ids = vec![];
    status.file_block_infos = vec![located(0, 0, 1), located(55, 100, 1)];
    let mut stream = make_stream(status);
    let mut buf = [0u8; 8];
    match stream.read(&mut buf) {
        ReadStep::Fail(e) => assert_eq!(
            e,
            Error::Internal { message: "no valid block_id at index 0".to_string() }
        ),
        other => panic!("unexpected {other:?}"),
    }
    assert_eq!(stream.block_id_at(1).unwrap(), 55);
    assert_eq!(stream.block_locations(55).unwrap().len(), 1);
    assert!(matches!(stream.read(&mut []), ReadStep::Done(0)));
}

#[test]
fn positioned_reads_cross_blocks_and_survive_short_reads() {
    let file = file_bytes(1000);
    let stream = make_stream(make_status(1000, 300));
    assert_eq!(stream.read_at(1000, 5), AtStep::Nothing);
    assert_eq!(stream.read_at(10, 0), AtStep::Nothing);
    assert_eq!(stream.read_at(990, usize::MAX), AtStep::External { offset: 990, end: 1000 });
    assert_eq!(stream.read_at(250, 400), AtStep::External { offset: 250, end: 650 });

    let mut read = stream.read_external_range(250, 650);
    let mut parts = 0;
    while !read.is_complete() {
        let part = stream.part_needed(read.cur, read.end).unwrap();
        let start = (part.index as i64 * 300 + part.offset) as usize;
        let n = (part.len as usize).min(120);
        let data = Bytes::copy_from_slice(&file[start..start + n]);
        read.accept(&part, data).unwrap();
        parts += 1;
    }
    assert_eq!(parts, 5);
    assert_eq!(read.finish().as_ref(), &file[250..650]);

    let mut read = stream.read_external_range(310, 320);
    let part = stream.part_needed(read.cur, read.end).unwrap();
    assert_eq!(part, BlockPart { index: 1, id: 1002, size: 300, offset: 10, len: 10 });
    let err = read.accept(&part, Bytes::new()).unwrap_err();
    assert_eq!(
        err,
        Error::Internal {
            message: "read_at: positioned_read returned 0 bytes for block 1002 \
                      offset_in_block 10 length 10"
                .to_string()
        }
    );
    read.accept(&part, Bytes::copy_from_slice(&file[310..320])).unwrap();
    assert!(read.is_complete());
    assert!(read.whole.is_some());
    assert_eq!(read.finish().as_ref(), &file[310..320]);

    let mut read = stream.read_external_range(250, 650);
    let part = stream.part_needed(read.cur, read.end).unwrap();
    let err = read.accept(&part, Bytes::new()).unwrap_err();
    assert_eq!(
        err,
        Error::Internal {
            message: "read_at: positioned_read returned 0 bytes for block 1001 \
                      offset_in_block 250 length 50 (cur=250, end=650)"
                .to_string()
        }
    );
}

#[test]
fn a_short_delivery_in_one_block_is_not_the_whole_result() {
    let file = file_bytes(1000);
    let stream = make_stream(make_status(1000, 300));
    let mut read = stream.read_external_range(310, 320);
    let part = stream.part_needed(read.cur, read.end).unwrap();
    read.accept(&part, Bytes::copy_from_slice(&file[310..314])).unwrap();
    assert!(!read.is_complete());
    assert!(read.whole.is_none());

    let part = stream.part_needed(read.cur, read.end).unwrap();
    assert_eq!(part, BlockPart { index: 1, id: 1002, size: 300, offset: 14, len: 6 });
    assert_eq!(
        read.accept(&part, Bytes::new()).unwrap_err(),
        Error::Internal {
            message: "read_at: positioned_read returned 0 bytes for block 1002 \
                      offset_in_block 14 length 6"
                .to_string()
        }
    );
    read.accept(&part, Bytes::copy_from_slice(&file[314..320])).unwrap();
    assert!(read.is_complete());
    assert_eq!(read.finish().as_ref(), &file[310..320]);

    let read = stream.read_external_range(400, 400);
    assert!(read.is_complete());
    assert!(read.finish().is_empty());
}

#[test]
fn a_read_after_a_far_move_asks_for_a_part_by_itself() {
    let file = file_bytes(40_000);
    let block = BlockAt { index: 0, id: 1001, size: 20_000 };
    let mut buf = [0u8; 64];
    for target in [200i64, 9_000 + 8_192, 25_000, 39_990] {
        let mut stream = make_stream(make_status(40_000, 20_000));
        stream.pos = 9_000;
        stream.stream_opened(block);
        assert_eq!(stream.seek(target), SeekStep::Done(target));
        let part = match stream.read(&mut buf) {
            ReadStep::ReadPart(part) => part,
            other => panic!("unexpected {other:?}"),
        };
        let index = target / 20_000;
        let len = 64.min(40_000 - target);
        assert_eq!(
            part,
            BlockPart {
                index: index as u64,
                id: 1001 + index,
                size: 20_000,
                offset: target % 20_000,
                len,
            }
        );
        assert_eq!(
            stream.positioned_bytes(&mut buf, &part, &Bytes::new()).unwrap_err(),
            Error::Internal {
                message: format!(
                    "read_at: positioned_read returned 0 bytes for block {} \
                     offset_in_block {} length {len}",
                    part.id, part.offset
                )
            }
        );
        let at = target as usize;
        let data = Bytes::copy_from_slice(&file[at..at + 10]);
        assert_eq!(stream.positioned_bytes(&mut buf, &part, &data).unwrap(), 10);
        assert_eq!(buf[..10], file[at..at + 10]);
        assert_eq!(stream.pos(), target + 10);
        match stream.read(&mut buf) {
            ReadStep::OpenStream { offset, .. } => assert_eq!(offset, target % 20_000 + 10),
            ReadStep::Done(0) => assert_eq!(target, 39_990),
            other => panic!("unexpected {other:?}"),
        }
    }
}

#[test]
fn a_read_after_a_short_move_streams() {
    let mut stream = make_stream(make_status(40_000, 20_000));
    let mut buf = [0u8; 64];
    stream.pos = 9_000;
    stream.stream_opened(BlockAt { index: 0, id: 1001, size: 20_000 });
    assert_eq!(stream.seek(5_000), SeekStep::Done(5_000));
    assert!(matches!(
        stream.read(&mut buf),
        ReadStep::OpenStream { offset: 5_000, len: 15_000, .. }
    ));

    for (from, target) in [(99i64, 101i64), (101, 99)] {
        let mut stream = make_stream(make_status(200, 100));
        let index = from as u64 / 100;
        stream.pos = from;
        stream.stream_opened(BlockAt { index, id: 1001 + index as i64, size: 100 });
        assert_eq!(stream.seek(target), SeekStep::Done(target));
        assert!(!stream.block_in_stream);
        assert!(!stream.positioned);
        match stream.read(&mut buf) {
            ReadStep::OpenStream { block, offset, len } => {
                assert_eq!(block.index as i64, target / 100);
                assert_eq!((offset, len), (target % 100, 100 - target % 100));
            }
            other => panic!("unexpected {other:?}"),
        }
    }
}

#[test]
fn a_far_move_is_remembered_over_a_short_one() {
    let mut stream = make_stream(make_status(40_000, 20_000));
    let mut buf = [0u8; 64];
    assert_eq!(stream.seek(30_000), SeekStep::Done(30_000));
    assert_eq!(stream.seek(30_010), SeekStep::Done(30_010));
    assert!(matches!(
        stream.read(&mut buf),
        ReadStep::ReadPart(BlockPart { index: 1, offset: 10_010, len: 64, .. })
    ));
}

#[test]
fn a_far_move_still_prefers_the_memory_map() {
    let file = file_bytes(40_000);
    let mut stream = make_stream(make_status(40_000, 20_000));
    stream.short_circuit = true;
    let mut buf = [0u8; 64];
    assert_eq!(stream.seek(30_000), SeekStep::Done(30_000));
    let block = match stream.read(&mut buf) {
        ReadStep::AskLocal(block) => block,
        other => panic!("unexpected {other:?}"),
    };
    assert!(matches!(
        stream.sc_should_use_seq(block, false, 64),
        ReadStep::ReadPart(BlockPart { index: 1, offset: 10_000, len: 64, .. })
    ));
    assert!(matches!(
        stream.sc_sequential_opened(block, false, 64),
        ReadStep::ReadPart(BlockPart { index: 1, offset: 10_000, len: 64, .. })
    ));
    let data = Bytes::copy_from_slice(&file[30_000..30_064]);
    let (_, step) = stream.sc_sequential_read(&mut buf, block, 64, Ok(data));
    assert!(matches!(step, ReadStep::Done(64)));
    assert_eq!(buf[..], file[30_000..30_064]);
    assert!(!stream.positioned);
}

#[test]
fn all_that_is_left_is_joined() {
    let file = file_bytes(1000);
    let mut whole = WholeRead::start(1000);
    for piece in file.chunks(300) {
        assert!(whole.accept(piece));
    }
    assert!(!whole.accept(&[]));
    assert_eq!(whole.finish().as_ref(), &file[..]);
    assert!(WholeRead::start(0).finish().is_empty());
}

#[test]
fn stream_options_for_the_underlying_storage() {
    let mut status = make_status(1000, 300);
    assert!(make_stream(status.clone()).build_ufs_opts(1).is_none());
    status.ufs_path = "cos://b/f".to_string();
    status.cacheable = false;
    let stream = make_stream(status);
    let opts = stream.build_ufs_opts(2).unwrap();
    assert_eq!(opts.offset_in_file, Some(600));
    assert_eq!(opts.max_ufs_read_concurrency, Some(8));
    assert_eq!(opts.no_cache, Some(true));
    assert_eq!(stream.cache_fill_mode(), FillMode::Never);
    assert_eq!(stream.scratch_capacity(), 64 * 1024);
}

// Reaching workers.

fn worker(host: &str) -> WorkerInfo {
    WorkerInfo {
        id: Some(1),
        address: Some(WorkerNetAddress { host: Some(host.to_string()), rpc_port: Some(1) }),
    }
}

fn auth() -> Error {
    Error::AuthenticationFailed { message: "expired".to_string() }
}

fn refused() -> Error {
    Error::Rpc { message: "refused".to_string() }
}

#[test]
fn access_retries_elsewhere_once() {
    for caller in [Caller::Stream, Caller::Reader] {
        let (s, a) = WorkerAccess::start();
        assert!(matches!(a, Action::Select));
        let (s, a) = s.step(caller, Event::Selected(Ok(worker("a"))));
        assert!(matches!(a, Action::Acquire { addr } if addr == "a:1"));
        let (s, a) = s.step(caller, Event::Connected(Err(refused())));
        match a {
            Action::SelectElsewhere { failed, drop_pooled } => {
                assert_eq!(failed.host.as_deref(), Some("a"));
                let expected = if caller == Caller::Stream { Some("a:1") } else { None };
                assert_eq!(drop_pooled.as_deref(), expected);
            }
            other => panic!("unexpected {other:?}"),
        }
        let (s, a) = s.step(caller, Event::Selected(Ok(worker("b"))));
        assert!(matches!(a, Action::Acquire { addr } if addr == "b:1"));
        let (s, a) = s.step(caller, Event::Connected(Ok(7)));
        assert!(matches!(a, Action::Attempt));
        let (_, a) = s.step(caller, Event::Attempted(Ok(())));
        assert!(matches!(a, Action::Done));
    }
}

#[test]
fn access_reports_the_right_error() {
    for (caller, expected) in [(Caller::Stream, "none left"), (Caller::Reader, "refused")] {
        let (s, _) = WorkerAccess::start();
        let (s, _) = s.step(caller, Event::Selected(Ok(worker("a"))));
        let (s, _) = s.step(caller, Event::Connected(Err(refused())));
        let none = Error::Rpc { message: "none left".to_string() };
        let (_, a) = s.step(caller, Event::Selected(Err(none)));
        match a {
            Action::Fail(Error::Rpc { message }) => assert_eq!(message, expected),
            other => panic!("unexpected {other:?}"),
        }
    }
    for (caller, expected) in
        [(Caller::Stream, "retry worker has no address"), (Caller::Reader, "worker has no address")]
    {
        let (s, _) = WorkerAccess::start();
        let (s, _) = s.step(caller, Event::Selected(Ok(worker("a"))));
        let (s, _) = s.step(caller, Event::Connected(Err(refused())));
        let (_, a) = s.step(caller, Event::Selected(Ok(WorkerInfo::default())));
        match a {
            Action::Fail(Error::Internal { message }) => assert_eq!(message, expected),
            other => panic!("unexpected {other:?}"),
        }
    }
}

#[test]
fn expired_credentials_are_renewed_once() {
    let (s, _) = WorkerAccess::start();
    let (s, _) = s.step(Caller::Reader, Event::Selected(Ok(worker("a"))));
    let (s, a) = s.step(Caller::Reader, Event::Connected(Err(auth())));
    assert!(matches!(a, Action::Reconnect { addr, stale: None } if addr == "a:1"));
    let (s, _) = s.step(Caller::Reader, Event::Connected(Ok(3)));
    let (s, a) = s.step(Caller::Reader, Event::Attempted(Err(auth())));
    assert!(matches!(a, Action::Reconnect { addr, stale: Some(3) } if addr == "a:1"));
    let (s, a) = s.step(Caller::Reader, Event::Connected(Ok(4)));
    assert!(matches!(a, Action::Attempt));
    let (_, a) = s.step(Caller::Reader, Event::Attempted(Err(auth())));
    assert!(matches!(a, Action::Fail(Error::AuthenticationFailed { .. })));

    let (s, _) = WorkerAccess::start();
    let (s, _) = s.step(Caller::Stream, Event::Selected(Ok(worker("a"))));
    let (s, _) = s.step(Caller::Stream, Event::Connected(Ok(3)));
    let (s, a) = s.step(Caller::Stream, Event::Attempted(Err(auth())));
    assert!(matches!(a, Action::Select));
    let (_, a) = s.step(Caller::Stream, Event::Selected(Ok(worker("c"))));
    assert!(matches!(a, Action::Reconnect { addr, stale: Some(3) } if addr == "c:1"));

    let (s, _) = WorkerAccess::start();
    let (s, _) = s.step(Caller::Reader, Event::Selected(Ok(worker("a"))));
    let (s, _) = s.step(Caller::Reader, Event::Connected(Err(refused())));
    let (s, _) = s.step(Caller::Reader, Event::Selected(Ok(worker("b"))));
    let (s, _) = s.step(Caller::Reader, Event::Connected(Ok(5)));
    let (_, a) = s.step(Caller::Reader, Event::Attempted(Err(auth())));
    assert!(matches!(a, Action::Reconnect { addr, stale: Some(5) } if addr == "b:1"));

    let (s, _) = WorkerAccess::start();
    let (s, _) = s.step(Caller::Reader, Event::Selected(Ok(worker("a"))));
    let (s, _) = s.step(Caller::Reader, Event::Connected(Ok(3)));
    let (_, a) = s.step(Caller::Reader, Event::Attempted(Err(refused())));
    assert!(matches!(a, Action::Fail(Error::Rpc { .. })));
}

fn count(r: &mut Registry, n: &str) -> i64 {
    let slot = counter(r, n);
    r.counter_at(slot).get()
}

#[test]
fn local_reads_fall_back_and_are_counted() {
    let mut r = Registry::new();
    let (_, a) = BlockRead::start(false, &mut r);
    assert!(matches!(a, BlockAction::Remote { close_local: false, action: Action::Select }));
    assert_eq!(count(&mut r, name::CLIENT_SC_DECISION_SKIPPED), 1);

    let local = |e: LocalEvent| BlockEvent::Local(e);
    let run = |events: Vec<LocalEvent>, r: &mut Registry| {
        let (mut s, mut a) = BlockRead::start(true, r);
        assert!(matches!(a, BlockAction::Local(LocalAction::Ask)));
        for e in events {
            (s, a) = s.step(Caller::Reader, 9, local(e), r);
        }
        a
    };
    let a = run(vec![LocalEvent::Approved(false)], &mut r);
    assert!(matches!(a, BlockAction::Remote { close_local: false, .. }));
    assert_eq!(count(&mut r, name::CLIENT_SC_DECISION_SKIPPED), 2);
    let a = run(vec![LocalEvent::Approved(true), LocalEvent::Opened(false)], &mut r);
    assert!(matches!(a, BlockAction::Remote { close_local: false, .. }));
    assert_eq!(count(&mut r, name::CLIENT_SC_DECISION_FALLBACK_OPEN), 1);
    let opened = || vec![LocalEvent::Approved(true), LocalEvent::Opened(true)];
    let mut events = opened();
    events.push(LocalEvent::Read(Ok(Bytes::from_static(b"abc"))));
    match run(events, &mut r) {
        BlockAction::Local(LocalAction::Serve(b)) => assert_eq!(b.as_ref(), b"abc"),
        other => panic!("unexpected {other:?}"),
    }
    assert_eq!(count(&mut r, name::CLIENT_SC_DECISION_HIT), 1);
    let mut events = opened();
    events.push(LocalEvent::Read(Err(ShortCircuitError::Other)));
    let a = run(events, &mut r);
    assert!(matches!(a, BlockAction::Remote { close_local: true, action: Action::Select }));
    assert_eq!(count(&mut r, name::CLIENT_SC_DECISION_FALLBACK_READ), 1);
    let mut events = opened();
    events.push(LocalEvent::Read(Err(ShortCircuitError::OutOfRange {
        off: 4,
        len: 5,
        file_size: 6,
    })));
    match run(events, &mut r) {
        BlockAction::Local(LocalAction::Refuse(e)) => assert_eq!(
            e,
            Error::InvalidArgument {
                message: "short-circuit read out of range on block 9: off=4 len=5 block_size=6"
                    .to_string()
            }
        ),
        other => panic!("unexpected {other:?}"),
    }
    assert_eq!(count(&mut r, name::CLIENT_SC_DECISION_SEMANTIC_ERROR), 1);
}
