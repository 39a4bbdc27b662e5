use goosefs_client::block::short_circuit::sigbus::{
    install_if_enabled, write_hex, SigbusHandler, SIGBUS_MESSAGE,
};
use goosefs_client::config::write_type::WriteType;
use goosefs_client::fs::options::{
    CreateFileOptions, DeleteOptions, GetStatusOptions, InStreamOptions, ListStatusOptions,
    OpenFileOptions, ReadType,
};
use goosefs_client::fs::write_type::WriteTypeXAttr;
use goosefs_client::python::options::{
    PyCreateFileOptions, PyDeleteOptions, PyOpenFileOptions, PyReadType, PyWriteType,
};

#[test]
fn test_default_delete_options() {
    let opts = DeleteOptions::default();
    assert!(!opts.recursive);
    assert!(!opts.unchecked);
    assert!(!opts.goosefs_only);
}

#[test]
fn test_recursive_helper() {
    let opts = DeleteOptions::recursive();
    assert!(opts.recursive);
    assert!(!opts.unchecked);
    assert!(!opts.goosefs_only);
}

#[test]
fn test_for_cancel_helper() {
    let opts = DeleteOptions::for_cancel();
    assert!(!opts.recursive);
    assert!(opts.unchecked);
    assert!(!opts.goosefs_only);
}

#[test]
fn test_goosefs_only_unchecked_helper() {
    let opts = DeleteOptions::goosefs_only_unchecked();
    assert!(!opts.recursive);
    assert!(opts.unchecked);
    assert!(opts.goosefs_only);
}

#[test]
fn test_read_type_default_is_cache() {
    assert_eq!(ReadType::default(), ReadType::Cache);
}

#[test]
fn test_read_type_proto_values() {
    assert_eq!(ReadType::NoCache.to_proto(), 1);
    assert_eq!(ReadType::Cache.to_proto(), 2);
}

#[test]
fn test_in_stream_defaults() {
    let opts = InStreamOptions::default();
    assert_eq!(opts.read_type, ReadType::Cache);
    assert!(!opts.position_short);
    assert_eq!(opts.max_ufs_read_concurrency, 8);
    assert_eq!(opts.prefetch_window, 1);
}

#[test]
fn test_in_stream_no_cache() {
    let opts = InStreamOptions::no_cache();
    assert_eq!(opts.read_type, ReadType::NoCache);
}

#[test]
fn test_in_stream_positioned() {
    let opts = InStreamOptions::default().positioned();
    assert!(opts.position_short);
}

#[test]
fn test_open_file_default() {
    let opts = OpenFileOptions::default();
    assert_eq!(opts.in_stream_options.read_type, ReadType::Cache);
}

#[test]
fn test_open_file_no_cache() {
    let opts = OpenFileOptions::no_cache();
    assert_eq!(opts.in_stream_options.read_type, ReadType::NoCache);
}

#[test]
fn test_create_file_default_inherits() {
    let opts = CreateFileOptions::default();
    assert_eq!(opts.write_type, WriteTypeXAttr::Inherit);
    assert!(opts.block_size_bytes.is_none());
    assert!(!opts.recursive);
}

#[test]
fn test_create_file_with_write_type() {
    let opts = CreateFileOptions::with_write_type(WriteType::CacheThrough);
    assert_eq!(
        opts.write_type,
        WriteTypeXAttr::Explicit(WriteType::CacheThrough)
    );
}

#[test]
fn test_get_status_options_always_sync() {
    let opts = GetStatusOptions::always_sync();
    assert_eq!(opts.sync_interval_ms, Some(0));
}

#[test]
fn test_list_status_options_recursive_skips_defaults() {
    let opts = ListStatusOptions::recursive();
    assert!(opts.recursive);
    assert!(opts.sync_interval_ms.is_none());
    assert!(!opts.load_metadata_only);
}

#[test]
fn new_options_are_the_defaults() {
    assert_eq!(OpenFileOptions::new(), OpenFileOptions::default());
    assert_eq!(ListStatusOptions::new(), ListStatusOptions::default());
    assert_eq!(GetStatusOptions::default().sync_interval_ms, None);
    assert_eq!(InStreamOptions::no_cache().max_ufs_read_concurrency, 8);
}

#[test]
fn delete_options_round_trip() {
    let py = PyDeleteOptions::new(true, false, true);
    let sdk = py.into_sdk();
    assert!(sdk.recursive);
    assert!(!sdk.unchecked);
    assert!(sdk.goosefs_only);
}

#[test]
fn create_file_inherit_when_no_write_type() {
    let py = PyCreateFileOptions::new(None, Some(4 * 1024 * 1024), None, true);
    let sdk = py.into_sdk();
    assert_eq!(sdk.write_type, WriteTypeXAttr::Inherit);
    assert_eq!(sdk.block_size_bytes, Some(4 * 1024 * 1024));
    assert!(sdk.recursive);
}

#[test]
fn create_file_explicit_write_type() {
    let py = PyCreateFileOptions::new(Some(PyWriteType::CacheThrough), None, None, false);
    let sdk = py.into_sdk();
    assert!(matches!(sdk.write_type, WriteTypeXAttr::Explicit(WriteType::CacheThrough)));
}

#[test]
fn open_file_omitted_read_type_inherits_cache() {
    let py = PyOpenFileOptions::new(None);
    assert_eq!(py.read_type(), PyReadType::Cache);
    let sdk = py.into_sdk();
    assert_eq!(sdk.in_stream_options.read_type, ReadType::Cache);
    assert!(sdk.inherit_read_type);
}

#[test]
fn open_file_explicit_cache_does_not_inherit() {
    let py = PyOpenFileOptions::new(Some(PyReadType::Cache));
    let sdk = py.into_sdk();
    assert_eq!(sdk.in_stream_options.read_type, ReadType::Cache);
    assert!(!sdk.inherit_read_type);
}

#[test]
fn open_file_explicit_no_cache_does_not_inherit() {
    let py = PyOpenFileOptions::new(Some(PyReadType::NoCache));
    let sdk = py.into_sdk();
    assert_eq!(sdk.in_stream_options.read_type, ReadType::NoCache);
    assert!(!sdk.inherit_read_type);
    assert!(sdk.update_last_access_time);
}

#[test]
fn options_describe_themselves() {
    assert_eq!(PyOpenFileOptions::new(None).repr(), "OpenFileOptions(read_type=Cache)");
    assert_eq!(
        PyOpenFileOptions::new(Some(PyReadType::NoCache)).repr(),
        "OpenFileOptions(read_type=NoCache)"
    );
    assert_eq!(
        PyCreateFileOptions::new(Some(PyWriteType::Through), Some(-4), None, true).repr(),
        "CreateFileOptions(write_type=Some(Through), block_size_bytes=Some(-4), \
         replication_max=None, recursive=true)"
    );
    assert_eq!(
        PyCreateFileOptions::new(None, None, Some(3), false).repr(),
        "CreateFileOptions(write_type=None, block_size_bytes=None, replication_max=Some(3), \
         recursive=false)"
    );
    assert_eq!(
        PyDeleteOptions::new(false, true, false).repr(),
        "DeleteOptions(recursive=false, unchecked=true, goosefs_only=false)"
    );
}

#[test]
fn install_disabled_is_noop() {
    let mut handler = SigbusHandler::new();
    install_if_enabled(&mut handler, false);
    install_if_enabled(&mut handler, false);
    assert!(!handler.installed);
}

#[test]
fn the_handler_is_registered_once() {
    let mut handler = SigbusHandler::new();
    assert!(!install_if_enabled(&mut handler, false));
    assert!(install_if_enabled(&mut handler, true));
    assert!(!install_if_enabled(&mut handler, true));
    assert!(!install_if_enabled(&mut handler, false));
}

#[test]
fn addresses_are_written_in_hexadecimal() {
    for addr in [0usize, 1, 9, 10, 15, 16, 255, 4096, 0xdead_beef, usize::MAX] {
        let mut buf = [0u8; 16];
        let start = write_hex(addr, &mut buf);
        assert_eq!(buf[start..], *format!("{addr:x}").as_bytes());
    }
    assert!(SIGBUS_MESSAGE.ends_with("fault_addr=0x"));
}
