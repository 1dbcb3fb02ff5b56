use leveldb::database::engine::Handle;
use leveldb::options::{
    c_options, c_readoptions, c_writeoptions, flag, Compression, NativeReadOptions,
    NativeWriteOptions, Options, ReadOptions, Setting, WriteOptions,
};
use leveldb::snapshots::RawSnapshot;

#[test]
fn options_default_to_the_documented_values() {
    let options = Options::new();
    assert!(!options.create_if_missing);
    assert!(!options.error_if_exists);
    assert!(!options.paranoid_checks);
    assert_eq!(options.write_buffer_size, None);
    assert_eq!(options.max_open_files, None);
    assert_eq!(options.block_size, None);
    assert_eq!(options.block_restart_interval, None);
    assert_eq!(options.compression, Compression::No);
    assert_eq!(Options::default(), options);
}

#[test]
fn write_options_default_to_no_sync() {
    assert!(!WriteOptions::new().sync);
    assert_eq!(WriteOptions::default(), WriteOptions::new());
}

#[test]
fn read_options_default_to_filling_the_cache() {
    let options = ReadOptions::new();
    assert!(!options.verify_checksums);
    assert!(options.fill_cache);
    assert!(options.snapshot.is_none());
    let options = ReadOptions::default();
    assert!(!options.verify_checksums);
    assert!(options.fill_cache);
    assert!(options.snapshot.is_none());
}

#[test]
fn flag_is_one_for_true_and_zero_for_false() {
    assert_eq!(flag(true), 1);
    assert_eq!(flag(false), 0);
}

#[test]
fn default_options_set_the_flags_and_the_compression_only() {
    let settings = c_options(&Options::new(), None);
    assert_eq!(
        settings,
        vec![
            Setting::CreateIfMissing(0),
            Setting::ErrorIfExists(0),
            Setting::ParanoidChecks(0),
            Setting::Compression(Compression::No),
        ]
    );
}

#[test]
fn every_override_and_the_comparator_are_set_in_order() {
    let options = Options {
        create_if_missing: true,
        error_if_exists: true,
        paranoid_checks: true,
        write_buffer_size: Some(4096),
        max_open_files: Some(17),
        block_size: Some(512),
        block_restart_interval: Some(8),
        compression: Compression::Snappy,
    };
    let comparator = Handle { address: 0xbeef };
    let settings = c_options(&options, Some(comparator));
    assert_eq!(
        settings,
        vec![
            Setting::CreateIfMissing(1),
            Setting::ErrorIfExists(1),
            Setting::ParanoidChecks(1),
            Setting::WriteBufferSize(4096),
            Setting::MaxOpenFiles(17),
            Setting::BlockSize(512),
            Setting::BlockRestartInterval(8),
            Setting::Compression(Compression::Snappy),
            Setting::Comparator(comparator),
        ]
    );
}

#[test]
fn an_override_that_is_not_given_makes_no_setter_call() {
    let mut options = Options::new();
    options.create_if_missing = true;
    options.max_open_files = Some(-1);
    options.block_restart_interval = Some(0);
    let settings = c_options(&options, None);
    assert_eq!(
        settings,
        vec![
            Setting::CreateIfMissing(1),
            Setting::ErrorIfExists(0),
            Setting::ParanoidChecks(0),
            Setting::MaxOpenFiles(-1),
            Setting::BlockRestartInterval(0),
            Setting::Compression(Compression::No),
        ]
    );
}

#[test]
fn write_options_translate_sync_to_a_flag() {
    assert_eq!(c_writeoptions(&WriteOptions { sync: false }), NativeWriteOptions { sync: 0 });
    assert_eq!(c_writeoptions(&WriteOptions { sync: true }), NativeWriteOptions { sync: 1 });
}

#[test]
fn read_options_translate_their_flags() {
    let options = ReadOptions { verify_checksums: true, fill_cache: false, snapshot: None };
    assert_eq!(
        c_readoptions(&options),
        NativeReadOptions { verify_checksums: 1, fill_cache: 0, snapshot: None }
    );
    assert_eq!(
        c_readoptions(&ReadOptions::new()),
        NativeReadOptions { verify_checksums: 0, fill_cache: 1, snapshot: None }
    );
}

#[test]
fn read_options_carry_the_handle_of_their_snapshot() {
    let raw = RawSnapshot { db_ptr: Handle { address: 1 }, ptr: Handle { address: 2 } };
    let options = ReadOptions { verify_checksums: false, fill_cache: true, snapshot: Some(&raw) };
    assert_eq!(
        c_readoptions(&options),
        NativeReadOptions {
            verify_checksums: 0,
            fill_cache: 1,
            snapshot: Some(Handle { address: 2 }),
        }
    );
}

#[test]
fn the_null_handle_refers_to_nothing() {
    assert!(Handle::null().is_null());
    assert_eq!(Handle::null().address, 0);
    assert!(!Handle { address: 8 }.is_null());
}
