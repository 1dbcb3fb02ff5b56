use leveldb::batch::{Batch, Operation, Writebatch};
use leveldb::comparator::OrdComparator;
use leveldb::database::compaction::Compaction;
use leveldb::database::engine::{Call, Handle};
use leveldb::database::Database;
use leveldb::error::{Error, ErrorKind};
use leveldb::iterator::DatabaseIterator;
use leveldb::management::{destroy, repair};
use leveldb::options::{
    Compression, NativeReadOptions, NativeWriteOptions, Options, ReadOptions, Setting,
    WriteOptions,
};
use leveldb::snapshots::{RawSnapshot, Snapshot};
use leveldb::version;

const DB: Handle = Handle { address: 0x1000 };

fn opened() -> Database<OrdComparator> {
    Database::open_reply(DB, None, Options::new()).unwrap()
}

fn default_settings() -> Vec<Setting> {
    vec![
        Setting::CreateIfMissing(0),
        Setting::ErrorIfExists(0),
        Setting::ParanoidChecks(0),
        Setting::Compression(Compression::No),
    ]
}

#[test]
fn version_holds_the_two_numbers() {
    let v = version(1, 22);
    assert_eq!(v.major, 1);
    assert_eq!(v.minor, 22);
    let v = version(-3, i32::MAX);
    assert_eq!(v.major, -3);
    assert_eq!(v.minor, i32::MAX as isize);
}

#[test]
fn open_asks_for_the_database_with_its_settings() {
    let mut options = Options::new();
    options.create_if_missing = true;
    let call = Database::open("/tmp/demo", &options);
    let mut settings = default_settings();
    settings[0] = Setting::CreateIfMissing(1);
    assert_eq!(call, Call::Open { name: "/tmp/demo", settings });
}

#[test]
fn open_with_comparator_installs_the_comparator() {
    let comparator = Handle { address: 0x77 };
    let call = Database::open_with_comparator("/tmp/demo", &Options::new(), comparator);
    let mut settings = default_settings();
    settings.push(Setting::Comparator(comparator));
    assert_eq!(call, Call::Open { name: "/tmp/demo", settings });
}

#[test]
fn open_reply_gives_the_database_on_success() {
    let mut options = Options::new();
    options.paranoid_checks = true;
    let db = Database::open_reply(DB, None, options).unwrap();
    assert_eq!(db.handle(), DB);
    assert_eq!(*db.options(), options);
    assert_eq!(db.installed(), None);
}

#[test]
fn open_reply_gives_the_failure_that_the_engine_reports() {
    let status = Some("Invalid argument: /tmp/demo: exists (error_if_exists is true)".to_string());
    let error = Database::open_reply(Handle::null(), status, Options::new()).err().unwrap();
    assert_eq!(error.kind(), ErrorKind::InvalidArgument);
    assert_eq!(error.message(), "Invalid argument: /tmp/demo: exists (error_if_exists is true)");
}

#[test]
fn open_with_comparator_reply_keeps_the_comparator_on_success() {
    let native = Handle { address: 0x77 };
    let (result, release) =
        Database::open_with_comparator_reply(DB, None, Options::new(), OrdComparator, native);
    let db = result.unwrap();
    assert_eq!(db.handle(), DB);
    assert_eq!(db.installed(), Some(native));
    assert_eq!(release, None);
}

#[test]
fn open_with_comparator_reply_releases_the_comparator_on_failure() {
    let native = Handle { address: 0x77 };
    let status = Some("IO error: lock /tmp/demo/LOCK: already held by process".to_string());
    let (result, release) = Database::open_with_comparator_reply(
        Handle::null(),
        status,
        Options::new(),
        OrdComparator,
        native,
    );
    assert_eq!(result.err().unwrap().kind(), ErrorKind::IOError);
    assert_eq!(release, Some(Call::ComparatorDestroy { comparator: native }));
}

#[test]
fn put_asks_for_the_entry_to_be_set() {
    let db = opened();
    let call = db.put(&WriteOptions::new(), b"key", b"value");
    assert_eq!(
        call,
        Call::Put { db: DB, options: NativeWriteOptions { sync: 0 }, key: b"key", value: b"value" }
    );
    let call = db.put(&WriteOptions { sync: true }, b"", b"");
    assert_eq!(
        call,
        Call::Put { db: DB, options: NativeWriteOptions { sync: 1 }, key: b"", value: b"" }
    );
}

#[test]
fn delete_asks_for_the_entry_to_be_removed() {
    let db = opened();
    let call = db.delete(&WriteOptions { sync: true }, b"key");
    assert_eq!(call, Call::Delete { db: DB, options: NativeWriteOptions { sync: 1 }, key: b"key" });
}

#[test]
fn get_bytes_asks_for_the_entry() {
    let db = opened();
    let call = db.get_bytes(&ReadOptions::new(), b"key");
    assert_eq!(
        call,
        Call::Get {
            db: DB,
            options: NativeReadOptions { verify_checksums: 0, fill_cache: 1, snapshot: None },
            key: b"key",
        }
    );
}

#[test]
fn get_bytes_reply_gives_the_value_that_was_found() {
    let result = Database::<OrdComparator>::get_bytes_reply(Some(vec![1, 2, 3]), None);
    let bytes = result.unwrap().unwrap();
    assert_eq!(bytes.as_slice(), &[1, 2, 3]);
    assert_eq!(bytes.len(), 3);
    assert_eq!(bytes.into_vec(), vec![1, 2, 3]);
}

#[test]
fn get_bytes_reply_gives_an_empty_value_as_a_value() {
    let result = Database::<OrdComparator>::get_bytes_reply(Some(Vec::new()), None);
    let bytes = result.unwrap().unwrap();
    assert_eq!(bytes.len(), 0);
}

#[test]
fn a_key_without_an_entry_is_no_failure() {
    let result = Database::<OrdComparator>::get_bytes_reply(None, None);
    assert_eq!(result, Ok(None));
}

#[test]
fn get_bytes_reply_gives_the_failure_that_the_engine_reports() {
    let status = Some("Corruption: block checksum mismatch".to_string());
    let result = Database::<OrdComparator>::get_bytes_reply(None, status);
    assert_eq!(result.unwrap_err().kind(), ErrorKind::Corruption);
    let status = Some("Corruption: block checksum mismatch".to_string());
    let result = Database::<OrdComparator>::get_bytes_reply(Some(vec![9]), status);
    assert_eq!(result.unwrap_err().kind(), ErrorKind::Corruption);
}

#[test]
fn write_hands_over_the_whole_batch_in_one_call() {
    let db = opened();
    let mut batch = Writebatch::new();
    batch.put(b"x", b"1");
    batch.delete(b"y");
    batch.put(b"z", b"2");
    let call = db.write(WriteOptions { sync: true }, &batch);
    let operations = vec![
        Operation::Put { key: b"x".to_vec(), value: b"1".to_vec() },
        Operation::Delete { key: b"y".to_vec() },
        Operation::Put { key: b"z".to_vec(), value: b"2".to_vec() },
    ];
    assert_eq!(
        call,
        Call::Write { db: DB, options: NativeWriteOptions { sync: 1 }, operations: &operations }
    );
}

#[test]
fn a_batch_can_be_written_to_several_databases() {
    let first = opened();
    let second = Database::open_reply(Handle { address: 0x2000 }, None, Options::new()).unwrap();
    let mut batch = Writebatch::new();
    batch.put(b"x", b"1");
    let a = first.write(WriteOptions::new(), &batch);
    let b = second.write(WriteOptions::new(), &batch);
    assert!(matches!(a, Call::Write { db, operations, .. } if db == DB && operations.len() == 1));
    assert!(matches!(b, Call::Write { db, operations, .. }
        if db == Handle { address: 0x2000 } && operations.len() == 1));
}

#[test]
fn compact_hands_on_the_bounds() {
    let db = opened();
    assert_eq!(
        db.compact(b"a", b"m"),
        Call::CompactRange { db: DB, start: Some(b"a"), limit: Some(b"m") }
    );
}

#[test]
fn compact_with_empty_bounds_covers_the_entire_keyspace() {
    let db = opened();
    assert_eq!(db.compact(b"", b""), Call::CompactRange { db: DB, start: None, limit: None });
    assert_eq!(db.compact(b"", b"m"), Call::CompactRange { db: DB, start: None, limit: Some(b"m") });
    assert_eq!(db.compact(b"a", b""), Call::CompactRange { db: DB, start: Some(b"a"), limit: None });
}

#[test]
fn the_compaction_trait_asks_for_the_same_call() {
    let db = opened();
    assert_eq!(Compaction::compact(&db, b"a", b""), db.compact(b"a", b""));
    assert_eq!(
        Compaction::compact(&db, b"", b"z"),
        Call::CompactRange { db: DB, start: None, limit: Some(b"z") }
    );
}

#[test]
fn iter_asks_for_an_iterator() {
    let db = opened();
    let call = db.iter(&ReadOptions { verify_checksums: true, fill_cache: false, snapshot: None });
    assert_eq!(
        call,
        Call::CreateIterator {
            db: DB,
            options: NativeReadOptions { verify_checksums: 1, fill_cache: 0, snapshot: None },
        }
    );
}

#[test]
fn snapshot_asks_for_a_snapshot() {
    let db = opened();
    assert_eq!(db.snapshot(), Call::CreateSnapshot { db: DB });
}

#[test]
fn a_snapshot_binds_itself_into_the_read_options() {
    let db = opened();
    let snapshot = Snapshot::new(&db, Handle { address: 0x5 });
    assert_eq!(snapshot.raw_handle(), Handle { address: 0x5 });
    assert_eq!(snapshot.raw.db_ptr, DB);
    let mut options = ReadOptions::new();
    options.verify_checksums = true;
    let call = snapshot.get(&mut options, b"key");
    assert_eq!(options.snapshot, Some(&snapshot.raw));
    assert!(options.verify_checksums);
    assert!(options.fill_cache);
    assert_eq!(
        call,
        Call::Get {
            db: DB,
            options: NativeReadOptions {
                verify_checksums: 1,
                fill_cache: 1,
                snapshot: Some(Handle { address: 0x5 }),
            },
            key: b"key",
        }
    );
}

#[test]
fn a_snapshot_replaces_another_snapshot_in_the_read_options() {
    let db = opened();
    let first = Snapshot::new(&db, Handle { address: 0x5 });
    let second = Snapshot::new(&db, Handle { address: 0x6 });
    let mut options = ReadOptions::new();
    options.snapshot = Some(&first.raw);
    let call = second.iter(&mut options);
    assert_eq!(
        call,
        Call::CreateIterator {
            db: DB,
            options: NativeReadOptions {
                verify_checksums: 0,
                fill_cache: 1,
                snapshot: Some(Handle { address: 0x6 }),
            },
        }
    );
}

#[test]
fn a_snapshot_is_released_on_its_database() {
    let db = opened();
    let snapshot = Snapshot::new(&db, Handle { address: 0x5 });
    assert_eq!(
        snapshot.release(),
        Call::ReleaseSnapshot { db: DB, snapshot: Handle { address: 0x5 } }
    );
    let raw = RawSnapshot { db_ptr: Handle { address: 1 }, ptr: Handle { address: 2 } };
    assert_eq!(
        raw.release(),
        Call::ReleaseSnapshot { db: Handle { address: 1 }, snapshot: Handle { address: 2 } }
    );
}

#[test]
fn an_iterator_is_freed_by_its_handle() {
    let db = opened();
    let cursor = DatabaseIterator::new(&db, Handle { address: 0x9 });
    assert_eq!(cursor.close(), Call::IterDestroy { iter: Handle { address: 0x9 } });
}

#[test]
fn close_closes_the_engine_instance() {
    let db = opened();
    assert_eq!(db.close(), vec![Call::Close { db: DB }]);
}

#[test]
fn close_destroys_the_comparator_after_the_engine_instance() {
    let native = Handle { address: 0x77 };
    let (result, _) =
        Database::open_with_comparator_reply(DB, None, Options::new(), OrdComparator, native);
    let calls = result.unwrap().close();
    assert_eq!(calls, vec![Call::Close { db: DB }, Call::ComparatorDestroy { comparator: native }]);
}

#[test]
fn destroy_asks_for_the_database_to_be_destroyed() {
    let call = destroy("/tmp/demo", &Options::new());
    assert_eq!(call, Call::DestroyDb { name: "/tmp/demo", settings: default_settings() });
    let status = Some("IO error: /tmp/demo/LOCK: Permission denied".to_string());
    assert_eq!(Error::from_status(status).unwrap_err().kind(), ErrorKind::IOError);
}

#[test]
fn repair_asks_for_the_database_to_be_repaired() {
    let mut options = Options::new();
    options.paranoid_checks = true;
    let call = repair("/tmp/demo", &options);
    let mut settings = default_settings();
    settings[2] = Setting::ParanoidChecks(1);
    assert_eq!(call, Call::RepairDb { name: "/tmp/demo", settings });
    assert_eq!(Error::from_status(None), Ok(()));
}
