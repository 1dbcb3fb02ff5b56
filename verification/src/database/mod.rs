//! The main database module, allowing to interface with leveldb on
//! a key-value basis.
use crate::database::bytes::Bytes;
use crate::database::comparator::{Comparator, OrdComparator};
use crate::database::engine::{Call, Handle};
use crate::database::error::Error;
use crate::database::options::{
    c_options, c_readoptions, c_writeoptions, Options, ReadOptions, WriteOptions,
};
use vstd::prelude::*;

pub mod batch;
pub mod bytes;
pub mod compaction;
pub mod comparator;
pub mod engine;
pub mod error;
pub mod iterator;
pub mod keyspace;
pub mod management;
pub mod options;
pub mod snapshots;
pub mod traversal;

verus! {

struct RawDB {
    ptr: Handle,
}

/// The main database object.
///
/// leveldb databases are based on ordered keys. By default, leveldb orders
/// by the binary value of the key. Additionally, a custom `Comparator` can
/// be passed when opening the database. This library ships with a `Comparator`
/// implementation that orders keys by their bytes.
///
/// When re-opening a database, you must use the same comparator.
///
/// A `Database` stands for one open engine instance. It keeps the options
/// that the instance was opened with and the comparator that orders its keys.
/// Its methods decide the calls that are made on the instance; `close` takes
/// the database and so ends it once.
pub struct Database<C: Comparator> {
    database: RawDB,
    options: Options,
    comparator: C,
    installed: Option<Handle>,
}

/// The bound of a compaction that a key stands for: an empty key stands for
/// the end of the keyspace on its side.
pub open spec fn compaction_bound(key: &[u8]) -> Option<&[u8]> {
    if key@.len() == 0 {
        None
    } else {
        Some(key)
    }
}

impl Database<OrdComparator> {
    /// Open a new database
    ///
    /// If the database is missing, the behaviour depends on `options.create_if_missing`.
    /// The database will be created using the settings given in `options`.
    ///
    /// The keys of the database are ordered by their bytes. What the engine
    /// answers to the call goes to `open_reply`.
    pub fn open<'a>(name: &'a str, options: &Options) -> (call: Call<'a>)
        ensures
            call matches Call::Open { name: n, settings } && n == name && settings@
                == crate::database::options::native_options(*options, None),
    {
        Call::Open { name, settings: c_options(options, None) }
    }

    /// Open a new database whose keys are ordered by the native comparator
    /// `comparator`.
    ///
    /// Opening a database with a comparator whose name differs from the one
    /// that it was created with fails. What the engine answers to the call
    /// goes to `open_with_comparator_reply`.
    pub fn open_with_comparator<'a>(name: &'a str, options: &Options, comparator: Handle) -> (call:
        Call<'a>)
        ensures
            call matches Call::Open { name: n, settings } && n == name && settings@
                == crate::database::options::native_options(*options, Some(comparator)),
    {
        Call::Open { name, settings: c_options(options, Some(comparator)) }
    }

    /// The database that `open` asked for, from the handle and the status
    /// that the engine answered: the database where the status reports
    /// success, and otherwise the failure that it reports.
    pub fn open_reply(database: Handle, status: Option<String>, options: Options) -> (result:
        Result<Database<OrdComparator>, Error>)
        ensures
            crate::database::error::is_success(status) <==> result is Ok,
            result matches Ok(db) ==> db.handle() == database && *db.options() == options
                && *db.comparator() == OrdComparator && db.installed() == None::<Handle>,
            result matches Err(error) ==> error.spec_message() == status->0@ && error.spec_kind()
                == crate::database::error::kind_of(status->0@),
    {
        match Error::from_status(status) {
            Ok(()) => Ok(Database::new(database, options, OrdComparator, None)),
            Err(error) => Err(error),
        }
    }
}

impl<C: Comparator> Database<C> {
    /// The handle of the engine instance.
    pub closed spec fn spec_handle(&self) -> Handle {
        self.database.ptr
    }

    /// The options that the database was opened with.
    pub closed spec fn spec_options(&self) -> &Options {
        &self.options
    }

    /// The comparator that orders the keys of the database.
    pub closed spec fn spec_comparator(&self) -> &C {
        &self.comparator
    }

    /// The native comparator that is installed in the engine, if the keys are
    /// not ordered by the engine's own comparison.
    pub closed spec fn spec_installed(&self) -> Option<Handle> {
        self.installed
    }

    fn new(database: Handle, options: Options, comparator: C, installed: Option<Handle>) -> (db:
        Database<C>)
        ensures
            db.handle() == database,
            *db.options() == options,
            *db.comparator() == comparator,
            db.installed() == installed,
    {
        Database { database: RawDB { ptr: database }, options, comparator, installed }
    }

    /// The database that `open_with_comparator` asked for, from the handle and
    /// the status that the engine answered, and the call that is left to make.
    ///
    /// Where the status reports success, the database owns `comparator` and
    /// its native form `native` from now on, and nothing is left to do. Where
    /// it reports a failure, no database holds the native comparator: the call
    /// that destroys it is handed back with the failure.
    pub fn open_with_comparator_reply(
        database: Handle,
        status: Option<String>,
        options: Options,
        comparator: C,
        native: Handle,
    ) -> (reply: (Result<Database<C>, Error>, Option<Call<'static>>))
        ensures
            crate::database::error::is_success(status) <==> reply.0 is Ok,
            reply.0 matches Ok(db) ==> db.handle() == database && *db.options() == options
                && *db.comparator() == comparator && db.installed() == Some(native),
            reply.0 matches Err(error) ==> error.spec_message() == status->0@ && error.spec_kind()
                == crate::database::error::kind_of(status->0@),
            reply.0 is Ok ==> reply.1 is None,
            reply.0 is Err ==> reply.1 == Some(Call::ComparatorDestroy { comparator: native }),
    {
        match Error::from_status(status) {
            Ok(()) => (Ok(Database::new(database, options, comparator, Some(native))), None),
            Err(error) => (Err(error), Some(Call::ComparatorDestroy { comparator: native })),
        }
    }

    /// The call that `put` makes.
    pub open spec fn spec_put<'a>(
        &self,
        options: &WriteOptions,
        key: &'a [u8],
        value: &'a [u8],
    ) -> Call<'a> {
        Call::Put {
            db: self.handle(),
            options: crate::database::options::native_writeoptions(*options),
            key,
            value,
        }
    }

    /// put a binary value into the database.
    ///
    /// If the key is already present in the database, it will be overwritten.
    ///
    /// The passed key will be compared using the comparator.
    ///
    /// The database will be synced to disc if `options.sync == true`. This is
    /// NOT the default.
    ///
    /// The status that the engine answers goes to `Error::from_status`.
    #[verifier::when_used_as_spec(spec_put)]
    pub fn put<'a>(&self, options: &WriteOptions, key: &'a [u8], value: &'a [u8]) -> (call: Call<
        'a,
    >)
        ensures
            call == self.spec_put(options, key, value),
    {
        Call::Put { db: self.database.ptr, options: c_writeoptions(options), key, value }
    }

    /// The call that `delete` makes.
    pub open spec fn spec_delete<'a>(&self, options: &WriteOptions, key: &'a [u8]) -> Call<'a> {
        Call::Delete {
            db: self.handle(),
            options: crate::database::options::native_writeoptions(*options),
            key,
        }
    }

    /// delete a value from the database.
    ///
    /// The passed key will be compared using the comparator.
    ///
    /// The database will be synced to disc if `options.sync == true`. This is
    /// NOT the default.
    ///
    /// The status that the engine answers goes to `Error::from_status`.
    #[verifier::when_used_as_spec(spec_delete)]
    pub fn delete<'a>(&self, options: &WriteOptions, key: &'a [u8]) -> (call: Call<'a>)
        ensures
            call == self.spec_delete(options, key),
    {
        Call::Delete { db: self.database.ptr, options: c_writeoptions(options), key }
    }

    /// The call that `get_bytes` makes.
    pub open spec fn spec_get_bytes<'a>(&self, options: &ReadOptions, key: &'a [u8]) -> Call<'a> {
        Call::Get {
            db: self.handle(),
            options: crate::database::options::native_readoptions(*options),
            key,
        }
    }

    /// get the value of a key from the database.
    ///
    /// The read is made on the snapshot of `options`, if it has one, and on
    /// the current state of the database otherwise. What the engine answers
    /// goes to `get_bytes_reply`.
    #[verifier::when_used_as_spec(spec_get_bytes)]
    pub fn get_bytes<'a>(&self, options: &ReadOptions, key: &'a [u8]) -> (call: Call<'a>)
        ensures
            call == self.spec_get_bytes(options, key),
    {
        Call::Get { db: self.database.ptr, options: c_readoptions(options), key }
    }

    /// The result of a read, from the value that the engine found and the
    /// status that it answered: the failure where the status reports one, and
    /// otherwise the value, or none where the key has no entry. That a key
    /// has no entry is no failure.
    pub fn get_bytes_reply(found: Option<Vec<u8>>, status: Option<String>) -> (result: Result<
        Option<Bytes>,
        Error,
    >)
        ensures
            crate::database::error::is_success(status) <==> result is Ok,
            result matches Ok(bytes) ==> (found is None <==> bytes is None),
            result matches Ok(Some(bytes)) ==> bytes@ == found->0@,
            result matches Err(error) ==> error.spec_message() == status->0@ && error.spec_kind()
                == crate::database::error::kind_of(status->0@),
    {
        match Error::from_status(status) {
            Ok(()) => Ok(Bytes::from_raw(found)),
            Err(error) => Err(error),
        }
    }

    /// The call that `iter` makes.
    pub open spec fn spec_iter(&self, options: &ReadOptions) -> Call<'static> {
        Call::CreateIterator {
            db: self.handle(),
            options: crate::database::options::native_readoptions(*options),
        }
    }

    /// Asks the engine for an iterator over the database, or over the
    /// snapshot of `options` if it has one. The handle that the engine
    /// answers goes to `DatabaseIterator::new`.
    #[verifier::when_used_as_spec(spec_iter)]
    pub fn iter(&self, options: &ReadOptions) -> (call: Call<'static>)
        ensures
            call == self.spec_iter(options),
    {
        Call::CreateIterator { db: self.database.ptr, options: c_readoptions(options) }
    }

    /// The call that `snapshot` makes.
    pub open spec fn spec_snapshot(&self) -> Call<'static> {
        Call::CreateSnapshot { db: self.handle() }
    }

    /// Asks the engine for a snapshot of the database as it is now. The
    /// handle that the engine answers goes to `Snapshot::new`.
    #[verifier::when_used_as_spec(spec_snapshot)]
    pub fn snapshot(&self) -> (call: Call<'static>)
        ensures
            call == self.spec_snapshot(),
    {
        Call::CreateSnapshot { db: self.database.ptr }
    }

    /// Asks the engine to compact the keys from `start` to `limit`. An empty
    /// `start` stands for the beginning of the keyspace and an empty `limit`
    /// for its end: with both empty, the entire keyspace is compacted.
    pub fn compact<'a>(&self, start: &'a [u8], limit: &'a [u8]) -> (call: Call<'a>)
        ensures
            call == (Call::CompactRange {
                db: self.handle(),
                start: compaction_bound(start),
                limit: compaction_bound(limit),
            }),
    {
        let start = if start.len() == 0 {
            None
        } else {
            Some(start)
        };
        let limit = if limit.len() == 0 {
            None
        } else {
            Some(limit)
        };
        Call::CompactRange { db: self.database.ptr, start, limit }
    }

    /// The handle of the engine instance.
    #[verifier::when_used_as_spec(spec_handle)]
    pub fn handle(&self) -> (handle: Handle)
        ensures
            handle == self.spec_handle(),
    {
        self.database.ptr
    }

    /// The options that the database was opened with.
    #[verifier::when_used_as_spec(spec_options)]
    pub fn options(&self) -> (options: &Options)
        ensures
            options == self.spec_options(),
    {
        &self.options
    }

    /// The comparator that orders the keys of the database.
    #[verifier::when_used_as_spec(spec_comparator)]
    pub fn comparator(&self) -> (comparator: &C)
        ensures
            comparator == self.spec_comparator(),
    {
        &self.comparator
    }

    /// The native comparator that is installed in the engine, if the keys are
    /// not ordered by the engine's own comparison.
    #[verifier::when_used_as_spec(spec_installed)]
    pub fn installed(&self) -> (installed: Option<Handle>)
        ensures
            installed == self.spec_installed(),
    {
        self.installed
    }

    /// Ends the database: the calls that release what it holds, in the order
    /// in which they are made. The engine instance is closed first; the
    /// native comparator, where one is installed, is destroyed after it, when
    /// the engine compares no more keys.
    ///
    /// Iterators and snapshots borrow the database, so none of them is left
    /// when it is closed.
    pub fn close(self) -> (calls: Vec<Call<'static>>)
        ensures
            calls@ == release_order(self.handle(), self.installed()),
    {
        let mut calls: Vec<Call<'static>> = Vec::new();
        calls.push(Call::Close { db: self.database.ptr });
        if let Some(comparator) = self.installed {
            calls.push(Call::ComparatorDestroy { comparator });
        }
        assert(calls@ =~= release_order(self.handle(), self.installed()));
        calls
    }
}

/// The calls that release a database and the native comparator that is
/// installed in it, in their order.
pub open spec fn release_order(db: Handle, installed: Option<Handle>) -> Seq<Call<'static>> {
    match installed {
        Some(comparator) => seq![Call::Close { db }, Call::ComparatorDestroy { comparator }],
        None => seq![Call::Close { db }],
    }
}

} // verus!
