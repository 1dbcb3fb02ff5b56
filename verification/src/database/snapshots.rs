//! leveldb snapshots
//!
//! Snapshots give you a reference to the database at a certain
//! point in time and won't change while you work with them.
use crate::database::comparator::Comparator;
use crate::database::engine::{Call, Handle};
use crate::database::options::ReadOptions;
use crate::database::Database;
use vstd::prelude::*;

verus! {

/// The native handles of a snapshot: the snapshot itself and the database
/// that it was taken from and that releases it.
#[derive(Debug, PartialEq, Eq)]
pub struct RawSnapshot {
    /// The database that the snapshot was taken from.
    pub db_ptr: Handle,
    /// The snapshot.
    pub ptr: Handle,
}

impl RawSnapshot {
    /// Ends the snapshot: the call that releases it. It takes the snapshot,
    /// so a snapshot is released once.
    pub fn release(self) -> (call: Call<'static>)
        ensures
            call == (Call::ReleaseSnapshot { db: self.db_ptr, snapshot: self.ptr }),
    {
        Call::ReleaseSnapshot { db: self.db_ptr, snapshot: self.ptr }
    }
}

/// A database snapshot
///
/// Represents a database at a certain point in time,
/// and allows for all read operations (get and iteration).
///
/// A snapshot borrows its database, so the database is not closed while the
/// snapshot is in use.
pub struct Snapshot<'a, C: Comparator> {
    /// The native handles of the snapshot.
    pub raw: RawSnapshot,
    /// The database that the snapshot was taken from.
    pub database: &'a Database<C>,
}

/// The read options `options`, bound to `snapshot`.
pub open spec fn bound_to<'a, C: Comparator>(
    options: ReadOptions<'a>,
    snapshot: &'a Snapshot<'a, C>,
) -> ReadOptions<'a> {
    ReadOptions { snapshot: Some(&snapshot.raw), ..options }
}

impl<'a, C: Comparator> Snapshot<'a, C> {
    /// The snapshot of `database` with the handle `snapshot`, which the
    /// engine answered to the call of `Database::snapshot`.
    pub fn new(database: &'a Database<C>, snapshot: Handle) -> (s: Snapshot<'a, C>)
        ensures
            s.database == database,
            s.raw.db_ptr == database.handle(),
            s.raw.ptr == snapshot,
    {
        Snapshot { raw: RawSnapshot { db_ptr: database.handle(), ptr: snapshot }, database }
    }

    /// fetches a key from the database
    ///
    /// Inserts this snapshot into ReadOptions before reading
    pub fn get<'k>(&'a self, options: &mut ReadOptions<'a>, key: &'k [u8]) -> (call: Call<'k>)
        ensures
            *final(options) == bound_to(*old(options), self),
            call == self.database.get_bytes(final(options), key),
    {
        options.snapshot = Some(&self.raw);
        self.database.get_bytes(options, key)
    }

    /// The handle of the snapshot.
    #[inline]
    pub fn raw_handle(&self) -> (handle: Handle)
        ensures
            handle == self.raw.ptr,
    {
        self.raw.ptr
    }

    /// creates an iterator over the database as it was when the snapshot was
    /// taken
    ///
    /// Inserts this snapshot into ReadOptions before reading
    pub fn iter(&'a self, options: &mut ReadOptions<'a>) -> (call: Call<'static>)
        ensures
            *final(options) == bound_to(*old(options), self),
            call == self.database.iter(final(options)),
    {
        options.snapshot = Some(&self.raw);
        self.database.iter(options)
    }

    /// Ends the snapshot: the call that releases it.
    pub fn release(self) -> (call: Call<'static>)
        ensures
            call == (Call::ReleaseSnapshot { db: self.raw.db_ptr, snapshot: self.raw.ptr }),
    {
        self.raw.release()
    }
}

} // verus!
