//! The boundary to the storage engine: handles, and the native calls that the
//! operations of this crate ask for.
use crate::database::batch::Operation;
use crate::database::options::{NativeReadOptions, NativeWriteOptions, Setting};
use vstd::prelude::*;

verus! {

/// An opaque reference to engine-owned state: the address of a database, an
/// iterator, a snapshot or a comparator. The null handle refers to nothing.
#[derive(Clone, Copy, Debug, PartialEq, Eq, Structural)]
pub struct Handle {
    /// The address of the native object.
    pub address: usize,
}

impl Handle {
    /// The handle that refers to nothing.
    pub fn null() -> (h: Handle)
        ensures
            h.address == 0,
    {
        Handle { address: 0 }
    }

    /// Whether this handle refers to nothing.
    pub fn is_null(&self) -> (b: bool)
        ensures
            b == (self.address == 0),
    {
        self.address == 0
    }
}

/// One call into the engine.
///
/// An operation of this crate decides which call is made and with what. A
/// driver makes the call and hands back what the engine answered: the status
/// that the engine left in its error out-parameter for the calls that have
/// one, and what the call returned. Configuration travels by value: the driver
/// builds the native object from it for the call, and frees it after the call.
/// Only the configuration of `Open` lives on, until `Close`.
#[derive(Debug, PartialEq, Eq)]
pub enum Call<'a> {
    /// Opens the database at `name`, configured by `settings`. Answers the
    /// database's handle and a status. Where the status reports a failure,
    /// nothing of the call lives on.
    Open { name: &'a str, settings: Vec<Setting> },
    /// Closes the database, then frees the configuration that it was opened
    /// with.
    Close { db: Handle },
    /// Sets the entry for `key` to `value`. Answers a status.
    Put { db: Handle, options: NativeWriteOptions, key: &'a [u8], value: &'a [u8] },
    /// Removes the entry for `key`. Answers a status.
    Delete { db: Handle, options: NativeWriteOptions, key: &'a [u8] },
    /// Applies `operations` in their order, all of them or none. Answers a
    /// status.
    Write { db: Handle, options: NativeWriteOptions, operations: &'a [Operation] },
    /// Reads the entry for `key`. Answers the value, if there is an entry,
    /// and a status.
    Get { db: Handle, options: NativeReadOptions, key: &'a [u8] },
    /// Compacts the keys from `start` to `limit`; a bound that is not given
    /// is the end of the keyspace on its side.
    CompactRange { db: Handle, start: Option<&'a [u8]>, limit: Option<&'a [u8]> },
    /// Destroys the database at `name`. Answers a status.
    DestroyDb { name: &'a str, settings: Vec<Setting> },
    /// Repairs the database at `name`. Answers a status.
    RepairDb { name: &'a str, settings: Vec<Setting> },
    /// Takes a snapshot of the database. Answers the snapshot's handle.
    CreateSnapshot { db: Handle },
    /// Releases a snapshot of the database.
    ReleaseSnapshot { db: Handle, snapshot: Handle },
    /// Creates an iterator over the database. Answers the iterator's handle.
    CreateIterator { db: Handle, options: NativeReadOptions },
    /// Frees an iterator.
    IterDestroy { iter: Handle },
    /// Moves an iterator to the first entry. Answers where it stands.
    IterSeekToFirst { iter: Handle },
    /// Moves an iterator to the last entry. Answers where it stands.
    IterSeekToLast { iter: Handle },
    /// Moves an iterator to the first entry at or past `key`. Answers where
    /// it stands.
    IterSeek { iter: Handle, key: Vec<u8> },
    /// Moves an iterator to the next entry. Answers where it stands.
    IterNext { iter: Handle },
    /// Moves an iterator to the previous entry. Answers where it stands.
    IterPrev { iter: Handle },
    /// Destroys a native comparator, which releases the comparator behind it.
    ComparatorDestroy { comparator: Handle },
}

} // verus!
