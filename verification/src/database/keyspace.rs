//! What a database holds, as the engine's interface documents it, and what
//! the calls of this crate make of it.
//!
//! The engine is not part of this crate. Its interface says what each call
//! does to the entries of a database: a put sets an entry, a delete removes
//! one, a write applies its operations in their order and all or none of
//! them, a read answers the entry of a key, a snapshot holds the entries as
//! they were when it was taken. `Keyspace` writes that down. The statements
//! of this module hold the calls that the operations of this crate decide
//! against it: they say what a caller sees who makes those calls on an engine
//! that does what its interface says.
use crate::database::batch::{updates_of, Update, Writebatch};
use crate::database::comparator::Comparator;
use crate::database::engine::{Call, Handle};
use crate::database::options::{ReadOptions, WriteOptions};
use crate::database::snapshots::Snapshot;
use crate::database::Database;
use vstd::prelude::*;

verus! {

/// The entries of a database: the keys that have a value, each with its
/// value.
pub type Entries = Map<Seq<u8>, Seq<u8>>;

/// What a database holds: its entries as they are now, and its entries as
/// each snapshot that was taken and not released holds them.
pub struct Keyspace {
    /// The entries as they are now.
    pub entries: Entries,
    /// The entries as each snapshot holds them, by the snapshot's handle.
    pub snapshots: Map<Handle, Entries>,
}

impl Update {
    /// The entries after this operation was applied to `entries`.
    pub open spec fn applied(self, entries: Entries) -> Entries {
        match self {
            Update::Put { key, value } => entries.insert(key, value),
            Update::Delete { key } => entries.remove(key),
        }
    }
}

/// The entries after `updates` were applied to `entries`, in their order.
pub open spec fn applied_all(updates: Seq<Update>, entries: Entries) -> Entries
    decreases updates.len(),
{
    if updates.len() == 0 {
        entries
    } else {
        updates.last().applied(applied_all(updates.drop_last(), entries))
    }
}

/// The operations that a call asks the engine to apply: one for a put or a
/// delete, the recorded ones for a write, none for any other call.
pub open spec fn updates_in(call: Call) -> Seq<Update> {
    match call {
        Call::Put { db, options, key, value } => seq![Update::Put { key: key@, value: value@ }],
        Call::Delete { db, options, key } => seq![Update::Delete { key: key@ }],
        Call::Write { db, options, operations } => updates_of(operations@),
        _ => Seq::empty(),
    }
}

/// Whether a call writes to the database: a put, a delete or a write.
pub open spec fn is_write(call: Call) -> bool {
    call is Put || call is Delete || call is Write
}

/// Whether `call` hands `updates` to the engine in one write on the database
/// `db`, configured by `options`.
pub open spec fn writes_batch(
    call: Call,
    db: Handle,
    options: WriteOptions,
    updates: Seq<Update>,
) -> bool {
    call matches Call::Write { db: d, options: native, operations } && d == db && native
        == crate::database::options::native_writeoptions(options) && updates_of(operations@)
        == updates
}

impl Keyspace {
    /// What the database holds after `call`, to which the engine answered
    /// `status`. A call that failed has changed nothing. A call that
    /// succeeded has applied its operations, all of them.
    pub open spec fn after(self, call: Call, status: Option<String>) -> Keyspace {
        if crate::database::error::is_success(status) {
            Keyspace { entries: applied_all(updates_in(call), self.entries), ..self }
        } else {
            self
        }
    }

    /// What the database holds after `calls`, made in their order, to each of
    /// which the engine answered the status beside it.
    pub open spec fn after_all(self, calls: Seq<(Call, Option<String>)>) -> Keyspace
        decreases calls.len(),
    {
        if calls.len() == 0 {
            self
        } else {
            self.after_all(calls.drop_last()).after(calls.last().0, calls.last().1)
        }
    }

    /// What the database holds once a snapshot was taken of it, for which the
    /// engine answered the handle `snapshot`.
    pub open spec fn snapshot_taken(self, snapshot: Handle) -> Keyspace {
        Keyspace { snapshots: self.snapshots.insert(snapshot, self.entries), ..self }
    }

    /// The entries that a read sees: those of the snapshot that the read is
    /// bound to, or the entries as they are now.
    pub open spec fn seen(self, snapshot: Option<Handle>) -> Entries {
        match snapshot {
            Some(handle) => self.snapshots[handle],
            None => self.entries,
        }
    }

    /// The value that the engine finds for a read: the value of the key
    /// among the entries that the read sees, or none where the key has no
    /// entry there. A call that is no read finds nothing.
    pub open spec fn found(self, call: Call) -> Option<Seq<u8>> {
        match call {
            Call::Get { db, options, key } => {
                let entries = self.seen(options.snapshot);
                if entries.contains_key(key@) {
                    Some(entries[key@])
                } else {
                    None
                }
            },
            _ => None,
        }
    }
}

/// A value that was put is the value that is read: after a `put` of `value`
/// under `key` that succeeded, the engine finds `value` for a `get_bytes` of
/// `key` that is bound to no snapshot.
pub proof fn put_then_get<C: Comparator>(
    keyspace: Keyspace,
    db: Database<C>,
    write: WriteOptions,
    read: ReadOptions,
    key: &[u8],
    value: &[u8],
    status: Option<String>,
)
    requires
        crate::database::error::is_success(status),
        read.snapshot is None,
    ensures
        keyspace.after(db.put(&write, key, value), status).found(db.get_bytes(&read, key)) == Some(
            value@,
        ),
{
    let updates = updates_in(db.put(&write, key, value));
    assert(updates.drop_last() =~= Seq::<Update>::empty());
    assert(applied_all(updates.drop_last(), keyspace.entries) == keyspace.entries);
}

/// A key that was deleted has no value: after a `delete` of `key` that
/// succeeded, the engine finds nothing for a `get_bytes` of `key` that is
/// bound to no snapshot.
pub proof fn delete_then_get<C: Comparator>(
    keyspace: Keyspace,
    db: Database<C>,
    write: WriteOptions,
    read: ReadOptions,
    key: &[u8],
    status: Option<String>,
)
    requires
        crate::database::error::is_success(status),
        read.snapshot is None,
    ensures
        keyspace.after(db.delete(&write, key), status).found(db.get_bytes(&read, key))
            == None::<Seq<u8>>,
{
    let updates = updates_in(db.delete(&write, key));
    assert(updates.drop_last() =~= Seq::<Update>::empty());
    assert(applied_all(updates.drop_last(), keyspace.entries) == keyspace.entries);
}

/// Calls leave the snapshots as they are.
pub proof fn after_all_keeps_snapshots(keyspace: Keyspace, calls: Seq<(Call, Option<String>)>)
    ensures
        keyspace.after_all(calls).snapshots == keyspace.snapshots,
    decreases calls.len(),
{
    if calls.len() != 0 {
        after_all_keeps_snapshots(keyspace, calls.drop_last());
    }
}

/// A snapshot is isolated from later writes: a read that is bound to a
/// snapshot finds what a read that is bound to none found when the snapshot
/// was taken, whatever was written since, and be it under the same key.
pub proof fn snapshot_isolation<'a, C: Comparator>(
    keyspace: Keyspace,
    snapshot: &'a Snapshot<'a, C>,
    writes: Seq<(Call, Option<String>)>,
    read: ReadOptions<'a>,
    key: &[u8],
)
    requires
        read.snapshot is None,
        forall|i: int| 0 <= i < writes.len() ==> is_write(#[trigger] writes[i].0),
    ensures
        keyspace.snapshot_taken(snapshot.raw.ptr).after_all(writes).found(
            snapshot.database.get_bytes(&crate::database::snapshots::bound_to(read, snapshot), key),
        ) == keyspace.found(snapshot.database.get_bytes(&read, key)),
{
    let taken = keyspace.snapshot_taken(snapshot.raw.ptr);
    after_all_keeps_snapshots(taken, writes);
    assert(taken.snapshots[snapshot.raw.ptr] == keyspace.entries);
}

/// A batch is applied as a whole or not at all. Where the engine answers a
/// failure to the one call that `write` makes for a batch, the database holds
/// what it held, and `Error::from_status` reports the failure. Where it
/// answers success, the database holds the entries to which every operation
/// of the batch was applied, in the order in which the batch recorded them.
pub proof fn batch_atomicity<C: Comparator>(
    keyspace: Keyspace,
    db: Database<C>,
    options: WriteOptions,
    batch: Writebatch,
    call: Call,
    status: Option<String>,
)
    requires
        writes_batch(call, db.handle(), options, batch@),
    ensures
        !crate::database::error::is_success(status) ==> keyspace.after(call, status) == keyspace,
        crate::database::error::is_success(status) ==> keyspace.after(call, status) == (Keyspace {
            entries: applied_all(batch@, keyspace.entries),
            ..keyspace
        }),
{
}

} // verus!
