//! Module providing write batches
//!
//! A write batch records puts and deletes in the order in which they are made.
//! `Batch::write` hands the whole record to the engine in a single call, which
//! applies all of it or none of it.
use crate::database::comparator::Comparator;
use crate::database::engine::Call;
use crate::database::options::{c_writeoptions, WriteOptions};
use crate::database::Database;
use vstd::prelude::*;
use vstd::slice::slice_to_vec;

verus! {

/// One operation on a keyspace: what a recorded operation says, with its key
/// and value as sequences of bytes.
pub enum Update {
    /// Sets the entry for `key` to `value`.
    Put { key: Seq<u8>, value: Seq<u8> },
    /// Removes the entry for `key`, if there is one.
    Delete { key: Seq<u8> },
}

/// One recorded operation of a write batch.
#[derive(Clone, Debug, PartialEq, Eq)]
pub enum Operation {
    /// Sets the entry for `key` to `value`.
    Put { key: Vec<u8>, value: Vec<u8> },
    /// Removes the entry for `key`, if there is one.
    Delete { key: Vec<u8> },
}

impl View for Operation {
    type V = Update;

    open spec fn view(&self) -> Update {
        match *self {
            Operation::Put { key, value } => Update::Put { key: key@, value: value@ },
            Operation::Delete { key } => Update::Delete { key: key@ },
        }
    }
}

/// What a slice of recorded operations says, in order.
pub open spec fn updates_of(operations: Seq<Operation>) -> Seq<Update> {
    operations.map_values(|operation: Operation| operation@)
}

/// An ordered record of put and delete operations.
///
/// A batch holds no reference to a database: it can be built once and written
/// to several, and used again after `clear`.
#[derive(Clone, Debug, PartialEq, Eq)]
pub struct Writebatch {
    writebatch: Vec<Operation>,
}

impl View for Writebatch {
    type V = Seq<Update>;

    closed spec fn view(&self) -> Seq<Update> {
        updates_of(self.writebatch@)
    }
}

/// A trait for iterators to iterate over written batches and check their validity.
///
/// An implementation says with `sees_put` and `sees_deleted` what a callback
/// makes of the visitor. One that says nothing leaves them as they are here:
/// any visitor may come of a callback.
pub trait WritebatchIterator {
    /// Whether `after` is what this visitor becomes by a put of `value` under
    /// `key`.
    open spec fn sees_put(&self, key: Seq<u8>, value: Seq<u8>, after: &Self) -> bool {
        true
    }

    /// Whether `after` is what this visitor becomes by a delete of `key`.
    open spec fn sees_deleted(&self, key: Seq<u8>, after: &Self) -> bool {
        true
    }

    /// Callback for put items
    fn put(&mut self, key: &[u8], value: &[u8])
        ensures
            old(self).sees_put(key@, value@, final(self)),
    ;

    /// Callback for deleted items
    fn deleted(&mut self, key: &[u8])
        ensures
            old(self).sees_deleted(key@, final(self)),
    ;
}

/// Whether `after` is what the visitor `before` becomes by the one callback
/// that `update` asks for.
pub open spec fn sees<T: WritebatchIterator>(before: &T, update: Update, after: &T) -> bool {
    match update {
        Update::Put { key, value } => before.sees_put(key, value, after),
        Update::Delete { key } => before.sees_deleted(key, after),
    }
}

/// Whether `after` is what the visitor `before` becomes by the callbacks for
/// `updates`, one for each and in their order.
pub open spec fn replays<T: WritebatchIterator>(updates: Seq<Update>, before: &T, after: &T) -> bool
    decreases updates.len(),
{
    if updates.len() == 0 {
        before == after
    } else {
        exists|middle: &T|
            replays(updates.drop_last(), before, middle) && #[trigger] sees(
                middle,
                updates.last(),
                after,
            )
    }
}

/// Batch access to the database
pub trait Batch {
    /// Write a batch to the database, ensuring success for all items or an error
    fn write<'a>(&self, options: WriteOptions, batch: &'a Writebatch) -> Call<'a>;
}

impl<C: Comparator> Batch for Database<C> {
    /// Asks the engine to apply the whole batch in one call: either every
    /// recorded operation becomes visible, or none does. The status that the
    /// engine answers goes to `Error::from_status`.
    fn write<'a>(&self, options: WriteOptions, batch: &'a Writebatch) -> (call: Call<'a>)
        ensures
            crate::database::keyspace::writes_batch(call, self.handle(), options, batch@),
    {
        Call::Write {
            db: self.handle(),
            options: c_writeoptions(&options),
            operations: batch.operations(),
        }
    }
}

impl Writebatch {
    /// The recorded operations, in the order in which they were recorded.
    pub fn operations(&self) -> (operations: &[Operation])
        ensures
            updates_of(operations@) == self@,
    {
        self.writebatch.as_slice()
    }

    /// Create a new writebatch
    pub fn new() -> (batch: Writebatch)
        ensures
            batch@ == Seq::<Update>::empty(),
    {
        let batch = Writebatch { writebatch: Vec::new() };
        assert(batch@ =~= Seq::<Update>::empty());
        batch
    }

    /// Clear the writebatch
    pub fn clear(&mut self)
        ensures
            final(self)@ == Seq::<Update>::empty(),
    {
        self.writebatch.clear();
        assert(self@ =~= Seq::<Update>::empty());
    }

    /// Batch a put operation
    pub fn put(&mut self, key: &[u8], value: &[u8])
        ensures
            final(self)@ == old(self)@.push(Update::Put { key: key@, value: value@ }),
    {
        let operation = Operation::Put { key: slice_to_vec(key), value: slice_to_vec(value) };
        self.writebatch.push(operation);
        assert(self@ =~= old(self)@.push(Update::Put { key: key@, value: value@ }));
    }

    /// Batch a delete operation
    pub fn delete(&mut self, key: &[u8])
        ensures
            final(self)@ == old(self)@.push(Update::Delete { key: key@ }),
    {
        let operation = Operation::Delete { key: slice_to_vec(key) };
        self.writebatch.push(operation);
        assert(self@ =~= old(self)@.push(Update::Delete { key: key@ }));
    }

    /// Iterate over the writebatch, returning the resulting iterator
    ///
    /// The recorded operations are replayed in the order in which they were
    /// recorded: a put calls `put`, a delete calls `deleted`. The batch itself
    /// stays as it is.
    pub fn iterate<T: WritebatchIterator>(&mut self, iterator: Box<T>) -> (result: Box<T>)
        ensures
            final(self)@ == old(self)@,
            replays(old(self)@, &*iterator, &*result),
    {
        let mut visitor = iterator;
        let mut i: usize = 0;
        while i < self.writebatch.len()
            invariant
                i <= self.writebatch.len(),
                self@ == old(self)@,
                replays(self@.take(i as int), &*iterator, &*visitor),
            decreases self.writebatch.len() - i,
        {
            let ghost middle = *visitor;
            match &self.writebatch[i] {
                Operation::Put { key, value } => {
                    visitor.put(key.as_slice(), value.as_slice());
                },
                Operation::Delete { key } => {
                    visitor.deleted(key.as_slice());
                },
            }
            proof {
                let done = self@.take(i as int + 1);
                assert(done.drop_last() =~= self@.take(i as int));
                assert(done.last() == self.writebatch@[i as int]@);
                assert(sees(&middle, done.last(), &*visitor));
            }
            i += 1;
        }
        assert(self@.take(i as int) =~= self@);
        visitor
    }
}

/// A batch is a visitor that records what it sees: a replay into it
/// appends the operations that are replayed.
impl WritebatchIterator for Writebatch {
    open spec fn sees_put(&self, key: Seq<u8>, value: Seq<u8>, after: &Self) -> bool {
        after@ == self@.push(Update::Put { key, value })
    }

    open spec fn sees_deleted(&self, key: Seq<u8>, after: &Self) -> bool {
        after@ == self@.push(Update::Delete { key })
    }

    fn put(&mut self, key: &[u8], value: &[u8]) {
        Writebatch::put(self, key, value)
    }

    fn deleted(&mut self, key: &[u8]) {
        Writebatch::delete(self, key)
    }
}

/// A replay keeps the order of the record: the batch that a replay of
/// `updates` makes of the batch `before` holds what `before` held, followed
/// by `updates` in their order.
pub proof fn replay_appends(updates: Seq<Update>, before: &Writebatch, after: &Writebatch)
    requires
        replays(updates, before, after),
    ensures
        after@ == before@ + updates,
    decreases updates.len(),
{
    if updates.len() == 0 {
        assert(after@ =~= before@ + updates);
    } else {
        let middle = choose|middle: &Writebatch|
            replays(updates.drop_last(), before, middle) && #[trigger] sees(
                middle,
                updates.last(),
                after,
            );
        replay_appends(updates.drop_last(), before, middle);
        assert(after@ == middle@.push(updates.last()));
        assert(after@ =~= before@ + updates);
    }
}

} // verus!
