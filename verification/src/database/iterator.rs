//! leveldb iterators
//!
//! Iteration is one of the most important parts of leveldb. This module provides
//! the cursor that walks the keys of a database, or of a snapshot of it, in
//! the order of the database's comparator.
//!
//! A cursor may be bounded: with a lower bound `from` and an upper bound `to`
//! it stands only on keys `k` with `from <= k < to`, the lower bound
//! included and the upper bound excluded.
//!
//! A cursor moves in two steps. An operation that moves it (`seek_to_first`,
//! `seek_to_last`, `seek`, `next`, `prev`, `advance`) decides the call that is
//! made on the native iterator. `land` then takes where the native iterator
//! came to stand, and decides where the cursor stands; it may ask for one
//! more call, as `seek_to_last` does under an upper bound. A driver goes on
//! until `land` asks for nothing more:
//!
//! ```rust,ignore
//! let mut call = Some(cursor.seek_to_last());
//! while let Some(c) = call {
//!     call = cursor.land(driver.perform(c));
//! }
//! ```
//!
//! A cursor that does not stand on an entry is not read and not stepped:
//! `key`, `value`, `next` and `prev` fail on it with `InvalidCursorState`.
use crate::database::comparator::{Comparator, Order};
use crate::database::engine::{Call, Handle};
use crate::database::error::{Error, ErrorKind};
use crate::database::Database;
use vstd::prelude::*;
use vstd::slice::slice_to_vec;

verus! {

/// Where a cursor stands.
pub enum State {
    /// The cursor was never moved: it stands before the first key of its
    /// range.
    Uninitialized,
    /// A call that moves the native iterator was decided, and the cursor
    /// waits for `land` to be told where the iterator came to stand.
    Seeking,
    /// `seek_to_last` has sent the native iterator to the upper bound, and the
    /// cursor waits for `land` to be told whether a key stands there.
    Probing,
    /// The cursor stands on an entry.
    Positioned { key: Seq<u8>, value: Seq<u8> },
    /// The cursor has left its range or the keyspace. It stays so until it is
    /// sought again.
    Invalid,
}

/// Whether `key` lies within the bounds under the order of `comparator`: at
/// or after `from`, and before `to`. A bound that is not given excludes no
/// key.
pub open spec fn in_range<C: Comparator>(
    comparator: &C,
    from: Option<Seq<u8>>,
    to: Option<Seq<u8>>,
    key: Seq<u8>,
) -> bool {
    &&& from matches Some(f) ==> comparator.order(f, key) != Order::Greater
    &&& to matches Some(t) ==> comparator.order(key, t) == Order::Less
}

/// Where a cursor in `state` stands once the native iterator has come to
/// stand on `landing`.
///
/// A cursor that waits for a landing takes it if its key lies within the
/// bounds, and is invalid otherwise. A cursor that probes the upper bound
/// goes on waiting, for the landing of the call that `follow_up` asks for.
/// Any other cursor stays where it stands.
pub open spec fn landed<C: Comparator>(
    comparator: &C,
    from: Option<Seq<u8>>,
    to: Option<Seq<u8>>,
    state: State,
    landing: Option<(Seq<u8>, Seq<u8>)>,
) -> State {
    match state {
        State::Seeking => match landing {
            Some((key, value)) => if in_range(comparator, from, to, key) {
                State::Positioned { key, value }
            } else {
                State::Invalid
            },
            None => State::Invalid,
        },
        State::Probing => State::Seeking,
        _ => state,
    }
}

/// The call that a cursor in `state` asks for once the native iterator has
/// come to stand on `landing`.
///
/// Only a cursor that probes the upper bound asks for one. The native
/// iterator was sent to the first key at or past the bound. Where it stands on
/// a key, the last key before the bound is the one before it. Where it stands
/// on none, all keys lie before the bound, and the last of them is the last
/// key of all.
pub open spec fn follow_up(
    iter: Handle,
    state: State,
    landing: Option<(Seq<u8>, Seq<u8>)>,
) -> Option<Call<'static>> {
    match state {
        State::Probing => match landing {
            Some(_) => Some(Call::IterPrev { iter }),
            None => Some(Call::IterSeekToLast { iter }),
        },
        _ => None,
    }
}

/// Whether `call` sends the native iterator `iter` to the first key at or
/// past `key`.
pub open spec fn seeks(call: Call, iter: Handle, key: Seq<u8>) -> bool {
    call matches Call::IterSeek { iter: i, key: k } && i == iter && k@ == key
}

/// Whether `call` sends the native iterator `iter` to the first key of the
/// range that begins at `from`.
pub open spec fn seeks_first(call: Call, iter: Handle, from: Option<Seq<u8>>) -> bool {
    match from {
        Some(f) => seeks(call, iter, f),
        None => call == Call::IterSeekToFirst { iter },
    }
}

/// The key that a seek for `key` sends the native iterator to: `key` itself,
/// or the lower bound where `key` lies before it.
pub open spec fn seek_target<C: Comparator>(
    comparator: &C,
    from: Option<Seq<u8>>,
    key: Seq<u8>,
) -> Seq<u8> {
    match from {
        Some(f) => if comparator.order(key, f) == Order::Less {
            f
        } else {
            key
        },
        None => key,
    }
}

#[derive(Clone, Copy, Debug, PartialEq, Eq, Structural)]
enum Phase {
    Fresh,
    Seeking,
    Probing,
    Valid,
    Ended,
}

/// An iterator over the leveldb keyspace.
///
/// It stands on one entry at a time, whose key and value it lends out until
/// it is moved again.
pub struct DatabaseIterator<'a, C: Comparator> {
    database: &'a Database<C>,
    iter: Handle,
    from: Option<Vec<u8>>,
    to: Option<Vec<u8>>,
    phase: Phase,
    key: Vec<u8>,
    value: Vec<u8>,
}

/// The bytes of a bound.
pub open spec fn bound_of(bound: Option<Vec<u8>>) -> Option<Seq<u8>> {
    match bound {
        Some(key) => Some(key@),
        None => None,
    }
}

impl<'a, C: Comparator> DatabaseIterator<'a, C> {
    #[verifier::type_invariant]
    spec fn stands_in_range(self) -> bool {
        self.phase == Phase::Valid ==> in_range(
            self.database.comparator(),
            bound_of(self.from),
            bound_of(self.to),
            self.key@,
        )
    }

    /// The database that the cursor walks.
    pub closed spec fn database(&self) -> &'a Database<C> {
        self.database
    }

    /// The handle of the native iterator.
    pub closed spec fn handle(&self) -> Handle {
        self.iter
    }

    /// The lower bound of the cursor, if it has one. The bound is included.
    pub closed spec fn lower(&self) -> Option<Seq<u8>> {
        bound_of(self.from)
    }

    /// The upper bound of the cursor, if it has one. The bound is excluded.
    pub closed spec fn upper(&self) -> Option<Seq<u8>> {
        bound_of(self.to)
    }

    /// Where the cursor stands.
    pub closed spec fn state(&self) -> State {
        match self.phase {
            Phase::Fresh => State::Uninitialized,
            Phase::Seeking => State::Seeking,
            Phase::Probing => State::Probing,
            Phase::Valid => State::Positioned { key: self.key@, value: self.value@ },
            Phase::Ended => State::Invalid,
        }
    }

    /// Whether `other` is this cursor but for where it stands: on the same
    /// native iterator of the same database, with the same bounds.
    pub open spec fn same_cursor(&self, other: &Self) -> bool {
        &&& other.database() == self.database()
        &&& other.handle() == self.handle()
        &&& other.lower() == self.lower()
        &&& other.upper() == self.upper()
    }

    /// Whether the cursor, if it stands on an entry, stands on one whose key
    /// lies within its bounds.
    pub open spec fn within_bounds(&self) -> bool {
        self.state() matches State::Positioned { key, value } ==> in_range(
            self.database().comparator(),
            self.lower(),
            self.upper(),
            key,
        )
    }

    /// The cursor over `database` that walks with the native iterator `iter`,
    /// which the engine answered to the call of `Database::iter`. It has no
    /// bounds and was not moved yet.
    pub fn new(database: &'a Database<C>, iter: Handle) -> (cursor: DatabaseIterator<'a, C>)
        ensures
            cursor.database() == database,
            cursor.handle() == iter,
            cursor.lower() == None::<Seq<u8>>,
            cursor.upper() == None::<Seq<u8>>,
            cursor.state() == State::Uninitialized,
    {
        DatabaseIterator {
            database,
            iter,
            from: None,
            to: None,
            phase: Phase::Fresh,
            key: Vec::new(),
            value: Vec::new(),
        }
    }

    /// This cursor with the lower bound `key`: it stands only on keys at or
    /// after `key`. The cursor counts as never moved.
    pub fn from(self, key: &[u8]) -> (cursor: DatabaseIterator<'a, C>)
        ensures
            cursor.database() == self.database(),
            cursor.handle() == self.handle(),
            cursor.lower() == Some(key@),
            cursor.upper() == self.upper(),
            cursor.state() == State::Uninitialized,
    {
        DatabaseIterator {
            database: self.database,
            iter: self.iter,
            from: Some(slice_to_vec(key)),
            to: self.to,
            phase: Phase::Fresh,
            key: Vec::new(),
            value: Vec::new(),
        }
    }

    /// This cursor with the upper bound `key`: it stands only on keys before
    /// `key`. The cursor counts as never moved.
    pub fn to(self, key: &[u8]) -> (cursor: DatabaseIterator<'a, C>)
        ensures
            cursor.database() == self.database(),
            cursor.handle() == self.handle(),
            cursor.lower() == self.lower(),
            cursor.upper() == Some(key@),
            cursor.state() == State::Uninitialized,
    {
        DatabaseIterator {
            database: self.database,
            iter: self.iter,
            from: self.from,
            to: Some(slice_to_vec(key)),
            phase: Phase::Fresh,
            key: Vec::new(),
            value: Vec::new(),
        }
    }

    /// Ends the cursor: the call that frees its native iterator.
    pub fn close(self) -> (call: Call<'static>)
        ensures
            call == (Call::IterDestroy { iter: self.handle() }),
    {
        Call::IterDestroy { iter: self.iter }
    }

    /// Whether `key` lies within the bounds of the cursor.
    fn within(&self, key: &[u8]) -> (b: bool)
        ensures
            b == in_range(self.database().comparator(), self.lower(), self.upper(), key@),
    {
        let above = match &self.from {
            Some(from) => self.database.comparator().compare(from.as_slice(), key)
                != Order::Greater,
            None => true,
        };
        let below = match &self.to {
            Some(to) => self.database.comparator().compare(key, to.as_slice()) == Order::Less,
            None => true,
        };
        above && below
    }

    /// Whether the cursor stands on an entry.
    pub fn valid(&self) -> (b: bool)
        ensures
            b == (self.state() is Positioned),
    {
        self.phase == Phase::Valid
    }

    /// Sends the cursor to the first key of its range: the first key at or
    /// after the lower bound, or the first key of all where there is no lower
    /// bound.
    pub fn seek_to_first(&mut self) -> (call: Call<'static>)
        ensures
            old(self).same_cursor(final(self)),
            final(self).state() == State::Seeking,
            seeks_first(call, old(self).handle(), old(self).lower()),
    {
        self.phase = Phase::Seeking;
        match &self.from {
            Some(from) => Call::IterSeek { iter: self.iter, key: from.clone() },
            None => Call::IterSeekToFirst { iter: self.iter },
        }
    }

    /// Sends the cursor to the last key of its range: the last key before
    /// the upper bound, or the last key of all where there is no upper bound.
    ///
    /// Under an upper bound the native iterator is first sent to the bound,
    /// and `land` asks for the call that steps back from it.
    pub fn seek_to_last(&mut self) -> (call: Call<'static>)
        ensures
            old(self).same_cursor(final(self)),
            match old(self).upper() {
                Some(to) => final(self).state() == State::Probing && seeks(
                    call,
                    old(self).handle(),
                    to,
                ),
                None => final(self).state() == State::Seeking && call == (Call::IterSeekToLast {
                    iter: old(self).handle(),
                }),
            },
            final(self).state() == crate::database::traversal::last_state(old(self).upper()),
            crate::database::traversal::move_of(call) == Some(
                crate::database::traversal::last_move(old(self).upper()),
            ),
    {
        match &self.to {
            Some(to) => {
                let call = Call::IterSeek { iter: self.iter, key: to.clone() };
                self.phase = Phase::Probing;
                call
            },
            None => {
                self.phase = Phase::Seeking;
                Call::IterSeekToLast { iter: self.iter }
            },
        }
    }

    /// Sends the cursor to the first key of its range at or after `key`. A
    /// `key` before the lower bound sends it to the first key of the range.
    pub fn seek(&mut self, key: &[u8]) -> (call: Call<'static>)
        ensures
            old(self).same_cursor(final(self)),
            final(self).state() == State::Seeking,
            seeks(
                call,
                old(self).handle(),
                seek_target(old(self).database().comparator(), old(self).lower(), key@),
            ),
    {
        self.phase = Phase::Seeking;
        match &self.from {
            Some(from) => {
                if self.database.comparator().compare(key, from.as_slice()) == Order::Less {
                    Call::IterSeek { iter: self.iter, key: from.clone() }
                } else {
                    Call::IterSeek { iter: self.iter, key: slice_to_vec(key) }
                }
            },
            None => Call::IterSeek { iter: self.iter, key: slice_to_vec(key) },
        }
    }

    /// Steps the cursor to the next key.
    ///
    /// Fails with `InvalidCursorState`, and leaves the cursor as it is, where
    /// the cursor does not stand on an entry.
    pub fn next(&mut self) -> (result: Result<Call<'static>, Error>)
        ensures
            old(self).same_cursor(final(self)),
            old(self).state() is Positioned <==> result is Ok,
            result matches Ok(call) ==> final(self).state() == State::Seeking && call == (
            Call::IterNext { iter: old(self).handle() }),
            result matches Err(error) ==> final(self).state() == old(self).state()
                && error.spec_kind() == ErrorKind::InvalidCursorState,
    {
        if self.phase == Phase::Valid {
            self.phase = Phase::Seeking;
            Ok(Call::IterNext { iter: self.iter })
        } else {
            Err(Error::invalid_cursor_state())
        }
    }

    /// Steps the cursor to the previous key.
    ///
    /// Fails with `InvalidCursorState`, and leaves the cursor as it is, where
    /// the cursor does not stand on an entry.
    pub fn prev(&mut self) -> (result: Result<Call<'static>, Error>)
        ensures
            old(self).same_cursor(final(self)),
            old(self).state() is Positioned <==> result is Ok,
            result matches Ok(call) ==> final(self).state() == State::Seeking && call == (
            Call::IterPrev { iter: old(self).handle() }),
            result matches Err(error) ==> final(self).state() == old(self).state()
                && error.spec_kind() == ErrorKind::InvalidCursorState,
    {
        if self.phase == Phase::Valid {
            self.phase = Phase::Seeking;
            Ok(Call::IterPrev { iter: self.iter })
        } else {
            Err(Error::invalid_cursor_state())
        }
    }

    /// Takes a forward walk one step on: a cursor that was never moved goes
    /// to the first key of its range, a cursor that stands on an entry goes
    /// to the next key. Any other cursor stays as it is and asks for no call:
    /// a walk that has ended does not start again.
    pub fn advance(&mut self) -> (call: Option<Call<'static>>)
        ensures
            old(self).same_cursor(final(self)),
            match old(self).state() {
                State::Uninitialized => final(self).state() == State::Seeking && call is Some
                    && seeks_first(call->0, old(self).handle(), old(self).lower()),
                State::Positioned { key, value } => final(self).state() == State::Seeking && call
                    == Some(Call::IterNext { iter: old(self).handle() }),
                _ => final(self).state() == old(self).state() && call is None,
            },
            crate::database::traversal::move_asked(call)
                == crate::database::traversal::advance_move(old(self).state(), old(self).lower()),
    {
        match self.phase {
            Phase::Fresh => Some(self.seek_to_first()),
            Phase::Valid => {
                self.phase = Phase::Seeking;
                Some(Call::IterNext { iter: self.iter })
            },
            _ => None,
        }
    }

    /// Tells the cursor where the native iterator came to stand after the
    /// call that the cursor asked for: on the entry `landing`, or on none.
    /// Answers the call that is to be made next, if the move is not done.
    ///
    /// Whatever the engine answers, a cursor that stands on an entry stands
    /// on one whose key lies within its bounds.
    pub fn land(&mut self, landing: Option<(Vec<u8>, Vec<u8>)>) -> (next: Option<Call<'static>>)
        ensures
            old(self).same_cursor(final(self)),
            final(self).state() == landed(
                old(self).database().comparator(),
                old(self).lower(),
                old(self).upper(),
                old(self).state(),
                entry_of(landing),
            ),
            next == follow_up(old(self).handle(), old(self).state(), entry_of(landing)),
            final(self).within_bounds(),
    {
        proof {
            use_type_invariant(&*self);
        }
        match self.phase {
            Phase::Seeking => {
                match landing {
                    Some((key, value)) => {
                        if self.within(key.as_slice()) {
                            self.key = key;
                            self.value = value;
                            self.phase = Phase::Valid;
                        } else {
                            self.phase = Phase::Ended;
                        }
                    },
                    None => {
                        self.phase = Phase::Ended;
                    },
                }
                None
            },
            Phase::Probing => {
                self.phase = Phase::Seeking;
                match landing {
                    Some(_) => Some(Call::IterPrev { iter: self.iter }),
                    None => Some(Call::IterSeekToLast { iter: self.iter }),
                }
            },
            _ => None,
        }
    }

    /// The key of the entry that the cursor stands on, lent until the cursor
    /// is moved again. The key lies within the bounds of the cursor.
    ///
    /// Fails with `InvalidCursorState` where the cursor does not stand on an
    /// entry.
    pub fn key(&self) -> (result: Result<&[u8], Error>)
        ensures
            match self.state() {
                State::Positioned { key, value } => result matches Ok(k) && k@ == key && in_range(
                    self.database().comparator(),
                    self.lower(),
                    self.upper(),
                    key,
                ),
                _ => result matches Err(error) && error.spec_kind()
                    == ErrorKind::InvalidCursorState,
            },
    {
        proof {
            use_type_invariant(self);
        }
        if self.phase == Phase::Valid {
            Ok(self.key.as_slice())
        } else {
            Err(Error::invalid_cursor_state())
        }
    }

    /// The value of the entry that the cursor stands on, lent until the
    /// cursor is moved again.
    ///
    /// Fails with `InvalidCursorState` where the cursor does not stand on an
    /// entry.
    pub fn value(&self) -> (result: Result<&[u8], Error>)
        ensures
            match self.state() {
                State::Positioned { key, value } => result matches Ok(v) && v@ == value,
                _ => result matches Err(error) && error.spec_kind()
                    == ErrorKind::InvalidCursorState,
            },
    {
        if self.phase == Phase::Valid {
            Ok(self.value.as_slice())
        } else {
            Err(Error::invalid_cursor_state())
        }
    }

    /// A copy of the entry that the cursor stands on, which stays when the
    /// cursor is moved again.
    ///
    /// Fails with `InvalidCursorState` where the cursor does not stand on an
    /// entry.
    pub fn entry(&self) -> (result: Result<(Vec<u8>, Vec<u8>), Error>)
        ensures
            match self.state() {
                State::Positioned { key, value } => result matches Ok(entry) && entry.0@ == key
                    && entry.1@ == value,
                _ => result matches Err(error) && error.spec_kind()
                    == ErrorKind::InvalidCursorState,
            },
    {
        if self.phase == Phase::Valid {
            Ok((slice_to_vec(self.key.as_slice()), slice_to_vec(self.value.as_slice())))
        } else {
            Err(Error::invalid_cursor_state())
        }
    }
}

/// The key and the value of a landing, as sequences of bytes.
pub open spec fn entry_of(landing: Option<(Vec<u8>, Vec<u8>)>) -> Option<(Seq<u8>, Seq<u8>)> {
    match landing {
        Some((key, value)) => Some((key@, value@)),
        None => None,
    }
}

} // verus!
