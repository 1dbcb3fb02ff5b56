//! What a cursor yields on an iterator that does what the engine's interface
//! says.
//!
//! The engine is not part of this crate. Its interface says where a native
//! iterator comes to stand by each call: on the first entry, on the last, on
//! the first entry at or past a key, on the next entry, on the previous one,
//! over entries that are kept in ascending order of their keys under the
//! database's comparator. `arrives` writes that down. The statements of this
//! module hold a cursor against it, through what `advance` and `land` are
//! proved to decide.
use crate::database::comparator::{Comparator, OrdComparator, Order};
use crate::database::engine::{Call, Handle};
use crate::database::iterator::State;
use vstd::prelude::*;

verus! {

/// An entry of a database: a key and its value.
pub type Entry = (Seq<u8>, Seq<u8>);

/// What a call asks of a native iterator.
pub enum Move {
    /// To stand on the first entry.
    First,
    /// To stand on the last entry.
    Last,
    /// To stand on the first entry at or past the key.
    To(Seq<u8>),
    /// To stand on the next entry.
    Next,
    /// To stand on the previous entry.
    Prev,
}

/// What `call` asks of a native iterator, if it moves one.
pub open spec fn move_of(call: Call) -> Option<Move> {
    match call {
        Call::IterSeekToFirst { iter } => Some(Move::First),
        Call::IterSeekToLast { iter } => Some(Move::Last),
        Call::IterSeek { iter, key } => Some(Move::To(key@)),
        Call::IterNext { iter } => Some(Move::Next),
        Call::IterPrev { iter } => Some(Move::Prev),
        _ => None,
    }
}

/// What the call that a cursor asks for, if it asks for one, asks of the
/// native iterator.
pub open spec fn move_asked(call: Option<Call>) -> Option<Move> {
    match call {
        Some(call) => move_of(call),
        None => None,
    }
}

/// What `advance` asks of the native iterator for a cursor in `state` with
/// the lower bound `from`: the first entry of the range for a cursor that
/// was never moved, the next entry for one that stands on an entry, and
/// nothing for any other.
pub open spec fn advance_move(state: State, from: Option<Seq<u8>>) -> Option<Move> {
    match state {
        State::Uninitialized => match from {
            Some(key) => Some(Move::To(key)),
            None => Some(Move::First),
        },
        State::Positioned { key, value } => Some(Move::Next),
        _ => None,
    }
}

/// What `seek_to_last` asks of the native iterator for a cursor with the
/// upper bound `to`: the first entry at or past the bound, or the last entry
/// where there is no bound.
pub open spec fn last_move(to: Option<Seq<u8>>) -> Move {
    match to {
        Some(key) => Move::To(key),
        None => Move::Last,
    }
}

/// How a cursor with the upper bound `to` waits once `seek_to_last` has
/// asked for its call.
pub open spec fn last_state(to: Option<Seq<u8>>) -> State {
    match to {
        Some(key) => State::Probing,
        None => State::Seeking,
    }
}

/// Whether the keys of `source` ascend under the order of `comparator`.
pub open spec fn ascending<C: Comparator>(comparator: &C, source: Seq<Entry>) -> bool {
    forall|i: int, j: int|
        0 <= i < j < source.len() ==> comparator.order(
            #[trigger] source[i].0,
            #[trigger] source[j].0,
        ) == Order::Less
}

/// The index of the first entry of `source`, from the index `start` on, whose
/// key is at or past `key`; the length of `source` where there is none.
pub open spec fn at_or_past<C: Comparator>(
    comparator: &C,
    source: Seq<Entry>,
    key: Seq<u8>,
    start: nat,
) -> nat
    decreases source.len() - start,
{
    if start >= source.len() {
        source.len()
    } else if comparator.order(source[start as int].0, key) != Order::Less {
        start
    } else {
        at_or_past(comparator, source, key, start + 1)
    }
}

/// The index at which a native iterator over `source` comes to stand by a
/// move, from where it stood; none where it comes to stand on no entry.
pub open spec fn arrives<C: Comparator>(
    comparator: &C,
    source: Seq<Entry>,
    position: Option<int>,
    to: Move,
) -> Option<int> {
    match to {
        Move::First => if source.len() > 0 {
            Some(0)
        } else {
            None
        },
        Move::Last => if source.len() > 0 {
            Some(source.len() - 1)
        } else {
            None
        },
        Move::To(key) => {
            let index = at_or_past(comparator, source, key, 0);
            if index < source.len() {
                Some(index as int)
            } else {
                None
            }
        },
        Move::Next => match position {
            Some(p) => if p + 1 < source.len() {
                Some(p + 1)
            } else {
                None
            },
            None => None,
        },
        Move::Prev => match position {
            Some(p) => if p > 0 {
                Some(p - 1)
            } else {
                None
            },
            None => None,
        },
    }
}

/// The entry of `source` on which a native iterator stands.
pub open spec fn entry_at(source: Seq<Entry>, position: Option<int>) -> Option<Entry> {
    match position {
        Some(p) => Some(source[p]),
        None => None,
    }
}

/// The index of the first entry of `source` at or after the lower bound.
pub open spec fn range_start<C: Comparator>(
    comparator: &C,
    from: Option<Seq<u8>>,
    source: Seq<Entry>,
) -> nat {
    match from {
        Some(key) => at_or_past(comparator, source, key, 0),
        None => 0,
    }
}

/// The index behind the last entry of `source` before the upper bound.
pub open spec fn range_end<C: Comparator>(
    comparator: &C,
    to: Option<Seq<u8>>,
    source: Seq<Entry>,
) -> nat {
    match to {
        Some(key) => at_or_past(comparator, source, key, 0),
        None => source.len(),
    }
}

/// The entries of `source` whose keys lie within the bounds, in the order of
/// `source`.
pub open spec fn range_of<C: Comparator>(
    comparator: &C,
    from: Option<Seq<u8>>,
    to: Option<Seq<u8>>,
    source: Seq<Entry>,
) -> Seq<Entry> {
    let start = range_start(comparator, from, source);
    let end = range_end(comparator, to, source);
    if start < end {
        source.subrange(start as int, end as int)
    } else {
        Seq::empty()
    }
}

/// What a forward walk yields: the entries on which a cursor comes to stand
/// that is taken on by `advance` and `land`, up to `rounds` times and until
/// it stands on no entry, over a native iterator on `source`. The cursor
/// begins in `state`, the native iterator at `position`.
pub open spec fn walk<C: Comparator>(
    comparator: &C,
    from: Option<Seq<u8>>,
    to: Option<Seq<u8>>,
    source: Seq<Entry>,
    state: State,
    position: Option<int>,
    rounds: nat,
) -> Seq<Entry>
    decreases rounds,
{
    if rounds == 0 {
        Seq::empty()
    } else {
        match advance_move(state, from) {
            None => Seq::empty(),
            Some(asked) => {
                let position = arrives(comparator, source, position, asked);
                let state = crate::database::iterator::landed(
                    comparator,
                    from,
                    to,
                    State::Seeking,
                    entry_at(source, position),
                );
                match state {
                    State::Positioned { key, value } => seq![(key, value)] + walk(
                        comparator,
                        from,
                        to,
                        source,
                        state,
                        position,
                        (rounds - 1) as nat,
                    ),
                    _ => Seq::empty(),
                }
            },
        }
    }
}

/// Where a cursor comes to stand that is handed to `land` until `land` asks
/// for no more call, up to `rounds` times, over a native iterator on
/// `source`. The cursor begins in `state` and has asked for `asked`; the
/// native iterator `iter` begins at `position`.
pub open spec fn settled<C: Comparator>(
    comparator: &C,
    from: Option<Seq<u8>>,
    to: Option<Seq<u8>>,
    source: Seq<Entry>,
    iter: Handle,
    state: State,
    position: Option<int>,
    asked: Option<Move>,
    rounds: nat,
) -> State
    decreases rounds,
{
    match asked {
        Some(asked) if rounds > 0 => {
            let position = arrives(comparator, source, position, asked);
            let landing = entry_at(source, position);
            settled(
                comparator,
                from,
                to,
                source,
                iter,
                crate::database::iterator::landed(comparator, from, to, state, landing),
                position,
                move_asked(crate::database::iterator::follow_up(iter, state, landing)),
                (rounds - 1) as nat,
            )
        },
        _ => state,
    }
}

/// In an ascending source, the entries before the first one at or past a key
/// are those whose keys come before the key.
pub proof fn at_or_past_parts<C: Comparator>(
    comparator: &C,
    source: Seq<Entry>,
    key: Seq<u8>,
    start: nat,
)
    requires
        crate::database::comparator::is_total_order(*comparator),
        ascending(comparator, source),
        start <= source.len(),
    ensures
        start <= at_or_past(comparator, source, key, start) <= source.len(),
        forall|i: int|
            start <= i < source.len() ==> (comparator.order(#[trigger] source[i].0, key)
                == Order::Less <==> i < at_or_past(comparator, source, key, start)),
    decreases source.len() - start,
{
    if start < source.len() {
        if comparator.order(source[start as int].0, key) != Order::Less {
            assert forall|i: int| start <= i < source.len() implies comparator.order(
                #[trigger] source[i].0,
                key,
            ) != Order::Less by {
                if i > start && comparator.order(source[i].0, key) == Order::Less {
                    assert(comparator.order(source[start as int].0, source[i].0) == Order::Less);
                    assert(comparator.order(source[start as int].0, key) == Order::Less);
                }
            }
        } else {
            at_or_past_parts(comparator, source, key, start + 1);
        }
    }
}

/// In an ascending source, the entries whose keys lie within the bounds are
/// those from the start of the range to before its end.
pub proof fn range_holds_what_lies_within<C: Comparator>(
    comparator: &C,
    from: Option<Seq<u8>>,
    to: Option<Seq<u8>>,
    source: Seq<Entry>,
)
    requires
        crate::database::comparator::is_total_order(*comparator),
        ascending(comparator, source),
    ensures
        range_start(comparator, from, source) <= source.len(),
        range_end(comparator, to, source) <= source.len(),
        forall|i: int|
            0 <= i < source.len() ==> (crate::database::iterator::in_range(
                comparator,
                from,
                to,
                #[trigger] source[i].0,
            ) <==> range_start(comparator, from, source) <= i < range_end(comparator, to, source)),
{
    if let Some(key) = from {
        at_or_past_parts(comparator, source, key, 0);
    }
    if let Some(key) = to {
        at_or_past_parts(comparator, source, key, 0);
    }
    assert forall|i: int| 0 <= i < source.len() implies (crate::database::iterator::in_range(
        comparator,
        from,
        to,
        #[trigger] source[i].0,
    ) <==> range_start(comparator, from, source) <= i < range_end(comparator, to, source)) by {
        if let Some(key) = from {
            assert(comparator.order(key, source[i].0) == Order::Greater <==> comparator.order(
                source[i].0,
                key,
            ) == Order::Less);
        }
    }
}

/// A walk that goes on from an entry of the range yields the rest of the
/// range.
proof fn walk_from_within<C: Comparator>(
    comparator: &C,
    from: Option<Seq<u8>>,
    to: Option<Seq<u8>>,
    source: Seq<Entry>,
    at: int,
    rounds: nat,
)
    requires
        crate::database::comparator::is_total_order(*comparator),
        ascending(comparator, source),
        range_start(comparator, from, source) <= at < range_end(comparator, to, source),
        rounds + at >= source.len(),
    ensures
        walk(
            comparator,
            from,
            to,
            source,
            State::Positioned { key: source[at].0, value: source[at].1 },
            Some(at),
            rounds,
        ) == source.subrange(at + 1, range_end(comparator, to, source) as int),
    decreases rounds,
{
    range_holds_what_lies_within(comparator, from, to, source);
    let end = range_end(comparator, to, source) as int;
    let state = State::Positioned { key: source[at].0, value: source[at].1 };
    let yielded = walk(comparator, from, to, source, state, Some(at), rounds);
    if at + 1 < end {
        assert(rounds > 0);
        assert(crate::database::iterator::in_range(comparator, from, to, source[at + 1].0));
        walk_from_within(comparator, from, to, source, at + 1, (rounds - 1) as nat);
        assert(source[at + 1] == (source[at + 1].0, source[at + 1].1));
        assert(yielded =~= source.subrange(at + 1, end));
    } else {
        if rounds > 0 && at + 1 < source.len() {
            assert(!crate::database::iterator::in_range(comparator, from, to, source[at + 1].0));
        }
        assert(yielded =~= source.subrange(at + 1, end));
    }
}

/// A full iteration yields the range, in order. Over a native iterator whose
/// entries ascend under the comparator of the database, a cursor that was
/// never moved and is taken on by `advance` and `land` until it stands on no
/// entry yields the entries whose keys lie within its bounds, all of them and
/// no other, in ascending order of their keys. A cursor without bounds
/// yields every entry.
pub proof fn walk_yields_the_range<C: Comparator>(
    comparator: &C,
    from: Option<Seq<u8>>,
    to: Option<Seq<u8>>,
    source: Seq<Entry>,
    rounds: nat,
)
    requires
        crate::database::comparator::is_total_order(*comparator),
        ascending(comparator, source),
        rounds > source.len(),
    ensures
        walk(comparator, from, to, source, State::Uninitialized, None, rounds) == range_of(
            comparator,
            from,
            to,
            source,
        ),
        ascending(comparator, range_of(comparator, from, to, source)),
        forall|i: int|
            0 <= i < range_of(comparator, from, to, source).len()
                ==> crate::database::iterator::in_range(
                comparator,
                from,
                to,
                #[trigger] range_of(comparator, from, to, source)[i].0,
            ),
        from is None && to is None ==> range_of(comparator, from, to, source) == source,
{
    range_holds_what_lies_within(comparator, from, to, source);
    let start = range_start(comparator, from, source) as int;
    let end = range_end(comparator, to, source) as int;
    let yielded = walk(comparator, from, to, source, State::Uninitialized, None, rounds);
    let range = range_of(comparator, from, to, source);
    if start < end {
        assert(crate::database::iterator::in_range(comparator, from, to, source[start].0));
        walk_from_within(comparator, from, to, source, start, (rounds - 1) as nat);
        assert(source[start] == (source[start].0, source[start].1));
        assert(yielded =~= range);
        assert forall|i: int| 0 <= i < range.len() implies crate::database::iterator::in_range(
            comparator,
            from,
            to,
            #[trigger] range[i].0,
        ) by {
            assert(range[i] == source[start + i]);
        }
        assert forall|i: int, j: int| 0 <= i < j < range.len() implies comparator.order(
            #[trigger] range[i].0,
            #[trigger] range[j].0,
        ) == Order::Less by {
            assert(range[i] == source[start + i]);
            assert(range[j] == source[start + j]);
        }
    } else {
        if start < source.len() {
            assert(!crate::database::iterator::in_range(comparator, from, to, source[start].0));
        }
        assert(yielded =~= range);
    }
    if from is None && to is None {
        assert(range =~= source);
    }
}

/// A full iteration of a database that was opened without a comparator
/// ascends by the bytes of the keys: over a native iterator whose entries
/// ascend by the bytes of their keys, a cursor without bounds yields every
/// entry, in that order.
pub proof fn walk_ascends_by_bytes(source: Seq<Entry>, rounds: nat)
    requires
        ascending(&OrdComparator, source),
        rounds > source.len(),
    ensures
        walk(&OrdComparator, None, None, source, State::Uninitialized, None, rounds) == source,
        forall|i: int, j: int|
            0 <= i < j < source.len() ==> crate::database::comparator::bytewise(
                #[trigger] source[i].0,
                #[trigger] source[j].0,
            ) == Order::Less,
{
    crate::database::comparator::ord_comparator_is_total_order();
    walk_yields_the_range(&OrdComparator, None, None, source, rounds);
    assert forall|i: int, j: int|
        0 <= i < j < source.len() implies crate::database::comparator::bytewise(
        #[trigger] source[i].0,
        #[trigger] source[j].0,
    ) == Order::Less by {
        assert(OrdComparator.order(source[i].0, source[j].0) == Order::Less);
    }
}

/// `seek_to_last` finds the last entry of the range. Over a native iterator
/// whose entries ascend under the comparator of the database, a cursor that
/// `seek_to_last` has sent off and that is handed to `land` until `land`
/// asks for no more call stands on the last entry whose key lies within its
/// bounds, and is invalid where no key lies within them.
pub proof fn seek_to_last_finds_the_end_of_the_range<C: Comparator>(
    comparator: &C,
    from: Option<Seq<u8>>,
    to: Option<Seq<u8>>,
    source: Seq<Entry>,
    iter: Handle,
    position: Option<int>,
)
    requires
        crate::database::comparator::is_total_order(*comparator),
        ascending(comparator, source),
    ensures
        ({
            let range = range_of(comparator, from, to, source);
            let state = settled(
                comparator,
                from,
                to,
                source,
                iter,
                last_state(to),
                position,
                Some(last_move(to)),
                2,
            );
            if range.len() > 0 {
                state == (State::Positioned { key: range.last().0, value: range.last().1 })
            } else {
                state == State::Invalid
            }
        }),
{
    range_holds_what_lies_within(comparator, from, to, source);
    let start = range_start(comparator, from, source) as int;
    let end = range_end(comparator, to, source) as int;
    let first = arrives(comparator, source, position, last_move(to));
    let landing = entry_at(source, first);
    let state = crate::database::iterator::landed(comparator, from, to, last_state(to), landing);
    let asked = move_asked(crate::database::iterator::follow_up(iter, last_state(to), landing));
    let second = match asked {
        Some(asked) => arrives(comparator, source, first, asked),
        None => first,
    };
    assert(second == if end > 0 {
        Some(end - 1)
    } else {
        None::<int>
    });
    if end > 0 {
        assert(crate::database::iterator::in_range(comparator, from, to, source[end - 1].0)
            <==> start < end);
    }
    reveal_with_fuel(settled, 3);
    if start < end {
        assert(range_of(comparator, from, to, source).last() == source[end - 1]);
    }
}

} // verus!
