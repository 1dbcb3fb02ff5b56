//! Compaction
use crate::database::comparator::Comparator;
use crate::database::engine::Call;
use crate::database::Database;
use vstd::prelude::*;

verus! {

/// Compaction of a range of keys.
pub trait Compaction<'a> {
    /// Asks for the compaction of the keys from `start` to `limit`.
    fn compact(&self, start: &'a [u8], limit: &'a [u8]) -> Call<'a>;
}

impl<'a, C: Comparator> Compaction<'a> for Database<C> {
    fn compact(&self, start: &'a [u8], limit: &'a [u8]) -> (call: Call<'a>)
        ensures
            call == (Call::CompactRange {
                db: self.handle(),
                start: crate::database::compaction_bound(start),
                limit: crate::database::compaction_bound(limit),
            }),
    {
        Database::compact(self, start, limit)
    }
}

} // verus!
