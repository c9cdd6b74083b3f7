//! The follower: folds the batches of a log that a leader writes.

use vstd::prelude::*;

use crate::id::{EntryId, Timestamp};
use crate::storage::store::Store;
use crate::types::event::Event;

verus! {

/// The follower.
#[derive(Debug, PartialEq, Eq)]
pub struct Follower {
    watermark: i64,
}

impl View for Follower {
    type V = i64;

    /// The position up to which everything is applied.
    closed spec fn view(&self) -> i64 {
        self.watermark
    }
}

impl Follower {
    /// A follower that has applied nothing.
    pub fn new() -> (r: Follower)
        ensures
            r@ == 0,
    {
        Follower { watermark: 0 }
    }

    /// Installs the position up to which everything is applied.
    pub fn set_resume_position(&mut self, position: i64)
        ensures
            final(self)@ == position,
    {
        self.watermark = position;
    }

    /// Folds an event of the log into the transaction of its batch. Nothing is committed.
    pub fn apply_event(&self, txn: &mut Store, timestamp: Timestamp, event: &Event)
        ensures
            final(txn)@ == old(txn)@.apply(event@, timestamp),
    {
        txn.apply(event, timestamp);
    }

    /// Ends a batch at its marker, and gives the position to commit.
    pub fn commit_at_noop(&mut self, entry_id: EntryId) -> (r: Option<i64>)
        ensures
            r == Some(entry_id.0),
            final(self)@ == entry_id.0,
    {
        self.watermark = entry_id.get();
        Some(self.watermark)
    }
}

} // verus!
