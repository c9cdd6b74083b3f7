//! What is committed: the store, and how far into the log it reaches.

use vstd::prelude::*;

use crate::storage::store::{empty_store, Store, StoreView};

verus! {

/// The committed store, and the position of the last entry that it reflects.
#[derive(Debug, PartialEq, Eq)]
pub struct Projection {
    store: Store,
    position: i64,
}

/// What a [`Projection`] holds.
pub struct ProjectionView {
    pub store: StoreView,
    pub position: i64,
}

impl View for Projection {
    type V = ProjectionView;

    closed spec fn view(&self) -> ProjectionView {
        ProjectionView { store: self.store@, position: self.position }
    }
}

impl Projection {
    /// A projection that reflects nothing.
    pub fn new() -> (r: Projection)
        ensures
            r@ == (ProjectionView { store: empty_store(), position: 0 }),
    {
        Projection { store: Store::new(), position: 0 }
    }

    /// The committed store.
    pub fn store(&self) -> (r: &Store)
        ensures
            r@ == self@.store,
    {
        &self.store
    }

    /// The position of the last entry that is reflected; zero when none is.
    pub fn last_processed_position(&self) -> (r: i64)
        ensures
            r == self@.position,
    {
        self.position
    }

    /// Begins a transaction: a copy of the store to work on.
    pub fn begin_txn(&self) -> (r: Store)
        ensures
            r@ == self@.store,
    {
        self.store.clone()
    }

    /// Commits a transaction, and with it the position that it reaches, if one is given.
    pub fn commit(&mut self, txn: Store, position: Option<i64>)
        ensures
            final(self)@.store == txn@,
            final(self)@.position == (match position {
                Some(position) => position,
                None => old(self)@.position,
            }),
    {
        self.store = txn;
        if let Some(position) = position {
            self.position = position;
        }
    }
}

} // verus!
