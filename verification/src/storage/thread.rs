//! The stored row of a thread.

use vstd::prelude::*;

use crate::id::Timestamp;
use crate::types::meta::{ObjectReference, ObjectReferenceView};
use crate::types::thread::{Thread, ThreadView};
use crate::value::{MemberView, Variables};

verus! {

/// The stored row of a thread: the thread as its events tell it, with what only the store keeps.
#[derive(Debug, PartialEq, Eq)]
pub struct ThreadRecord {
    pub value: Thread,
    pub variables: Variables,
    /// The activity in flight.
    pub current_activity: Option<ObjectReference>,
    /// Owned nodes still in flight, each listed once.
    pub active_children: Vec<ObjectReference>,
    /// When the entry that created the row was written.
    pub created_at: Timestamp,
    /// When the last entry that touched the row was written.
    pub updated_at: Timestamp,
}

/// What a [`ThreadRecord`] holds.
pub struct ThreadRecordView {
    pub value: ThreadView,
    pub variables: Seq<MemberView>,
    pub current_activity: Option<ObjectReferenceView>,
    pub active_children: Seq<ObjectReferenceView>,
    pub created_at: Timestamp,
    pub updated_at: Timestamp,
}

impl View for ThreadRecord {
    type V = ThreadRecordView;

    open spec fn view(&self) -> ThreadRecordView {
        ThreadRecordView {
            value: self.value@,
            variables: self.variables@,
            current_activity: self.current_activity.deep_view(),
            active_children: self.active_children.deep_view(),
            created_at: self.created_at,
            updated_at: self.updated_at,
        }
    }
}

impl DeepView for ThreadRecord {
    type V = ThreadRecordView;

    open spec fn deep_view(&self) -> ThreadRecordView {
        self.view()
    }
}

impl Clone for ThreadRecord {
    fn clone(&self) -> (r: Self)
        ensures
            r@ == self@,
    {
        let r = ThreadRecord {
            value: self.value.clone(),
            variables: self.variables.clone(),
            current_activity: self.current_activity.clone(),
            active_children: self.active_children.clone(),
            created_at: self.created_at,
            updated_at: self.updated_at,
        };
        assert(r.active_children.deep_view() =~= self.active_children.deep_view());
        r
    }
}

impl ThreadRecordView {
    /// The row last touched by an entry written at `at`.
    pub open spec fn touched(self, at: Timestamp) -> ThreadRecordView {
        ThreadRecordView { updated_at: at, ..self }
    }

    /// The row created by an entry written at `at`.
    pub open spec fn born(self, at: Timestamp) -> ThreadRecordView {
        ThreadRecordView { created_at: at, updated_at: at, ..self }
    }
}

impl ThreadRecord {
    /// The value that the row holds, without what only the store keeps.
    pub fn value(&self) -> (r: Thread)
        ensures
            r@ == self@.value,
    {
        self.value.clone()
    }

    /// The row of `value`, not stamped yet.
    pub fn from_value(value: Thread, active_children: Vec<ObjectReference>) -> (r: Self)
        ensures
            r@ == (ThreadRecordView {
                value: value@,
                variables: Seq::empty(),
                current_activity: None,
                active_children: active_children.deep_view(),
                created_at: Timestamp(0),
                updated_at: Timestamp(0),
            }),
    {
        ThreadRecord {
            value,
            variables: Variables::new(),
            current_activity: None,
            active_children,
            created_at: Timestamp(0),
            updated_at: Timestamp(0),
        }
    }

    /// Whether the node has reached its end.
    pub fn is_terminal(&self) -> (r: bool)
        ensures
            r == self@.value.status.terminal(),
    {
        self.value.is_terminal()
    }

    /// Stamps a fresh row: the entry that created it was written at `at`.
    pub fn born(&mut self, at: Timestamp)
        ensures
            final(self)@ == old(self)@.born(at),
    {
        self.created_at = at;
        self.updated_at = at;
    }

    /// Records that an entry written at `at` touched the row.
    pub fn with_update_at(&mut self, at: Timestamp)
        ensures
            final(self)@ == old(self)@.touched(at),
    {
        self.updated_at = at;
    }
}

} // verus!
