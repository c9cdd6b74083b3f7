//! The stored row of an activity.

use vstd::prelude::*;

use crate::id::Timestamp;
use crate::types::activity::{Activity, ActivityView};
use crate::types::meta::{ObjectReference, ObjectReferenceView};

verus! {

/// The stored row of an activity: the activity as its events tell it, with what only the store keeps.
#[derive(Debug, PartialEq, Eq)]
pub struct ActivityRecord {
    pub value: Activity,
    /// Owned nodes still in flight, each listed once.
    pub active_children: Vec<ObjectReference>,
    /// When the entry that created the row was written.
    pub created_at: Timestamp,
    /// When the last entry that touched the row was written.
    pub updated_at: Timestamp,
}

/// What a [`ActivityRecord`] holds.
pub struct ActivityRecordView {
    pub value: ActivityView,
    pub active_children: Seq<ObjectReferenceView>,
    pub created_at: Timestamp,
    pub updated_at: Timestamp,
}

impl View for ActivityRecord {
    type V = ActivityRecordView;

    open spec fn view(&self) -> ActivityRecordView {
        ActivityRecordView {
            value: self.value@,
            active_children: self.active_children.deep_view(),
            created_at: self.created_at,
            updated_at: self.updated_at,
        }
    }
}

impl DeepView for ActivityRecord {
    type V = ActivityRecordView;

    open spec fn deep_view(&self) -> ActivityRecordView {
        self.view()
    }
}

impl Clone for ActivityRecord {
    fn clone(&self) -> (r: Self)
        ensures
            r@ == self@,
    {
        let r = ActivityRecord {
            value: self.value.clone(),
            active_children: self.active_children.clone(),
            created_at: self.created_at,
            updated_at: self.updated_at,
        };
        assert(r.active_children.deep_view() =~= self.active_children.deep_view());
        r
    }
}

impl ActivityRecordView {
    /// The row last touched by an entry written at `at`.
    pub open spec fn touched(self, at: Timestamp) -> ActivityRecordView {
        ActivityRecordView { updated_at: at, ..self }
    }

    /// The row created by an entry written at `at`.
    pub open spec fn born(self, at: Timestamp) -> ActivityRecordView {
        ActivityRecordView { created_at: at, updated_at: at, ..self }
    }
}

impl ActivityRecord {
    /// The value that the row holds, without what only the store keeps.
    pub fn value(&self) -> (r: Activity)
        ensures
            r@ == self@.value,
    {
        self.value.clone()
    }

    /// The row of `value`, not stamped yet.
    pub fn from_value(value: Activity, active_children: Vec<ObjectReference>) -> (r: Self)
        ensures
            r@ == (ActivityRecordView {
                value: value@,
                active_children: active_children.deep_view(),
                created_at: Timestamp(0),
                updated_at: Timestamp(0),
            }),
    {
        ActivityRecord {
            value,
            active_children,
            created_at: Timestamp(0),
            updated_at: Timestamp(0),
        }
    }

    /// Stamps a fresh row: the entry that created it was written at `at`.
    pub fn born(&mut self, at: Timestamp)
        ensures
            final(self)@ == old(self)@.born(at),
    {
        self.created_at = at;
        self.updated_at = at;
    }

    /// Records that an entry written at `at` touched the row.
    pub fn touch(&mut self, at: Timestamp)
        ensures
            final(self)@ == old(self)@.touched(at),
    {
        self.updated_at = at;
    }
}

} // verus!
