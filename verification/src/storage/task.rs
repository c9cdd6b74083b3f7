//! The stored row of a task.

use vstd::prelude::*;

use crate::id::Timestamp;
use crate::types::task::{Task as TaskValue, TaskView};

verus! {

/// The stored row of a task.
#[derive(Debug, PartialEq, Eq)]
pub struct Task {
    pub value: TaskValue,
    /// When the entry that created the row was written.
    pub created_at: Timestamp,
    /// When the last entry that touched the row was written.
    pub updated_at: Timestamp,
}

/// What a [`Task`] holds.
pub struct TaskRecordView {
    pub value: TaskView,
    pub created_at: Timestamp,
    pub updated_at: Timestamp,
}

impl View for Task {
    type V = TaskRecordView;

    open spec fn view(&self) -> TaskRecordView {
        TaskRecordView {
            value: self.value@,
            created_at: self.created_at,
            updated_at: self.updated_at,
        }
    }
}

impl DeepView for Task {
    type V = TaskRecordView;

    open spec fn deep_view(&self) -> TaskRecordView {
        self.view()
    }
}

impl Clone for Task {
    fn clone(&self) -> (r: Self)
        ensures
            r@ == self@,
    {
        Task {
            value: self.value.clone(),
            created_at: self.created_at,
            updated_at: self.updated_at,
        }
    }
}

impl TaskRecordView {
    /// The row last touched by an entry written at `at`.
    pub open spec fn touched(self, at: Timestamp) -> TaskRecordView {
        TaskRecordView { updated_at: at, ..self }
    }

    /// The row created by an entry written at `at`.
    pub open spec fn born(self, at: Timestamp) -> TaskRecordView {
        TaskRecordView { created_at: at, updated_at: at, ..self }
    }
}

impl Task {
    /// The value that the row holds, without what only the store keeps.
    pub fn value(&self) -> (r: TaskValue)
        ensures
            r@ == self@.value,
    {
        self.value.clone()
    }

    /// The row of `value`, not stamped yet.
    pub fn from_value(value: TaskValue) -> (r: Self)
        ensures
            r@ == (TaskRecordView {
                value: value@,
                created_at: Timestamp(0),
                updated_at: Timestamp(0),
            }),
    {
        Task {
            value,
            created_at: Timestamp(0),
            updated_at: Timestamp(0),
        }
    }

    /// Stamps a fresh row: the entry that created it was written at `at`.
    pub fn born(&mut self, at: Timestamp)
        ensures
            final(self)@ == old(self)@.born(at),
    {
        self.created_at = at;
        self.updated_at = at;
    }

    /// Records that an entry written at `at` touched the row.
    pub fn touch(&mut self, at: Timestamp)
        ensures
            final(self)@ == old(self)@.touched(at),
    {
        self.updated_at = at;
    }
}

} // verus!
