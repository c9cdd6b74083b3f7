//! The stored row of a timer.

use vstd::prelude::*;

use crate::id::Timestamp;
use crate::types::timer::{Timer, TimerView};

verus! {

/// The stored row of a timer.
#[derive(Debug, PartialEq, Eq)]
pub struct TimerRecord {
    pub value: Timer,
    /// When the entry that created the row was written.
    pub created_at: Timestamp,
    /// When the last entry that touched the row was written.
    pub updated_at: Timestamp,
}

/// What a [`TimerRecord`] holds.
pub struct TimerRecordView {
    pub value: TimerView,
    pub created_at: Timestamp,
    pub updated_at: Timestamp,
}

impl View for TimerRecord {
    type V = TimerRecordView;

    open spec fn view(&self) -> TimerRecordView {
        TimerRecordView {
            value: self.value@,
            created_at: self.created_at,
            updated_at: self.updated_at,
        }
    }
}

impl DeepView for TimerRecord {
    type V = TimerRecordView;

    open spec fn deep_view(&self) -> TimerRecordView {
        self.view()
    }
}

impl Clone for TimerRecord {
    fn clone(&self) -> (r: Self)
        ensures
            r@ == self@,
    {
        TimerRecord {
            value: self.value.clone(),
            created_at: self.created_at,
            updated_at: self.updated_at,
        }
    }
}

impl TimerRecordView {
    /// The row last touched by an entry written at `at`.
    pub open spec fn touched(self, at: Timestamp) -> TimerRecordView {
        TimerRecordView { updated_at: at, ..self }
    }

    /// The row created by an entry written at `at`.
    pub open spec fn born(self, at: Timestamp) -> TimerRecordView {
        TimerRecordView { created_at: at, updated_at: at, ..self }
    }
}

impl TimerRecord {
    /// The value that the row holds, without what only the store keeps.
    pub fn value(&self) -> (r: Timer)
        ensures
            r@ == self@.value,
    {
        self.value.clone()
    }

    /// The row of `value`, not stamped yet.
    pub fn from_value(value: Timer) -> (r: Self)
        ensures
            r@ == (TimerRecordView {
                value: value@,
                created_at: Timestamp(0),
                updated_at: Timestamp(0),
            }),
    {
        TimerRecord {
            value,
            created_at: Timestamp(0),
            updated_at: Timestamp(0),
        }
    }

    /// Stamps a fresh row: the entry that created it was written at `at`.
    pub fn born(&mut self, at: Timestamp)
        ensures
            final(self)@ == old(self)@.born(at),
    {
        self.created_at = at;
        self.updated_at = at;
    }

    /// Records that an entry written at `at` touched the row.
    pub fn touch(&mut self, at: Timestamp)
        ensures
            final(self)@ == old(self)@.touched(at),
    {
        self.updated_at = at;
    }
}

} // verus!
