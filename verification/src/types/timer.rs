//! Timers.

use vstd::prelude::*;

use crate::id::Timestamp;
use crate::types::meta::{ObjectMeta, ObjectMetaView, ObjectReference, ObjectReferenceView};

verus! {

/// What a timer is armed for.
#[derive(Clone, Copy, Debug, PartialEq, Eq, Structural)]
pub enum TimerPurpose {
    /// Resume a `Wait`.
    WaitResume,
    /// Bound the work of a `Task`.
    TaskTimeout,
    /// Bound how long a worker may hold a task.
    DeliveryLease,
    /// Bound a whole execution.
    ExecutionTimeout,
}

impl View for TimerPurpose {
    type V = TimerPurpose;

    open spec fn view(&self) -> TimerPurpose {
        *self
    }
}

impl DeepView for TimerPurpose {
    type V = TimerPurpose;

    open spec fn deep_view(&self) -> TimerPurpose {
        self.view()
    }
}

/// The lifecycle of a timer. It never completes by itself: it is armed, and then either fires or is
/// cancelled.
#[derive(Clone, Copy, Debug, PartialEq, Eq, Structural)]
pub enum TimerStatus {
    Active,
    Completed,
    Cancelled,
}

impl View for TimerStatus {
    type V = TimerStatus;

    open spec fn view(&self) -> TimerStatus {
        *self
    }
}

impl DeepView for TimerStatus {
    type V = TimerStatus;

    open spec fn deep_view(&self) -> TimerStatus {
        self.view()
    }
}

/// A deadline armed by an execution or an activity.
#[derive(Debug, PartialEq, Eq)]
pub struct Timer {
    pub meta: ObjectMeta,
    pub execution: ObjectReference,
    pub purpose: TimerPurpose,
    pub status: TimerStatus,
    pub deadline: Timestamp,
}

/// What a [`Timer`] holds.
pub struct TimerView {
    pub meta: ObjectMetaView,
    pub execution: ObjectReferenceView,
    pub purpose: TimerPurpose,
    pub status: TimerStatus,
    pub deadline: Timestamp,
}

impl View for Timer {
    type V = TimerView;

    open spec fn view(&self) -> TimerView {
        TimerView {
            meta: self.meta@,
            execution: self.execution@,
            purpose: self.purpose,
            status: self.status,
            deadline: self.deadline,
        }
    }
}

impl DeepView for Timer {
    type V = TimerView;

    open spec fn deep_view(&self) -> TimerView {
        self.view()
    }
}

impl Clone for Timer {
    fn clone(&self) -> (r: Self)
        ensures
            r@ == self@,
    {
        Timer {
            meta: self.meta.clone(),
            execution: self.execution.clone(),
            purpose: self.purpose,
            status: self.status,
            deadline: self.deadline,
        }
    }
}

impl TimerView {
    /// The reference that addresses this timer.
    pub open spec fn reference(self) -> ObjectReferenceView {
        self.meta.reference()
    }
}

impl Timer {
    /// The reference that addresses this timer.
    pub fn reference(&self) -> (r: ObjectReference)
        ensures
            r@ == self@.reference(),
    {
        self.meta.reference()
    }
}

impl TimerStatus {
    pub fn is_active(&self) -> (r: bool)
        ensures
            r == (*self is Active),
    {
        matches!(self, TimerStatus::Active)
    }

    pub fn is_terminal(&self) -> (r: bool)
        ensures
            r == (*self is Completed || *self is Cancelled),
    {
        matches!(self, TimerStatus::Completed | TimerStatus::Cancelled)
    }
}

} // verus!
