//! The seam for timers.

use vstd::prelude::*;

use std::sync::Arc;

use crate::id::{EntryId, TimerId, Timestamp};

verus! {

/// Takes the timers that have expired. A scheduler writes nothing itself.
pub trait TimerSink {
    /// The deadline of a timer has passed; `cause_id` is the entry that armed it.
    fn trigger(&self, timer: TimerId, cause_id: EntryId);
}

/// Runs timers against the clock.
pub trait Scheduler {
    /// Says where timers that expire are handed to. This comes before any timer is armed.
    fn attach_sink(&self, sink: Arc<dyn TimerSink>);

    /// Arms a timer.
    fn schedule(&self, timer: TimerId, deadline: Timestamp, cause_id: EntryId);

    /// Disarms a timer.
    fn cancel(&self, timer: TimerId);
}

} // verus!
