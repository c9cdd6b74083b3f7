//! Arming a timer.

use vstd::prelude::*;

use crate::id::{NodeId, TimerId, Timestamp};
use crate::node::outbox::{Event, EventView, Outbox};
use crate::node::storage::TimerPurpose;

verus! {

/// Handles `ActivateTimer`.
pub struct ActivateTimerHandler;

impl Default for ActivateTimerHandler {
    fn default() -> (r: Self)
        ensures
            r == ActivateTimerHandler,
    {
        ActivateTimerHandler
    }
}

impl ActivateTimerHandler {
    /// Records that a timer is armed. That is all: the delay itself is driven by what is recorded.
    pub fn handle(
        &self,
        parent: NodeId,
        timer: TimerId,
        purpose: TimerPurpose,
        deadline: Timestamp,
        out: &mut Outbox,
    )
        ensures
            final(out)@ == old(out)@.event(
                EventView::TimerActivated { parent, timer, purpose, deadline },
            ),
    {
        out.emit_event(Event::TimerActivated { parent, timer, purpose, deadline });
    }
}

} // verus!
