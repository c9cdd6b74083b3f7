//! `CancelTimer`: cancels an armed timer.

use vstd::prelude::*;

use crate::handler::{Collector, HandlerContext, World};
use crate::handlers::child_completed::{child_settled, settled};
use crate::handlers::shared::settled_timer;
use crate::storage::order::store_ok;
use crate::types::event::{group_event_view, Event, EventView};
use crate::types::meta::{ObjectReference, ObjectReferenceView};
use crate::types::timer::TimerStatus;

verus! {

broadcast use group_event_view;

/// What cancelling a timer leaves: one that is armed is cancelled, and its owner reacts. Any other,
/// and one that is gone, is left alone.
pub open spec fn timer_cancellation(
    w: World,
    ctx: HandlerContext,
    timer: ObjectReferenceView,
) -> World {
    match w.store.timer(timer) {
        Ok(Some(row)) => if row.value.status is Active {
            settled(
                w.event(
                    EventView::TimerCancelled {
                        timer: settled_timer(row.value, TimerStatus::Cancelled, w.now),
                    },
                ),
                ctx,
                row.value.meta.owner->0,
                timer,
            )
        } else {
            w
        },
        _ => w,
    }
}

/// Cancelling a timer that has fired or was cancelled changes nothing.
pub proof fn law_duplicate_cancel_is_idle(
    w: World,
    ctx: HandlerContext,
    timer: ObjectReferenceView,
)
    requires
        w.store.timer(timer) matches Ok(Some(row)) && !(row.value.status is Active),
    ensures
        timer_cancellation(w, ctx, timer) == w,
{
}

/// Handles `CancelTimer`.
pub struct CancelTimerHandler;

impl Default for CancelTimerHandler {
    fn default() -> (r: Self)
        ensures
            r == CancelTimerHandler,
    {
        CancelTimerHandler
    }
}

impl CancelTimerHandler {
    pub fn handle(&self, timer: &ObjectReference, ctx: &HandlerContext, out: &mut Collector)
        requires
            store_ok(old(out)@.store),
        ensures
            final(out)@ == timer_cancellation(old(out)@, *ctx, timer@),
            store_ok(final(out)@.store),
    {
        let row = match out.storage().get_timer(timer) {
            Ok(Some(t)) => t,
            _ => return ,
        };
        if row.value.status != TimerStatus::Active {
            return ;
        }
        let mut value = row.value;
        let owner = value.meta.owner.clone().unwrap();
        value.status = TimerStatus::Cancelled;
        value.meta.with_update_at(out.now());
        out.append_event(Event::TimerCancelled { timer: value });
        child_settled(ctx, out, &owner, timer);
    }
}

} // verus!
