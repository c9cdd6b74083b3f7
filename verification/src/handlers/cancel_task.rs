//! `CancelTask`: cancels a task whose owner is torn down.

use vstd::prelude::*;

use crate::handler::{Collector, HandlerContext, World};
use crate::handlers::child_completed::{child_settled, settled};
use crate::id::Timestamp;
use crate::storage::order::store_ok;
use crate::types::event::{group_event_view, Event, EventView};
use crate::types::meta::{ObjectReference, ObjectReferenceView};
use crate::types::task::{TaskStatus, TaskView};

verus! {

broadcast use group_event_view;

/// A task cancelled at `now`.
pub open spec fn cancelled_task(t: TaskView, now: Timestamp) -> TaskView {
    TaskView { meta: t.meta.touched(now), status: TaskStatus::Cancelled, ..t }
}

/// What cancelling a task leaves: it is cancelled, and its owner reacts. One that is gone is left
/// alone.
pub open spec fn task_cancellation(
    w: World,
    ctx: HandlerContext,
    task: ObjectReferenceView,
) -> World {
    match w.store.task(task) {
        Ok(Some(row)) => settled(
            w.event(EventView::TaskCancelled { task: cancelled_task(row.value, w.now) }),
            ctx,
            row.value.meta.owner->0,
            task,
        ),
        _ => w,
    }
}

/// Handles `CancelTask`.
pub struct CancelTaskHandler;

impl Default for CancelTaskHandler {
    fn default() -> (r: Self)
        ensures
            r == CancelTaskHandler,
    {
        CancelTaskHandler
    }
}

impl CancelTaskHandler {
    pub fn handle(&self, task: &ObjectReference, ctx: &HandlerContext, out: &mut Collector)
        requires
            store_ok(old(out)@.store),
        ensures
            final(out)@ == task_cancellation(old(out)@, *ctx, task@),
            store_ok(final(out)@.store),
    {
        let row = match out.storage().get_task(task) {
            Ok(Some(t)) => t,
            _ => return ,
        };
        let mut value = row.value;
        let owner = value.meta.owner.clone().unwrap();
        value.status = TaskStatus::Cancelled;
        value.meta.with_update_at(out.now());
        out.append_event(Event::TaskCancelled { task: value });
        child_settled(ctx, out, &owner, task);
    }
}

} // verus!
