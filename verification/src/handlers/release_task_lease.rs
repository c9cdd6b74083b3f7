//! `ReleaseTaskLease`: puts a task whose lease has run out back for another worker.

use vstd::prelude::*;

use crate::handler::{Collector, HandlerContext, World};
use crate::id::Timestamp;
use crate::storage::order::store_ok;
use crate::types::event::{group_event_view, Event, EventView};
use crate::types::meta::{ObjectReference, ObjectReferenceView};
use crate::types::task::{RetryStateView, TaskStatus, TaskView};

verus! {

broadcast use group_event_view;

/// A task put back at `now`: pending, with neither worker nor lease, and no backoff.
pub open spec fn released_task(t: TaskView, now: Timestamp) -> TaskView {
    TaskView {
        meta: t.meta.touched(now),
        status: TaskStatus::Pending,
        worker_id: None,
        lease_expires_at: None,
        retry_state: RetryStateView { next_available_at: None, ..t.retry_state },
        ..t
    }
}

/// What releasing a lease leaves: a task that is leased is put back. Any other, and one that is
/// gone, is left alone.
pub open spec fn lease_release(w: World, task: ObjectReferenceView) -> World {
    match w.store.task(task) {
        Ok(Some(row)) => if row.value.status is Running {
            w.event(EventView::TaskLeaseExpired { task: released_task(row.value, w.now) })
        } else {
            w
        },
        _ => w,
    }
}

/// A task that was put back can be claimed at once.
pub proof fn law_released_task_is_claimable(t: TaskView, now: Timestamp, at: Timestamp)
    ensures
        released_task(t, now).claimable(at),
{
}

/// Handles `ReleaseTaskLease`.
pub struct ReleaseTaskLeaseHandler;

impl Default for ReleaseTaskLeaseHandler {
    fn default() -> (r: Self)
        ensures
            r == ReleaseTaskLeaseHandler,
    {
        ReleaseTaskLeaseHandler
    }
}

impl ReleaseTaskLeaseHandler {
    pub fn handle(&self, task: &ObjectReference, ctx: &HandlerContext, out: &mut Collector)
        requires
            store_ok(old(out)@.store),
        ensures
            final(out)@ == lease_release(old(out)@, task@),
            store_ok(final(out)@.store),
    {
        let row = match out.storage().get_task(task) {
            Ok(Some(t)) => t,
            _ => return ,
        };
        if !row.value.status.is_running() {
            return ;
        }
        let mut value = row.value;
        value.status = TaskStatus::Pending;
        value.worker_id = None;
        value.lease_expires_at = None;
        value.retry_state.next_available_at = None;
        value.meta.with_update_at(out.now());
        out.append_event(Event::TaskLeaseExpired { task: value });
    }
}

} // verus!
