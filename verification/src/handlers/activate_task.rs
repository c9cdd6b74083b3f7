//! `ActivateTask`: records an invocation, for a worker to claim.

use vstd::prelude::*;

use crate::handler::{Collector, HandlerContext};
use crate::id::Timestamp;
use crate::storage::order::store_ok;
use crate::types::command::{ActivateTask, ActivateTaskView};
use crate::types::event::{group_event_view, Event, EventView};
use crate::types::meta::{born_meta, ObjectKind, ObjectMeta};
use crate::types::task::{no_retries, RetryState, Task, TaskStatus, TaskView};

verus! {

broadcast use group_event_view;

/// The task that an invocation makes: pending, so that a worker can claim it.
pub open spec fn pending_task(cmd: ActivateTaskView, now: Timestamp) -> TaskView {
    TaskView {
        meta: born_meta(ObjectKind::Task, cmd.task.name, cmd.task.uid, now, Some(cmd.owner)),
        execution: cmd.execution,
        resource: cmd.resource,
        arguments: cmd.arguments,
        status: TaskStatus::Pending,
        deadline: cmd.deadline,
        worker_id: None,
        lease_expires_at: None,
        retry_plan: cmd.retry_plan,
        retry_state: no_retries(),
    }
}

/// A task that has just been invoked can be claimed at once.
pub proof fn law_invoked_task_is_claimable(cmd: ActivateTaskView, now: Timestamp)
    ensures
        pending_task(cmd, now).claimable(now),
{
}

/// Handles `ActivateTask`.
pub struct ActivateTaskHandler;

impl Default for ActivateTaskHandler {
    fn default() -> (r: Self)
        ensures
            r == ActivateTaskHandler,
    {
        ActivateTaskHandler
    }
}

impl ActivateTaskHandler {
    pub fn handle(&self, p: &ActivateTask, ctx: &HandlerContext, out: &mut Collector)
        requires
            store_ok(old(out)@.store),
        ensures
            final(out)@ == old(out)@.event(
                EventView::TaskActivated { task: pending_task(p@, old(out)@.now) },
            ),
            store_ok(final(out)@.store),
    {
        let retry_plan = p.retry_plan.clone();
        assert(retry_plan.deep_view() =~= p.retry_plan.deep_view());
        let task = Task {
            meta: ObjectMeta::born(
                ObjectKind::Task,
                p.task.name.clone(),
                p.task.uid,
                out.now(),
                Some(p.owner.clone()),
            ),
            execution: p.execution.clone(),
            resource: p.resource.clone(),
            arguments: p.arguments.clone(),
            status: TaskStatus::Pending,
            deadline: p.deadline,
            worker_id: None,
            lease_expires_at: None,
            retry_plan,
            retry_state: RetryState::default(),
        };
        out.append_event(Event::TaskActivated { task });
    }
}

} // verus!
