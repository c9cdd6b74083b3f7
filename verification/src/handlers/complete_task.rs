//! `CompleteTask`: a worker reports that a task it has leased is done.

use vstd::prelude::*;
use vstd::string::*;

use crate::handler::{Collector, HandlerContext, World};
use crate::handlers::shared::{cancel_activity_timers, timers_cancelled};
use crate::id::{debug_text, quoted, Timestamp};
use crate::storage::order::store_ok;
use crate::text::join3;
use crate::types::command::{
    group_command_view, Command, CommandView, CompleteState, CompleteStateView, CompleteTask,
    CompleteTaskView,
};
use crate::types::event::{group_event_view, Event, EventView, TaskCompleted, TaskCompletedView};
use crate::types::meta::{reference_text, ObjectKind};
use crate::types::reject::RejectionType;
use crate::types::task::{TaskStatus, TaskView};

verus! {

broadcast use {group_command_view, group_event_view};

/// Who holds a lease, as a refusal puts it, given the quoted form of the holder.
pub open spec fn holder_text(holder: Option<Seq<char>>) -> Seq<char> {
    match holder {
        Some(quoted_holder) => "Some("@ + quoted_holder + ")"@,
        None => "None"@,
    }
}

/// The quoted form of a holder.
pub open spec fn quoted_holder(holder: Option<Seq<char>>) -> Option<Seq<char>> {
    match holder {
        Some(holder) => Some(quoted(holder)),
        None => None,
    }
}

/// A task completed at `now`: it is nobody's anymore.
pub open spec fn completed_task(t: TaskView, now: Timestamp) -> TaskView {
    TaskView {
        meta: t.meta.touched(now),
        status: TaskStatus::Completed,
        worker_id: None,
        lease_expires_at: None,
        ..t
    }
}

/// What completing a task leaves. It is refused when the task is gone, is not leased, is leased to
/// another worker, or has no activity to resume; a task that cannot be read leaves nothing.
/// Otherwise the task is completed, which answers the request, the timers of its activity are
/// cancelled, and the activity is completed with the output.
pub open spec fn task_completion(w: World, cmd: CompleteTaskView) -> World {
    match w.store.task(cmd.task) {
        Err(_) => w,
        Ok(None) => w.reject(
            cmd.request_id,
            RejectionType::NotFound,
            "task "@ + reference_text(cmd.task) + " not found or not activated"@,
        ),
        Ok(Some(row)) => {
            let t = row.value;
            let owner = t.meta.owner->0;
            if !(t.status is Running) {
                w.reject(
                    cmd.request_id,
                    RejectionType::InvalidState,
                    "task "@ + reference_text(t.reference()) + (
                    " is not currently Running (status "@ + t.status.spec_text()
                        + "); settlement refused"@),
                )
            } else if t.worker_id != Some(cmd.worker_id) || cmd.worker_id.len() == 0 {
                w.reject(
                    cmd.request_id,
                    RejectionType::StateConflict,
                    "task "@ + reference_text(t.reference()) + (" is leased to "@ + holder_text(
                        quoted_holder(t.worker_id),
                    ) + (", not "@ + cmd.worker_id + "; settlement refused"@)),
                )
            } else if !(owner.kind is Activity) {
                w.reject(
                    cmd.request_id,
                    RejectionType::ProcessingError,
                    "task "@ + reference_text(cmd.task) + " has no activity owner; internal fault"@,
                )
            } else {
                let completed = EventView::TaskCompleted(
                    TaskCompletedView {
                        request_id: cmd.request_id,
                        task: completed_task(t, w.now),
                        output: cmd.output,
                    },
                );
                timers_cancelled(
                    w.ack(cmd.request_id, completed).event(completed),
                    owner,
                ).command(
                    CommandView::CompleteState(
                        CompleteStateView { activity: owner, output: cmd.output },
                    ),
                )
            }
        },
    }
}

/// Who holds a lease, as a refusal puts it.
fn describe_holder(holder: &Option<String>) -> (r: String)
    ensures
        r@ == holder_text(quoted_holder(holder.deep_view())),
{
    match holder {
        Some(holder) => join3("Some(", debug_text(holder.as_str()).as_str(), ")"),
        None => "None".to_owned(),
    }
}

/// Handles `CompleteTask`.
pub struct CompleteTaskHandler;

impl Default for CompleteTaskHandler {
    fn default() -> (r: Self)
        ensures
            r == CompleteTaskHandler,
    {
        CompleteTaskHandler
    }
}

impl CompleteTaskHandler {
    pub fn handle(&self, p: &CompleteTask, ctx: &HandlerContext, out: &mut Collector)
        requires
            store_ok(old(out)@.store),
        ensures
            final(out)@ == task_completion(old(out)@, p@),
            store_ok(final(out)@.store),
    {
        let row = match out.storage().get_task(&p.task) {
            Ok(Some(t)) => t,
            Ok(None) => {
                out.reject(
                    p.request_id,
                    RejectionType::NotFound,
                    join3("task ", p.task.text().as_str(), " not found or not activated"),
                );
                return ;
            },
            Err(_) => return ,
        };
        let reference = row.value.reference().text();
        if !row.value.status.is_running() {
            let tail = join3(
                " is not currently Running (status ",
                row.value.status.text(),
                "); settlement refused",
            );
            out.reject(
                p.request_id,
                RejectionType::InvalidState,
                join3("task ", reference.as_str(), tail.as_str()),
            );
            return ;
        }
        let held = match &row.value.worker_id {
            Some(worker_id) => *worker_id == p.worker_id,
            None => false,
        };
        if !held || p.worker_id.as_str().unicode_len() == 0 {
            let other = join3(", not ", p.worker_id.as_str(), "; settlement refused");
            let holder = describe_holder(&row.value.worker_id);
            let tail = join3(" is leased to ", holder.as_str(), other.as_str());
            out.reject(
                p.request_id,
                RejectionType::StateConflict,
                join3("task ", reference.as_str(), tail.as_str()),
            );
            return ;
        }
        let owner = row.value.meta.owner.clone().unwrap();
        if owner.kind != ObjectKind::Activity {
            out.reject(
                p.request_id,
                RejectionType::ProcessingError,
                join3("task ", p.task.text().as_str(), " has no activity owner; internal fault"),
            );
            return ;
        }
        let mut task = row.value;
        task.status = TaskStatus::Completed;
        task.worker_id = None;
        task.lease_expires_at = None;
        task.meta.with_update_at(out.now());
        let completed = Event::TaskCompleted(
            TaskCompleted { request_id: p.request_id, task, output: p.output.clone() },
        );
        out.ack_request(p.request_id, completed.clone());
        out.append_event(completed);
        cancel_activity_timers(out, &owner);
        out.append_command(
            Command::CompleteState(CompleteState { activity: owner, output: p.output.clone() }),
        );
    }
}

} // verus!
