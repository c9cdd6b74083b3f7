//! `ClaimTasks`: leases claimable tasks to a worker.

use vstd::prelude::*;

use crate::handler::{Collector, HandlerContext, World};
use crate::id::Timestamp;
use crate::storage::order::{row_ok, store_ok, task_ok};
use crate::storage::store::{RowKey, StoreView};
use crate::storage::task::{Task as TaskRecord, TaskRecordView};
use crate::types::command::{ClaimTasks, ClaimTasksView};
use crate::types::event::{group_event_view, Event, EventView, TasksClaimed, TasksClaimedView};
use crate::types::meta::ObjectKind;
use crate::types::task::{RetryStateView, Task, TaskStatus, TaskView};

verus! {

broadcast use group_event_view;

/// A task leased to a worker at `now` until `lease_expires_at`.
pub open spec fn leased_task(
    t: TaskView,
    worker_id: Seq<char>,
    lease_expires_at: Timestamp,
    now: Timestamp,
) -> TaskView {
    TaskView {
        meta: t.meta.touched(now),
        status: TaskStatus::Running,
        worker_id: Some(worker_id),
        lease_expires_at: Some(lease_expires_at),
        retry_state: RetryStateView { next_available_at: None, ..t.retry_state },
        ..t
    }
}

/// The tasks leased out of those that were found: those that an activity owns.
pub open spec fn leased(
    found: Seq<TaskRecordView>,
    worker_id: Seq<char>,
    lease_expires_at: Timestamp,
    now: Timestamp,
) -> Seq<TaskView>
    decreases found.len(),
{
    if found.len() == 0 {
        Seq::empty()
    } else {
        let before = leased(found.drop_last(), worker_id, lease_expires_at, now);
        let t = found.last().value;
        if t.meta.owner is Some && t.meta.owner->0.kind is Activity {
            before.push(leased_task(t, worker_id, lease_expires_at, now))
        } else {
            before
        }
    }
}

/// The tasks that a claim grants: the claimable tasks of the resource, up to the number asked for.
/// None when the end of the lease cannot be represented, or the store cannot be read.
pub open spec fn granted(w: World, cmd: ClaimTasksView) -> Seq<TaskView> {
    match w.now.later(cmd.lease_seconds) {
        None => Seq::empty(),
        Some(until) => match w.store.activatable(cmd.resource, w.now, cmd.max_tasks as nat) {
            Err(_) => Seq::empty(),
            Ok(found) => leased(found, cmd.worker_id, until, w.now),
        },
    }
}

/// What a claim leaves: one event that says what was granted, even when that is nothing.
pub open spec fn claim(w: World, cmd: ClaimTasksView) -> World {
    w.event(
        EventView::TasksClaimed(
            TasksClaimedView { request_id: cmd.request_id, tasks: granted(w, cmd) },
        ),
    )
}

/// A leased task cannot be claimed again before its lease has run out.
pub proof fn law_leased_task_is_taken(
    t: TaskView,
    worker_id: Seq<char>,
    until: Timestamp,
    now: Timestamp,
    later: Timestamp,
)
    ensures
        leased_task(t, worker_id, until, now).claimable(later) <==> until.0 <= later.0,
{
}

proof fn lemma_leased_len(
    found: Seq<TaskRecordView>,
    worker_id: Seq<char>,
    until: Timestamp,
    now: Timestamp,
)
    ensures
        leased(found, worker_id, until, now).len() <= found.len(),
    decreases found.len(),
{
    if found.len() > 0 {
        lemma_leased_len(found.drop_last(), worker_id, until, now);
    }
}

proof fn lemma_found_ok(s: StoreView, keys: Seq<RowKey>, resource: Seq<char>, now: Timestamp, max: nat)
    requires
        store_ok(s),
    ensures
        forall|i: int|
            0 <= i < s.activatable_among(keys, resource, now, max).len() ==> task_ok(
                (#[trigger] s.activatable_among(keys, resource, now, max)[i]).value,
            ),
    decreases keys.len(),
{
    if keys.len() > 0 {
        lemma_found_ok(s, keys.drop_last(), resource, now, max);
        assert(s.rows.contains_key(keys.last()) ==> row_ok(s.rows[keys.last()]));
    }
}

proof fn lemma_leased_ok(
    found: Seq<TaskRecordView>,
    worker_id: Seq<char>,
    until: Timestamp,
    now: Timestamp,
)
    requires
        forall|i: int| 0 <= i < found.len() ==> task_ok((#[trigger] found[i]).value),
    ensures
        forall|i: int|
            0 <= i < leased(found, worker_id, until, now).len() ==> task_ok(
                #[trigger] leased(found, worker_id, until, now)[i],
            ),
    decreases found.len(),
{
    if found.len() > 0 {
        let init = found.drop_last();
        assert forall|i: int| 0 <= i < init.len() implies task_ok((#[trigger] init[i]).value) by {
            assert(init[i] == found[i]);
        }
        assert(found[found.len() - 1] == found.last());
        lemma_leased_ok(init, worker_id, until, now);
        let before = leased(init, worker_id, until, now);
        let all = leased(found, worker_id, until, now);
        assert forall|i: int| 0 <= i < all.len() implies task_ok(#[trigger] all[i]) by {
            if i < before.len() {
                assert(all[i] == before[i]);
            }
        }
    }
}

/// What is granted are tasks that are in order.
proof fn lemma_granted_ok(w: World, cmd: ClaimTasksView)
    requires
        store_ok(w.store),
    ensures
        forall|i: int| 0 <= i < granted(w, cmd).len() ==> task_ok(#[trigger] granted(w, cmd)[i]),
{
    if let Some(until) = w.now.later(cmd.lease_seconds) {
        if let Ok(found) = w.store.activatable(cmd.resource, w.now, cmd.max_tasks as nat) {
            lemma_found_ok(
                w.store,
                w.store.order,
                cmd.resource,
                w.now,
                cmd.max_tasks as nat,
            );
            lemma_leased_ok(found, cmd.worker_id, until, w.now);
        }
    }
}

/// A claim grants no more tasks than it asks for.
pub proof fn law_claim_grants_at_most(w: World, cmd: ClaimTasksView)
    ensures
        granted(w, cmd).len() <= cmd.max_tasks,
{
    if let Some(until) = w.now.later(cmd.lease_seconds) {
        if let Ok(found) = w.store.activatable(cmd.resource, w.now, cmd.max_tasks as nat) {
            w.store.lemma_activatable_len(
                w.store.order,
                cmd.resource,
                w.now,
                cmd.max_tasks as nat,
            );
            lemma_leased_len(found, cmd.worker_id, until, w.now);
        }
    }
}

/// Handles `ClaimTasks`.
pub struct ClaimTasksHandler;

impl Default for ClaimTasksHandler {
    fn default() -> (r: Self)
        ensures
            r == ClaimTasksHandler,
    {
        ClaimTasksHandler
    }
}

impl ClaimTasksHandler {
    /// Leases a task to a worker.
    pub fn lease(
        task: &Task,
        worker_id: &String,
        lease_expires_at: Timestamp,
        now: Timestamp,
    ) -> (r: Task)
        ensures
            r@ == leased_task(task@, worker_id@, lease_expires_at, now),
    {
        let mut task = task.clone();
        task.status = TaskStatus::Running;
        task.worker_id = Some(worker_id.clone());
        task.lease_expires_at = Some(lease_expires_at);
        task.meta.with_update_at(now);
        task.retry_state.next_available_at = None;
        task
    }

    /// Leases each of the tasks that were found and that an activity owns.
    pub fn lease_all(
        found: &Vec<TaskRecord>,
        worker_id: &String,
        lease_expires_at: Timestamp,
        now: Timestamp,
    ) -> (r: Vec<Task>)
        ensures
            r.deep_view() == leased(found.deep_view(), worker_id@, lease_expires_at, now),
    {
        let ghost all = found.deep_view();
        let mut claimed: Vec<Task> = Vec::new();
        let mut i: usize = 0;
        assert(all.take(0) =~= Seq::empty());
        assert(claimed.deep_view() =~= Seq::empty());
        while i < found.len()
            invariant
                i <= found.len(),
                all == found.deep_view(),
                claimed.deep_view() == leased(
                    all.take(i as int),
                    worker_id@,
                    lease_expires_at,
                    now,
                ),
            decreases found.len() - i,
        {
            let ghost next = all.take(i as int + 1);
            let ghost done = claimed.deep_view();
            assert(next.drop_last() =~= all.take(i as int));
            assert(next.last() == found@[i as int]@);
            let t = &found[i].value;
            let owned = match &t.meta.owner {
                Some(owner) => owner.kind == ObjectKind::Activity,
                None => false,
            };
            if owned {
                let task = Self::lease(t, worker_id, lease_expires_at, now);
                claimed.push(task);
                assert(claimed.deep_view() =~= done.push(task@));
            }
            i += 1;
        }
        assert(all.take(all.len() as int) =~= all);
        claimed
    }

    pub fn handle(&self, p: &ClaimTasks, ctx: &HandlerContext, out: &mut Collector)
        requires
            store_ok(old(out)@.store),
        ensures
            final(out)@ == claim(old(out)@, p@),
            store_ok(final(out)@.store),
    {
        let now = out.now();
        let tasks = match now.checked_add(p.lease_seconds) {
            None => Vec::new(),
            Some(until) => match out.storage().activatable_tasks(
                p.resource.as_str(),
                now,
                p.max_tasks,
            ) {
                Ok(found) => Self::lease_all(&found, &p.worker_id, until, now),
                Err(_) => Vec::new(),
            },
        };
        assert(tasks.deep_view() =~= granted(old(out)@, p@));
        proof {
            lemma_granted_ok(old(out)@, p@);
        }
        out.append_event(
            Event::TasksClaimed(TasksClaimed { request_id: p.request_id, tasks }),
        );
    }
}

} // verus!
