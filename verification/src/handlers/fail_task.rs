//! `FailTask`: a task failed. It is retried as its own plan says; what is left of the failure goes to
//! the catchers of its state.

use vstd::prelude::*;
use vstd::string::*;

use crate::asl::{Catcher, State};
use crate::handler::{Collector, HandlerContext, World};
use crate::handlers::lifecycle::{or_null, value_or_null};
use crate::handlers::resolve::{resolve_scope_state, scope_state};
use crate::handlers::shared::{
    activity_completed, as_option, cancel_activity_timers, complete_activity, timers_cancelled,
};
use crate::handlers::states::fail::{failed_activity, run_failed_activity};
use crate::id::Timestamp;
use crate::storage::order::store_ok;
use crate::storage::scope::{ScopeRecord, ScopeRecordView};
use crate::storage::store::{Store, StoreView};
use crate::text::same_text;
use crate::types::command::{FailTask, FailTaskView};
use crate::types::error::{
    error_name, error_output, ExecutionError, ExecutionErrorView,
};
use crate::types::event::{group_event_view, Event, EventView, TaskFailed, TaskFailedView};
use crate::types::meta::{ObjectKind, ObjectReference, ObjectReferenceView};
use crate::types::state_path::state_name;
use crate::types::status::{failed, TerminationReason};
use crate::types::task::{
    RetrierAttemptState, RetryPolicy, RetryPolicyView, RetryStateView, Task, TaskStatus, TaskView,
};

verus! {

broadcast use group_event_view;

/// Whether an error is one that `ErrorEquals` lists. `States.ALL` stands for any error, and
/// `States.TaskFailed` for any but a timeout.
pub open spec fn matches_error(names: Seq<Seq<char>>, error: ExecutionErrorView) -> bool {
    if names.contains("States.ALL"@) {
        true
    } else if names.contains("States.TaskFailed"@) {
        error_name(error) != "States.Timeout"@
    } else {
        names.contains(error_name(error))
    }
}

fn lists_name(names: &Vec<String>, name: &str) -> (r: bool)
    ensures
        r == names.deep_view().contains(name@),
{
    let ghost all = names.deep_view();
    let mut i: usize = 0;
    while i < names.len()
        invariant
            i <= names.len(),
            all == names.deep_view(),
            forall|j: int| 0 <= j < i ==> (#[trigger] all[j]) != name@,
        decreases names.len() - i,
    {
        assert(all[i as int] == names@[i as int]@);
        if same_text(names[i].as_str(), name) {
            return true;
        }
        i += 1;
    }
    false
}

/// Whether an error is one that `ErrorEquals` lists.
pub fn error_matches(error_equals: &Vec<String>, error: &ExecutionError) -> (r: bool)
    ensures
        r == matches_error(error_equals.deep_view(), error@),
{
    if lists_name(error_equals, "States.ALL") {
        return true;
    }
    let name = error.error_name();
    if lists_name(error_equals, "States.TaskFailed") {
        return !same_text(name.as_str(), "States.Timeout");
    }
    lists_name(error_equals, name.as_str())
}

/// `States.ALL` matches every error.
pub proof fn law_all_matches_everything(names: Seq<Seq<char>>, error: ExecutionErrorView)
    requires
        names.contains("States.ALL"@),
    ensures
        matches_error(names, error),
{
}

/// `States.TaskFailed`, where `States.ALL` is not listed, matches every error but a timeout.
pub proof fn law_task_failed_spares_timeouts(names: Seq<Seq<char>>, error: ExecutionErrorView)
    requires
        names.contains("States.TaskFailed"@),
        !names.contains("States.ALL"@),
    ensures
        matches_error(names, error) <==> error_name(error) != "States.Timeout"@,
{
}

/// Where the first policy that matches stands in the plan, or the size of the plan.
pub open spec fn matching_policy(plan: Seq<RetryPolicyView>, error: ExecutionErrorView) -> int
    decreases plan.len(),
{
    if plan.len() == 0 || matches_error(plan.first().error_equals, error) {
        0
    } else {
        1 + matching_policy(plan.drop_first(), error)
    }
}

/// How many retries a policy has already granted.
pub open spec fn retries_made(s: RetryStateView, index: int) -> u32 {
    if 0 <= index < s.retrier_attempts.len() {
        s.retrier_attempts[index].attempt_count
    } else {
        0
    }
}

/// The policy that grants a retry of a failed task: the first that matches, while it has retries
/// left.
pub open spec fn granting_policy(t: TaskView, error: ExecutionErrorView) -> Option<int> {
    let i = matching_policy(t.retry_plan, error);
    if i < t.retry_plan.len() && retries_made(t.retry_state, i) < t.retry_plan[i].max_attempts {
        Some(i)
    } else {
        None
    }
}

/// A policy that has granted nothing.
pub open spec fn no_attempts() -> RetrierAttemptState {
    RetrierAttemptState { attempt_count: 0, last_retry_at: None }
}

/// The record of the policies, long enough to hold the one at `index`.
pub open spec fn padded(attempts: Seq<RetrierAttemptState>, index: int) -> Seq<
    RetrierAttemptState,
> {
    if attempts.len() <= index {
        Seq::new(
            (index + 1) as nat,
            |i: int|
                if i < attempts.len() {
                    attempts[i]
                } else {
                    no_attempts()
                },
        )
    } else {
        attempts
    }
}

/// A failed task that is retried by the policy at `index`: pending again, and held back until the
/// backoff of that policy, by its own count, has passed.
pub open spec fn retried_task(t: TaskView, index: int, now: Timestamp) -> TaskView {
    let made = retries_made(t.retry_state, index);
    TaskView {
        meta: t.meta.touched(now),
        status: TaskStatus::Pending,
        worker_id: None,
        lease_expires_at: None,
        retry_state: RetryStateView {
            attempts: (t.retry_state.attempts + 1) as u32,
            retrier_attempts: padded(t.retry_state.retrier_attempts, index).update(
                index,
                RetrierAttemptState {
                    attempt_count: (made + 1) as u32,
                    last_retry_at: Some(now),
                },
            ),
            next_available_at: Some(
                match now.later(t.retry_plan[index].backoff(made)) {
                    Some(at) => at,
                    None => now,
                },
            ),
        },
        ..t
    }
}

/// A task that failed for good.
pub open spec fn failed_task(t: TaskView, now: Timestamp) -> TaskView {
    TaskView {
        meta: t.meta.touched(now),
        status: TaskStatus::Failed,
        worker_id: None,
        lease_expires_at: None,
        retry_state: RetryStateView { next_available_at: None, ..t.retry_state },
        ..t
    }
}

/// A retry leaves the record of every other policy as it was.
pub proof fn law_retry_spares_other_policies(
    t: TaskView,
    index: int,
    now: Timestamp,
    other: int,
)
    requires
        0 <= index < t.retry_plan.len(),
        other != index,
    ensures
        retries_made(retried_task(t, index, now).retry_state, other) == retries_made(
            t.retry_state,
            other,
        ),
{
}

/// Each retry counts against the policy that grants it, which never grants more than its limit.
pub proof fn law_retries_stay_within_limit(
    t: TaskView,
    error: ExecutionErrorView,
    now: Timestamp,
)
    requires
        granting_policy(t, error) is Some,
    ensures
        ({
            let i = granting_policy(t, error)->0;
            let after = retries_made(retried_task(t, i, now).retry_state, i);
            &&& after == retries_made(t.retry_state, i) + 1
            &&& after <= t.retry_plan[i].max_attempts
        }),
{
    lemma_matching_policy_bounds(t.retry_plan, error);
}

/// A retried task can be claimed exactly from the end of its backoff on, or at once where that end
/// cannot be represented.
pub proof fn law_retried_task_waits(t: TaskView, index: int, now: Timestamp, at: Timestamp)
    ensures
        match now.later(t.retry_plan[index].backoff(retries_made(t.retry_state, index))) {
            Some(end) => retried_task(t, index, now).claimable(at) <==> end.0 <= at.0,
            None => retried_task(t, index, now).claimable(at) <==> now.0 <= at.0,
        },
{
}

proof fn lemma_matching_policy_bounds(plan: Seq<RetryPolicyView>, error: ExecutionErrorView)
    ensures
        0 <= matching_policy(plan, error) <= plan.len(),
    decreases plan.len(),
{
    if plan.len() > 0 && !matches_error(plan.first().error_equals, error) {
        lemma_matching_policy_bounds(plan.drop_first(), error);
    }
}

/// Whether a report of a failure counts: the task has not settled, and a worker that reports holds
/// the lease. The engine, which reports under an empty name, needs none.
pub open spec fn report_counts(t: TaskView, worker_id: Seq<char>) -> bool {
    &&& !t.status.terminal()
    &&& worker_id.len() > 0 ==> t.status is Running && t.worker_id == Some(worker_id)
}

/// The first catcher that matches.
pub open spec fn matching_catcher(catchers: Seq<Catcher>, error: ExecutionErrorView) -> Option<
    Catcher,
>
    decreases catchers.len(),
{
    if catchers.len() == 0 {
        None
    } else if matches_error(catchers.first().error_equals.deep_view(), error) {
        Some(catchers.first())
    } else {
        matching_catcher(catchers.drop_first(), error)
    }
}

/// What a failure that nothing catches leaves: the activity and its scope end with it.
pub open spec fn failure_unhandled(
    w: World,
    activity: ObjectReferenceView,
    error: ExecutionErrorView,
) -> World {
    match w.store.activity(activity) {
        Ok(Some(row)) => failed_activity(w, row.value, failed(error)),
        _ => w,
    }
}

/// What a failure that no retry is left for leaves: the first catcher of the state that matches
/// completes the activity, with the error output, and hands over to its own successor. Where none
/// does, or the state cannot be found or is no `Task`, the failure goes unhandled. Without the
/// activity or its thread nothing is left to do.
pub open spec fn failure_routed(
    w: World,
    ctx: HandlerContext,
    activity: ObjectReferenceView,
    error: ExecutionErrorView,
) -> World {
    match w.store.activity(activity) {
        Ok(Some(row)) => {
            let a = row.value;
            match w.store.thread(a.meta.owner->0) {
                Ok(Some(thread)) => match scope_state(
                    ctx,
                    w.store,
                    ScopeRecordView::Thread(thread),
                    state_name(a.state_path),
                ) {
                    Ok(State::Task(state)) => match matching_catcher(state.catch@, error) {
                        Some(catcher) => activity_completed(
                            w,
                            ctx.env,
                            activity,
                            a,
                            thread.variables,
                            catcher.assign,
                            catcher.output.deep_view(),
                            Some(catcher.next@),
                            None,
                            a.retry_count(),
                            Some(or_null(error_output(error))),
                        ),
                        None => failure_unhandled(w, activity, error),
                    },
                    _ => failure_unhandled(w, activity, error),
                },
                _ => w,
            }
        },
        _ => w,
    }
}

/// What the failure of a task leaves. A report that does not count, and one of a task that is gone or
/// that no activity owns, changes nothing. A task that a policy grants a retry goes back to wait for
/// a worker; otherwise it failed for good, and the failure is routed. Either way the timers of the
/// attempt are cancelled.
pub open spec fn task_failure(w: World, ctx: HandlerContext, cmd: FailTaskView) -> World {
    match w.store.task(cmd.task) {
        Ok(Some(row)) => {
            let t = row.value;
            let owner = t.meta.owner->0;
            if !report_counts(t, cmd.worker_id) || !(owner.kind is Activity) {
                w
            } else {
                match granting_policy(t, cmd.error) {
                    Some(index) => timers_cancelled(
                        w.event(
                            EventView::TaskFailed(
                                TaskFailedView {
                                    task: retried_task(t, index, w.now),
                                    error: cmd.error,
                                },
                            ),
                        ),
                        owner,
                    ),
                    None => failure_routed(
                        timers_cancelled(
                            w.event(
                                EventView::TaskFailed(
                                    TaskFailedView {
                                        task: failed_task(t, w.now),
                                        error: cmd.error,
                                    },
                                ),
                            ),
                            owner,
                        ),
                        ctx,
                        owner,
                        cmd.error,
                    ),
                }
            }
        },
        _ => w,
    }
}

/// The total of the retries can still be counted: it can, unless a report that counts brings a retry
/// past the largest number.
pub open spec fn retry_countable(s: StoreView, cmd: FailTaskView) -> bool {
    match s.task(cmd.task) {
        Ok(Some(row)) => {
            report_counts(row.value, cmd.worker_id) && (row.value.meta.owner matches Some(owner)
                && owner.kind is Activity) && granting_policy(row.value, cmd.error) is Some
                ==> row.value.retry_state.attempts < u32::MAX
        },
        _ => true,
    }
}

/// Whether a report on a task counts.
fn counts(task: &Task, worker_id: &String) -> (r: bool)
    ensures
        r == report_counts(task@, worker_id@),
{
    if task.status.is_terminal() {
        return false;
    }
    if worker_id.as_str().unicode_len() > 0 {
        let held = match &task.worker_id {
            Some(holder) => *holder == *worker_id,
            None => false,
        };
        return task.status.is_running() && held;
    }
    true
}

/// The policy that grants another retry, by its place.
fn find_grant(task: &Task, error: &ExecutionError) -> (r: Option<usize>)
    ensures
        match r {
            Some(index) => granting_policy(task@, error@) == Some(index as int),
            None => granting_policy(task@, error@) is None,
        },
{
    let index = find_policy(&task.retry_plan, error);
    if index < task.retry_plan.len() {
        let made = if index < task.retry_state.retrier_attempts.len() {
            assert(task@.retry_state.retrier_attempts[index as int]
                == task.retry_state.retrier_attempts@[index as int]);
            task.retry_state.retrier_attempts[index].attempt_count
        } else {
            0
        };
        assert(task@.retry_plan[index as int] == task.retry_plan@[index as int]@);
        if made < task.retry_plan[index].max_attempts {
            return Some(index);
        }
    }
    None
}

/// Whether the total of the retries can still be counted.
pub fn can_count_retry(storage: &Store, p: &FailTask) -> (r: bool)
    ensures
        r == retry_countable(storage@, p@),
{
    match storage.get_task(&p.task) {
        Ok(Some(row)) => {
            let owned = match &row.value.meta.owner {
                Some(owner) => owner.kind == ObjectKind::Activity,
                None => false,
            };
            if !owned || !counts(&row.value, &p.worker_id) {
                return true;
            }
            match find_grant(&row.value, &p.error) {
                Some(_) => row.value.retry_state.attempts < u32::MAX,
                None => true,
            }
        },
        _ => true,
    }
}

/// A failure reported of a settled task changes nothing, and neither does one by a worker that does
/// not hold the lease.
pub proof fn law_stale_failure_is_idle(w: World, ctx: HandlerContext, cmd: FailTaskView)
    requires
        w.store.task(cmd.task) matches Ok(Some(row)) && (row.value.status.terminal()
            || cmd.worker_id.len() > 0 && row.value.worker_id != Some(cmd.worker_id)),
    ensures
        task_failure(w, ctx, cmd) == w,
{
}

fn find_policy(plan: &Vec<RetryPolicy>, error: &ExecutionError) -> (r: usize)
    ensures
        r == matching_policy(plan.deep_view(), error@),
        r <= plan@.len(),
{
    let ghost all = plan.deep_view();
    let mut i: usize = 0;
    assert(all.skip(0) =~= all);
    while i < plan.len()
        invariant
            i <= plan.len(),
            all == plan.deep_view(),
            matching_policy(all, error@) == i + matching_policy(all.skip(i as int), error@),
        decreases plan.len() - i,
    {
        let ghost rest = all.skip(i as int);
        assert(rest.first() == plan@[i as int]@);
        assert(rest.drop_first() =~= all.skip(i as int + 1));
        if error_matches(&plan[i].error_equals, error) {
            return i;
        }
        i += 1;
    }
    assert(all.skip(all.len() as int) =~= Seq::empty());
    i
}

fn find_catcher<'a>(catchers: &'a Vec<Catcher>, error: &ExecutionError) -> (r: Option<&'a Catcher>)
    ensures
        match r {
            Some(c) => matching_catcher(catchers@, error@) == Some(*c),
            None => matching_catcher(catchers@, error@) is None,
        },
{
    let ghost all = catchers@;
    let mut i: usize = 0;
    assert(all.skip(0) =~= all);
    while i < catchers.len()
        invariant
            i <= catchers.len(),
            all == catchers@,
            matching_catcher(all, error@) == matching_catcher(all.skip(i as int), error@),
        decreases catchers.len() - i,
    {
        let ghost rest = all.skip(i as int);
        assert(rest.first() == all[i as int]);
        assert(rest.drop_first() =~= all.skip(i as int + 1));
        if error_matches(&catchers[i].error_equals, error) {
            return Some(&catchers[i]);
        }
        i += 1;
    }
    assert(all.skip(all.len() as int) =~= Seq::empty());
    None
}

/// Retries a failed task by the policy at `index`.
fn retry(task: &Task, index: usize, now: Timestamp) -> (r: Task)
    requires
        index < task@.retry_plan.len(),
        retries_made(task@.retry_state, index as int) < task@.retry_plan[index as int].max_attempts,
        task@.retry_state.attempts < u32::MAX,
    ensures
        r@ == retried_task(task@, index as int, now),
{
    let made = if index < task.retry_state.retrier_attempts.len() {
        assert(task@.retry_state.retrier_attempts[index as int]
            == task.retry_state.retrier_attempts@[index as int]);
        task.retry_state.retrier_attempts[index].attempt_count
    } else {
        0
    };
    assert(task@.retry_plan[index as int] == task.retry_plan@[index as int]@);
    let delay = task.retry_plan[index].backoff_for_attempt(made);
    let next_available_at = match now.checked_add(delay) {
        Some(at) => at,
        None => now,
    };
    let policies = task.retry_plan.len();
    let mut t = task.clone();
    let mut attempts = t.retry_state.retrier_attempts;
    let ghost before = task@.retry_state.retrier_attempts;
    assert(attempts@.len() == before.len());
    assert forall|j: int| 0 <= j < before.len() implies attempts@[j] == before[j] by {
        assert(attempts.deep_view()[j] == before[j]);
    }
    while attempts.len() <= index
        invariant
            before.len() <= attempts@.len(),
            attempts@.len() <= before.len() || attempts@.len() <= index + 1,
            index < policies,
            forall|j: int|
                0 <= j < attempts@.len() ==> attempts@[j] == (if j < before.len() {
                    before[j]
                } else {
                    no_attempts()
                }),
        decreases index + 1 - attempts.len(),
    {
        attempts.push(RetrierAttemptState { attempt_count: 0, last_retry_at: None });
    }
    assert(attempts@ =~= padded(before, index as int));
    let ghost full = attempts@;
    attempts.set(
        index,
        RetrierAttemptState { attempt_count: made + 1, last_retry_at: Some(now) },
    );
    assert(attempts.deep_view() =~= full.update(
        index as int,
        RetrierAttemptState { attempt_count: (made + 1) as u32, last_retry_at: Some(now) },
    ));
    t.retry_state.retrier_attempts = attempts;
    t.retry_state.attempts = t.retry_state.attempts + 1;
    t.retry_state.next_available_at = Some(next_available_at);
    t.status = TaskStatus::Pending;
    t.worker_id = None;
    t.lease_expires_at = None;
    t.meta.with_update_at(now);
    t
}

/// Handles `FailTask`.
pub struct FailTaskHandler;

impl Default for FailTaskHandler {
    fn default() -> (r: Self)
        ensures
            r == FailTaskHandler,
    {
        FailTaskHandler
    }
}

impl FailTaskHandler {
    pub fn handle(&self, p: &FailTask, ctx: &HandlerContext, out: &mut Collector)
        requires
            store_ok(old(out)@.store),
            retry_countable(old(out)@.store, p@),
        ensures
            final(out)@ == task_failure(old(out)@, *ctx, p@),
            store_ok(final(out)@.store),
    {
        let row = match out.storage().get_task(&p.task) {
            Ok(Some(t)) => t,
            _ => return ,
        };
        if !counts(&row.value, &p.worker_id) {
            return ;
        }
        let owner = row.value.meta.owner.clone().unwrap();
        if owner.kind != ObjectKind::Activity {
            return ;
        }
        let now = out.now();
        if let Some(index) = find_grant(&row.value, &p.error) {
            let task = retry(&row.value, index, now);
            out.append_event(Event::TaskFailed(TaskFailed { task, error: p.error.clone() }));
            cancel_activity_timers(out, &owner);
            return ;
        }
        let mut task = row.value;
        task.worker_id = None;
        task.lease_expires_at = None;
        task.meta.with_update_at(now);
        task.status = TaskStatus::Failed;
        task.retry_state.next_available_at = None;
        out.append_event(Event::TaskFailed(TaskFailed { task, error: p.error.clone() }));
        cancel_activity_timers(out, &owner);
        self.route_failure(ctx, out, &owner, &p.error);
    }

    /// Routes a failure that no retry is left for.
    pub fn route_failure(
        &self,
        ctx: &HandlerContext,
        out: &mut Collector,
        activity: &ObjectReference,
        error: &ExecutionError,
    )
        requires
            store_ok(old(out)@.store),
        ensures
            final(out)@ == failure_routed(old(out)@, *ctx, activity@, error@),
            store_ok(final(out)@.store),
    {
        let act = match out.storage().get_activity(activity) {
            Ok(Some(a)) => a,
            _ => return ,
        };
        let owner = act.value.meta.owner.clone().unwrap();
        let thread = match out.storage().get_thread(&owner) {
            Ok(Some(t)) => t,
            _ => return ,
        };
        let scope = ScopeRecord::Thread(thread);
        let name = act.value.state_path.state_name();
        let state = match resolve_scope_state(ctx, out.storage(), &scope, name.as_str()) {
            Ok(State::Task(state)) => state,
            _ => {
                self.terminate_failure(out, activity, error);
                return ;
            },
        };
        match find_catcher(&state.catch, error) {
            Some(catcher) => {
                let error_output = value_or_null(&error.error_output());
                complete_activity(
                    out,
                    &ctx.env,
                    activity,
                    &act.value,
                    scope.variables(),
                    as_option(&catcher.assign),
                    as_option(&catcher.output),
                    Some(&catcher.next),
                    None,
                    act.value.retry_count(),
                    Some(&error_output),
                );
            },
            None => self.terminate_failure(out, activity, error),
        }
    }

    /// Ends the activity of a failure that nothing catches, and its scope.
    pub fn terminate_failure(
        &self,
        out: &mut Collector,
        activity: &ObjectReference,
        error: &ExecutionError,
    )
        requires
            store_ok(old(out)@.store),
        ensures
            final(out)@ == failure_unhandled(old(out)@, activity@, error@),
            store_ok(final(out)@.store),
    {
        let act = match out.storage().get_activity(activity) {
            Ok(Some(a)) => a,
            _ => return ,
        };
        run_failed_activity(out, &act.value, TerminationReason::Failed { error: error.clone() });
    }
}

} // verus!
