//! Tasks: invoked, claimed, completed, failed, retried, caught, released and cancelled.

use vstd::prelude::*;

use crate::asl::{Catcher, IntOrExpr, State, TaskState};
use crate::eval_env::EvalEnv;
use crate::handler::{HandlerContext, World};
use crate::handlers::assign_task::{claim, granted, leased};
use crate::handlers::cancel_task::task_cancellation;
use crate::handlers::child_completed::settled;
use crate::handlers::complete_task::{completed_task, task_completion};
use crate::handlers::fail_task::{
    failure_routed, matches_error, matching_catcher, matching_policy, retried_task, task_failure,
};
use crate::handlers::release_task_lease::lease_release;
use crate::handlers::resolve::scope_state;
use crate::handlers::shared::{activity_completed, sweep, timers_cancelled};
use crate::handlers::states::fail::failed_activity;
use crate::handlers::states::task::{task_activated, task_deadline, timeout_asked, timeout_seconds};
use crate::id::{RequestId, Timestamp, Uid};
use crate::laws::{braced, changed, gives, named_by, sent, told};
use crate::laws::evaluation::law_expressions_stand_in_braces;
use crate::laws::parallel::handed;
use crate::number::whole_value;
use crate::query::QueryObjectView;
use crate::storage::scope::ScopeRecordView;
use crate::storage::store::{RowKey, StoreView};
use crate::storage::task::TaskRecordView;
use crate::storage::thread::ThreadRecordView;
use crate::types::activity::ActivityView;
use crate::types::command::{
    ActivateTaskView, ClaimTasksView, CommandView, CompleteStateView, CompleteTaskView,
    FailTaskView,
};
use crate::types::context::StatesView;
use crate::types::entry::EntryPayloadView;
use crate::types::error::{
    error_name, error_output, ExecutionErrorView, InfraErrorView, RuntimeErrorView,
};
use crate::types::event::{EventView, TaskCompletedView, TaskFailedView, TasksClaimedView};
use crate::types::meta::{NameKey, ObjectKind, ObjectMetaView, ObjectNameView, ObjectReferenceView};
use crate::types::state_path::state_name;
use crate::types::status::TerminationReasonView;
use crate::types::task::{RetryPolicyView, RetryStateView, TaskStatus, TaskView};
use crate::types::timer::{TimerPurpose, TimerStatus, TimerView};
use crate::value::{Json, MemberView};

verus! {

/// The names that errors are caught by.
pub proof fn law_errors_have_their_names(
    message: Seq<char>,
    state: Seq<char>,
    error: Seq<char>,
    output: Json,
    infra: InfraErrorView,
)
    ensures
        error_name(ExecutionErrorView::Runtime(RuntimeErrorView::TimedOut { message }))
            == "States.Timeout"@,
        error_name(ExecutionErrorView::Runtime(RuntimeErrorView::NoChoiceMatched { state }))
            == "States.NoChoiceMatched"@,
        error_name(
            ExecutionErrorView::Runtime(RuntimeErrorView::Jsonata { field: state, message }),
        ) == "States.QueryEvaluationError"@,
        error_name(
            ExecutionErrorView::Runtime(RuntimeErrorView::StateFailed { state, error, output }),
        ) == error,
        error_name(ExecutionErrorView::Runtime(RuntimeErrorView::StateNotFound(message)))
            == "States.Runtime"@,
        error_name(ExecutionErrorView::Runtime(RuntimeErrorView::InvalidDefinition(message)))
            == "States.Runtime"@,
        error_name(ExecutionErrorView::Runtime(RuntimeErrorView::NoTerminal)) == "States.Runtime"@,
        error_name(ExecutionErrorView::Runtime(RuntimeErrorView::Cancelled { message }))
            == "States.Runtime"@,
        error_name(ExecutionErrorView::Infra(infra)) == "States.Runtime"@,
        error_output(
            ExecutionErrorView::Runtime(RuntimeErrorView::StateFailed { state, error, output }),
        ) == Some(output),
        forall|e: ExecutionErrorView|
            !(e matches ExecutionErrorView::Runtime(RuntimeErrorView::StateFailed { .. }))
                ==> #[trigger] error_output(e) is None,
{
}

/// `ErrorEquals` matches an error by its name. `States.ALL` stands for every error, and
/// `States.TaskFailed` for every error but a timeout, which it hides even where the timeout is listed.
pub proof fn law_errors_are_matched_by_name(names: Seq<Seq<char>>, error: ExecutionErrorView)
    ensures
        names.contains("States.ALL"@) ==> matches_error(names, error),
        !names.contains("States.ALL"@) && names.contains("States.TaskFailed"@) ==> (matches_error(
            names,
            error,
        ) <==> error_name(error) != "States.Timeout"@),
        !names.contains("States.ALL"@) && !names.contains("States.TaskFailed"@) ==> (matches_error(
            names,
            error,
        ) <==> names.contains(error_name(error))),
{
}

/// The first catcher that matches is the one that counts; an error that none matches is not caught.
pub proof fn law_first_matching_catcher_counts(
    catchers: Seq<Catcher>,
    error: ExecutionErrorView,
    i: int,
)
    ensures
        0 <= i < catchers.len() && matches_error(catchers[i].error_equals.deep_view(), error) && (
        forall|j: int|
            0 <= j < i ==> !matches_error(
                (#[trigger] catchers[j]).error_equals.deep_view(),
                error,
            )) ==> matching_catcher(catchers, error) == Some(catchers[i]),
        matching_catcher(catchers, error) is None <==> (forall|j: int|
            0 <= j < catchers.len() ==> !matches_error(
                (#[trigger] catchers[j]).error_equals.deep_view(),
                error,
            )),
    decreases catchers.len(),
{
    if catchers.len() > 0 {
        let rest = catchers.drop_first();
        law_first_matching_catcher_counts(rest, error, i - 1);
        assert forall|j: int| 0 <= j < rest.len() implies rest[j] == catchers[j + 1] by {}
        let first = matches_error(catchers[0].error_equals.deep_view(), error);
        if forall|j: int|
            0 <= j < catchers.len() ==> !matches_error(
                (#[trigger] catchers[j]).error_equals.deep_view(),
                error,
            ) {
            assert(!first);
            assert forall|j: int| 0 <= j < rest.len() implies !matches_error(
                (#[trigger] rest[j]).error_equals.deep_view(),
                error,
            ) by {
                assert(rest[j] == catchers[j + 1]);
            }
        } else {
            let k = choose|k: int|
                0 <= k < catchers.len() && matches_error(
                    (#[trigger] catchers[k]).error_equals.deep_view(),
                    error,
                );
            if k > 0 {
                assert(rest[k - 1] == catchers[k]);
            }
        }
        if 0 < i < catchers.len() && matches_error(catchers[i].error_equals.deep_view(), error) && (
        forall|j: int|
            0 <= j < i ==> !matches_error(
                (#[trigger] catchers[j]).error_equals.deep_view(),
                error,
            )) {
            assert(!first);
            assert forall|j: int| 0 <= j < i - 1 implies !matches_error(
                (#[trigger] rest[j]).error_equals.deep_view(),
                error,
            ) by {
                assert(rest[j] == catchers[j + 1]);
            }
            assert(rest[i - 1] == catchers[i]);
        }
    }
}

/// The first policy of the plan that matches is the one that counts.
pub proof fn law_first_matching_policy_counts(
    plan: Seq<RetryPolicyView>,
    error: ExecutionErrorView,
    i: int,
)
    ensures
        0 <= i < plan.len() && matches_error(plan[i].error_equals, error) && (forall|j: int|
            0 <= j < i ==> !matches_error((#[trigger] plan[j]).error_equals, error))
            ==> matching_policy(plan, error) == i,
        (forall|j: int|
            0 <= j < plan.len() ==> !matches_error((#[trigger] plan[j]).error_equals, error))
            ==> matching_policy(plan, error) == plan.len(),
    decreases plan.len(),
{
    if plan.len() > 0 {
        let rest = plan.drop_first();
        law_first_matching_policy_counts(rest, error, i - 1);
        assert forall|j: int| 0 <= j < rest.len() implies rest[j] == plan[j + 1] by {}
        if forall|j: int|
            0 <= j < plan.len() ==> !matches_error((#[trigger] plan[j]).error_equals, error) {
            assert(!matches_error(plan[0].error_equals, error));
            assert forall|j: int| 0 <= j < rest.len() implies !matches_error(
                (#[trigger] rest[j]).error_equals,
                error,
            ) by {
                assert(rest[j] == plan[j + 1]);
            }
        }
        if 0 < i < plan.len() && matches_error(plan[i].error_equals, error) && (forall|j: int|
            0 <= j < i ==> !matches_error((#[trigger] plan[j]).error_equals, error)) {
            assert(!matches_error(plan[0].error_equals, error));
            assert forall|j: int| 0 <= j < i - 1 implies !matches_error(
                (#[trigger] rest[j]).error_equals,
                error,
            ) by {
                assert(rest[j] == plan[j + 1]);
            }
            assert(rest[i - 1] == plan[i]);
        }
    }
}

/// How many retries the policy at `i` has granted.
pub open spec fn granted_by(t: TaskView, i: int) -> int {
    if i < t.retry_state.retrier_attempts.len() {
        t.retry_state.retrier_attempts[i].attempt_count as int
    } else {
        0
    }
}

/// The delay that a policy sets before a retry, when it has granted `made`: the rung of its ladder, the last
/// one for all that follow.
pub open spec fn delay_of(policy: RetryPolicyView, made: int) -> u64 {
    if policy.ladder.len() == 0 {
        0
    } else if made < policy.ladder.len() {
        policy.ladder[made]
    } else {
        policy.ladder[policy.ladder.len() - 1]
    }
}

/// A failure counts: the task is not settled, and who reports it holds the lease, unless it is the engine.
pub open spec fn counts(t: TaskView, worker_id: Seq<char>) -> bool {
    &&& t.status is Pending || t.status is Running
    &&& worker_id.len() == 0 || (t.status is Running && t.worker_id == Some(worker_id))
}

/// A task that fails is retried by the first policy that matches the error, while that policy has retries
/// left: it is pending again, free of its worker, may be claimed only after the delay that this policy sets
/// for the retries it has granted, and counts one more retry, in all and of this policy.
pub proof fn law_failed_task_is_retried(
    w: World,
    ctx: HandlerContext,
    cmd: FailTaskView,
    t: TaskView,
    owner: ObjectReferenceView,
    i: int,
)
    requires
        w.store.task(cmd.task) matches Ok(Some(row)) && row.value == t,
        t.meta.owner == Some(owner),
        owner.kind is Activity,
        counts(t, cmd.worker_id),
        0 <= i < t.retry_plan.len(),
        matches_error(t.retry_plan[i].error_equals, cmd.error),
        forall|j: int|
            0 <= j < i ==> !matches_error((#[trigger] t.retry_plan[j]).error_equals, cmd.error),
        granted_by(t, i) < t.retry_plan[i].max_attempts,
        t.retry_state.attempts < u32::MAX,
    ensures
        ({
            let after = task_failure(w, ctx, cmd);
            let at = w.chain.len() as int;
            &&& after.chain.len() > at
            &&& after.chain.take(at) == w.chain
            &&& after.chain[at] matches EntryPayloadView::Event(
                EventView::TaskFailed(TaskFailedView { task, error }),
            ) && {
                let wait = delay_of(t.retry_plan[i], granted_by(t, i));
                &&& error == cmd.error
                &&& task.status is Pending
                &&& task.worker_id is None
                &&& task.lease_expires_at is None
                &&& task.meta == changed(t.meta, w.now)
                &&& task.resource == t.resource
                &&& task.arguments == t.arguments
                &&& task.execution == t.execution
                &&& task.deadline == t.deadline
                &&& task.retry_plan == t.retry_plan
                &&& task.retry_state.attempts == t.retry_state.attempts + 1
                &&& granted_by(task, i) == granted_by(t, i) + 1
                &&& task.retry_state.next_available_at == Some(
                    if w.now.0 + wait * 1000 <= i64::MAX {
                        Timestamp((w.now.0 + wait * 1000) as i64)
                    } else {
                        w.now
                    },
                )
                &&& after == timers_cancelled(
                    w.event(EventView::TaskFailed(TaskFailedView { task, error })),
                    owner,
                )
            }
        }),
{
    law_first_matching_policy_counts(t.retry_plan, cmd.error, i);
    let w1 = w.event(
        EventView::TaskFailed(
            TaskFailedView { task: retried_task(t, i, w.now), error: cmd.error },
        ),
    );
    lemma_cancelling_adds(w1, owner);
    let after = task_failure(w, ctx, cmd);
    let at = w.chain.len() as int;
    assert(after.chain[at] == w1.chain[at]);
    assert(after.chain.take(at) =~= w.chain) by {
        assert forall|k: int| 0 <= k < at implies after.chain[k] == w.chain[k] by {
            assert(after.chain[k] == w1.chain[k]);
        }
    }
}

/// Cancelling timers adds to the chain, and keeps the instant.
pub proof fn lemma_cancelling_adds(w: World, activity: ObjectReferenceView)
    ensures
        ({
            let after = timers_cancelled(w, activity);
            &&& after.chain.len() >= w.chain.len()
            &&& forall|k: int| 0 <= k < w.chain.len() ==> #[trigger] after.chain[k] == w.chain[k]
            &&& after.now == w.now
            &&& after.next_uid == w.next_uid
            &&& after.question == w.question
            &&& after.acks == w.acks
        }),
{
    if let Ok(Some(row)) = w.store.activity(activity) {
        lemma_sweeping_adds(w, row.active_children);
    }
}

proof fn lemma_sweeping_adds(w: World, children: Seq<ObjectReferenceView>)
    ensures
        ({
            let after = sweep(w, children);
            &&& after.chain.len() >= w.chain.len()
            &&& forall|k: int| 0 <= k < w.chain.len() ==> #[trigger] after.chain[k] == w.chain[k]
            &&& after.now == w.now
            &&& after.next_uid == w.next_uid
            &&& after.question == w.question
            &&& after.acks == w.acks
        }),
    decreases children.len(),
{
    if children.len() > 0 {
        let init = children.drop_last();
        lemma_sweeping_adds(w, init);
        let before = sweep(w, init);
        let after = sweep(w, children);
        assert forall|k: int| 0 <= k < w.chain.len() implies #[trigger] after.chain[k] == w.chain[k] by {
            assert(after.chain[k] == before.chain[k]);
        }
    }
}

/// No policy grants a retry: the first that matches has none left, or none matches.
pub open spec fn out_of_retries(t: TaskView, error: ExecutionErrorView) -> bool {
    ||| forall|j: int|
        0 <= j < t.retry_plan.len() ==> !matches_error(
            (#[trigger] t.retry_plan[j]).error_equals,
            error,
        )
    ||| exists|i: int|
        0 <= i < t.retry_plan.len() && matches_error(
            (#[trigger] t.retry_plan[i]).error_equals,
            error,
        ) && granted_by(t, i) >= t.retry_plan[i].max_attempts && (forall|j: int|
            0 <= j < i ==> !matches_error((#[trigger] t.retry_plan[j]).error_equals, error))
}

/// A task that fails with no retry left has failed for good: it is told so, its timers are cancelled, and
/// the failure is routed by its activity.
pub proof fn law_failure_without_retries_is_routed(
    w: World,
    ctx: HandlerContext,
    cmd: FailTaskView,
    t: TaskView,
    owner: ObjectReferenceView,
)
    requires
        w.store.task(cmd.task) matches Ok(Some(row)) && row.value == t,
        t.meta.owner == Some(owner),
        owner.kind is Activity,
        counts(t, cmd.worker_id),
        out_of_retries(t, cmd.error),
    ensures
        task_failure(w, ctx, cmd) == failure_routed(
            timers_cancelled(
                w.event(
                    EventView::TaskFailed(
                        TaskFailedView {
                            task: TaskView {
                                meta: changed(t.meta, w.now),
                                status: TaskStatus::Failed,
                                worker_id: None,
                                lease_expires_at: None,
                                retry_state: RetryStateView {
                                    attempts: t.retry_state.attempts,
                                    retrier_attempts: t.retry_state.retrier_attempts,
                                    next_available_at: None,
                                },
                                ..t
                            },
                            error: cmd.error,
                        },
                    ),
                ),
                owner,
            ),
            ctx,
            owner,
            cmd.error,
        ),
{
    if forall|j: int|
        0 <= j < t.retry_plan.len() ==> !matches_error(
            (#[trigger] t.retry_plan[j]).error_equals,
            cmd.error,
        ) {
        law_first_matching_policy_counts(t.retry_plan, cmd.error, 0);
    } else {
        let i = choose|i: int|
            0 <= i < t.retry_plan.len() && matches_error(
                (#[trigger] t.retry_plan[i]).error_equals,
                cmd.error,
            ) && granted_by(t, i) >= t.retry_plan[i].max_attempts && (forall|j: int|
                0 <= j < i ==> !matches_error(
                    (#[trigger] t.retry_plan[j]).error_equals,
                    cmd.error,
                ));
        law_first_matching_policy_counts(t.retry_plan, cmd.error, i);
    }
}

/// A failure that does not count changes nothing, and neither does one of a task that is not stored or that
/// no activity owns.
pub proof fn law_failure_that_does_not_count_is_idle(
    w: World,
    ctx: HandlerContext,
    cmd: FailTaskView,
)
    requires
        !(w.store.task(cmd.task) matches Ok(Some(row)) && counts(row.value, cmd.worker_id)
            && row.value.meta.owner->0.kind is Activity),
    ensures
        task_failure(w, ctx, cmd) == w,
{
}

/// A failure goes to the first catcher of its state that matches: the activity completes by the `Assign` and
/// the `Output` of that catcher, which see the output of the error, and the run goes on at its `Next`.
pub proof fn law_failure_goes_to_the_first_matching_catcher(
    w: World,
    ctx: HandlerContext,
    activity: ObjectReferenceView,
    error: ExecutionErrorView,
    a: ActivityView,
    thread: ThreadRecordView,
    state: TaskState,
    i: int,
)
    requires
        w.store.activity(activity) matches Ok(Some(row)) && row.value == a,
        a.meta.owner is Some,
        w.store.thread(a.meta.owner->0) == Ok::<_, ExecutionErrorView>(Some(thread)),
        scope_state(
            ctx,
            w.store,
            ScopeRecordView::Thread(thread),
            state_name(a.state_path),
        ) == Ok::<_, ExecutionErrorView>(State::Task(state)),
        0 <= i < state.catch@.len(),
        matches_error(state.catch@[i].error_equals.deep_view(), error),
        forall|j: int|
            0 <= j < i ==> !matches_error(
                (#[trigger] state.catch@[j]).error_equals.deep_view(),
                error,
            ),
    ensures
        failure_routed(w, ctx, activity, error) == activity_completed(
            w,
            ctx.env,
            activity,
            a,
            thread.variables,
            state.catch@[i].assign,
            state.catch@[i].output.deep_view(),
            Some(state.catch@[i].next@),
            None,
            match a.retry_state {
                Some(retries) => retries.attempts,
                None => 0,
            },
            Some(
                match error_output(error) {
                    Some(v) => v,
                    None => Json::Null,
                },
            ),
        ),
{
    law_first_matching_catcher_counts(state.catch@, error, i);
}

/// A failure that no catcher matches fails the activity and its scope with that error.
pub proof fn law_uncaught_failure_fails_the_activity(
    w: World,
    ctx: HandlerContext,
    activity: ObjectReferenceView,
    error: ExecutionErrorView,
    a: ActivityView,
    thread: ThreadRecordView,
    state: TaskState,
)
    requires
        w.store.activity(activity) matches Ok(Some(row)) && row.value == a,
        a.meta.owner is Some,
        w.store.thread(a.meta.owner->0) == Ok::<_, ExecutionErrorView>(Some(thread)),
        scope_state(
            ctx,
            w.store,
            ScopeRecordView::Thread(thread),
            state_name(a.state_path),
        ) == Ok::<_, ExecutionErrorView>(State::Task(state)),
        forall|j: int|
            0 <= j < state.catch@.len() ==> !matches_error(
                (#[trigger] state.catch@[j]).error_equals.deep_view(),
                error,
            ),
    ensures
        failure_routed(w, ctx, activity, error) == failed_activity(
            w,
            a,
            TerminationReasonView::Failed { error },
        ),
{
    law_first_matching_catcher_counts(state.catch@, error, 0);
}

/// A task can be handed out: it waits for a worker and its delay is over, or the lease of the worker that
/// has it has run out.
pub open spec fn free_at(t: TaskView, now: Timestamp) -> bool {
    ||| t.status is Pending && (t.retry_state.next_available_at matches Some(at) ==> at.0 <= now.0)
    ||| t.status is Running && (t.lease_expires_at matches Some(at) && at.0 <= now.0)
}

/// The row under a key is a task of `resource` that can be handed out.
pub open spec fn on_offer(
    s: StoreView,
    key: RowKey,
    resource: Seq<char>,
    now: Timestamp,
) -> bool {
    s.rows.contains_key(key) && (s.rows[key] matches QueryObjectView::Task(row)
        && row.value.resource == resource && free_at(row.value, now))
}

/// The tasks on offer among rows, in the order of the rows.
pub open spec fn offered(
    s: StoreView,
    keys: Seq<RowKey>,
    resource: Seq<char>,
    now: Timestamp,
) -> Seq<TaskRecordView> {
    keys.filter(|key: RowKey| on_offer(s, key, resource, now)).map_values(
        |key: RowKey| s.rows[key]->Task_0,
    )
}

proof fn lemma_offered_last(s: StoreView, keys: Seq<RowKey>, resource: Seq<char>, now: Timestamp)
    requires
        keys.len() > 0,
    ensures
        offered(s, keys, resource, now) == if on_offer(s, keys.last(), resource, now) {
            offered(s, keys.drop_last(), resource, now).push(s.rows[keys.last()]->Task_0)
        } else {
            offered(s, keys.drop_last(), resource, now)
        },
{
    reveal(Seq::filter);
    assert(offered(s, keys, resource, now) =~= if on_offer(s, keys.last(), resource, now) {
        offered(s, keys.drop_last(), resource, now).push(s.rows[keys.last()]->Task_0)
    } else {
        offered(s, keys.drop_last(), resource, now)
    });
}

proof fn lemma_found_are_offered(
    s: StoreView,
    keys: Seq<RowKey>,
    resource: Seq<char>,
    now: Timestamp,
    max: nat,
)
    ensures
        s.activatable_among(keys, resource, now, max) == (if offered(s, keys, resource, now).len()
            <= max {
            offered(s, keys, resource, now)
        } else {
            offered(s, keys, resource, now).take(max as int)
        }),
    decreases keys.len(),
{
    if keys.len() == 0 {
        reveal(Seq::filter);
        assert(offered(s, keys, resource, now) =~= Seq::empty());
    } else {
        lemma_found_are_offered(s, keys.drop_last(), resource, now, max);
        lemma_offered_last(s, keys, resource, now);
        let before = offered(s, keys.drop_last(), resource, now);
        let all = offered(s, keys, resource, now);
        if before.len() >= max {
            assert(all.take(max as int) =~= before.take(max as int));
            assert(before.take(before.len() as int) =~= before);
        }
    }
}

/// What is found for a worker are the first tasks on offer of the resource that it asks for, in the order in
/// which they were stored: all of them, or as many as it asks for.
pub proof fn law_tasks_on_offer_are_found(
    s: StoreView,
    resource: Seq<char>,
    now: Timestamp,
    max: nat,
)
    requires
        s.fault is None,
    ensures
        ({
            let all = offered(s, s.order, resource, now);
            s.activatable(resource, now, max) == Ok::<_, ExecutionErrorView>(
                if all.len() <= max {
                    all
                } else {
                    all.take(max as int)
                },
            )
        }),
{
    lemma_found_are_offered(s, s.order, resource, now, max);
}

/// Of tasks that were found, each that an activity owns is leased: to that worker, until that instant, and
/// otherwise as it was.
pub proof fn law_found_tasks_are_leased(
    found: Seq<TaskRecordView>,
    worker_id: Seq<char>,
    until: Timestamp,
    now: Timestamp,
)
    ensures
        leased(found, worker_id, until, now) == found.filter(
            |row: TaskRecordView|
                row.value.meta.owner matches Some(owner) && owner.kind is Activity,
        ).map_values(
            |row: TaskRecordView|
                TaskView {
                    meta: changed(row.value.meta, now),
                    execution: row.value.execution,
                    resource: row.value.resource,
                    arguments: row.value.arguments,
                    status: TaskStatus::Running,
                    deadline: row.value.deadline,
                    worker_id: Some(worker_id),
                    lease_expires_at: Some(until),
                    retry_plan: row.value.retry_plan,
                    retry_state: RetryStateView {
                        attempts: row.value.retry_state.attempts,
                        retrier_attempts: row.value.retry_state.retrier_attempts,
                        next_available_at: None,
                    },
                },
        ),
    decreases found.len(),
{
    reveal(Seq::filter);
    if found.len() > 0 {
        law_found_tasks_are_leased(found.drop_last(), worker_id, until, now);
    }
    let owned = |row: TaskRecordView|
        row.value.meta.owner matches Some(owner) && owner.kind is Activity;
    let lease = |row: TaskRecordView|
        TaskView {
            meta: changed(row.value.meta, now),
            execution: row.value.execution,
            resource: row.value.resource,
            arguments: row.value.arguments,
            status: TaskStatus::Running,
            deadline: row.value.deadline,
            worker_id: Some(worker_id),
            lease_expires_at: Some(until),
            retry_plan: row.value.retry_plan,
            retry_state: RetryStateView {
                attempts: row.value.retry_state.attempts,
                retrier_attempts: row.value.retry_state.retrier_attempts,
                next_available_at: None,
            },
        };
    assert(leased(found, worker_id, until, now) =~= found.filter(owned).map_values(lease));
}

proof fn lemma_offered_member(
    s: StoreView,
    keys: Seq<RowKey>,
    resource: Seq<char>,
    now: Timestamp,
    k: int,
)
    requires
        0 <= k < offered(s, keys, resource, now).len(),
    ensures
        exists|key: RowKey|
            keys.contains(key) && #[trigger] on_offer(s, key, resource, now) && s.rows[key]
                == QueryObjectView::Task(offered(s, keys, resource, now)[k]),
    decreases keys.len(),
{
    if keys.len() == 0 {
        reveal(Seq::filter);
    } else {
        lemma_offered_last(s, keys, resource, now);
        let before = offered(s, keys.drop_last(), resource, now);
        if k < before.len() {
            lemma_offered_member(s, keys.drop_last(), resource, now, k);
            let key = choose|key: RowKey|
                keys.drop_last().contains(key) && #[trigger] on_offer(s, key, resource, now)
                    && s.rows[key] == QueryObjectView::Task(before[k]);
            let i = choose|i: int| 0 <= i < keys.len() - 1 && keys.drop_last()[i] == key;
            assert(keys[i] == key);
        } else {
            assert(keys[keys.len() - 1] == keys.last());
        }
    }
}

proof fn lemma_leased_member(
    found: Seq<TaskRecordView>,
    worker_id: Seq<char>,
    until: Timestamp,
    now: Timestamp,
    k: int,
)
    requires
        0 <= k < leased(found, worker_id, until, now).len(),
    ensures
        exists|i: int|
            0 <= i < found.len() && {
                let t = (#[trigger] found[i]).value;
                let g = leased(found, worker_id, until, now)[k];
                &&& t.meta.owner matches Some(owner) && owner.kind is Activity
                &&& g.status is Running
                &&& g.worker_id == Some(worker_id)
                &&& g.lease_expires_at == Some(until)
                &&& named_by(g.meta) == named_by(t.meta)
                &&& g.resource == t.resource
                &&& g.arguments == t.arguments
            },
    decreases found.len(),
{
    if found.len() > 0 {
        let init = found.drop_last();
        let before = leased(init, worker_id, until, now);
        let all = leased(found, worker_id, until, now);
        if k < before.len() {
            lemma_leased_member(init, worker_id, until, now, k);
            assert(all[k] == before[k]);
            let i = choose|i: int|
                0 <= i < init.len() && {
                    let t = (#[trigger] init[i]).value;
                    let g = before[k];
                    &&& t.meta.owner matches Some(owner) && owner.kind is Activity
                    &&& g.status is Running
                    &&& g.worker_id == Some(worker_id)
                    &&& g.lease_expires_at == Some(until)
                    &&& named_by(g.meta) == named_by(t.meta)
                    &&& g.resource == t.resource
                    &&& g.arguments == t.arguments
                };
            assert(found[i] == init[i]);
        } else {
            assert(found[found.len() - 1] == found.last());
        }
    }
}

/// Every task that a claim grants is one that was stored, of the resource that the claim names, free at that
/// instant and owned by an activity; it is leased to the worker for as long as the worker asked.
pub proof fn law_claim_grants_free_tasks_of_the_resource(w: World, cmd: ClaimTasksView, k: int)
    requires
        0 <= k < granted(w, cmd).len(),
    ensures
        exists|key: RowKey|
            w.store.order.contains(key) && #[trigger] on_offer(
                w.store,
                key,
                cmd.resource,
                w.now,
            ) && {
                let t = w.store.rows[key]->Task_0.value;
                let g = granted(w, cmd)[k];
                &&& t.meta.owner matches Some(owner) && owner.kind is Activity
                &&& g.resource == cmd.resource
                &&& named_by(g.meta) == named_by(t.meta)
                &&& g.arguments == t.arguments
                &&& g.status is Running
                &&& g.worker_id == Some(cmd.worker_id)
                &&& g.lease_expires_at == Some(
                    Timestamp((w.now.0 + cmd.lease_seconds * 1000) as i64),
                )
            },
{
    let until = w.now.later(cmd.lease_seconds)->0;
    let max = cmd.max_tasks as nat;
    law_tasks_on_offer_are_found(w.store, cmd.resource, w.now, max);
    let found = w.store.activatable(cmd.resource, w.now, max)->Ok_0;
    lemma_leased_member(found, cmd.worker_id, until, w.now, k);
    let i = choose|i: int|
        0 <= i < found.len() && {
            let t = (#[trigger] found[i]).value;
            let g = granted(w, cmd)[k];
            &&& t.meta.owner matches Some(owner) && owner.kind is Activity
            &&& g.status is Running
            &&& g.worker_id == Some(cmd.worker_id)
            &&& g.lease_expires_at == Some(until)
            &&& named_by(g.meta) == named_by(t.meta)
            &&& g.resource == t.resource
            &&& g.arguments == t.arguments
        };
    let all = offered(w.store, w.store.order, cmd.resource, w.now);
    assert(found[i] == all[i]);
    lemma_offered_member(w.store, w.store.order, cmd.resource, w.now, i);
    let key = choose|key: RowKey|
        w.store.order.contains(key) && #[trigger] on_offer(w.store, key, cmd.resource, w.now)
            && w.store.rows[key] == QueryObjectView::Task(all[i]);
    assert(on_offer(w.store, key, cmd.resource, w.now));
}

proof fn lemma_offer_is_listed(
    s: StoreView,
    keys: Seq<RowKey>,
    resource: Seq<char>,
    now: Timestamp,
    key: RowKey,
)
    requires
        keys.contains(key),
        on_offer(s, key, resource, now),
    ensures
        offered(s, keys, resource, now).contains(s.rows[key]->Task_0),
    decreases keys.len(),
{
    let i = choose|i: int| 0 <= i < keys.len() && keys[i] == key;
    lemma_offered_last(s, keys, resource, now);
    let before = offered(s, keys.drop_last(), resource, now);
    let all = offered(s, keys, resource, now);
    if i < keys.len() - 1 {
        assert(keys.drop_last()[i] == key);
        lemma_offer_is_listed(s, keys.drop_last(), resource, now, key);
        let k = choose|k: int| 0 <= k < before.len() && before[k] == s.rows[key]->Task_0;
        assert(all[k] == before[k]);
    } else {
        assert(all[all.len() - 1] == s.rows[key]->Task_0);
    }
}

proof fn lemma_found_is_leased(
    found: Seq<TaskRecordView>,
    worker_id: Seq<char>,
    until: Timestamp,
    now: Timestamp,
    i: int,
)
    requires
        0 <= i < found.len(),
        found[i].value.meta.owner matches Some(owner) && owner.kind is Activity,
    ensures
        exists|k: int|
            0 <= k < leased(found, worker_id, until, now).len() && named_by(
                (#[trigger] leased(found, worker_id, until, now)[k]).meta,
            ) == named_by(found[i].value.meta),
    decreases found.len(),
{
    let init = found.drop_last();
    let before = leased(init, worker_id, until, now);
    let all = leased(found, worker_id, until, now);
    if i < init.len() {
        assert(init[i] == found[i]);
        lemma_found_is_leased(init, worker_id, until, now, i);
        let k = choose|k: int|
            0 <= k < before.len() && named_by((#[trigger] before[k]).meta) == named_by(
                init[i].value.meta,
            );
        assert(all[k] == before[k]);
    } else {
        assert(named_by(all[all.len() - 1].meta) == named_by(found[i].value.meta));
    }
}

/// A claim leaves out a free task of its resource that an activity owns only when as many as it asks for
/// were found without it.
pub proof fn law_claim_leaves_out_only_what_is_too_many(
    w: World,
    cmd: ClaimTasksView,
    key: RowKey,
)
    requires
        w.store.fault is None,
        w.now.0 + cmd.lease_seconds * 1000 <= i64::MAX,
        w.store.order.contains(key),
        on_offer(w.store, key, cmd.resource, w.now),
        w.store.rows[key]->Task_0.value.meta.owner matches Some(owner) && owner.kind is Activity,
    ensures
        (exists|k: int|
            0 <= k < granted(w, cmd).len() && named_by((#[trigger] granted(w, cmd)[k]).meta)
                == named_by(w.store.rows[key]->Task_0.value.meta)) || offered(
            w.store,
            w.store.order,
            cmd.resource,
            w.now,
        ).len() > cmd.max_tasks,
{
    let until = w.now.later(cmd.lease_seconds)->0;
    let max = cmd.max_tasks as nat;
    law_tasks_on_offer_are_found(w.store, cmd.resource, w.now, max);
    lemma_offer_is_listed(w.store, w.store.order, cmd.resource, w.now, key);
    let all = offered(w.store, w.store.order, cmd.resource, w.now);
    if all.len() <= max {
        let i = choose|i: int| 0 <= i < all.len() && all[i] == w.store.rows[key]->Task_0;
        lemma_found_is_leased(all, cmd.worker_id, until, w.now, i);
        let given = leased(all, cmd.worker_id, until, w.now);
        let k = choose|k: int|
            0 <= k < given.len() && named_by((#[trigger] given[k]).meta) == named_by(
                all[i].value.meta,
            );
        assert(granted(w, cmd) == given);
        assert(named_by(granted(w, cmd)[k].meta) == named_by(all[i].value.meta));
    }
}

/// A claim is answered by one event that says what was granted; it grants nothing when the end of the lease
/// is past every instant, or the store cannot be read.
pub proof fn law_claim_is_answered(w: World, cmd: ClaimTasksView)
    ensures
        claim(w, cmd).chain == w.chain.push(
            told(
                EventView::TasksClaimed(
                    TasksClaimedView { request_id: cmd.request_id, tasks: granted(w, cmd) },
                ),
            ),
        ),
        w.store.fault is Some || w.now.0 + cmd.lease_seconds * 1000 > i64::MAX ==> granted(
            w,
            cmd,
        ).len() == 0,
{
}

/// A worker completes the task that it holds: the completion is told with its output and answers the
/// request, the timers of the activity are cancelled, and the activity is completed with that output.
pub proof fn law_held_task_is_completed(
    w: World,
    cmd: CompleteTaskView,
    t: TaskView,
    owner: ObjectReferenceView,
)
    requires
        w.store.task(cmd.task) matches Ok(Some(row)) && row.value == t,
        t.status is Running,
        t.worker_id == Some(cmd.worker_id),
        cmd.worker_id.len() > 0,
        t.meta.owner == Some(owner),
        owner.kind is Activity,
    ensures
        ({
            let after = task_completion(w, cmd);
            let completed = EventView::TaskCompleted(
                TaskCompletedView {
                    request_id: cmd.request_id,
                    task: TaskView {
                        meta: changed(t.meta, w.now),
                        status: TaskStatus::Completed,
                        worker_id: None,
                        lease_expires_at: None,
                        ..t
                    },
                    output: cmd.output,
                },
            );
            let swept = timers_cancelled(w.event(completed), owner);
            &&& after.chain == swept.chain.push(
                sent(
                    CommandView::CompleteState(
                        CompleteStateView { activity: owner, output: cmd.output },
                    ),
                ),
            )
            &&& after.store == swept.store
            &&& after.acks.len() == w.acks.len() + 1
            &&& after.acks.last().request_id == cmd.request_id
            &&& after.acks.last().event == completed
        }),
{
    let completed = EventView::TaskCompleted(
        TaskCompletedView {
            request_id: cmd.request_id,
            task: completed_task(t, w.now),
            output: cmd.output,
        },
    );
    lemma_acks_pass(w.event(completed), owner, cmd.request_id, completed);
    lemma_cancelling_adds(w.event(completed), owner);
    assert(w.ack(cmd.request_id, completed).event(completed) == w.event(completed).ack(
        cmd.request_id,
        completed,
    ));
}

proof fn lemma_acks_pass(
    w: World,
    activity: ObjectReferenceView,
    request_id: RequestId,
    event: EventView,
)
    ensures
        timers_cancelled(w.ack(request_id, event), activity) == timers_cancelled(w, activity).ack(
            request_id,
            event,
        ),
{
    if let Ok(Some(row)) = w.store.activity(activity) {
        lemma_acks_pass_sweep(w, row.active_children, request_id, event);
    }
}

proof fn lemma_acks_pass_sweep(
    w: World,
    children: Seq<ObjectReferenceView>,
    request_id: RequestId,
    event: EventView,
)
    ensures
        sweep(w.ack(request_id, event), children)
            == sweep(w, children).ack(request_id, event),
    decreases children.len(),
{
    if children.len() > 0 {
        lemma_acks_pass_sweep(w, children.drop_last(), request_id, event);
    }
}

/// A completion is refused, and nothing stored, when the task is not there, does not run, or is held by
/// another worker than the one that reports it.
pub proof fn law_completion_by_others_is_refused(w: World, cmd: CompleteTaskView)
    requires
        w.store.fault is None,
        !(w.store.task(cmd.task) matches Ok(Some(row)) && row.value.status is Running
            && row.value.worker_id == Some(cmd.worker_id) && cmd.worker_id.len() > 0),
    ensures
        ({
            let after = task_completion(w, cmd);
            &&& after.store == w.store
            &&& after.acks == w.acks
            &&& after.chain.len() == w.chain.len() + 1
            &&& after.chain.take(w.chain.len() as int) == w.chain
            &&& after.chain.last() matches EntryPayloadView::Reject(reject) && {
                &&& reject.request_id == cmd.request_id
                &&& match w.store.task(cmd.task) {
                    Ok(Some(row)) => if row.value.status is Running {
                        reject.rejection_type is StateConflict
                    } else {
                        reject.rejection_type is InvalidState
                    },
                    _ => reject.rejection_type is NotFound,
                }
            }
        }),
{
    assert(task_completion(w, cmd).chain.take(w.chain.len() as int) =~= w.chain);
}

/// A task whose lease is released waits for a worker again, at once and without one; a task that does not
/// run is left alone.
pub proof fn law_released_task_waits_again(w: World, task: ObjectReferenceView, t: TaskView)
    requires
        w.store.task(task) matches Ok(Some(row)) && row.value == t,
    ensures
        t.status is Running ==> lease_release(w, task) == w.event(
            EventView::TaskLeaseExpired {
                task: TaskView {
                    meta: changed(t.meta, w.now),
                    status: TaskStatus::Pending,
                    worker_id: None,
                    lease_expires_at: None,
                    retry_state: RetryStateView {
                        attempts: t.retry_state.attempts,
                        retrier_attempts: t.retry_state.retrier_attempts,
                        next_available_at: None,
                    },
                    ..t
                },
            },
        ),
        !(t.status is Running) ==> lease_release(w, task) == w,
{
}

/// A cancelled task is told so, and its owner hears of it.
pub proof fn law_cancelled_task_is_told(
    w: World,
    ctx: HandlerContext,
    task: ObjectReferenceView,
    t: TaskView,
    owner: ObjectReferenceView,
)
    requires
        w.store.task(task) matches Ok(Some(row)) && row.value == t,
        t.meta.owner == Some(owner),
    ensures
        task_cancellation(w, ctx, task) == settled(
            w.event(
                EventView::TaskCancelled {
                    task: TaskView {
                        meta: changed(t.meta, w.now),
                        status: TaskStatus::Cancelled,
                        ..t
                    },
                },
            ),
            ctx,
            owner,
            task,
        ),
{
}

/// The deadline of a task: none without `TimeoutSeconds`, and otherwise so many whole seconds from now.
pub open spec fn due(
    env: EvalEnv,
    timeout: Option<IntOrExpr>,
    states: StatesView,
    variables: Seq<MemberView>,
    now: Timestamp,
    deadline: Option<Timestamp>,
) -> bool {
    match timeout {
        None => deadline is None,
        Some(IntOrExpr::Int(n)) => n > 0 && (deadline matches Some(at) && at.0 == now.0 + n * 1000),
        Some(IntOrExpr::Expr(text)) => exists|source: Seq<char>, v: Json|
            text@ == #[trigger] braced(source) && #[trigger] gives(
                env,
                source,
                states,
                variables,
                v,
            ) && (whole_value(v) matches Some(n) && 0 < n <= i64::MAX && (deadline matches Some(at)
                && at.0 == now.0 + n * 1000)),
    }
}

/// An activated `Task` is invoked: its resource is handed the processed input, the retry plan of the state
/// and the deadline; where there is a deadline, a timer of the activity is armed for it.
pub proof fn law_task_is_invoked(
    w: World,
    env: EvalEnv,
    s: TaskState,
    a: ActivityView,
    variables: Seq<MemberView>,
    states: StatesView,
    deadline: Option<Timestamp>,
)
    requires
        due(env, s.timeout_seconds, states, variables, w.now, deadline),
    ensures
        ({
            let step = task_activated(w, env, s, a, variables, states);
            let task = ObjectReferenceView {
                kind: ObjectKind::Task,
                name: ObjectNameView {
                    base: a.execution.name.base,
                    key: Some(NameKey::Number(w.store.next_seq)),
                },
                uid: Uid(w.next_uid),
            };
            let invoked = sent(
                CommandView::ActivateTask(
                    ActivateTaskView {
                        execution: a.execution,
                        owner: named_by(a.meta),
                        task,
                        resource: s.resource@,
                        arguments: handed(a),
                        retry_plan: s.retry.deep_view(),
                        deadline,
                    },
                ),
            );
            let w1 = w.minted().drawn();
            &&& step.error is None
            &&& step.world.question == w.question
            &&& match deadline {
                None => step.world.chain == w.chain.push(invoked) && step.world.store == w1.store,
                Some(at) => step.world.chain == w.chain.push(invoked).push(
                    told(
                        EventView::TimerActivated {
                            timer: TimerView {
                                meta: ObjectMetaView {
                                    kind: ObjectKind::Timer,
                                    name: ObjectNameView {
                                        base: a.execution.name.base,
                                        key: Some(NameKey::Number(w1.store.next_seq)),
                                    },
                                    uid: Uid(w1.next_uid),
                                    owner: Some(named_by(a.meta)),
                                    created_at: w.now,
                                    updated_at: w.now,
                                },
                                execution: a.execution,
                                purpose: TimerPurpose::TaskTimeout,
                                status: TimerStatus::Active,
                                deadline: at,
                            },
                        },
                    ),
                ),
            }
        }),
{
    if let Some(IntOrExpr::Expr(text)) = s.timeout_seconds {
        let (source, v) = choose|source: Seq<char>, v: Json|
            text@ == #[trigger] braced(source) && #[trigger] gives(
                env,
                source,
                states,
                variables,
                v,
            ) && (whole_value(v) matches Some(n) && 0 < n <= i64::MAX && (deadline matches Some(at)
                && at.0 == w.now.0 + n * 1000));
        law_expressions_stand_in_braces(source, text@);
    }
    assert(timeout_asked(w, env, s.timeout_seconds, states, variables) == w);
    assert(task_deadline(env, s.timeout_seconds, states, variables, w.now) == Ok::<
        _,
        ExecutionErrorView,
    >(deadline));
}

/// A timeout that is no positive whole number fails the activation, and so does one whose deadline is past
/// every instant.
pub proof fn law_bad_timeout_fails_the_task(
    w: World,
    env: EvalEnv,
    s: TaskState,
    a: ActivityView,
    variables: Seq<MemberView>,
    states: StatesView,
    n: i64,
)
    requires
        s.timeout_seconds == Some(IntOrExpr::Int(n)),
        n <= 0 || w.now.0 + n * 1000 > i64::MAX,
    ensures
        task_activated(w, env, s, a, variables, states).error == Some(
            ExecutionErrorView::Runtime(
                RuntimeErrorView::InvalidDefinition(
                    if n <= 0 {
                        "Task TimeoutSeconds must be a positive integer"@
                    } else {
                        "Task TimeoutSeconds overflows the absolute deadline"@
                    },
                ),
            ),
        ),
{
}

} // verus!
