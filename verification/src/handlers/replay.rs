//! The store that a dispatch leaves is the fold of the events that it emits: nothing reaches the store
//! but through the log.

use vstd::prelude::*;

use crate::asl::{
    AssignObject, Branch, ChoiceCondition, ChoiceRule, ChoiceState, FailState, IntOrExpr, MapState,
    ParallelState, State, StateMachine, TaskState, WaitState,
};
use crate::eval_env::{EvalEnv, QuestionView};
use crate::handler::{HandlerContext, World, idle};
use crate::handlers::activate_state::state_activation;
use crate::handlers::assign_task::claim;
use crate::handlers::cancel_task::task_cancellation;
use crate::handlers::cancel_timer::timer_cancellation;
use crate::handlers::child_completed::{continued, replenished, settled};
use crate::handlers::complete_execution::{execution_completion, timers_swept};
use crate::handlers::complete_state::state_completion;
use crate::handlers::complete_task::task_completion;
use crate::handlers::complete_thread::{thread_completion, thread_success};
use crate::handlers::continue_::{
    activity_finished, deferred_finish, execution_finished, handed_up, node_finished,
    thread_finished,
};
use crate::handlers::create_execution::{execution_creation, execution_started, machine_entered};
use crate::handlers::create_flow::flow_creation;
use crate::handlers::dispatch::{dispatchable, dispatched};
use crate::handlers::fail_task::{failure_routed, failure_unhandled, task_failure};
use crate::handlers::lifecycle::{
    completing_execution, completing_thread, terminating_execution, terminating_thread,
};
use crate::handlers::phases::{
    execution_phase, execution_status, leads_to, lemma_apply_phases, orderly, phased, sound,
    thread_phase, thread_status,
};
use crate::handlers::process_child_completed::{
    activity_reaction, execution_reaction, reaction, receipted, relayed, thread_reaction,
};
use crate::handlers::release_task_lease::lease_release;
use crate::handlers::shared::{
    activity_completed, after_assign, after_output, hop, json_asked, sweep, sweep_one, text_asked,
    timer_armed, timers_cancelled, transition,
};
use crate::handlers::spawn_thread::thread_spawn;
use crate::handlers::state_handler::{
    activated, activation_followed, child_reaction, children_disposed, completed, drained_finish,
    entered, finished, processing_asked,
};
use crate::handlers::states::choice::{finish_choice, rule_asked, scanned};
use crate::handlers::states::common::{
    done, fail_container, finish_container, finish_stray, finish_success, stopped,
};
use crate::handlers::states::fail::{failed_activity, finish_fail, optional_asked};
use crate::handlers::states::map::{
    finish_map, items_spawned, map_activated, map_child_completed, map_items_asked,
    map_limit_asked, map_plan_asked,
};
use crate::handlers::states::parallel::{
    arguments_asked, branches_spawned, finish_parallel, parallel_activated,
    parallel_child_completed,
};
use crate::handlers::states::task::{task_activated, timeout_asked};
use crate::handlers::states::wait::{wait_activated, wait_asked};
use crate::handlers::terminate_execution::{execution_probe, execution_termination};
use crate::handlers::terminate_state::{activity_swept, state_termination};
use crate::handlers::terminate_thread::{run_terminated, scope_swept, thread_termination};
use crate::handlers::trigger_timer::{expired, timer_trigger};
use crate::id::{RequestId, Timestamp};
use crate::query::QueryObjectView;
use crate::storage::activity::ActivityRecordView;
use crate::storage::counter::{ahead, law_folding_keeps_the_counter_ahead};
use crate::storage::scope::{scope_of, ScopeRecordView};
use crate::storage::store::{RowKey, StoreView};
use crate::types::activity::ActivityView;
use crate::types::command::{
    ActivateStateView, ClaimTasksView, Command, CommandView, CompleteExecutionView,
    CompleteStateView, CompleteTaskView, CompleteThreadView, CreateExecutionView, CreateFlowView,
    FailTask, FailTaskView, SpawnThread, SpawnThreadView, TerminateExecutionView,
    TerminateStateView, TerminateThreadView,
};
use crate::types::context::StatesView;
use crate::types::entry::EntryPayloadView;
use crate::types::error::ExecutionErrorView;
use crate::types::event::{Event, EventView};
use crate::types::execution::ExecutionView;
use crate::types::flow::FlowVersionView;
use crate::types::meta::{name_text, ObjectNameView, ObjectReferenceView};
use crate::types::reject::RejectionType;
use crate::types::status::{LifecycleView, TerminationReasonView};
use crate::types::task::TaskView;
use crate::types::thread::ThreadView;
use crate::types::timer::{TimerPurpose, TimerView};
use crate::value::{Json, MemberView};

verus! {

/// The two hold the same rows in the same order, and fail alike. Their counters of generated names
/// may differ.
pub open spec fn alike(a: StoreView, b: StoreView) -> bool {
    a.rows == b.rows && a.order == b.order && a.fault == b.fault
}

/// A store whose counter of generated names stands at `n`.
spec fn renumbered(s: StoreView, n: u64) -> StoreView {
    StoreView { next_seq: n, ..s }
}

/// The events of a chain, folded into a store in order.
pub open spec fn refolded(s: StoreView, chain: Seq<EntryPayloadView>, now: Timestamp) -> StoreView
    decreases chain.len(),
{
    if chain.len() == 0 {
        s
    } else {
        let before = refolded(s, chain.drop_last(), now);
        match chain.last() {
            EntryPayloadView::Event(event) => before.apply(event, now),
            _ => before,
        }
    }
}

/// A chain holds no marker: those are for the log to end batches with.
pub open spec fn unmarked(chain: Seq<EntryPayloadView>) -> bool {
    forall|i: int| 0 <= i < chain.len() ==> !(#[trigger] chain[i] is Noop)
}

/// A command to spawn a thread says which table the thread runs in; any other command does.
pub open spec fn aimed(command: CommandView) -> bool {
    command matches CommandView::SpawnThread(p) ==> p.state_path is Some
}

/// Every command of a chain is aimed.
pub open spec fn all_aimed(chain: Seq<EntryPayloadView>) -> bool {
    forall|i: int|
        0 <= i < chain.len() ==> ((#[trigger] chain[i]) matches EntryPayloadView::Command(command)
            ==> aimed(command))
}

/// Every event of a chain keeps to the phases, in the store that the events before it leave.
pub open spec fn all_orderly(s: StoreView, chain: Seq<EntryPayloadView>, now: Timestamp) -> bool
    decreases chain.len(),
{
    chain.len() > 0 ==> {
        let before = chain.drop_last();
        &&& all_orderly(s, before, now)
        &&& chain.last() matches EntryPayloadView::Event(event) ==> orderly(
            refolded(s, before, now),
            event,
        )
    }
}

/// A dispatch that began with `s` at `now` has changed the store by the events of its chain alone.
#[verifier::opaque]
pub open spec fn reflects(s: StoreView, now: Timestamp, w: World) -> bool {
    &&& w.now == now
    &&& unmarked(w.chain)
    &&& all_aimed(w.chain)
    &&& alike(w.store, refolded(s, w.chain, now))
    &&& s.next_seq <= refolded(s, w.chain, now).next_seq <= w.store.next_seq
    &&& sound(s) ==> sound(w.store) && all_orderly(s, w.chain, now)
}

broadcast proof fn renumbered_put(s: StoreView, n: u64, row: QueryObjectView)
    ensures
        #[trigger] renumbered(s, n).put(row) == renumbered(s.put(row), n),
{
}

broadcast proof fn renumbered_with_child(
    s: StoreView,
    n: u64,
    parent: ObjectReferenceView,
    child: ObjectReferenceView,
)
    ensures
        #[trigger] renumbered(s, n).with_child(parent, child) == renumbered(
            s.with_child(parent, child),
            n,
        ),
{
    broadcast use {renumbered_put};

    reveal(StoreView::with_child);
}

broadcast proof fn renumbered_without_child(
    s: StoreView,
    n: u64,
    parent: ObjectReferenceView,
    child: ObjectReferenceView,
)
    ensures
        #[trigger] renumbered(s, n).without_child(parent, child) == renumbered(
            s.without_child(parent, child),
            n,
        ),
{
    broadcast use {renumbered_put};

    reveal(StoreView::without_child);
}

broadcast proof fn renumbered_attach(
    s: StoreView,
    n: u64,
    owner: Option<ObjectReferenceView>,
    child: ObjectReferenceView,
)
    ensures
        #[trigger] renumbered(s, n).attach(owner, child) == renumbered(s.attach(owner, child), n),
{
    broadcast use {renumbered_with_child};

    reveal(StoreView::attach);
}

broadcast proof fn renumbered_detach(
    s: StoreView,
    n: u64,
    owner: Option<ObjectReferenceView>,
    child: ObjectReferenceView,
)
    ensures
        #[trigger] renumbered(s, n).detach(owner, child) == renumbered(s.detach(owner, child), n),
{
    broadcast use {renumbered_without_child};

    reveal(StoreView::detach);
}

broadcast proof fn renumbered_slotted(s: StoreView, n: u64, thread: ThreadView)
    ensures
        #[trigger] renumbered(s, n).slotted(thread) == renumbered(s.slotted(thread), n),
{
    broadcast use {renumbered_put};

    reveal(StoreView::slotted);
}

broadcast proof fn renumbered_store_execution(s: StoreView, n: u64, x: ExecutionView, at: Timestamp)
    ensures
        #[trigger] renumbered(s, n).store_execution(x, at) == renumbered(
            s.store_execution(x, at),
            n,
        ),
{
    broadcast use {renumbered_put};

    reveal(StoreView::store_execution);
}

broadcast proof fn renumbered_store_thread(s: StoreView, n: u64, x: ThreadView, at: Timestamp)
    ensures
        #[trigger] renumbered(s, n).store_thread(x, at) == renumbered(s.store_thread(x, at), n),
{
    broadcast use {renumbered_put};

    reveal(StoreView::store_thread);
}

broadcast proof fn renumbered_store_activity(s: StoreView, n: u64, x: ActivityView, at: Timestamp)
    ensures
        #[trigger] renumbered(s, n).store_activity(x, at) == renumbered(s.store_activity(x, at), n),
{
    broadcast use {renumbered_put};

    reveal(StoreView::store_activity);
}

broadcast proof fn renumbered_store_timer(s: StoreView, n: u64, x: TimerView, at: Timestamp)
    ensures
        #[trigger] renumbered(s, n).store_timer(x, at) == renumbered(s.store_timer(x, at), n),
{
    broadcast use {renumbered_put};

    reveal(StoreView::store_timer);
}

broadcast proof fn renumbered_store_task(s: StoreView, n: u64, x: TaskView, at: Timestamp)
    ensures
        #[trigger] renumbered(s, n).store_task(x, at) == renumbered(s.store_task(x, at), n),
{
    broadcast use {renumbered_put};

    reveal(StoreView::store_task);
}

broadcast proof fn renumbered_claim_task(s: StoreView, n: u64, x: TaskView, at: Timestamp)
    ensures
        #[trigger] renumbered(s, n).claim_task(x, at) == renumbered(s.claim_task(x, at), n),
{
    broadcast use {renumbered_store_task};

    reveal(StoreView::claim_task);
}

broadcast proof fn renumbered_claim_tasks(s: StoreView, n: u64, tasks: Seq<TaskView>, at: Timestamp)
    ensures
        #[trigger] renumbered(s, n).claim_tasks(tasks, at) == renumbered(
            s.claim_tasks(tasks, at),
            n,
        ),
    decreases tasks.len(),
{
    broadcast use {renumbered_claim_task};

    reveal_with_fuel(StoreView::claim_tasks, 2);
    if tasks.len() > 0 {
        renumbered_claim_tasks(s, n, tasks.drop_last(), at);
    }
}

broadcast proof fn renumbered_store_version(s: StoreView, n: u64, x: FlowVersionView, at: Timestamp)
    ensures
        #[trigger] renumbered(s, n).store_version(x, at) == renumbered(s.store_version(x, at), n),
{
    broadcast use {renumbered_put};

    reveal(StoreView::store_version);
}

broadcast proof fn renumbered_assign_variables(
    s: StoreView,
    n: u64,
    scope: ObjectReferenceView,
    variables: Seq<MemberView>,
    at: Timestamp,
)
    ensures
        #[trigger] renumbered(s, n).assign_variables(scope, variables, at) == renumbered(
            s.assign_variables(scope, variables, at),
            n,
        ),
{
    broadcast use {renumbered_put};

    reveal(StoreView::assign_variables);
}

broadcast proof fn renumbered_cursor(
    s: StoreView,
    n: u64,
    scope: Option<ObjectReferenceView>,
    to: Option<ObjectReferenceView>,
)
    ensures
        #[trigger] renumbered(s, n).cursor(scope, to) == renumbered(s.cursor(scope, to), n),
{
    broadcast use {renumbered_put};

    reveal(StoreView::cursor);
}

/// What an event does to the rows neither reads the counter of generated names nor moves it.
proof fn lemma_fold_rows_renumbered(s: StoreView, n: u64, event: EventView, at: Timestamp)
    ensures
        renumbered(s, n).fold_rows(event, at) == renumbered(s.fold_rows(event, at), n),
{
    broadcast use {
        renumbered_put, renumbered_attach, renumbered_detach, renumbered_slotted,
        renumbered_store_execution, renumbered_store_thread, renumbered_store_activity,
        renumbered_store_timer, renumbered_store_task, renumbered_claim_tasks,
        renumbered_store_version, renumbered_assign_variables, renumbered_cursor,
    };

    reveal(StoreView::fold_rows);
}

/// Folding an event into stores that are alike leaves them alike, and takes no counter back; the one
/// that is ahead stays ahead.
pub proof fn lemma_apply_alike(a: StoreView, b: StoreView, event: EventView, at: Timestamp)
    requires
        alike(a, b),
        a.next_seq <= b.next_seq,
    ensures
        alike(a.apply(event, at), b.apply(event, at)),
        a.next_seq <= a.apply(event, at).next_seq <= b.apply(event, at).next_seq,
{
    reveal(StoreView::apply);
    lemma_fold_rows_renumbered(a, a.next_seq, event, at);
    lemma_fold_rows_renumbered(a, b.next_seq, event, at);
    lemma_fold_rows_renumbered(b, b.next_seq, event, at);
    assert(renumbered(a, a.next_seq) == a);
    assert(renumbered(a, b.next_seq) == b);
    assert(renumbered(b, b.next_seq) == b);
}

broadcast proof fn reflects_event(base: StoreView, now: Timestamp, w: World, event: EventView)
    requires
        reflects(base, now, w),
        !phased(event),
    ensures
        #[trigger] reflects(base, now, w.event(event)),
{
    reflects_phase(base, now, w, event);
}

broadcast proof fn reflects_phase(base: StoreView, now: Timestamp, w: World, event: EventView)
    requires
        reflects(base, now, w),
        sound(base) && sound(w.store) ==> orderly(w.store, event),
    ensures
        #[trigger] reflects(base, now, w.event(event)),
{
    reveal(reflects);
    lemma_apply_alike(refolded(base, w.chain, now), w.store, event, now);
    assert(w.event(event).chain.drop_last() =~= w.chain);
    if sound(base) {
        lemma_apply_phases(w.store, event, now);
    }
}

/// What began with every row under its own key keeps it so.
proof fn lemma_reflects_sound(base: StoreView, now: Timestamp, w: World)
    requires
        reflects(base, now, w),
        sound(base),
    ensures
        sound(w.store),
{
    reveal(reflects);
}

broadcast proof fn reflects_command(base: StoreView, now: Timestamp, w: World, command: CommandView)
    requires
        reflects(base, now, w),
        aimed(command),
    ensures
        #[trigger] reflects(base, now, w.command(command)),
{
    reveal(reflects);
    assert(w.command(command).chain.drop_last() =~= w.chain);
}

broadcast proof fn reflects_reject(
    base: StoreView,
    now: Timestamp,
    w: World,
    request_id: RequestId,
    rejection_type: RejectionType,
    rejection_reason: Seq<char>,
)
    requires
        reflects(base, now, w),
    ensures
        #[trigger] reflects(base, now, w.reject(request_id, rejection_type, rejection_reason)),
{
    reveal(reflects);
    assert(w.reject(request_id, rejection_type, rejection_reason).chain.drop_last() =~= w.chain);
}

broadcast proof fn reflects_ack(
    base: StoreView,
    now: Timestamp,
    w: World,
    request_id: RequestId,
    event: EventView,
)
    requires
        reflects(base, now, w),
    ensures
        #[trigger] reflects(base, now, w.ack(request_id, event)),
{
    reveal(reflects);
}

broadcast proof fn reflects_minted(base: StoreView, now: Timestamp, w: World)
    requires
        reflects(base, now, w),
    ensures
        #[trigger] reflects(base, now, w.minted()),
{
    reveal(reflects);
}

broadcast proof fn reflects_drawn(base: StoreView, now: Timestamp, w: World)
    requires
        reflects(base, now, w),
    ensures
        #[trigger] reflects(base, now, w.drawn()),
{
    reveal(reflects);
}

broadcast proof fn reflects_scope_termination(
    base: StoreView,
    now: Timestamp,
    w: World,
    scope: ObjectReferenceView,
    reason: TerminationReasonView,
)
    requires
        reflects(base, now, w),
    ensures
        #[trigger] reflects(base, now, w.scope_termination(scope, reason)),
{
    broadcast use {reflects_command};
}

broadcast proof fn reflects_terminate(
    base: StoreView,
    now: Timestamp,
    w: World,
    activity: Option<ObjectReferenceView>,
    scope: ObjectReferenceView,
    error: ExecutionErrorView,
)
    requires
        reflects(base, now, w),
    ensures
        #[trigger] reflects(base, now, w.terminate(activity, scope, error)),
{
    broadcast use {reflects_command, reflects_scope_termination};
}

broadcast proof fn reflects_asked(
    base: StoreView,
    now: Timestamp,
    w: World,
    env: EvalEnv,
    question: QuestionView,
)
    requires
        reflects(base, now, w),
    ensures
        #[trigger] reflects(base, now, w.asked(env, question)),
{
    reveal(reflects);
}

broadcast proof fn reflects_state_activation(
    base: StoreView,
    now: Timestamp,
    w: World,
    ctx: HandlerContext,
    cmd: ActivateStateView,
)
    requires
        reflects(base, now, w),
    ensures
        #[trigger] reflects(base, now, state_activation(w, ctx, cmd)),
{
    broadcast use {reflects_activated, reflects_terminate};
}

broadcast proof fn reflects_claim(base: StoreView, now: Timestamp, w: World, cmd: ClaimTasksView)
    requires
        reflects(base, now, w),
    ensures
        #[trigger] reflects(base, now, claim(w, cmd)),
{
    broadcast use {reflects_event};
}

broadcast proof fn reflects_task_cancellation(
    base: StoreView,
    now: Timestamp,
    w: World,
    ctx: HandlerContext,
    task: ObjectReferenceView,
)
    requires
        reflects(base, now, w),
    ensures
        #[trigger] reflects(base, now, task_cancellation(w, ctx, task)),
{
    broadcast use {reflects_event, reflects_settled};
}

broadcast proof fn reflects_timer_cancellation(
    base: StoreView,
    now: Timestamp,
    w: World,
    ctx: HandlerContext,
    timer: ObjectReferenceView,
)
    requires
        reflects(base, now, w),
    ensures
        #[trigger] reflects(base, now, timer_cancellation(w, ctx, timer)),
{
    broadcast use {reflects_phase, reflects_settled};
}

broadcast proof fn reflects_continued(
    base: StoreView,
    now: Timestamp,
    w: World,
    node: ObjectReferenceView,
    children: Seq<ObjectReferenceView>,
    status: LifecycleView,
)
    requires
        reflects(base, now, w),
    ensures
        #[trigger] reflects(base, now, continued(w, node, children, status)),
{
    broadcast use {reflects_command};
}

broadcast proof fn reflects_replenished(
    base: StoreView,
    now: Timestamp,
    w: World,
    ctx: HandlerContext,
    activity: ObjectReferenceView,
    row: ActivityRecordView,
    child: ObjectReferenceView,
)
    requires
        reflects(base, now, w),
    ensures
        #[trigger] reflects(base, now, replenished(w, ctx, activity, row, child)),
{
    broadcast use {reflects_child_reaction};
}

broadcast proof fn reflects_settled(
    base: StoreView,
    now: Timestamp,
    w: World,
    ctx: HandlerContext,
    parent: ObjectReferenceView,
    child: ObjectReferenceView,
)
    requires
        reflects(base, now, w),
    ensures
        #[trigger] reflects(base, now, settled(w, ctx, parent, child)),
{
    broadcast use {reflects_continued, reflects_replenished};
}

broadcast proof fn reflects_timers_swept(
    base: StoreView,
    now: Timestamp,
    w: World,
    children: Seq<ObjectReferenceView>,
)
    requires
        reflects(base, now, w),
    ensures
        #[trigger] reflects(base, now, timers_swept(w, children)),
    decreases children.len(),
{
    broadcast use {reflects_command};

    if children.len() > 0 {
        reflects_timers_swept(base, now, w, children.drop_last());
    }
}

/// Cancelling timers by command stores nothing.
proof fn lemma_timers_swept_stores_nothing(w: World, children: Seq<ObjectReferenceView>)
    ensures
        timers_swept(w, children).store == w.store,
    decreases children.len(),
{
    if children.len() > 0 {
        lemma_timers_swept_stores_nothing(w, children.drop_last());
    }
}

/// Terminating children by command stores nothing.
proof fn lemma_scope_swept_stores_nothing(
    w: World,
    children: Seq<ObjectReferenceView>,
    reason: TerminationReasonView,
)
    ensures
        scope_swept(w, children, reason).store == w.store,
    decreases children.len(),
{
    if children.len() > 0 {
        lemma_scope_swept_stores_nothing(w, children.drop_last(), reason);
    }
}

broadcast proof fn reflects_execution_completion(
    base: StoreView,
    now: Timestamp,
    w: World,
    cmd: CompleteExecutionView,
)
    requires
        reflects(base, now, w),
    ensures
        #[trigger] reflects(base, now, execution_completion(w, cmd)),
{
    broadcast use {reflects_phase, reflects_terminate, reflects_timers_swept};
    if let Ok(Some(row)) = w.store.execution(cmd.execution) {
        let opened = EventView::ExecutionCompleting {
            execution: completing_execution(row.value, cmd.output, w.now),
        };
        lemma_timers_swept_stores_nothing(w.event(opened), row.active_children);
        if sound(base) {
            lemma_reflects_sound(base, now, w);
            lemma_apply_phases(w.store, opened, w.now);
        }
    }
}

broadcast proof fn reflects_state_completion(
    base: StoreView,
    now: Timestamp,
    w: World,
    ctx: HandlerContext,
    cmd: CompleteStateView,
)
    requires
        reflects(base, now, w),
    ensures
        #[trigger] reflects(base, now, state_completion(w, ctx, cmd)),
{
    broadcast use {reflects_completed, reflects_terminate};
}

broadcast proof fn reflects_task_completion(
    base: StoreView,
    now: Timestamp,
    w: World,
    cmd: CompleteTaskView,
)
    requires
        reflects(base, now, w),
    ensures
        #[trigger] reflects(base, now, task_completion(w, cmd)),
{
    broadcast use {
        reflects_ack, reflects_command, reflects_phase, reflects_reject, reflects_timers_cancelled,
    };
}

broadcast proof fn reflects_thread_success(
    base: StoreView,
    now: Timestamp,
    w: World,
    ctx: HandlerContext,
    owner: Option<ObjectReferenceView>,
    thread: ObjectReferenceView,
    output: Json,
)
    requires
        reflects(base, now, w),
    ensures
        #[trigger] reflects(base, now, thread_success(w, ctx, owner, thread, output)),
{
    broadcast use {reflects_command, reflects_settled};
}

broadcast proof fn reflects_thread_completion(
    base: StoreView,
    now: Timestamp,
    w: World,
    ctx: HandlerContext,
    cmd: CompleteThreadView,
)
    requires
        reflects(base, now, w),
    ensures
        #[trigger] reflects(base, now, thread_completion(w, ctx, cmd)),
{
    broadcast use {reflects_phase, reflects_thread_success, reflects_timers_swept};
    if let Ok(Some(row)) = w.store.thread(cmd.thread) {
        let opened = EventView::ThreadCompleting {
            thread: completing_thread(row.value, cmd.output, w.now),
        };
        lemma_timers_swept_stores_nothing(w.event(opened), row.active_children);
        if sound(base) {
            lemma_reflects_sound(base, now, w);
            lemma_apply_phases(w.store, opened, w.now);
        }
    }
}

broadcast proof fn reflects_deferred_finish(
    base: StoreView,
    now: Timestamp,
    w: World,
    ctx: HandlerContext,
    node: ObjectReferenceView,
    a: ActivityView,
)
    requires
        reflects(base, now, w),
    ensures
        #[trigger] reflects(base, now, deferred_finish(w, ctx, node, a).0),
{
    broadcast use {reflects_finished, reflects_terminate};
}

broadcast proof fn reflects_activity_finished(
    base: StoreView,
    now: Timestamp,
    w: World,
    ctx: HandlerContext,
    node: ObjectReferenceView,
)
    requires
        reflects(base, now, w),
    ensures
        #[trigger] reflects(base, now, activity_finished(w, ctx, node)),
{
    broadcast use {reflects_deferred_finish, reflects_event, reflects_settled};
}

broadcast proof fn reflects_handed_up(
    base: StoreView,
    now: Timestamp,
    w: World,
    ctx: HandlerContext,
    owner: Option<ObjectReferenceView>,
    node: ObjectReferenceView,
)
    requires
        reflects(base, now, w),
    ensures
        #[trigger] reflects(base, now, handed_up(w, ctx, owner, node)),
{
    broadcast use {reflects_settled};
}

broadcast proof fn reflects_thread_finished(
    base: StoreView,
    now: Timestamp,
    w: World,
    ctx: HandlerContext,
    node: ObjectReferenceView,
)
    requires
        reflects(base, now, w),
    ensures
        #[trigger] reflects(base, now, thread_finished(w, ctx, node)),
{
    broadcast use {reflects_phase, reflects_handed_up};
}

broadcast proof fn reflects_execution_finished(
    base: StoreView,
    now: Timestamp,
    w: World,
    ctx: HandlerContext,
    node: ObjectReferenceView,
)
    requires
        reflects(base, now, w),
    ensures
        #[trigger] reflects(base, now, execution_finished(w, ctx, node)),
{
    broadcast use {reflects_phase, reflects_handed_up};
}

broadcast proof fn reflects_node_finished(
    base: StoreView,
    now: Timestamp,
    w: World,
    ctx: HandlerContext,
    node: ObjectReferenceView,
)
    requires
        reflects(base, now, w),
    ensures
        #[trigger] reflects(base, now, node_finished(w, ctx, node)),
{
    broadcast use {
        reflects_activity_finished, reflects_execution_finished, reflects_thread_finished,
    };
}

broadcast proof fn reflects_machine_entered(
    base: StoreView,
    now: Timestamp,
    w: World,
    sm: StateMachine,
    execution: ObjectReferenceView,
    input: Json,
)
    requires
        reflects(base, now, w),
    ensures
        #[trigger] reflects(base, now, machine_entered(w, sm, execution, input)),
{
    broadcast use {reflects_command};
}

broadcast proof fn reflects_execution_started(
    base: StoreView,
    now: Timestamp,
    w: World,
    sm: StateMachine,
    execution: ObjectReferenceView,
    input: Json,
)
    requires
        reflects(base, now, w),
    ensures
        #[trigger] reflects(base, now, execution_started(w, sm, execution, input)),
{
    broadcast use {
        reflects_event, reflects_machine_entered, reflects_minted, reflects_terminate,
    };
}

broadcast proof fn reflects_execution_creation(
    base: StoreView,
    now: Timestamp,
    w: World,
    ctx: HandlerContext,
    cmd: CreateExecutionView,
)
    requires
        reflects(base, now, w),
    ensures
        #[trigger] reflects(base, now, execution_creation(w, ctx, cmd)),
{
    broadcast use {
        reflects_ack, reflects_phase, reflects_execution_started, reflects_minted, reflects_reject,
        reflects_terminate,
    };
}

broadcast proof fn reflects_flow_creation(
    base: StoreView,
    now: Timestamp,
    w: World,
    ctx: HandlerContext,
    cmd: CreateFlowView,
)
    requires
        reflects(base, now, w),
    ensures
        #[trigger] reflects(base, now, flow_creation(w, ctx, cmd)),
{
    broadcast use {reflects_ack, reflects_event, reflects_minted, reflects_reject};
}

broadcast proof fn reflects_dispatched(
    base: StoreView,
    now: Timestamp,
    w: World,
    ctx: HandlerContext,
    command: CommandView,
)
    requires
        reflects(base, now, w),
    ensures
        #[trigger] reflects(base, now, dispatched(w, ctx, command)),
{
    broadcast use {
        reflects_claim, reflects_event, reflects_execution_completion, reflects_execution_creation,
        reflects_execution_termination, reflects_flow_creation, reflects_lease_release,
        reflects_node_finished, reflects_reaction, reflects_state_activation,
        reflects_state_completion, reflects_state_termination, reflects_task_cancellation,
        reflects_task_completion, reflects_task_failure, reflects_thread_completion,
        reflects_thread_spawn, reflects_thread_termination, reflects_timer_cancellation,
        reflects_timer_trigger,
    };

    reveal(dispatched);
}

broadcast proof fn reflects_failure_unhandled(
    base: StoreView,
    now: Timestamp,
    w: World,
    activity: ObjectReferenceView,
    error: ExecutionErrorView,
)
    requires
        reflects(base, now, w),
    ensures
        #[trigger] reflects(base, now, failure_unhandled(w, activity, error)),
{
    broadcast use {reflects_failed_activity};
}

broadcast proof fn reflects_failure_routed(
    base: StoreView,
    now: Timestamp,
    w: World,
    ctx: HandlerContext,
    activity: ObjectReferenceView,
    error: ExecutionErrorView,
)
    requires
        reflects(base, now, w),
    ensures
        #[trigger] reflects(base, now, failure_routed(w, ctx, activity, error)),
{
    broadcast use {reflects_activity_completed, reflects_failure_unhandled};
}

broadcast proof fn reflects_task_failure(
    base: StoreView,
    now: Timestamp,
    w: World,
    ctx: HandlerContext,
    cmd: FailTaskView,
)
    requires
        reflects(base, now, w),
    ensures
        #[trigger] reflects(base, now, task_failure(w, ctx, cmd)),
{
    broadcast use {reflects_phase, reflects_failure_routed, reflects_timers_cancelled};
}

broadcast proof fn reflects_relayed(
    base: StoreView,
    now: Timestamp,
    w: World,
    owner: Option<ObjectReferenceView>,
    node: ObjectReferenceView,
)
    requires
        reflects(base, now, w),
    ensures
        #[trigger] reflects(base, now, relayed(w, owner, node)),
{
    broadcast use {reflects_command};
}

broadcast proof fn reflects_receipted(
    base: StoreView,
    now: Timestamp,
    w: World,
    owner: ObjectReferenceView,
    child: ObjectReferenceView,
)
    requires
        reflects(base, now, w),
    ensures
        #[trigger] reflects(base, now, receipted(w, owner, child)),
{
    broadcast use {reflects_event};
}

broadcast proof fn reflects_execution_reaction(
    base: StoreView,
    now: Timestamp,
    w: World,
    parent: ObjectReferenceView,
    child: ObjectReferenceView,
)
    requires
        reflects(base, now, w),
    ensures
        #[trigger] reflects(base, now, execution_reaction(w, parent, child)),
{
    broadcast use {reflects_phase, reflects_receipted, reflects_relayed};
}

broadcast proof fn reflects_thread_reaction(
    base: StoreView,
    now: Timestamp,
    w: World,
    parent: ObjectReferenceView,
    child: ObjectReferenceView,
)
    requires
        reflects(base, now, w),
    ensures
        #[trigger] reflects(base, now, thread_reaction(w, parent, child)),
{
    broadcast use {reflects_phase, reflects_receipted, reflects_relayed};
}

broadcast proof fn reflects_activity_reaction(
    base: StoreView,
    now: Timestamp,
    w: World,
    ctx: HandlerContext,
    parent: ObjectReferenceView,
    child: ObjectReferenceView,
)
    requires
        reflects(base, now, w),
    ensures
        #[trigger] reflects(base, now, activity_reaction(w, ctx, parent, child)),
{
    broadcast use {reflects_event, reflects_receipted, reflects_relayed, reflects_replenished};
}

broadcast proof fn reflects_reaction(
    base: StoreView,
    now: Timestamp,
    w: World,
    ctx: HandlerContext,
    parent: ObjectReferenceView,
    child: ObjectReferenceView,
)
    requires
        reflects(base, now, w),
    ensures
        #[trigger] reflects(base, now, reaction(w, ctx, parent, child)),
{
    broadcast use {
        reflects_activity_reaction, reflects_execution_reaction, reflects_receipted,
        reflects_thread_reaction,
    };
}

broadcast proof fn reflects_lease_release(
    base: StoreView,
    now: Timestamp,
    w: World,
    task: ObjectReferenceView,
)
    requires
        reflects(base, now, w),
    ensures
        #[trigger] reflects(base, now, lease_release(w, task)),
{
    broadcast use {reflects_phase};
}

broadcast proof fn reflects_text_asked(
    base: StoreView,
    now: Timestamp,
    w: World,
    env: EvalEnv,
    s: Seq<char>,
    states: StatesView,
    variables: Seq<MemberView>,
)
    requires
        reflects(base, now, w),
    ensures
        #[trigger] reflects(base, now, text_asked(w, env, s, states, variables)),
{
    broadcast use {reflects_asked};
}

broadcast proof fn reflects_json_asked(
    base: StoreView,
    now: Timestamp,
    w: World,
    env: EvalEnv,
    template: Json,
    states: StatesView,
    variables: Seq<MemberView>,
)
    requires
        reflects(base, now, w),
    ensures
        #[trigger] reflects(base, now, json_asked(w, env, template, states, variables)),
{
    broadcast use {reflects_asked};
}

broadcast proof fn reflects_after_assign(
    base: StoreView,
    now: Timestamp,
    w: World,
    env: EvalEnv,
    owner: ObjectReferenceView,
    assign: Option<AssignObject>,
    states: StatesView,
    variables: Seq<MemberView>,
)
    requires
        reflects(base, now, w),
    ensures
        #[trigger] reflects(base, now, after_assign(w, env, owner, assign, states, variables)),
{
    broadcast use {reflects_event, reflects_json_asked};
}

broadcast proof fn reflects_after_output(
    base: StoreView,
    now: Timestamp,
    w: World,
    env: EvalEnv,
    output: Option<Json>,
    states: StatesView,
    variables: Seq<MemberView>,
)
    requires
        reflects(base, now, w),
    ensures
        #[trigger] reflects(base, now, after_output(w, env, output, states, variables)),
{
    broadcast use {reflects_json_asked};
}

broadcast proof fn reflects_sweep_one(
    base: StoreView,
    now: Timestamp,
    w: World,
    child: ObjectReferenceView,
)
    requires
        reflects(base, now, w),
    ensures
        #[trigger] reflects(base, now, sweep_one(w, child)),
{
    broadcast use {reflects_phase};
}

broadcast proof fn reflects_sweep(
    base: StoreView,
    now: Timestamp,
    w: World,
    children: Seq<ObjectReferenceView>,
)
    requires
        reflects(base, now, w),
    ensures
        #[trigger] reflects(base, now, sweep(w, children)),
    decreases children.len(),
{
    broadcast use {reflects_sweep_one};

    if children.len() > 0 {
        reflects_sweep(base, now, w, children.drop_last());
    }
}

broadcast proof fn reflects_timers_cancelled(
    base: StoreView,
    now: Timestamp,
    w: World,
    activity: ObjectReferenceView,
)
    requires
        reflects(base, now, w),
    ensures
        #[trigger] reflects(base, now, timers_cancelled(w, activity)),
{
    broadcast use {reflects_sweep};
}

broadcast proof fn reflects_transition(
    base: StoreView,
    now: Timestamp,
    w: World,
    execution: ObjectReferenceView,
    owner: ObjectReferenceView,
    activity: ObjectReferenceView,
    path: Seq<Seq<char>>,
    output: Json,
    next: Option<Seq<char>>,
    end: Option<bool>,
)
    requires
        reflects(base, now, w),
    ensures
        #[trigger] reflects(
            base,
            now,
            transition(w, execution, owner, activity, path, output, next, end),
        ),
{
    broadcast use {reflects_command, reflects_hop, reflects_terminate};
}

broadcast proof fn reflects_hop(
    base: StoreView,
    now: Timestamp,
    w: World,
    execution: ObjectReferenceView,
    owner: ObjectReferenceView,
    activity: ObjectReferenceView,
    next: Seq<Seq<char>>,
    output: Json,
)
    requires
        reflects(base, now, w),
    ensures
        #[trigger] reflects(base, now, hop(w, execution, owner, activity, next, output)),
{
    broadcast use {reflects_command, reflects_event};
}

broadcast proof fn reflects_timer_armed(
    base: StoreView,
    now: Timestamp,
    w: World,
    execution: ObjectReferenceView,
    owner: ObjectReferenceView,
    purpose: TimerPurpose,
    deadline: Timestamp,
)
    requires
        reflects(base, now, w),
    ensures
        #[trigger] reflects(base, now, timer_armed(w, execution, owner, purpose, deadline)),
{
    broadcast use {reflects_drawn, reflects_event, reflects_minted};
}

broadcast proof fn reflects_activity_completed(
    base: StoreView,
    now: Timestamp,
    w: World,
    env: EvalEnv,
    activity: ObjectReferenceView,
    a: ActivityView,
    variables: Seq<MemberView>,
    assign: Option<AssignObject>,
    output: Option<Json>,
    next: Option<Seq<char>>,
    end: Option<bool>,
    retry_count: u32,
    error_output: Option<Json>,
)
    requires
        reflects(base, now, w),
    ensures
        #[trigger] reflects(
            base,
            now,
            activity_completed(
                w,
                env,
                activity,
                a,
                variables,
                assign,
                output,
                next,
                end,
                retry_count,
                error_output,
            ),
        ),
{
    broadcast use {
        reflects_after_assign, reflects_after_output, reflects_event, reflects_terminate,
        reflects_transition,
    };
}

broadcast proof fn reflects_thread_spawn(
    base: StoreView,
    now: Timestamp,
    w: World,
    cmd: SpawnThreadView,
)
    requires
        reflects(base, now, w),
    ensures
        #[trigger] reflects(base, now, thread_spawn(w, cmd)),
{
    broadcast use {reflects_command, reflects_drawn, reflects_event, reflects_minted};
}

broadcast proof fn reflects_processing_asked(
    base: StoreView,
    now: Timestamp,
    w: World,
    env: EvalEnv,
    state: State,
    a: ActivityView,
    variables: Seq<MemberView>,
    states: StatesView,
)
    requires
        reflects(base, now, w),
    ensures
        #[trigger] reflects(base, now, processing_asked(w, env, state, a, variables, states)),
{
    broadcast use {reflects_arguments_asked, reflects_map_plan_asked, reflects_wait_asked};
}

broadcast proof fn reflects_activation_followed(
    base: StoreView,
    now: Timestamp,
    w: World,
    env: EvalEnv,
    state: State,
    a: ActivityView,
    variables: Seq<MemberView>,
    states: StatesView,
)
    requires
        reflects(base, now, w),
    ensures
        #[trigger] reflects(
            base,
            now,
            activation_followed(w, env, state, a, variables, states).world,
        ),
{
    broadcast use {
        reflects_done, reflects_map_activated, reflects_parallel_activated,
        reflects_task_activated, reflects_wait_activated,
    };
}

broadcast proof fn reflects_finished(
    base: StoreView,
    now: Timestamp,
    w: World,
    env: EvalEnv,
    state: State,
    activity: ObjectReferenceView,
    a: ActivityView,
    variables: Seq<MemberView>,
)
    requires
        reflects(base, now, w),
    ensures
        #[trigger] reflects(base, now, finished(w, env, state, activity, a, variables).world),
{
    broadcast use {
        reflects_done, reflects_finish_choice, reflects_finish_fail, reflects_finish_stray,
        reflects_finish_success,
    };
}

broadcast proof fn reflects_child_reaction(
    base: StoreView,
    now: Timestamp,
    w: World,
    env: EvalEnv,
    state: State,
    activity: ObjectReferenceView,
    a: ActivityView,
    variables: Seq<MemberView>,
    child: ObjectReferenceView,
)
    requires
        reflects(base, now, w),
    ensures
        #[trigger] reflects(
            base,
            now,
            child_reaction(w, env, state, activity, a, variables, child),
        ),
{
    broadcast use {reflects_map_child_completed, reflects_parallel_child_completed};
}

broadcast proof fn reflects_children_disposed(
    base: StoreView,
    now: Timestamp,
    w: World,
    state: State,
    activity: ObjectReferenceView,
)
    requires
        reflects(base, now, w),
    ensures
        #[trigger] reflects(base, now, children_disposed(w, state, activity)),
{
    broadcast use {reflects_timers_cancelled};
}

broadcast proof fn reflects_activated(
    base: StoreView,
    now: Timestamp,
    w: World,
    env: EvalEnv,
    state: State,
    cmd: ActivateStateView,
)
    requires
        reflects(base, now, w),
    ensures
        #[trigger] reflects(base, now, activated(w, env, state, cmd)),
{
    broadcast use {reflects_drawn, reflects_entered, reflects_minted, reflects_terminate};
}

broadcast proof fn reflects_entered(
    base: StoreView,
    now: Timestamp,
    w: World,
    env: EvalEnv,
    state: State,
    cmd: ActivateStateView,
    born: ActivityView,
    variables: Seq<MemberView>,
)
    requires
        reflects(base, now, w),
    ensures
        #[trigger] reflects(base, now, entered(w, env, state, cmd, born, variables)),
{
    broadcast use {
        reflects_activation_followed, reflects_command, reflects_event, reflects_processing_asked,
        reflects_terminate,
    };
}

broadcast proof fn reflects_completed(
    base: StoreView,
    now: Timestamp,
    w: World,
    env: EvalEnv,
    state: State,
    cmd: CompleteStateView,
)
    requires
        reflects(base, now, w),
    ensures
        #[trigger] reflects(base, now, completed(w, env, state, cmd)),
{
    broadcast use {
        reflects_children_disposed, reflects_drained_finish, reflects_event, reflects_reject,
        reflects_terminate,
    };
}

broadcast proof fn reflects_drained_finish(
    base: StoreView,
    now: Timestamp,
    w: World,
    env: EvalEnv,
    state: State,
    activity: ObjectReferenceView,
    a: ActivityView,
)
    requires
        reflects(base, now, w),
    ensures
        #[trigger] reflects(base, now, drained_finish(w, env, state, activity, a)),
{
    broadcast use {reflects_finished, reflects_terminate};
}

broadcast proof fn reflects_rule_asked(
    base: StoreView,
    now: Timestamp,
    w: World,
    env: EvalEnv,
    condition: Option<ChoiceCondition>,
    states: StatesView,
    variables: Seq<MemberView>,
)
    requires
        reflects(base, now, w),
    ensures
        #[trigger] reflects(base, now, rule_asked(w, env, condition, states, variables)),
{
    broadcast use {reflects_asked};
}

broadcast proof fn reflects_scanned(
    base: StoreView,
    now: Timestamp,
    w: World,
    env: EvalEnv,
    rules: Seq<ChoiceRule>,
    states: StatesView,
    variables: Seq<MemberView>,
)
    requires
        reflects(base, now, w),
    ensures
        #[trigger] reflects(base, now, scanned(w, env, rules, states, variables)),
    decreases rules.len(),
{
    broadcast use {reflects_rule_asked};

    if rules.len() > 0 {
        let w1 = rule_asked(w, env, rules.first().condition, states, variables);
        reflects_scanned(base, now, w1, env, rules.drop_first(), states, variables);
    }
}

broadcast proof fn reflects_finish_choice(
    base: StoreView,
    now: Timestamp,
    w: World,
    env: EvalEnv,
    c: ChoiceState,
    activity: ObjectReferenceView,
    a: ActivityView,
    variables: Seq<MemberView>,
)
    requires
        reflects(base, now, w),
    ensures
        #[trigger] reflects(base, now, finish_choice(w, env, c, activity, a, variables).world),
{
    broadcast use {
        reflects_after_assign, reflects_after_output, reflects_done, reflects_event, reflects_hop,
        reflects_scanned, reflects_stopped,
    };
}

broadcast proof fn reflects_done(base: StoreView, now: Timestamp, w: World)
    requires
        reflects(base, now, w),
    ensures
        #[trigger] reflects(base, now, done(w).world),
{
}

broadcast proof fn reflects_stopped(
    base: StoreView,
    now: Timestamp,
    w: World,
    error: ExecutionErrorView,
)
    requires
        reflects(base, now, w),
    ensures
        #[trigger] reflects(base, now, stopped(w, error).world),
{
}

broadcast proof fn reflects_finish_success(
    base: StoreView,
    now: Timestamp,
    w: World,
    env: EvalEnv,
    activity: ObjectReferenceView,
    a: ActivityView,
    variables: Seq<MemberView>,
    assign: Option<AssignObject>,
    output: Option<Json>,
    next: Option<Seq<char>>,
    end: Option<bool>,
)
    requires
        reflects(base, now, w),
    ensures
        #[trigger] reflects(
            base,
            now,
            finish_success(w, env, activity, a, variables, assign, output, next, end).world,
        ),
{
    broadcast use {
        reflects_after_assign, reflects_after_output, reflects_done, reflects_event,
        reflects_stopped, reflects_transition,
    };
}

broadcast proof fn reflects_finish_container(
    base: StoreView,
    now: Timestamp,
    w: World,
    env: EvalEnv,
    activity: ObjectReferenceView,
    a: ActivityView,
    variables: Seq<MemberView>,
    assign: Option<AssignObject>,
    output: Option<Json>,
    next: Option<Seq<char>>,
    end: Option<bool>,
    aggregated: Json,
)
    requires
        reflects(base, now, w),
    ensures
        #[trigger] reflects(
            base,
            now,
            finish_container(w, env, activity, a, variables, assign, output, next, end, aggregated),
        ),
{
    broadcast use {
        reflects_after_assign, reflects_after_output, reflects_event, reflects_terminate,
        reflects_transition,
    };
}

broadcast proof fn reflects_fail_container(
    base: StoreView,
    now: Timestamp,
    w: World,
    a: ActivityView,
    reason: TerminationReasonView,
)
    requires
        reflects(base, now, w),
    ensures
        #[trigger] reflects(base, now, fail_container(w, a, reason)),
{
    broadcast use {reflects_command, reflects_scope_termination};
}

broadcast proof fn reflects_finish_stray(
    base: StoreView,
    now: Timestamp,
    w: World,
    activity: ObjectReferenceView,
    a: ActivityView,
)
    requires
        reflects(base, now, w),
    ensures
        #[trigger] reflects(base, now, finish_stray(w, activity, a)),
{
    broadcast use {reflects_event, reflects_transition};
}

broadcast proof fn reflects_optional_asked(
    base: StoreView,
    now: Timestamp,
    w: World,
    env: EvalEnv,
    s: Option<Seq<char>>,
    states: StatesView,
    variables: Seq<MemberView>,
)
    requires
        reflects(base, now, w),
    ensures
        #[trigger] reflects(base, now, optional_asked(w, env, s, states, variables)),
{
    broadcast use {reflects_text_asked};
}

broadcast proof fn reflects_failed_activity(
    base: StoreView,
    now: Timestamp,
    w: World,
    a: ActivityView,
    reason: TerminationReasonView,
)
    requires
        reflects(base, now, w),
    ensures
        #[trigger] reflects(base, now, failed_activity(w, a, reason)),
{
    broadcast use {reflects_event, reflects_scope_termination};
}

broadcast proof fn reflects_finish_fail(
    base: StoreView,
    now: Timestamp,
    w: World,
    env: EvalEnv,
    f: FailState,
    a: ActivityView,
    variables: Seq<MemberView>,
)
    requires
        reflects(base, now, w),
    ensures
        #[trigger] reflects(base, now, finish_fail(w, env, f, a, variables).world),
{
    broadcast use {
        reflects_done, reflects_failed_activity, reflects_optional_asked, reflects_stopped,
    };
}

broadcast proof fn reflects_map_items_asked(
    base: StoreView,
    now: Timestamp,
    w: World,
    env: EvalEnv,
    m: MapState,
    states: StatesView,
    variables: Seq<MemberView>,
)
    requires
        reflects(base, now, w),
    ensures
        #[trigger] reflects(base, now, map_items_asked(w, env, m, states, variables)),
{
    broadcast use {reflects_text_asked};
}

broadcast proof fn reflects_map_limit_asked(
    base: StoreView,
    now: Timestamp,
    w: World,
    env: EvalEnv,
    m: MapState,
    states: StatesView,
    variables: Seq<MemberView>,
)
    requires
        reflects(base, now, w),
    ensures
        #[trigger] reflects(base, now, map_limit_asked(w, env, m, states, variables)),
{
    broadcast use {reflects_text_asked};
}

broadcast proof fn reflects_map_plan_asked(
    base: StoreView,
    now: Timestamp,
    w: World,
    env: EvalEnv,
    m: MapState,
    a: ActivityView,
    states: StatesView,
    variables: Seq<MemberView>,
)
    requires
        reflects(base, now, w),
    ensures
        #[trigger] reflects(base, now, map_plan_asked(w, env, m, a, states, variables)),
{
    broadcast use {reflects_map_items_asked, reflects_map_limit_asked};
}

broadcast proof fn reflects_items_spawned(
    base: StoreView,
    now: Timestamp,
    w: World,
    owner: ObjectReferenceView,
    a: ActivityView,
    m: MapState,
    items: Seq<Json>,
    from: nat,
    count: nat,
)
    requires
        reflects(base, now, w),
    ensures
        #[trigger] reflects(base, now, items_spawned(w, owner, a, m, items, from, count)),
    decreases count,
{
    broadcast use {reflects_command};

    if count > 0 {
        reflects_items_spawned(base, now, w, owner, a, m, items, from, (count - 1) as nat);
    }
}

broadcast proof fn reflects_map_activated(
    base: StoreView,
    now: Timestamp,
    w: World,
    env: EvalEnv,
    m: MapState,
    a: ActivityView,
    variables: Seq<MemberView>,
)
    requires
        reflects(base, now, w),
    ensures
        #[trigger] reflects(base, now, map_activated(w, env, m, a, variables)),
{
    broadcast use {reflects_finish_map, reflects_items_spawned};
}

broadcast proof fn reflects_finish_map(
    base: StoreView,
    now: Timestamp,
    w: World,
    env: EvalEnv,
    m: MapState,
    activity: ObjectReferenceView,
    a: ActivityView,
    variables: Seq<MemberView>,
    aggregated: Json,
)
    requires
        reflects(base, now, w),
    ensures
        #[trigger] reflects(base, now, finish_map(w, env, m, activity, a, variables, aggregated)),
{
    broadcast use {reflects_finish_container};
}

broadcast proof fn reflects_map_child_completed(
    base: StoreView,
    now: Timestamp,
    w: World,
    env: EvalEnv,
    m: MapState,
    activity: ObjectReferenceView,
    a: ActivityView,
    variables: Seq<MemberView>,
    child: ObjectReferenceView,
)
    requires
        reflects(base, now, w),
    ensures
        #[trigger] reflects(
            base,
            now,
            map_child_completed(w, env, m, activity, a, variables, child),
        ),
{
    broadcast use {reflects_fail_container, reflects_finish_map, reflects_items_spawned};
}

broadcast proof fn reflects_arguments_asked(
    base: StoreView,
    now: Timestamp,
    w: World,
    env: EvalEnv,
    arguments: Option<Json>,
    states: StatesView,
    variables: Seq<MemberView>,
)
    requires
        reflects(base, now, w),
    ensures
        #[trigger] reflects(base, now, arguments_asked(w, env, arguments, states, variables)),
{
    broadcast use {reflects_json_asked};
}

broadcast proof fn reflects_branches_spawned(
    base: StoreView,
    now: Timestamp,
    w: World,
    a: ActivityView,
    branches: Seq<Branch>,
)
    requires
        reflects(base, now, w),
    ensures
        #[trigger] reflects(base, now, branches_spawned(w, a, branches)),
    decreases branches.len(),
{
    broadcast use {reflects_command};

    if branches.len() > 0 {
        reflects_branches_spawned(base, now, w, a, branches.drop_last());
    }
}

broadcast proof fn reflects_finish_parallel(
    base: StoreView,
    now: Timestamp,
    w: World,
    env: EvalEnv,
    p: ParallelState,
    activity: ObjectReferenceView,
    a: ActivityView,
    variables: Seq<MemberView>,
    aggregated: Json,
)
    requires
        reflects(base, now, w),
    ensures
        #[trigger] reflects(
            base,
            now,
            finish_parallel(w, env, p, activity, a, variables, aggregated),
        ),
{
    broadcast use {reflects_finish_container};
}

broadcast proof fn reflects_parallel_activated(
    base: StoreView,
    now: Timestamp,
    w: World,
    env: EvalEnv,
    p: ParallelState,
    a: ActivityView,
    variables: Seq<MemberView>,
)
    requires
        reflects(base, now, w),
    ensures
        #[trigger] reflects(base, now, parallel_activated(w, env, p, a, variables)),
{
    broadcast use {reflects_branches_spawned, reflects_finish_parallel};
}

broadcast proof fn reflects_parallel_child_completed(
    base: StoreView,
    now: Timestamp,
    w: World,
    env: EvalEnv,
    p: ParallelState,
    activity: ObjectReferenceView,
    a: ActivityView,
    variables: Seq<MemberView>,
)
    requires
        reflects(base, now, w),
    ensures
        #[trigger] reflects(base, now, parallel_child_completed(w, env, p, activity, a, variables)),
{
    broadcast use {reflects_fail_container, reflects_finish_parallel};
}

broadcast proof fn reflects_timeout_asked(
    base: StoreView,
    now: Timestamp,
    w: World,
    env: EvalEnv,
    timeout: Option<IntOrExpr>,
    states: StatesView,
    variables: Seq<MemberView>,
)
    requires
        reflects(base, now, w),
    ensures
        #[trigger] reflects(base, now, timeout_asked(w, env, timeout, states, variables)),
{
    broadcast use {reflects_text_asked};
}

broadcast proof fn reflects_task_activated(
    base: StoreView,
    now: Timestamp,
    w: World,
    env: EvalEnv,
    t: TaskState,
    a: ActivityView,
    variables: Seq<MemberView>,
    states: StatesView,
)
    requires
        reflects(base, now, w),
    ensures
        #[trigger] reflects(base, now, task_activated(w, env, t, a, variables, states).world),
{
    broadcast use {
        reflects_command, reflects_done, reflects_drawn, reflects_minted, reflects_stopped,
        reflects_timeout_asked, reflects_timer_armed,
    };
}

broadcast proof fn reflects_wait_asked(
    base: StoreView,
    now: Timestamp,
    w: World,
    env: EvalEnv,
    s: WaitState,
    states: StatesView,
    variables: Seq<MemberView>,
)
    requires
        reflects(base, now, w),
    ensures
        #[trigger] reflects(base, now, wait_asked(w, env, s, states, variables)),
{
    broadcast use {reflects_asked, reflects_text_asked};
}

broadcast proof fn reflects_wait_activated(
    base: StoreView,
    now: Timestamp,
    w: World,
    a: ActivityView,
)
    requires
        reflects(base, now, w),
    ensures
        #[trigger] reflects(base, now, wait_activated(w, a)),
{
    broadcast use {reflects_timer_armed};
}

broadcast proof fn reflects_execution_termination(
    base: StoreView,
    now: Timestamp,
    w: World,
    ctx: HandlerContext,
    cmd: TerminateExecutionView,
)
    requires
        reflects(base, now, w),
    ensures
        #[trigger] reflects(base, now, execution_termination(w, ctx, cmd)),
{
    broadcast use {reflects_phase, reflects_handed_up, reflects_reject, reflects_scope_swept};
    if let Ok(Some(row)) = w.store.execution(execution_probe(cmd)) {
        let opened = EventView::ExecutionTerminating {
            execution: terminating_execution(row.value, cmd.reason, w.now),
        };
        lemma_scope_swept_stores_nothing(w.event(opened), row.active_children, cmd.reason);
        if sound(base) {
            lemma_reflects_sound(base, now, w);
            lemma_apply_phases(w.store, opened, w.now);
        }
    }
}

broadcast proof fn reflects_activity_swept(
    base: StoreView,
    now: Timestamp,
    w: World,
    children: Seq<ObjectReferenceView>,
    reason: TerminationReasonView,
)
    requires
        reflects(base, now, w),
    ensures
        #[trigger] reflects(base, now, activity_swept(w, children, reason)),
    decreases children.len(),
{
    broadcast use {reflects_command};

    if children.len() > 0 {
        reflects_activity_swept(base, now, w, children.drop_last(), reason);
    }
}

broadcast proof fn reflects_state_termination(
    base: StoreView,
    now: Timestamp,
    w: World,
    ctx: HandlerContext,
    cmd: TerminateStateView,
)
    requires
        reflects(base, now, w),
    ensures
        #[trigger] reflects(base, now, state_termination(w, ctx, cmd)),
{
    broadcast use {reflects_activity_swept, reflects_event, reflects_settled};
}

broadcast proof fn reflects_scope_swept(
    base: StoreView,
    now: Timestamp,
    w: World,
    children: Seq<ObjectReferenceView>,
    reason: TerminationReasonView,
)
    requires
        reflects(base, now, w),
    ensures
        #[trigger] reflects(base, now, scope_swept(w, children, reason)),
    decreases children.len(),
{
    broadcast use {reflects_command};

    if children.len() > 0 {
        reflects_scope_swept(base, now, w, children.drop_last(), reason);
    }
}

broadcast proof fn reflects_run_terminated(
    base: StoreView,
    now: Timestamp,
    w: World,
    owner: Option<ObjectReferenceView>,
    reason: TerminationReasonView,
)
    requires
        reflects(base, now, w),
    ensures
        #[trigger] reflects(base, now, run_terminated(w, owner, reason)),
{
    broadcast use {reflects_command};
}

broadcast proof fn reflects_thread_termination(
    base: StoreView,
    now: Timestamp,
    w: World,
    ctx: HandlerContext,
    cmd: TerminateThreadView,
)
    requires
        reflects(base, now, w),
    ensures
        #[trigger] reflects(base, now, thread_termination(w, ctx, cmd)),
{
    broadcast use {
        reflects_phase, reflects_handed_up, reflects_run_terminated, reflects_scope_swept,
    };
    if let Ok(Some(ScopeRecordView::Thread(row))) = scope_of(w.store, cmd.thread) {
        let opened = EventView::ThreadTerminating {
            thread: terminating_thread(row.value, cmd.reason, w.now),
        };
        lemma_scope_swept_stores_nothing(
            run_terminated(w.event(opened), row.value.meta.owner, cmd.reason),
            row.active_children,
            cmd.reason,
        );
        if sound(base) {
            lemma_reflects_sound(base, now, w);
            lemma_apply_phases(w.store, opened, w.now);
        }
    }
}

broadcast proof fn reflects_expired(base: StoreView, now: Timestamp, w: World, t: TimerView)
    requires
        reflects(base, now, w),
    ensures
        #[trigger] reflects(base, now, expired(w, t)),
{
    broadcast use {reflects_command, reflects_scope_termination};
}

broadcast proof fn reflects_timer_trigger(
    base: StoreView,
    now: Timestamp,
    w: World,
    timer: ObjectReferenceView,
)
    requires
        reflects(base, now, w),
    ensures
        #[trigger] reflects(base, now, timer_trigger(w, timer)),
{
    broadcast use {reflects_phase, reflects_expired};
}

proof fn lemma_dispatch_reflects(
    s: StoreView,
    ctx: HandlerContext,
    command: CommandView,
    now: Timestamp,
    next_uid: u128,
)
    ensures
        reflects(s, now, dispatched(idle(s, now, next_uid), ctx, command)),
{
    let start = idle(s, now, next_uid);
    assert(reflects(s, now, start)) by {
        reveal(reflects);
    }
    reflects_dispatched(s, now, start, ctx, command);
}

/// What a command leaves in the store is the fold of the events that it emits, all of them recorded
/// at the instant of the dispatch. Replaying them gives the same rows. The counter of generated names
/// is replayed as far as the events store what it named: a number that was drawn for a task whose
/// activation is still a command is not.
pub proof fn law_store_is_the_fold_of_the_events(
    s: StoreView,
    ctx: HandlerContext,
    command: CommandView,
    now: Timestamp,
    next_uid: u128,
)
    ensures
        ({
            let w = dispatched(idle(s, now, next_uid), ctx, command);
            &&& w.now == now
            &&& alike(w.store, refolded(s, w.chain, now))
            &&& s.next_seq <= refolded(s, w.chain, now).next_seq <= w.store.next_seq
        }),
{
    lemma_dispatch_reflects(s, ctx, command, now, next_uid);
    reveal(reflects);
}

proof fn lemma_refolding_keeps_the_counter_ahead(
    s: StoreView,
    chain: Seq<EntryPayloadView>,
    now: Timestamp,
)
    requires
        ahead(s),
    ensures
        ahead(refolded(s, chain, now)),
    decreases chain.len(),
{
    if chain.len() > 0 {
        let before = refolded(s, chain.drop_last(), now);
        lemma_refolding_keeps_the_counter_ahead(s, chain.drop_last(), now);
        if let EntryPayloadView::Event(event) = chain.last() {
            law_folding_keeps_the_counter_ahead(before, event, now);
        }
    }
}

/// Running a command keeps the counter of generated names past the numbers of the stored names.
pub proof fn law_dispatch_keeps_the_counter_ahead(
    s: StoreView,
    ctx: HandlerContext,
    command: CommandView,
    now: Timestamp,
    next_uid: u128,
)
    requires
        ahead(s),
    ensures
        ahead(dispatched(idle(s, now, next_uid), ctx, command).store),
{
    let w = dispatched(idle(s, now, next_uid), ctx, command);
    let r = refolded(s, w.chain, now);
    law_store_is_the_fold_of_the_events(s, ctx, command, now, next_uid);
    lemma_refolding_keeps_the_counter_ahead(s, w.chain, now);
    assert forall|k: RowKey| #[trigger] w.store.rows.contains_key(k) implies r.rows.contains_key(
        k,
    ) by {}
}

/// No dispatch emits a marker: it is the log that ends a batch.
pub proof fn law_dispatch_emits_no_marker(
    s: StoreView,
    ctx: HandlerContext,
    command: CommandView,
    now: Timestamp,
    next_uid: u128,
)
    ensures
        unmarked(dispatched(idle(s, now, next_uid), ctx, command).chain),
{
    lemma_dispatch_reflects(s, ctx, command, now, next_uid);
    reveal(reflects);
}

/// A command that a dispatch emits can be dispatched in turn, whatever the store holds by then. A
/// reported failure must still be countable.
pub proof fn law_emitted_commands_are_dispatchable(
    s: StoreView,
    ctx: HandlerContext,
    command: CommandView,
    now: Timestamp,
    next_uid: u128,
    i: int,
    later: StoreView,
)
    requires
        0 <= i < dispatched(idle(s, now, next_uid), ctx, command).chain.len(),
    ensures
        dispatched(idle(s, now, next_uid), ctx, command).chain[i] matches EntryPayloadView::Command(
            emitted,
        ) ==> !(emitted is FailTask) ==> dispatchable(later, emitted),
{
    lemma_dispatch_reflects(s, ctx, command, now, next_uid);
    reveal(reflects);
}

/// Every event that a command emits keeps to the phases: an execution is born under a free name;
/// executions and threads open their finish while they run, and end as they have opened it; only an
/// armed timer fires or is cancelled; and a task is completed or put back while it is leased, and
/// fails before it has settled.
pub proof fn law_events_keep_to_the_phases(
    s: StoreView,
    ctx: HandlerContext,
    command: CommandView,
    now: Timestamp,
    next_uid: u128,
)
    requires
        sound(s),
    ensures
        all_orderly(s, dispatched(idle(s, now, next_uid), ctx, command).chain, now),
{
    lemma_dispatch_reflects(s, ctx, command, now, next_uid);
    reveal(reflects);
}

/// No thread is born under `name` in a chain.
pub open spec fn no_thread_born(chain: Seq<EntryPayloadView>, name: ObjectNameView) -> bool {
    forall|i: int|
        0 <= i < chain.len() ==> ((#[trigger] chain[i]) matches EntryPayloadView::Event(
            EventView::ThreadCreated { thread },
        ) ==> name_text(thread.meta.name) != name_text(name))
}

proof fn lemma_orderly_chain_leads_on(
    s: StoreView,
    chain: Seq<EntryPayloadView>,
    now: Timestamp,
    name: ObjectNameView,
)
    requires
        sound(s),
        all_orderly(s, chain, now),
    ensures
        sound(refolded(s, chain, now)),
        execution_status(s, name) matches Some(before) ==> (execution_status(
            refolded(s, chain, now),
            name,
        ) matches Some(after) && leads_to(before, after)),
        no_thread_born(chain, name) ==> (thread_status(s, name) matches Some(before) ==> (
        thread_status(refolded(s, chain, now), name) matches Some(after) && leads_to(
            before,
            after,
        ))),
    decreases chain.len(),
{
    if chain.len() > 0 {
        let init = chain.drop_last();
        let before = refolded(s, init, now);
        lemma_orderly_chain_leads_on(s, init, now, name);
        assert(no_thread_born(chain, name) ==> no_thread_born(init, name));
        assert(chain[chain.len() - 1] == chain.last());
        if let EntryPayloadView::Event(event) = chain.last() {
            lemma_apply_phases(before, event, now);
            let after = before.apply(event, now);
            assert(execution_status(after, name) == match execution_phase(event) {
                Some((moved, status)) if name_text(moved) == name_text(name) => Some(status),
                _ => execution_status(before, name),
            });
            assert(thread_status(after, name) == match thread_phase(event) {
                Some((moved, status)) if name_text(moved) == name_text(name) => Some(status),
                _ => thread_status(before, name),
            });
        }
    }
}

/// No command takes an execution back: one whose finish is open ends as it was opened, and one that
/// has ended stays as it ended.
pub proof fn law_executions_only_go_on(
    s: StoreView,
    ctx: HandlerContext,
    command: CommandView,
    now: Timestamp,
    next_uid: u128,
    name: ObjectNameView,
)
    requires
        sound(s),
    ensures
        execution_status(s, name) matches Some(before) ==> (execution_status(
            dispatched(idle(s, now, next_uid), ctx, command).store,
            name,
        ) matches Some(after) && leads_to(before, after)),
{
    let w = dispatched(idle(s, now, next_uid), ctx, command);
    law_events_keep_to_the_phases(s, ctx, command, now, next_uid);
    law_store_is_the_fold_of_the_events(s, ctx, command, now, next_uid);
    lemma_orderly_chain_leads_on(s, w.chain, now, name);
    assert(execution_status(refolded(s, w.chain, now), name) == execution_status(w.store, name));
}

/// No command takes a thread back, unless it gives another thread the same name: one whose finish is
/// open ends as it was opened, and one that has ended stays as it ended.
pub proof fn law_threads_only_go_on(
    s: StoreView,
    ctx: HandlerContext,
    command: CommandView,
    now: Timestamp,
    next_uid: u128,
    name: ObjectNameView,
)
    requires
        sound(s),
        no_thread_born(dispatched(idle(s, now, next_uid), ctx, command).chain, name),
    ensures
        thread_status(s, name) matches Some(before) ==> (thread_status(
            dispatched(idle(s, now, next_uid), ctx, command).store,
            name,
        ) matches Some(after) && leads_to(before, after)),
{
    let w = dispatched(idle(s, now, next_uid), ctx, command);
    law_events_keep_to_the_phases(s, ctx, command, now, next_uid);
    law_store_is_the_fold_of_the_events(s, ctx, command, now, next_uid);
    lemma_orderly_chain_leads_on(s, w.chain, now, name);
    assert(thread_status(refolded(s, w.chain, now), name) == thread_status(w.store, name));
}

} // verus!
