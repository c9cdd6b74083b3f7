//! Flows, executions and threads: created, completed and terminated; and what a settled child brings about.

use vstd::prelude::*;

use crate::asl::{State, StateMachine};
use crate::eval_env::EvalEnv;
use crate::handler::{machine_of, HandlerContext, World};
use crate::handlers::assign_task::claim;
use crate::handlers::cancel_task::task_cancellation;
use crate::handlers::cancel_timer::timer_cancellation;
use crate::handlers::child_completed::{continued, settled};
use crate::handlers::complete_execution::{timer_count, timers_swept};
use crate::handlers::complete_task::task_completion;
use crate::handlers::continue_::node_finished;
use crate::handlers::dispatch::dispatched;
use crate::handlers::fail_task::task_failure;
use crate::handlers::process_child_completed::reaction;
use crate::handlers::release_task_lease::lease_release;
use crate::handlers::resolve::scope_state;
use crate::handlers::state_handler::{child_reaction, finished};
use crate::handlers::states::map::map_child_completed;
use crate::handlers::states::parallel::parallel_child_completed;
use crate::handlers::terminate_state::{activity_pending, activity_swept};
use crate::handlers::terminate_thread::{run_terminated, scope_pending, scope_swept};
use crate::handlers::trigger_timer::timer_trigger;
use crate::id::{Timestamp, Uid};
use crate::laws::{changed, ends_activity, ends_scope, named_by, sent, told};
use crate::storage::activity::ActivityRecordView;
use crate::storage::execution::ExecutionRecordView;
use crate::storage::scope::ScopeRecordView;
use crate::storage::thread::ThreadRecordView;
use crate::types::activity::ActivityView;
use crate::types::command::{
    ActivateStateView, ActivateTaskView, ClaimTasksView, CommandView, CompleteExecutionView,
    CompleteStateView, CompleteTaskView, CompleteThreadView, CreateExecutionView, CreateFlowView,
    FailTaskView, SpawnThreadView, TerminateExecutionView, TerminateStateView, TerminateThreadView,
};
use crate::types::entry::EntryPayloadView;
use crate::types::error::{ExecutionErrorView, RuntimeErrorView};
use crate::types::event::{EventView, ExecutionCreatedView, FlowCreatedView, FlowVersionCreatedView};
use crate::types::execution::ExecutionView;
use crate::types::flow::{FlowStatus, FlowVersionView, FlowView};
use crate::types::meta::{
    reference_text, NameKey, ObjectKind, ObjectMetaView, ObjectNameView, ObjectReferenceView,
};
use crate::types::status::{LifecycleView, TerminationReasonView};
use crate::types::task::{RetryStateView, TaskStatus, TaskView};
use crate::types::thread::ThreadView;
use crate::value::{Json, MemberView};

verus! {

/// Each command of a task and of a timer reaches its own handler.
pub proof fn law_commands_reach_their_handlers(
    w: World,
    ctx: HandlerContext,
    claimed: ClaimTasksView,
    completed: CompleteTaskView,
    failed: FailTaskView,
    r: ObjectReferenceView,
    child: ObjectReferenceView,
)
    ensures
        dispatched(w, ctx, CommandView::ClaimTasks(claimed)) == claim(w, claimed),
        dispatched(w, ctx, CommandView::CompleteTask(completed)) == task_completion(w, completed),
        dispatched(w, ctx, CommandView::FailTask(failed)) == task_failure(w, ctx, failed),
        dispatched(w, ctx, CommandView::TriggerTimer { timer: r }) == timer_trigger(w, r),
        dispatched(w, ctx, CommandView::CancelTimer { timer: r }) == timer_cancellation(w, ctx, r),
        dispatched(w, ctx, CommandView::ReleaseTaskLease { task: r }) == lease_release(w, r),
        dispatched(w, ctx, CommandView::CancelTask { task: r }) == task_cancellation(w, ctx, r),
        dispatched(w, ctx, CommandView::ContinueComplete { owner: r }) == node_finished(w, ctx, r),
        dispatched(w, ctx, CommandView::ContinueTerminate { owner: r }) == node_finished(w, ctx, r),
        dispatched(w, ctx, CommandView::ProcessChildCompleted { owner: r, child }) == reaction(
            w,
            ctx,
            r,
            child,
        ),
{
    reveal(dispatched);
}

/// An invoked task is born pending, with what the command carries, free for the first worker that asks.
pub proof fn law_invoked_task_is_born(w: World, ctx: HandlerContext, cmd: ActivateTaskView)
    ensures
        dispatched(w, ctx, CommandView::ActivateTask(cmd)) == w.event(
            EventView::TaskActivated {
                task: TaskView {
                    meta: ObjectMetaView {
                        kind: ObjectKind::Task,
                        name: cmd.task.name,
                        uid: cmd.task.uid,
                        owner: Some(cmd.owner),
                        created_at: w.now,
                        updated_at: w.now,
                    },
                    execution: cmd.execution,
                    resource: cmd.resource,
                    arguments: cmd.arguments,
                    status: TaskStatus::Pending,
                    deadline: cmd.deadline,
                    worker_id: None,
                    lease_expires_at: None,
                    retry_plan: cmd.retry_plan,
                    retry_state: RetryStateView {
                        attempts: 0,
                        retrier_attempts: Seq::empty(),
                        next_available_at: None,
                    },
                },
            },
        ),
{
    reveal(dispatched);
}

/// The metadata of something born at the instant of `w`.
pub open spec fn fresh(
    kind: ObjectKind,
    name: ObjectNameView,
    uid: Uid,
    w: World,
    owner: Option<ObjectReferenceView>,
) -> ObjectMetaView {
    ObjectMetaView { kind, name, uid, owner, created_at: w.now, updated_at: w.now }
}

/// A flow is created with its first version, and the version answers the request; the flow points at it, and
/// it is named by the flow and its number.
pub proof fn law_flow_is_created(w: World, ctx: HandlerContext, cmd: CreateFlowView)
    requires
        ctx.definition_ok,
        !(w.store.flow((ObjectNameView { base: cmd.name, key: None })) matches Ok(Some(_))),
    ensures
        ({
            let after = dispatched(w, ctx, CommandView::CreateFlow(cmd));
            let meta = fresh(
                ObjectKind::Flow,
                ObjectNameView { base: cmd.name, key: None },
                Uid(w.next_uid),
                w,
                None,
            );
            let flow_version = FlowVersionView {
                meta: fresh(
                    ObjectKind::FlowVersion,
                    ObjectNameView { base: cmd.name, key: Some(NameKey::Number(1)) },
                    Uid(w.next_uid.wrapping_add(1)),
                    w,
                    Some(named_by(meta)),
                ),
                version: 1,
                definition: cmd.definition,
            };
            let flow = FlowView {
                meta,
                status: FlowStatus::Active,
                latest_flow_version: named_by(flow_version.meta),
            };
            let versioned = EventView::FlowVersionCreated(
                FlowVersionCreatedView { request_id: cmd.request_id, flow_version },
            );
            &&& after.chain == w.chain + seq![
                told(
                    EventView::FlowCreated(FlowCreatedView { request_id: cmd.request_id, flow }),
                ),
                told(versioned),
            ]
            &&& after.acks.len() == w.acks.len() + 1
            &&& after.acks.last().request_id == cmd.request_id
            &&& after.acks.last().event == versioned
        }),
{
    reveal(dispatched);
    let after = dispatched(w, ctx, CommandView::CreateFlow(cmd));
    assert(after.chain.take(w.chain.len() as int) =~= w.chain);
    assert(after.chain =~= w.chain + seq![
        after.chain[w.chain.len() as int],
        after.chain[w.chain.len() as int + 1],
    ]);
}

/// A flow that exists, and a definition that is no machine, are refused; nothing is stored.
pub proof fn law_flow_creation_is_refused(w: World, ctx: HandlerContext, cmd: CreateFlowView)
    requires
        !ctx.definition_ok || w.store.flow(
            (ObjectNameView { base: cmd.name, key: None }),
        ) matches Ok(Some(_)),
    ensures
        ({
            let after = dispatched(w, ctx, CommandView::CreateFlow(cmd));
            &&& after.store == w.store
            &&& after.acks == w.acks
            &&& after.chain.len() == w.chain.len() + 1
            &&& after.chain.last() matches EntryPayloadView::Reject(reject) && {
                &&& reject.request_id == cmd.request_id
                &&& if ctx.definition_ok {
                    reject.rejection_type is AlreadyExists
                } else {
                    reject.rejection_type is InvalidArgument
                }
            }
        }),
{
    reveal(dispatched);
}

/// The execution that a command creates.
pub open spec fn created(w: World, cmd: CreateExecutionView) -> ExecutionView {
    ExecutionView {
        meta: fresh(ObjectKind::Execution, cmd.name, Uid(w.next_uid), w, None),
        flow_version: cmd.flow_version,
        status: LifecycleView::Running,
        input: cmd.input,
        output: None,
    }
}

/// The command that enters the first state of a machine with the input of the execution.
pub open spec fn starts(execution: ObjectReferenceView, sm: StateMachine, input: Json) -> EntryPayloadView {
    sent(
        CommandView::ActivateState(
            ActivateStateView {
                execution,
                owner: execution,
                state_path: seq!["States"@, sm.start_at@],
                input,
            },
        ),
    )
}

/// A new execution is told, which answers the request, and its machine is entered at the state that it
/// starts at, with the input. A positive timeout arms a timer of the execution, so many seconds from now,
/// in between.
pub proof fn law_execution_is_created(
    w: World,
    ctx: HandlerContext,
    cmd: CreateExecutionView,
    probe: ObjectReferenceView,
    sm: StateMachine,
)
    requires
        probe.name == cmd.name,
        !(w.store.execution(probe) matches Ok(Some(_))),
        machine_of(ctx, cmd.flow_version) == Ok::<_, ExecutionErrorView>(sm),
        sm.timeout_seconds matches Some(n) ==> n > 0 ==> cmd.name.key is None && w.now.0 + n * 1000
            <= i64::MAX,
    ensures
        ({
            let after = dispatched(w, ctx, CommandView::CreateExecution(cmd));
            let x = created(w, cmd);
            let id = named_by(x.meta);
            let born = EventView::ExecutionCreated(
                ExecutionCreatedView { request_id: cmd.request_id, execution: x },
            );
            let at = w.chain.len() as int;
            &&& after.acks.len() == w.acks.len() + 1
            &&& after.acks.last().request_id == cmd.request_id
            &&& after.acks.last().event == born
            &&& if sm.timeout_seconds matches Some(n) && n > 0 {
                &&& after.chain.len() == at + 3
                &&& after.chain.take(at) == w.chain
                &&& after.chain[at] == told(born)
                &&& after.chain[at + 1] matches EntryPayloadView::Event(
                    EventView::TimerActivated { timer },
                ) && {
                    &&& timer.meta.kind is Timer
                    &&& timer.meta.owner == Some(id)
                    &&& timer.meta.name.base == cmd.name.base
                    &&& timer.meta.name.key is Some
                    &&& timer.execution == id
                    &&& timer.purpose is ExecutionTimeout
                    &&& timer.status is Active
                    &&& timer.deadline.0 == w.now.0 + sm.timeout_seconds->0 * 1000
                }
                &&& after.chain[at + 2] == starts(id, sm, cmd.input)
            } else {
                after.chain == w.chain + seq![told(born), starts(id, sm, cmd.input)]
            }
        }),
{
    reveal(dispatched);
    let after = dispatched(w, ctx, CommandView::CreateExecution(cmd));
    let at = w.chain.len() as int;
    assert(after.chain.take(at) =~= w.chain);
    let x = created(w, cmd);
    let born = EventView::ExecutionCreated(
        ExecutionCreatedView { request_id: cmd.request_id, execution: x },
    );
    if !(sm.timeout_seconds matches Some(n) && n > 0) {
        assert(after.chain =~= w.chain + seq![
            told(born),
            starts(named_by(x.meta), sm, cmd.input),
        ]);
    }
}

/// A deadline that cannot be represented, and a name that no child name can be derived from, end an execution
/// with a timeout right after it is born; its machine is not entered.
pub proof fn law_execution_without_a_timer_is_ended(
    w: World,
    ctx: HandlerContext,
    cmd: CreateExecutionView,
    probe: ObjectReferenceView,
    sm: StateMachine,
    n: i64,
)
    requires
        probe.name == cmd.name,
        !(w.store.execution(probe) matches Ok(Some(_))),
        machine_of(ctx, cmd.flow_version) == Ok::<_, ExecutionErrorView>(sm),
        sm.timeout_seconds == Some(n),
        n > 0,
        w.now.0 + n * 1000 > i64::MAX || cmd.name.key is Some,
    ensures
        ({
            let after = dispatched(w, ctx, CommandView::CreateExecution(cmd));
            let x = created(w, cmd);
            let born = EventView::ExecutionCreated(
                ExecutionCreatedView { request_id: cmd.request_id, execution: x },
            );
            after.chain == w.chain + seq![told(born)] + ends_scope(
                named_by(x.meta),
                TerminationReasonView::Failed {
                    error: ExecutionErrorView::Runtime(
                        RuntimeErrorView::InvalidDefinition(
                            if w.now.0 + n * 1000 > i64::MAX {
                                "TimeoutSeconds overflows the absolute deadline"@
                            } else {
                                "cannot derive a child name: execution name is not a plain user name"@
                            },
                        ),
                    ),
                },
            )
        }),
{
    reveal(dispatched);
    let after = dispatched(w, ctx, CommandView::CreateExecution(cmd));
    let at = w.chain.len() as int;
    assert(after.chain =~= w.chain + seq![after.chain[at]] + seq![after.chain[at + 1]]);
}

/// A name that is taken is refused, and nothing is stored; a version whose machine cannot be found
/// terminates the execution before it is born.
pub proof fn law_execution_creation_fails(
    w: World,
    ctx: HandlerContext,
    cmd: CreateExecutionView,
    probe: ObjectReferenceView,
    error: ExecutionErrorView,
)
    requires
        probe.name == cmd.name,
    ensures
        ({
            let after = dispatched(w, ctx, CommandView::CreateExecution(cmd));
            &&& w.store.execution(probe) matches Ok(Some(_)) ==> {
                &&& after.store == w.store
                &&& after.acks == w.acks
                &&& after.chain.len() == w.chain.len() + 1
                &&& after.chain.last() matches EntryPayloadView::Reject(reject)
                    && reject.rejection_type is AlreadyExists && reject.request_id
                    == cmd.request_id
            }
            &&& !(w.store.execution(probe) matches Ok(Some(_))) && machine_of(ctx, cmd.flow_version)
                == Err::<StateMachine, _>(error) ==> {
                &&& after.chain == w.chain + ends_scope(
                    named_by(created(w, cmd).meta),
                    TerminationReasonView::Failed { error },
                )
                &&& after.store == w.store
                &&& after.acks == w.acks
            }
        }),
{
    reveal(dispatched);
    let after = dispatched(w, ctx, CommandView::CreateExecution(cmd));
    if !(w.store.execution(probe) matches Ok(Some(_))) && machine_of(ctx, cmd.flow_version)
        == Err::<StateMachine, _>(error) {
        assert(after.chain =~= w.chain + ends_scope(
            named_by(created(w, cmd).meta),
            TerminationReasonView::Failed { error },
        ));
    }
}

/// A thread is spawned for a container that runs: it is born under the container with the index, the table,
/// the first state and the input that the command names, and that state is entered by it with that input.
pub proof fn law_thread_is_spawned(
    w: World,
    ctx: HandlerContext,
    cmd: SpawnThreadView,
    row: ActivityRecordView,
    parent: ObjectReferenceView,
    scope: ThreadRecordView,
    table: Seq<Seq<char>>,
)
    requires
        cmd.owner.kind is Activity,
        w.store.activity(cmd.owner) == Ok::<_, ExecutionErrorView>(Some(row)),
        row.value.status is Running,
        row.value.meta.owner == Some(parent),
        parent.kind is Thread,
        w.store.thread(parent) == Ok::<_, ExecutionErrorView>(Some(scope)),
        cmd.state_path == Some(table),
    ensures
        ({
            let after = dispatched(w, ctx, CommandView::SpawnThread(cmd));
            let thread = ThreadView {
                meta: fresh(
                    ObjectKind::Thread,
                    ObjectNameView {
                        base: cmd.execution.name.base,
                        key: Some(NameKey::Number(w.store.next_seq)),
                    },
                    Uid(w.next_uid),
                    w,
                    Some(cmd.owner),
                ),
                execution: cmd.execution,
                state_path: table,
                start_at: cmd.start_at,
                index: cmd.index,
                status: LifecycleView::Running,
                input: cmd.input,
                output: None,
            };
            after.chain == w.chain + seq![
                told(EventView::ThreadCreated { thread }),
                sent(
                    CommandView::ActivateState(
                        ActivateStateView {
                            execution: scope.value.execution,
                            owner: named_by(thread.meta),
                            state_path: table.push(cmd.start_at),
                            input: cmd.input,
                        },
                    ),
                ),
            ]
        }),
{
    reveal(dispatched);
    let after = dispatched(w, ctx, CommandView::SpawnThread(cmd));
    assert(after.chain =~= w.chain + seq![
        after.chain[w.chain.len() as int],
        after.chain[w.chain.len() as int + 1],
    ]);
}

/// A container that does not run anymore, or is gone, gets no thread.
pub proof fn law_stopped_container_gets_no_thread(
    w: World,
    ctx: HandlerContext,
    cmd: SpawnThreadView,
)
    requires
        !(w.store.activity(cmd.owner) matches Ok(Some(row)) && row.value.status is Running),
    ensures
        dispatched(w, ctx, CommandView::SpawnThread(cmd)) == w,
{
    reveal(dispatched);
}

/// The timers among children, in their order.
pub open spec fn timers_of(children: Seq<ObjectReferenceView>) -> Seq<ObjectReferenceView> {
    children.filter(|c: ObjectReferenceView| c.kind is Timer)
}

/// The cancellation of each timer among children, in their order.
pub open spec fn timers_stopped(children: Seq<ObjectReferenceView>) -> Seq<EntryPayloadView> {
    timers_of(children).map_values(
        |c: ObjectReferenceView| sent(CommandView::CancelTimer { timer: c }),
    )
}

proof fn lemma_timers_swept(w: World, children: Seq<ObjectReferenceView>)
    ensures
        ({
            let after = timers_swept(w, children);
            &&& after == (World { chain: w.chain + timers_stopped(children), ..w })
            &&& timer_count(children) == timers_of(children).len()
        }),
    decreases children.len(),
{
    reveal(Seq::filter);
    if children.len() > 0 {
        lemma_timers_swept(w, children.drop_last());
    }
    assert(timers_swept(w, children).chain =~= w.chain + timers_stopped(children));
}

/// The thread as it completes with `output`.
pub open spec fn thread_with(x: ThreadView, status: LifecycleView, output: Json, now: Timestamp) -> ThreadView {
    ThreadView { meta: changed(x.meta, now), status, output: Some(output), ..x }
}

/// A thread that completes keeps its output and has its timers cancelled. With none of them it has completed
/// at once: the thread of an execution hands its output to the execution, any other is settled with its
/// owner.
pub proof fn law_thread_completes(
    w: World,
    ctx: HandlerContext,
    cmd: CompleteThreadView,
    row: ThreadRecordView,
)
    requires
        w.store.thread(cmd.thread) == Ok::<_, ExecutionErrorView>(Some(row)),
        row.value.status is Running,
    ensures
        ({
            let after = dispatched(w, ctx, CommandView::CompleteThread(cmd));
            let w1 = w.event(
                EventView::ThreadCompleting {
                    thread: thread_with(row.value, LifecycleView::Completing, cmd.output, w.now),
                },
            );
            let w2 = w1.event(
                EventView::ThreadCompleted {
                    thread: thread_with(row.value, LifecycleView::Completed, cmd.output, w.now),
                },
            );
            if timers_of(row.active_children).len() > 0 {
                &&& after.chain == w1.chain + timers_stopped(row.active_children)
                &&& after.store == w1.store
            } else {
                match row.value.meta.owner {
                    Some(owner) => if owner.kind is Execution {
                        &&& after.chain == w2.chain.push(
                            sent(
                                CommandView::CompleteExecution(
                                    CompleteExecutionView { execution: owner, output: cmd.output },
                                ),
                            ),
                        )
                        &&& after.store == w2.store
                    } else {
                        after == settled(w2, ctx, owner, named_by(row.value.meta))
                    },
                    None => after == w2,
                }
            }
        }),
{
    reveal(dispatched);
    let w1 = w.event(
        EventView::ThreadCompleting {
            thread: thread_with(row.value, LifecycleView::Completing, cmd.output, w.now),
        },
    );
    lemma_timers_swept(w1, row.active_children);
    if timers_of(row.active_children).len() == 0 {
        assert(w1.chain + timers_stopped(row.active_children) =~= w1.chain);
        assert(timers_swept(w1, row.active_children) == w1);
    }
}

/// The execution as it completes with `output`.
pub open spec fn execution_with(
    x: ExecutionView,
    status: LifecycleView,
    output: Json,
    now: Timestamp,
) -> ExecutionView {
    ExecutionView { meta: changed(x.meta, now), status, output: Some(output), ..x }
}

/// An execution that completes keeps its output and has its timers cancelled; with none of them it has
/// completed at once.
pub proof fn law_execution_completes(
    w: World,
    ctx: HandlerContext,
    cmd: CompleteExecutionView,
    row: ExecutionRecordView,
)
    requires
        w.store.execution(cmd.execution) == Ok::<_, ExecutionErrorView>(Some(row)),
        row.value.status is Running,
    ensures
        ({
            let after = dispatched(w, ctx, CommandView::CompleteExecution(cmd));
            let w1 = w.event(
                EventView::ExecutionCompleting {
                    execution: execution_with(
                        row.value,
                        LifecycleView::Completing,
                        cmd.output,
                        w.now,
                    ),
                },
            );
            if timers_of(row.active_children).len() > 0 {
                &&& after.chain == w1.chain + timers_stopped(row.active_children)
                &&& after.store == w1.store
            } else {
                after == w1.event(
                    EventView::ExecutionCompleted {
                        execution: execution_with(
                            row.value,
                            LifecycleView::Completed,
                            cmd.output,
                            w.now,
                        ),
                    },
                )
            }
        }),
{
    reveal(dispatched);
    let w1 = w.event(
        EventView::ExecutionCompleting {
            execution: execution_with(row.value, LifecycleView::Completing, cmd.output, w.now),
        },
    );
    lemma_timers_swept(w1, row.active_children);
    if timers_of(row.active_children).len() == 0 {
        assert(w1.chain + timers_stopped(row.active_children) =~= w1.chain);
        assert(timers_swept(w1, row.active_children) == w1);
    }
}

/// What stops a child of a scope: a timer is cancelled, an activity and a thread are terminated.
pub open spec fn scope_child_stop(
    c: ObjectReferenceView,
    reason: TerminationReasonView,
) -> EntryPayloadView {
    if c.kind is Timer {
        sent(CommandView::CancelTimer { timer: c })
    } else if c.kind is Activity {
        sent(CommandView::TerminateState(TerminateStateView { activity: c, reason }))
    } else {
        sent(CommandView::TerminateThread(TerminateThreadView { thread: c, reason }))
    }
}

/// The children of a scope that have to stop before it has terminated.
pub open spec fn scope_children(children: Seq<ObjectReferenceView>) -> Seq<ObjectReferenceView> {
    children.filter(
        |c: ObjectReferenceView| c.kind is Timer || c.kind is Activity || c.kind is Thread,
    )
}

/// What stops each of them, in their order.
pub open spec fn scope_stops(
    children: Seq<ObjectReferenceView>,
    reason: TerminationReasonView,
) -> Seq<EntryPayloadView> {
    scope_children(children).map_values(|c: ObjectReferenceView| scope_child_stop(c, reason))
}

proof fn lemma_scope_swept(
    w: World,
    children: Seq<ObjectReferenceView>,
    reason: TerminationReasonView,
)
    ensures
        scope_swept(w, children, reason) == (World {
            chain: w.chain + scope_stops(children, reason),
            ..w
        }),
        scope_pending(children) == scope_children(children).len(),
    decreases children.len(),
{
    reveal(Seq::filter);
    if children.len() > 0 {
        lemma_scope_swept(w, children.drop_last(), reason);
    }
    assert(scope_swept(w, children, reason).chain =~= w.chain + scope_stops(children, reason));
}

/// What stops a child of an activity: a timer and a task are cancelled, a thread and an execution are
/// terminated.
pub open spec fn activity_child_stop(
    c: ObjectReferenceView,
    reason: TerminationReasonView,
) -> EntryPayloadView {
    if c.kind is Timer {
        sent(CommandView::CancelTimer { timer: c })
    } else if c.kind is Task {
        sent(CommandView::CancelTask { task: c })
    } else if c.kind is Thread {
        sent(CommandView::TerminateThread(TerminateThreadView { thread: c, reason }))
    } else {
        sent(
            CommandView::TerminateExecution(
                TerminateExecutionView { name: c.name, uid: Some(c.uid), reason },
            ),
        )
    }
}

/// The children of an activity that have to stop before it has terminated.
pub open spec fn activity_children(children: Seq<ObjectReferenceView>) -> Seq<ObjectReferenceView> {
    children.filter(
        |c: ObjectReferenceView|
            c.kind is Timer || c.kind is Task || c.kind is Thread || c.kind is Execution,
    )
}

/// What stops each of them, in their order.
pub open spec fn activity_stops(
    children: Seq<ObjectReferenceView>,
    reason: TerminationReasonView,
) -> Seq<EntryPayloadView> {
    activity_children(children).map_values(|c: ObjectReferenceView| activity_child_stop(c, reason))
}

proof fn lemma_activity_swept(
    w: World,
    children: Seq<ObjectReferenceView>,
    reason: TerminationReasonView,
)
    ensures
        activity_swept(w, children, reason) == (World {
            chain: w.chain + activity_stops(children, reason),
            ..w
        }),
        activity_pending(children) == activity_children(children).len(),
    decreases children.len(),
{
    reveal(Seq::filter);
    if children.len() > 0 {
        lemma_activity_swept(w, children.drop_last(), reason);
    }
    assert(activity_swept(w, children, reason).chain =~= w.chain + activity_stops(
        children,
        reason,
    ));
}

/// Terminating an execution that runs tells it and stops every child, for the same reason; without children
/// to stop it has terminated at once.
pub proof fn law_execution_is_terminated(
    w: World,
    ctx: HandlerContext,
    cmd: TerminateExecutionView,
    probe: ObjectReferenceView,
    row: ExecutionRecordView,
)
    requires
        probe.name == cmd.name,
        w.store.execution(probe) == Ok::<_, ExecutionErrorView>(Some(row)),
        row.value.status is Running,
        row.value.meta.owner is None,
        cmd.uid is None || cmd.uid == Some(row.value.meta.uid),
    ensures
        ({
            let after = dispatched(w, ctx, CommandView::TerminateExecution(cmd));
            let w1 = w.event(
                EventView::ExecutionTerminating {
                    execution: ExecutionView {
                        meta: changed(row.value.meta, w.now),
                        status: LifecycleView::Terminating(cmd.reason),
                        ..row.value
                    },
                },
            );
            if scope_children(row.active_children).len() > 0 {
                &&& after.chain == w1.chain + scope_stops(row.active_children, cmd.reason)
                &&& after.store == w1.store
            } else {
                after == w1.event(
                    EventView::ExecutionTerminated {
                        execution: ExecutionView {
                            meta: changed(row.value.meta, w.now),
                            status: LifecycleView::Terminated(cmd.reason),
                            ..row.value
                        },
                    },
                )
            }
        }),
{
    reveal(dispatched);
    let w1 = w.event(
        EventView::ExecutionTerminating {
            execution: ExecutionView {
                meta: changed(row.value.meta, w.now),
                status: LifecycleView::Terminating(cmd.reason),
                ..row.value
            },
        },
    );
    lemma_scope_swept(w1, row.active_children, cmd.reason);
    if scope_children(row.active_children).len() == 0 {
        assert(w1.chain + scope_stops(row.active_children, cmd.reason) =~= w1.chain);
        assert(scope_swept(w1, row.active_children, cmd.reason) == w1);
    }
}

/// A termination is refused when the execution is not there, is another incarnation than the one named, or
/// does not run.
pub proof fn law_termination_is_refused(
    w: World,
    ctx: HandlerContext,
    cmd: TerminateExecutionView,
    probe: ObjectReferenceView,
)
    requires
        probe.name == cmd.name,
        w.store.fault is None,
        !(w.store.execution(probe) matches Ok(Some(row)) && row.value.status is Running && (
        cmd.uid is None || cmd.uid == Some(row.value.meta.uid))),
    ensures
        ({
            let after = dispatched(w, ctx, CommandView::TerminateExecution(cmd));
            &&& after.store == w.store
            &&& after.chain.len() == w.chain.len() + 1
            &&& after.chain.last() matches EntryPayloadView::Reject(reject) && match w.store.execution(
                probe,
            ) {
                Ok(Some(row)) => if cmd.uid is Some && cmd.uid != Some(row.value.meta.uid) {
                    reject.rejection_type is StateConflict
                } else {
                    reject.rejection_type is InvalidState
                },
                _ => reject.rejection_type is NotFound,
            }
        }),
{
    reveal(dispatched);
}

/// Terminating a thread that runs tells it, takes the execution with it when the thread is its own and it
/// still runs, and stops every child; without children to stop it has terminated at once.
pub proof fn law_thread_is_terminated(
    w: World,
    ctx: HandlerContext,
    cmd: TerminateThreadView,
    row: ThreadRecordView,
    owner: ObjectReferenceView,
)
    requires
        cmd.thread.kind is Thread,
        w.store.thread(cmd.thread) == Ok::<_, ExecutionErrorView>(Some(row)),
        row.value.status is Running,
        row.value.meta.owner == Some(owner),
    ensures
        ({
            let after = dispatched(w, ctx, CommandView::TerminateThread(cmd));
            let w1 = w.event(
                EventView::ThreadTerminating {
                    thread: ThreadView {
                        meta: changed(row.value.meta, w.now),
                        status: LifecycleView::Terminating(cmd.reason),
                        ..row.value
                    },
                },
            );
            let run = if owner.kind is Execution && (w1.store.execution(owner) matches Ok(Some(x))
                && x.value.status is Running) {
                seq![
                    sent(
                        CommandView::TerminateExecution(
                            TerminateExecutionView {
                                name: owner.name,
                                uid: Some(owner.uid),
                                reason: cmd.reason,
                            },
                        ),
                    ),
                ]
            } else {
                Seq::empty()
            };
            let w2 = World {
                chain: w1.chain + run + scope_stops(row.active_children, cmd.reason),
                ..w1
            };
            if scope_children(row.active_children).len() > 0 {
                after == w2
            } else {
                after == settled(
                    w2.event(
                        EventView::ThreadTerminated {
                            thread: ThreadView {
                                meta: changed(row.value.meta, w.now),
                                status: LifecycleView::Terminated(cmd.reason),
                                ..row.value
                            },
                        },
                    ),
                    ctx,
                    owner,
                    named_by(row.value.meta),
                )
            }
        }),
{
    reveal(dispatched);
    let w1 = w.event(
        EventView::ThreadTerminating {
            thread: ThreadView {
                meta: changed(row.value.meta, w.now),
                status: LifecycleView::Terminating(cmd.reason),
                ..row.value
            },
        },
    );
    let run = if owner.kind is Execution && (w1.store.execution(owner) matches Ok(Some(x))
        && x.value.status is Running) {
        seq![
            sent(
                CommandView::TerminateExecution(
                    TerminateExecutionView {
                        name: owner.name,
                        uid: Some(owner.uid),
                        reason: cmd.reason,
                    },
                ),
            ),
        ]
    } else {
        Seq::empty()
    };
    let wr = run_terminated(w1, Some(owner), cmd.reason);
    assert(wr.chain =~= w1.chain + run);
    assert(wr == (World { chain: w1.chain + run, ..w1 }));
    lemma_scope_swept(wr, row.active_children, cmd.reason);
}

/// Terminating an activity that has not ended tells it and stops every child, for the same reason; without
/// children to stop it has terminated at once, and its owner hears of it.
pub proof fn law_activity_is_terminated(
    w: World,
    ctx: HandlerContext,
    cmd: TerminateStateView,
    row: ActivityRecordView,
    owner: ObjectReferenceView,
)
    requires
        w.store.activity(cmd.activity) == Ok::<_, ExecutionErrorView>(Some(row)),
        row.value.status is Running || row.value.status is Completing,
        row.value.meta.owner == Some(owner),
    ensures
        ({
            let after = dispatched(w, ctx, CommandView::TerminateState(cmd));
            let w1 = w.event(
                EventView::StateTerminating {
                    activity: ActivityView {
                        status: LifecycleView::Terminating(cmd.reason),
                        ..row.value
                    },
                },
            );
            if activity_children(row.active_children).len() > 0 {
                &&& after.chain == w1.chain + activity_stops(row.active_children, cmd.reason)
                &&& after.store == w1.store
            } else {
                after == settled(
                    w1.event(
                        EventView::StateTerminated {
                            activity: ActivityView {
                                status: LifecycleView::Terminated(cmd.reason),
                                ..row.value
                            },
                        },
                    ),
                    ctx,
                    owner,
                    cmd.activity,
                )
            }
        }),
{
    reveal(dispatched);
    let w1 = w.event(
        EventView::StateTerminating {
            activity: ActivityView {
                status: LifecycleView::Terminating(cmd.reason),
                ..row.value
            },
        },
    );
    lemma_activity_swept(w1, row.active_children, cmd.reason);
    if activity_children(row.active_children).len() == 0 {
        assert(w1.chain + activity_stops(row.active_children, cmd.reason) =~= w1.chain);
        assert(activity_swept(w1, row.active_children, cmd.reason) == w1);
    }
}

/// An activity that is gone, has completed or is being terminated is not terminated again; one that was
/// terminated is told so once more, for the reason that it had, and its owner hears of it.
pub proof fn law_ended_activity_is_not_terminated_again(
    w: World,
    ctx: HandlerContext,
    cmd: TerminateStateView,
    row: ActivityRecordView,
    owner: ObjectReferenceView,
    reason: TerminationReasonView,
)
    ensures
        ({
            let after = dispatched(w, ctx, CommandView::TerminateState(cmd));
            &&& !(w.store.activity(cmd.activity) matches Ok(Some(_))) ==> after == w
            &&& w.store.activity(cmd.activity) == Ok::<_, ExecutionErrorView>(Some(row)) ==> {
                &&& row.value.status is Completed || row.value.status is Terminating ==> after == w
                &&& row.value.status == LifecycleView::Terminated(reason) && row.value.meta.owner
                    == Some(owner) ==> after == settled(
                    w.event(EventView::StateTerminated { activity: row.value }),
                    ctx,
                    owner,
                    cmd.activity,
                )
            }
        }),
{
    reveal(dispatched);
}

/// Completing an activity that is not there ends it, and nothing else; one that does not run is refused; one
/// whose state cannot be found fails with its scope.
pub proof fn law_completion_that_cannot_be(
    w: World,
    ctx: HandlerContext,
    cmd: CompleteStateView,
    row: ActivityRecordView,
    owner: ObjectReferenceView,
    thread: ThreadRecordView,
    error: ExecutionErrorView,
)
    ensures
        ({
            let after = dispatched(w, ctx, CommandView::CompleteState(cmd));
            let found = scope_state(
                ctx,
                w.store,
                ScopeRecordView::Thread(thread),
                if row.value.state_path.len() == 0 {
                    Seq::empty()
                } else {
                    row.value.state_path[row.value.state_path.len() - 1]
                },
            );
            &&& w.store.activity(cmd.activity) == Ok::<_, ExecutionErrorView>(Some(row))
                && row.value.meta.owner == Some(owner) && w.store.thread(owner) == Ok::<
                _,
                ExecutionErrorView,
            >(Some(thread)) ==> {
                &&& found == Err::<State, _>(error) ==> after.chain == w.chain + seq![
                    ends_activity(cmd.activity, TerminationReasonView::Failed { error }),
                ] + ends_scope(owner, TerminationReasonView::Failed { error })
                &&& found is Ok && !(row.value.status is Running) ==> after.store == w.store
                    && after.chain.len() == w.chain.len() + 1 && (
                after.chain.last() matches EntryPayloadView::Reject(reject)
                    && reject.rejection_type is InvalidState)
            }
            &&& w.store.activity(cmd.activity) matches Ok(None) ==> after.chain.len()
                >= w.chain.len() + 1 && after.store == w.store && after.chain[w.chain.len() as int]
                == ends_activity(
                cmd.activity,
                TerminationReasonView::Failed {
                    error: ExecutionErrorView::Runtime(
                        RuntimeErrorView::StateNotFound(
                            "activity "@ + reference_text(cmd.activity),
                        ),
                    ),
                },
            )
        }),
{
    reveal(dispatched);
    let reason = TerminationReasonView::Failed { error };
    assert(w.terminate(Some(cmd.activity), owner, error).chain =~= w.chain + seq![
        ends_activity(cmd.activity, reason),
    ] + ends_scope(owner, reason));
}

/// The last child that settles lets its parent go on: to complete when it was completing, to terminate when
/// it was terminating. A parent that runs, or still has a child, or has ended, is left alone.
pub proof fn law_last_child_lets_its_parent_go_on(
    w: World,
    node: ObjectReferenceView,
    children: Seq<ObjectReferenceView>,
    status: LifecycleView,
)
    ensures
        continued(w, node, children, status) == if children.len() == 0 && status is Completing {
            w.command(CommandView::ContinueComplete { owner: node })
        } else if children.len() == 0 && status is Terminating {
            w.command(CommandView::ContinueTerminate { owner: node })
        } else {
            w
        },
{
}

/// A settled child is told to its parent: a scope, and an activity that does not run, go on when it was the
/// last; an activity that runs lets its state react, looked up by its name where its thread runs.
pub proof fn law_settled_child_is_told_to_its_parent(
    w: World,
    ctx: HandlerContext,
    parent: ObjectReferenceView,
    child: ObjectReferenceView,
)
    ensures
        parent.kind is Execution ==> (w.store.execution(parent) matches Ok(Some(row)) ==> settled(
            w,
            ctx,
            parent,
            child,
        ) == continued(w, parent, row.active_children, row.value.status)),
        parent.kind is Thread ==> (w.store.thread(parent) matches Ok(Some(row)) ==> settled(
            w,
            ctx,
            parent,
            child,
        ) == continued(w, parent, row.active_children, row.value.status)),
        parent.kind is Activity ==> (w.store.activity(parent) matches Ok(Some(row)) ==> if row.value.status is Running {
            row.value.meta.owner matches Some(owner) ==> (owner.kind is Thread ==> (
            w.store.thread(owner) matches Ok(Some(thread)) ==> match scope_state(
                ctx,
                w.store,
                ScopeRecordView::Thread(thread),
                if row.value.state_path.len() == 0 {
                    Seq::empty()
                } else {
                    row.value.state_path[row.value.state_path.len() - 1]
                },
            ) {
                Ok(state) => settled(w, ctx, parent, child) == child_reaction(
                    w,
                    ctx.env,
                    state,
                    parent,
                    row.value,
                    thread.variables,
                    child,
                ),
                Err(_) => settled(w, ctx, parent, child) == w,
            }))
        } else {
            settled(w, ctx, parent, child) == continued(
                w,
                parent,
                row.active_children,
                row.value.status,
            )
        }),
        !(parent.kind is Execution) && !(parent.kind is Thread) && !(parent.kind is Activity)
            ==> settled(w, ctx, parent, child) == w,
{
}

/// Only a container reacts to a settled child while it runs.
pub proof fn law_only_containers_react(
    w: World,
    env: EvalEnv,
    state: State,
    activity: ObjectReferenceView,
    a: ActivityView,
    variables: Seq<MemberView>,
    child: ObjectReferenceView,
)
    ensures
        match state {
            State::Parallel(s) => child_reaction(
                w,
                env,
                state,
                activity,
                a,
                variables,
                child,
            ) == parallel_child_completed(
                w,
                env,
                s,
                activity,
                a,
                variables,
            ),
            State::ItemMap(s) => child_reaction(
                w,
                env,
                state,
                activity,
                a,
                variables,
                child,
            ) == map_child_completed(
                w,
                env,
                s,
                activity,
                a,
                variables,
                child,
            ),
            _ => child_reaction(w, env, state, activity, a, variables, child) == w,
        },
{
}

/// A thread or an execution whose last child is gone ends as its end was opened: completed with the output
/// that it kept, or terminated for its reason; then its owner hears of it.
pub proof fn law_drained_scope_ends_as_it_was_opened(
    w: World,
    ctx: HandlerContext,
    node: ObjectReferenceView,
    thread: ThreadRecordView,
    execution: ExecutionRecordView,
    owner: ObjectReferenceView,
)
    ensures
        node.kind is Thread && w.store.thread(node) == Ok::<_, ExecutionErrorView>(Some(thread))
            && thread.active_children.len() == 0 && thread.value.meta.owner == Some(owner) ==> {
            let after = node_finished(w, ctx, node);
            match thread.value.status {
                LifecycleView::Completing => after == settled(
                    w.event(
                        EventView::ThreadCompleted {
                            thread: thread_with(
                                thread.value,
                                LifecycleView::Completed,
                                match thread.value.output {
                                    Some(v) => v,
                                    None => Json::Null,
                                },
                                w.now,
                            ),
                        },
                    ),
                    ctx,
                    owner,
                    node,
                ),
                LifecycleView::Terminating(reason) => after == settled(
                    w.event(
                        EventView::ThreadTerminated {
                            thread: ThreadView {
                                meta: changed(thread.value.meta, w.now),
                                status: LifecycleView::Terminated(reason),
                                ..thread.value
                            },
                        },
                    ),
                    ctx,
                    owner,
                    node,
                ),
                _ => after == w,
            }
        },
        node.kind is Execution && w.store.execution(node) == Ok::<_, ExecutionErrorView>(
            Some(execution),
        ) && execution.active_children.len() == 0 && execution.value.meta.owner is None ==> {
            let after = node_finished(w, ctx, node);
            match execution.value.status {
                LifecycleView::Completing => after == w.event(
                    EventView::ExecutionCompleted {
                        execution: execution_with(
                            execution.value,
                            LifecycleView::Completed,
                            match execution.value.output {
                                Some(v) => v,
                                None => Json::Null,
                            },
                            w.now,
                        ),
                    },
                ),
                LifecycleView::Terminating(reason) => after == w.event(
                    EventView::ExecutionTerminated {
                        execution: ExecutionView {
                            meta: changed(execution.value.meta, w.now),
                            status: LifecycleView::Terminated(reason),
                            ..execution.value
                        },
                    },
                ),
                _ => after == w,
            }
        },
{
}

/// An activity whose last child is gone ends as its end was opened: a termination is told for its reason;
/// a completion finishes the state, by the definition that its thread leads to, and an error in that fails
/// the activity and the execution.
pub proof fn law_drained_activity_ends_as_it_was_opened(
    w: World,
    ctx: HandlerContext,
    node: ObjectReferenceView,
    row: ActivityRecordView,
    owner: ObjectReferenceView,
    thread: ThreadRecordView,
    state: State,
)
    requires
        node.kind is Activity,
        w.store.activity(node) == Ok::<_, ExecutionErrorView>(Some(row)),
        row.active_children.len() == 0,
        row.value.meta.owner == Some(owner),
    ensures
        ({
            let after = node_finished(w, ctx, node);
            match row.value.status {
                LifecycleView::Terminating(reason) => after == settled(
                    w.event(
                        EventView::StateTerminated {
                            activity: ActivityView {
                                status: LifecycleView::Terminated(reason),
                                ..row.value
                            },
                        },
                    ),
                    ctx,
                    owner,
                    node,
                ),
                LifecycleView::Completing => w.store.thread(owner) == Ok::<_, ExecutionErrorView>(
                    Some(thread),
                ) && scope_state(
                    ctx,
                    w.store,
                    ScopeRecordView::Thread(thread),
                    if row.value.state_path.len() == 0 {
                        Seq::empty()
                    } else {
                        row.value.state_path[row.value.state_path.len() - 1]
                    },
                ) == Ok::<_, ExecutionErrorView>(state) ==> {
                    let step = finished(
                        w,
                        ctx.env,
                        state,
                        node,
                        row.value,
                        thread.variables,
                    );
                    match step.error {
                        None => after == settled(step.world, ctx, owner, node),
                        Some(error) => after.chain == step.world.chain + seq![
                            ends_activity(
                                node,
                                TerminationReasonView::Failed { error },
                            ),
                        ] + ends_scope(
                            row.value.execution,
                            TerminationReasonView::Failed { error },
                        ),
                    }
                },
                _ => after == w,
            }
        }),
{
    let step = finished(
        w,
        ctx.env,
        state,
        node,
        row.value,
        thread.variables,
    );
    if let Some(error) = step.error {
        let reason = TerminationReasonView::Failed { error };
        assert(step.world.terminate(Some(node), row.value.execution, error).chain
            =~= step.world.chain + seq![ends_activity(node, reason)] + ends_scope(
            row.value.execution,
            reason,
        ));
    }
}

} // verus!
