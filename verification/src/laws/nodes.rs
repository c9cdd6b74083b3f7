//! The tree of nodes: what a fired timer, a spawned branch and an ended child bring about.

use vstd::prelude::*;

use crate::asl::{State, StateMachine, TaskState};
use crate::eval_env::{EvalEnv, QuestionView};
use crate::id::{ActivityId, ExecutionId, NodeId, RequestId, TaskId, TimerId, Timestamp, Uid};
use crate::node::complete_timer::{execution_state, first_task, reinvoked};
use crate::node::outbox::{
    CommandView, Emitted, EventView, ExecutionValueView, NodeEntryView, PayloadView, TaskResultView,
};
use crate::node::processor::{action_for, routed, ActionView, SignalView};
use crate::node::storage::{
    ActivityView, ExecutionView, NodeStoreView, StatusView, TimerPurpose, TimerView,
};
use crate::text::signed_decimal;
use crate::types::context::StatesView;
use crate::types::error::{ExecutionErrorView, RuntimeErrorView};
use crate::types::status::TerminationReasonView;
use crate::value::Json;

verus! {

/// The error of something that ran past `deadline`.
pub open spec fn ran_past(what: Seq<char>, deadline: Timestamp) -> ExecutionErrorView {
    ExecutionErrorView::Runtime(
        RuntimeErrorView::TimedOut { message: what + signed_decimal(deadline.0 as int) + ")"@ },
    )
}

/// An armed timer is recorded with its owner, its purpose and its deadline.
pub proof fn law_armed_timer_is_recorded(
    e: Emitted,
    s: NodeStoreView,
    sm: StateMachine,
    env: EvalEnv,
    parent: NodeId,
    timer: TimerId,
    purpose: TimerPurpose,
    deadline: Timestamp,
)
    ensures
        routed(
            e,
            s,
            sm,
            env,
            CommandView::ActivateTimer { parent, timer, purpose, deadline },
        ).chain == e.chain.push(
            PayloadView::Event(EventView::TimerActivated { parent, timer, purpose, deadline }),
        ),
{
}

/// A timer that fires is told to have fired; then a wait goes on, the task of a state or an execution that
/// took too long fails, by its deadline, and a retry invokes its task again.
pub proof fn law_fired_timer_serves_its_owner(
    e: Emitted,
    s: NodeStoreView,
    sm: StateMachine,
    env: EvalEnv,
    timer: TimerId,
    t: TimerView,
    activity: ActivityId,
    execution: ExecutionId,
)
    requires
        s.timer(timer) == Some(t),
        t.status is Active,
    ensures
        ({
            let after = routed(e, s, sm, env, CommandView::CompleteTimer { timer });
            let told = e.chain.push(PayloadView::Event(EventView::TimerCompleted { timer }));
            &&& t.parent == NodeId::Activity(activity) && t.purpose is WaitResume ==> after.chain
                == told.push(PayloadView::Command(CommandView::CompleteState { activity }))
            &&& t.parent == NodeId::Execution(execution) && t.purpose is ExecutionTimeout
                ==> after.chain == told.push(
                PayloadView::Command(
                    CommandView::TerminateExecution {
                        id: execution,
                        reason: TerminationReasonView::Failed {
                            error: ran_past(
                                "execution ran past its TimeoutSeconds deadline ("@,
                                t.deadline,
                            ),
                        },
                    },
                ),
            )
            &&& t.parent == NodeId::Activity(activity) && t.purpose is TaskRetryDelay ==> after
                == reinvoked((Emitted { chain: told, ..e }), s, sm, env, activity)
            &&& t.parent is Execution && !(t.purpose is ExecutionTimeout) ==> after.chain == told
            &&& t.parent is Activity && t.purpose is ExecutionTimeout ==> after.chain == told
            &&& t.parent is Timer || t.parent is Task ==> after.chain == told
        }),
{
}

/// The task among children that comes first.
pub proof fn law_first_task_among_children(children: Seq<NodeId>, k: int)
    ensures
        (forall|j: int| 0 <= j < children.len() ==> !(#[trigger] children[j] is Task)) <==> first_task(
            children,
        ) is None,
        0 <= k < children.len() && (forall|j: int| 0 <= j < k ==> !(#[trigger] children[j] is Task)) ==> (
        children[k] matches NodeId::Task(task) ==> first_task(children) == Some(task)),
    decreases children.len(),
{
    if children.len() > 0 {
        let rest = children.drop_first();
        law_first_task_among_children(rest, k - 1);
        assert(forall|j: int| 0 <= j < rest.len() ==> rest[j] == children[j + 1]);
        if forall|j: int| 0 <= j < rest.len() ==> !(#[trigger] rest[j] is Task) {
            assert forall|j: int| 1 <= j < children.len() implies !(#[trigger] children[j] is Task) by {
                assert(rest[j - 1] == children[j]);
            }
        } else {
            let j = choose|j: int| 0 <= j < rest.len() && #[trigger] rest[j] is Task;
            assert(children[j + 1] is Task);
        }
    }
}

/// A task that ran past its deadline fails for it: it is the first task among the children of the state. A
/// state without one is left alone.
pub proof fn law_task_that_ran_late_fails(
    e: Emitted,
    s: NodeStoreView,
    sm: StateMachine,
    env: EvalEnv,
    timer: TimerId,
    t: TimerView,
    activity: ActivityId,
    a: ActivityView,
    k: int,
    task: TaskId,
)
    requires
        s.timer(timer) == Some(t),
        t.status is Active,
        t.parent == NodeId::Activity(activity),
        t.purpose is TaskTimeout,
        s.activity(activity) == Some(a),
    ensures
        ({
            let after = routed(e, s, sm, env, CommandView::CompleteTimer { timer });
            let told = e.chain.push(PayloadView::Event(EventView::TimerCompleted { timer }));
            &&& 0 <= k < a.active_children.len() && a.active_children[k] == NodeId::Task(task) && (
            forall|j: int| 0 <= j < k ==> !(#[trigger] a.active_children[j] is Task)) ==> after.chain
                == told.push(
                PayloadView::Command(
                    CommandView::CompleteTask {
                        task,
                        result: TaskResultView::Failed(
                            ran_past("task ran past its TimeoutSeconds deadline ("@, t.deadline),
                        ),
                    },
                ),
            )
            &&& (forall|j: int|
                0 <= j < a.active_children.len() ==> !(#[trigger] a.active_children[j] is Task))
                ==> after.chain == told
        }),
{
    law_first_task_among_children(a.active_children, k);
}

/// A retry invokes the task of its state again: under a new id, with the resource of the definition and the
/// input of the state, or what its arguments come to over that input; a failed evaluation invokes nothing.
pub proof fn law_retry_invokes_the_task_again(
    e: Emitted,
    s: NodeStoreView,
    sm: StateMachine,
    env: EvalEnv,
    id: ActivityId,
    a: ActivityView,
    execution: ExecutionId,
    x: ExecutionView,
    t: TaskState,
)
    requires
        s.activity(id) == Some(a),
        a.status is Running,
        a.parent == NodeId::Execution(execution),
        s.execution(execution) == Some(x),
        a.state_path.len() > 0,
        execution_state(sm, x, a.state_path[a.state_path.len() - 1]) == Ok::<
            _,
            ExecutionErrorView,
        >(State::Task(t)),
    ensures
        ({
            let after = reinvoked(e, s, sm, env, id);
            let task = TaskId(Uid(e.next_uid));
            let question = QuestionView::Json {
                template: t.arguments->0@,
                states: StatesView {
                    input: a.input,
                    state_name: a.state_path[a.state_path.len() - 1],
                    retry_count: a.retry_count,
                    result: None,
                    assign_ctx: None,
                    error_output: None,
                    execution_input: Some(x.input),
                },
                variables: x.scope,
            };
            let invoked = |arguments: Json|
                e.chain.push(
                    PayloadView::Command(
                        CommandView::ActivateTask {
                            parent: NodeId::Activity(id),
                            task,
                            resource: t.resource@,
                            arguments,
                        },
                    ),
                );
            &&& t.arguments is None ==> after.chain == invoked(a.input) && after.question
                == e.question
            &&& t.arguments is Some ==> match env.answer(question) {
                Some(Ok(arguments)) => after.chain == invoked(arguments) && after.question
                    == e.question,
                Some(Err(_)) => after.chain == e.chain && after.question == e.question,
                None => e.question is None ==> after.question == Some(question),
            }
        }),
{
}

/// A retry of a state that does not run anymore invokes nothing.
pub proof fn law_retry_of_a_stopped_state_is_idle(
    e: Emitted,
    s: NodeStoreView,
    sm: StateMachine,
    env: EvalEnv,
    id: ActivityId,
)
    requires
        !(s.activity(id) matches Some(a) && a.status is Running),
    ensures
        reinvoked(e, s, sm, env, id) == e,
{
}

/// A branch of a container that runs is an execution of its own, under the container: it is told with the
/// machine version of the execution that the container belongs to and with the table and input of the branch,
/// it is told to the container under its index, and its first state is entered with that input.
pub proof fn law_branch_is_spawned(
    e: Emitted,
    s: NodeStoreView,
    sm: StateMachine,
    env: EvalEnv,
    owner: ActivityId,
    a: ActivityView,
    outer: ExecutionId,
    x: ExecutionView,
    root_execution: ExecutionId,
    state_path: Option<Seq<Seq<char>>>,
    branch_index: usize,
    state: Seq<char>,
    input: Json,
)
    requires
        s.activity(owner) == Some(a),
        a.status is Running,
        a.parent == NodeId::Execution(outer),
        s.execution(outer) == Some(x),
    ensures
        ({
            let id = ExecutionId(Uid(e.next_uid));
            routed(
                e,
                s,
                sm,
                env,
                CommandView::SpawnBranch {
                    parent: NodeId::Activity(owner),
                    root_execution,
                    state_path,
                    branch_index,
                    state,
                    input,
                },
            ).chain == e.chain + seq![
                PayloadView::Event(
                    EventView::ExecutionCreated {
                        request_id: RequestId(Uid(0)),
                        created: ExecutionValueView {
                            id,
                            flow_version_id: x.flow_version_id,
                            root_execution,
                            parent: Some(NodeId::Activity(owner)),
                            state_path,
                            status: StatusView::Running,
                            input,
                            output: None,
                        },
                    },
                ),
                PayloadView::Event(
                    EventView::ParallelBranchSpawned {
                        activity: owner,
                        index: branch_index,
                        execution: id,
                    },
                ),
                PayloadView::Command(
                    CommandView::ActivateState {
                        execution: id,
                        activity: ActivityId(Uid(e.next_uid.wrapping_add(1))),
                        state,
                        input,
                    },
                ),
            ]
        }),
{
    let after = routed(
        e,
        s,
        sm,
        env,
        CommandView::SpawnBranch {
            parent: NodeId::Activity(owner),
            root_execution,
            state_path,
            branch_index,
            state,
            input,
        },
    );
    let n = e.chain.len() as int;
    assert(after.chain =~= e.chain + seq![after.chain[n], after.chain[n + 1], after.chain[n + 2]]);
}

/// The notice of an ended child, to its parent.
pub open spec fn notice(parent: NodeId, child: NodeId) -> PayloadView {
    PayloadView::Command(CommandView::ChildFinalized { parent, child })
}

/// A node whose last child has ended ends as its end was opened, with the output or for the reason that it
/// kept, and its own parent, if it has one, is told. One with children left, or whose end is not open, is
/// left alone.
pub proof fn law_drained_node_ends_as_it_was_opened(
    e: Emitted,
    s: NodeStoreView,
    sm: StateMachine,
    env: EvalEnv,
    parent: NodeId,
    child: NodeId,
    execution: ExecutionId,
    x: ExecutionView,
    activity: ActivityId,
    a: ActivityView,
)
    ensures
        ({
            let after = routed(e, s, sm, env, CommandView::ChildFinalized { parent, child });
            &&& parent == NodeId::Execution(execution) && s.execution(execution) == Some(x) ==> {
                let up = match x.parent {
                    Some(owner) => seq![notice(owner, parent)],
                    None => Seq::empty(),
                };
                after.chain == e.chain + if x.active_children.len() > 0 {
                    Seq::empty()
                } else if x.status is Completing {
                    seq![
                        PayloadView::Event(
                            EventView::ExecutionCompleted {
                                id: execution,
                                output: match x.pending_output {
                                    Some(v) => v,
                                    None => Json::Null,
                                },
                            },
                        ),
                    ] + up
                } else if x.status is Terminating {
                    seq![
                        PayloadView::Event(
                            EventView::ExecutionTerminated {
                                id: execution,
                                reason: match x.pending_reason {
                                    Some(r) => r,
                                    None => TerminationReasonView::Cancelled,
                                },
                            },
                        ),
                    ] + up
                } else {
                    Seq::empty()
                }
            }
            &&& parent == NodeId::Activity(activity) && s.activity(activity) == Some(a)
                ==> after.chain == e.chain + if a.active_children.len() > 0 {
                Seq::empty()
            } else if a.status is Completing {
                seq![
                    PayloadView::Event(
                        EventView::StateCompleted {
                            activity,
                            output: match a.pending_output {
                                Some(v) => v,
                                None => Json::Null,
                            },
                        },
                    ),
                    notice(a.parent, parent),
                ]
            } else if a.status is Terminating {
                seq![
                    PayloadView::Event(
                        EventView::StateTerminated {
                            activity,
                            reason: match a.pending_reason {
                                Some(r) => r,
                                None => TerminationReasonView::Cancelled,
                            },
                        },
                    ),
                    notice(a.parent, parent),
                ]
            } else {
                Seq::empty()
            }
        }),
{
    let after = routed(e, s, sm, env, CommandView::ChildFinalized { parent, child });
    let n = e.chain.len() as int;
    if after.chain.len() == n + 2 {
        assert(after.chain =~= e.chain + seq![after.chain[n], after.chain[n + 1]]);
    } else if after.chain.len() == n + 1 {
        assert(after.chain =~= e.chain + seq![after.chain[n]]);
    } else {
        assert(after.chain =~= e.chain + Seq::empty());
    }
}

/// A command that is read is answered with what it brings about, in order, caused by it; but first comes the
/// question that it needs answered. An event that is read is applied as it stands.
pub proof fn law_read_entry_is_acted_on(
    entry: NodeEntryView,
    s: NodeStoreView,
    sm: StateMachine,
    env: EvalEnv,
    now: Timestamp,
    next_uid: u128,
    command: CommandView,
    event: EventView,
)
    ensures
        ({
            let action = action_for(SignalView::Read(entry), s, sm, env, now, next_uid);
            let out = routed(
                Emitted { chain: Seq::empty(), next_uid, question: None },
                s,
                sm,
                env,
                command,
            );
            &&& entry.payload == PayloadView::Command(command) ==> match out.question {
                Some(question) => action == ActionView::Ask(question),
                None => action matches ActionView::Append(written) && written.len()
                    == out.chain.len() && forall|i: int|
                    0 <= i < written.len() ==> (#[trigger] written[i]).payload == out.chain[i]
                        && written[i].cause_id == Some(entry.entry_id) && written[i].stream_id
                        == entry.stream_id && written[i].timestamp == now,
            }
            &&& entry.payload == PayloadView::Event(event) ==> action == (ActionView::Apply {
                event,
                stream_id: entry.stream_id,
                cause_id: entry.entry_id,
            })
        }),
{
}

/// The children of a node that is stored are those that were put there last; no other node, and nothing else
/// of this one, is touched.
pub proof fn law_children_are_replaced(
    s: NodeStoreView,
    node: NodeId,
    children: Seq<NodeId>,
    other: NodeId,
    timer: TimerId,
)
    ensures
        ({
            let after = s.with_children(node, children);
            &&& other != node ==> after.children(other) == s.children(other)
            &&& after.timer(timer) == s.timer(timer)
            &&& match node {
                NodeId::Execution(id) => match s.execution(id) {
                    Some(x) => after.children(node) == children && after.execution(id) == Some(
                        (ExecutionView { active_children: children, ..x }),
                    ),
                    None => after == s,
                },
                NodeId::Activity(id) => match s.activity(id) {
                    Some(x) => after.children(node) == children && after.activity(id) == Some(
                        (ActivityView { active_children: children, ..x }),
                    ),
                    None => after == s,
                },
                _ => after == s,
            }
        }),
{
}

} // verus!
