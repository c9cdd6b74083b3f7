//! The firing of a timer.

use vstd::prelude::*;
use vstd::string::*;

use crate::asl::{State, StateMachine};
use crate::eval_env::{EvalEnv, Question, QuestionView};
use crate::handler::reply;
use crate::handlers::resolve::{find_state, resolve_states_map, state_in, walk};
use crate::id::{ActivityId, NodeId, TaskId, TimerId, Timestamp, Uid};
use crate::node::outbox::{
    Command, CommandView, Emitted, Event, EventView, Outbox, TaskResult, TaskResultView,
};
use crate::node::storage::{
    Activity, ActivityView, Execution, ExecutionView, InMemoryStorage, NodeStoreView, TimerPurpose,
    TimerView,
};
use crate::text::{join3, signed_decimal, signed_decimal_text};
use crate::types::context::{States, StatesView};
use crate::types::error::{
    ExecutionError, ExecutionErrorView, RuntimeError, RuntimeErrorView,
};
use crate::types::state_path::state_name;
use crate::types::status::{failed, TerminationReason};
use crate::types::timer::TimerStatus;
use crate::value::Json;

verus! {

/// The error of work that ran past its deadline.
pub open spec fn overdue(what: Seq<char>, deadline: Timestamp) -> ExecutionErrorView {
    ExecutionErrorView::Runtime(
        RuntimeErrorView::TimedOut { message: what + signed_decimal(deadline.0 as int) + ")"@ },
    )
}

fn overdue_error(what: &str, deadline: Timestamp) -> (r: ExecutionError)
    ensures
        r@ == overdue(what@, deadline),
{
    ExecutionError::Runtime(
        RuntimeError::TimedOut {
            message: join3(what, signed_decimal_text(deadline.as_millis()).as_str(), ")"),
        },
    )
}

/// What looking up a state gives in the table that an execution works in.
pub open spec fn execution_state(sm: StateMachine, x: ExecutionView, name: Seq<char>) -> Result<
    State,
    ExecutionErrorView,
> {
    match x.state_path {
        None => state_in(sm.states, name),
        Some(path) => match walk(sm.states, path) {
            Ok(table) => state_in(table, name),
            Err(e) => Err(e),
        },
    }
}

fn resolve_execution_state<'a>(sm: &'a StateMachine, x: &Execution, name: &str) -> (r: Result<
    &'a State,
    ExecutionError,
>)
    ensures
        match r {
            Ok(s) => execution_state(*sm, x@, name@) == Ok::<State, ExecutionErrorView>(*s),
            Err(e) => execution_state(*sm, x@, name@) == Err::<State, _>(e@),
        },
{
    match &x.state_path {
        None => find_state(&sm.states, name),
        Some(path) => match resolve_states_map(sm, path) {
            Ok(table) => find_state(table, name),
            Err(e) => Err(e),
        },
    }
}

/// The context in which the arguments of a retried task are evaluated.
pub open spec fn retry_context(a: ActivityView, x: ExecutionView) -> StatesView {
    StatesView {
        input: a.input,
        state_name: state_name(a.state_path),
        retry_count: a.retry_count,
        result: None,
        assign_ctx: None,
        error_output: None,
        execution_input: Some(x.input),
    }
}

/// What a retry that is due leaves: the task is invoked again, with fresh arguments. The retry is
/// dropped when the activity no longer runs, when its state cannot be found or is no `Task`, and when
/// the arguments cannot be evaluated.
pub open spec fn reinvoked(
    e: Emitted,
    s: NodeStoreView,
    sm: StateMachine,
    env: EvalEnv,
    id: ActivityId,
) -> Emitted {
    match s.activity(id) {
        Some(a) if a.status is Running => match a.parent {
            NodeId::Execution(execution) => match s.execution(execution) {
                Some(x) => match execution_state(sm, x, state_name(a.state_path)) {
                    Ok(State::Task(t)) => {
                        let invoke = |e1: Emitted, arguments: Json|
                            e1.minted().command(
                                CommandView::ActivateTask {
                                    parent: NodeId::Activity(id),
                                    task: TaskId(Uid(e1.next_uid)),
                                    resource: t.resource@,
                                    arguments,
                                },
                            );
                        match t.arguments {
                            None => invoke(e, a.input),
                            Some(template) => {
                                let question = QuestionView::Json {
                                    template: template@,
                                    states: retry_context(a, x),
                                    variables: x.scope,
                                };
                                let e1 = e.asked(env, question);
                                match reply(env, question) {
                                    Ok(arguments) => invoke(e1, arguments),
                                    Err(_) => e1,
                                }
                            },
                        }
                    },
                    _ => e,
                },
                None => e,
            },
            _ => e,
        },
        _ => e,
    }
}

/// The first task on a list of children.
pub open spec fn first_task(children: Seq<NodeId>) -> Option<TaskId>
    decreases children.len(),
{
    if children.len() == 0 {
        None
    } else {
        match children.first() {
            NodeId::Task(task) => Some(task),
            _ => first_task(children.drop_first()),
        }
    }
}

fn find_task(children: &Vec<NodeId>) -> (r: Option<TaskId>)
    ensures
        r == first_task(children.deep_view()),
{
    let ghost all = children.deep_view();
    let mut i: usize = 0;
    assert(all.skip(0) =~= all);
    while i < children.len()
        invariant
            i <= children.len(),
            all == children.deep_view(),
            first_task(all) == first_task(all.skip(i as int)),
        decreases children.len() - i,
    {
        let ghost rest = all.skip(i as int);
        assert(rest.first() == children@[i as int]);
        assert(rest.drop_first() =~= all.skip(i as int + 1));
        if let NodeId::Task(task) = children[i] {
            return Some(task);
        }
        i += 1;
    }
    assert(all.skip(all.len() as int) =~= Seq::empty());
    None
}

/// What an armed timer does when it fires, by what it was armed for.
pub open spec fn fired(
    e: Emitted,
    s: NodeStoreView,
    sm: StateMachine,
    env: EvalEnv,
    t: TimerView,
) -> Emitted {
    match (t.purpose, t.parent) {
        (TimerPurpose::WaitResume, NodeId::Activity(activity)) => e.command(
            CommandView::CompleteState { activity },
        ),
        (TimerPurpose::TaskRetryDelay, NodeId::Activity(activity)) => reinvoked(
            e,
            s,
            sm,
            env,
            activity,
        ),
        (TimerPurpose::TaskTimeout, NodeId::Activity(activity)) => match first_task(
            s.children(t.parent),
        ) {
            Some(task) => e.command(
                CommandView::CompleteTask {
                    task,
                    result: TaskResultView::Failed(
                        overdue("task ran past its TimeoutSeconds deadline ("@, t.deadline),
                    ),
                },
            ),
            None => e,
        },
        (TimerPurpose::ExecutionTimeout, NodeId::Execution(id)) => e.command(
            CommandView::TerminateExecution {
                id,
                reason: failed(
                    overdue("execution ran past its TimeoutSeconds deadline ("@, t.deadline),
                ),
            },
        ),
        _ => e,
    }
}

/// What the deadline of a timer leaves. Only a timer that is armed fires, and its firing is recorded
/// first.
pub open spec fn timer_completion(
    e: Emitted,
    s: NodeStoreView,
    sm: StateMachine,
    env: EvalEnv,
    timer: TimerId,
) -> Emitted {
    match s.timer(timer) {
        Some(t) if t.status is Active => fired(
            e.event(EventView::TimerCompleted { timer }),
            s,
            sm,
            env,
            t,
        ),
        _ => e,
    }
}

/// A timer that has fired or was cancelled does not fire again.
pub proof fn law_settled_timer_stays_silent(
    e: Emitted,
    s: NodeStoreView,
    sm: StateMachine,
    env: EvalEnv,
    timer: TimerId,
)
    requires
        !(s.timer(timer) matches Some(t) && t.status is Active),
    ensures
        timer_completion(e, s, sm, env, timer) == e,
{
}

/// Handles `CompleteTimer`.
pub struct CompleteTimerHandler;

impl Default for CompleteTimerHandler {
    fn default() -> (r: Self)
        ensures
            r == CompleteTimerHandler,
    {
        CompleteTimerHandler
    }
}

impl CompleteTimerHandler {
    pub fn handle(
        &self,
        timer: TimerId,
        storage: &InMemoryStorage,
        sm: &StateMachine,
        env: &EvalEnv,
        out: &mut Outbox,
    )
        ensures
            final(out)@ == timer_completion(old(out)@, storage@, *sm, *env, timer),
    {
        let act = match storage.get_timer(timer) {
            Some(t) => t,
            None => return ,
        };
        if act.status != TimerStatus::Active {
            return ;
        }
        out.emit_event(Event::TimerCompleted { timer });
        match act.purpose {
            TimerPurpose::WaitResume => {
                let activity = match act.parent {
                    NodeId::Activity(a) => a,
                    _ => return ,
                };
                out.emit_command(Command::CompleteState { activity });
            },
            TimerPurpose::TaskRetryDelay => {
                let activity = match act.parent {
                    NodeId::Activity(a) => a,
                    _ => return ,
                };
                self.reinvoke(activity, storage, sm, env, out);
            },
            TimerPurpose::TaskTimeout => {
                if let NodeId::Activity(_) = act.parent {
                } else {
                    return ;
                }
                let task = match find_task(&storage.children(act.parent)) {
                    Some(task) => task,
                    None => return ,
                };
                out.emit_command(
                    Command::CompleteTask {
                        task,
                        result: TaskResult::Failed(
                            overdue_error(
                                "task ran past its TimeoutSeconds deadline (",
                                act.deadline,
                            ),
                        ),
                    },
                );
            },
            TimerPurpose::ExecutionTimeout => {
                let id = match act.parent {
                    NodeId::Execution(e) => e,
                    _ => return ,
                };
                out.emit_command(
                    Command::TerminateExecution {
                        id,
                        reason: TerminationReason::Failed {
                            error: overdue_error(
                                "execution ran past its TimeoutSeconds deadline (",
                                act.deadline,
                            ),
                        },
                    },
                );
            },
        }
    }

    fn reinvoke(
        &self,
        id: ActivityId,
        storage: &InMemoryStorage,
        sm: &StateMachine,
        env: &EvalEnv,
        out: &mut Outbox,
    )
        ensures
            final(out)@ == reinvoked(old(out)@, storage@, *sm, *env, id),
    {
        let activity = match storage.get_activity(id) {
            Some(a) => a,
            None => return ,
        };
        if !activity.status.is_running() {
            return ;
        }
        let execution_id = match activity.parent {
            NodeId::Execution(e) => e,
            _ => return ,
        };
        let exec = match storage.get_execution(execution_id) {
            Some(e) => e,
            None => return ,
        };
        let name = activity.state_path.state_name();
        let task_state = match resolve_execution_state(sm, &exec, name.as_str()) {
            Ok(State::Task(t)) => t,
            _ => return ,
        };
        let arguments = match &task_state.arguments {
            Some(template) => {
                let states = States {
                    input: activity.input.clone(),
                    state_name: activity.state_path.state_name(),
                    retry_count: activity.retry_count,
                    result: None,
                    assign_ctx: None,
                    error_output: None,
                    execution_input: Some(exec.input.clone()),
                };
                match out.ask(
                    env,
                    Question::Json {
                        template: template.clone(),
                        states,
                        variables: exec.scope.clone(),
                    },
                ) {
                    Ok(v) => v,
                    Err(_) => return ,
                }
            },
            None => activity.input.clone(),
        };
        let task = out.next_task();
        out.emit_command(
            Command::ActivateTask {
                parent: NodeId::Activity(id),
                task,
                resource: task_state.resource.clone(),
                arguments,
            },
        );
    }
}

} // verus!
