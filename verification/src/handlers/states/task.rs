//! The `Task` state: hands its work to a worker, and waits for the result.

use vstd::prelude::*;
use vstd::string::*;

use crate::asl::{IntOrExpr, State, TaskState};
use crate::eval_env::EvalEnv;
use crate::handler::{Collector, World};
use crate::handlers::shared::{emit_timer, eval_string_or_expr, text_asked, text_reply, timer_armed};
use crate::handlers::states::common::{done, failure, stopped, Step};
use crate::handlers::states::parallel::{hand_input, handed_input};
use crate::id::{Timestamp, Uid};
use crate::number::whole_value;
use crate::storage::order::store_ok;
use crate::types::activity::{Activity, ActivityView};
use crate::types::command::{
    group_command_view, ActivateTask, ActivateTaskView, Command, CommandView,
};
use crate::types::context::{States, StatesView};
use crate::types::error::{invalid_definition, ExecutionError, ExecutionErrorView};
use crate::types::meta::{
    generated_name, ObjectKind, ObjectReference, ObjectReferenceView,
};
use crate::types::timer::TimerPurpose;
use crate::value::{MemberView, Variables};

verus! {

broadcast use group_command_view;

/// The seconds that a `Task` is given, when they are positive.
pub open spec fn timeout_seconds(
    env: EvalEnv,
    timeout: IntOrExpr,
    states: StatesView,
    variables: Seq<MemberView>,
) -> Result<Option<i64>, ExecutionErrorView> {
    match timeout {
        IntOrExpr::Int(n) => Ok(
            if n > 0 {
                Some(n)
            } else {
                None
            },
        ),
        IntOrExpr::Expr(expr) => match text_reply(env, expr@, states, variables) {
            Err(e) => Err(e),
            Ok(value) => Ok(
                match whole_value(value) {
                    Some(n) if n > 0 => Some(
                        if n <= i64::MAX {
                            n as i64
                        } else {
                            i64::MAX
                        },
                    ),
                    _ => None,
                },
            ),
        },
    }
}

/// The instant by which a `Task` entered at `now` must have settled; `None` when it sets no timeout.
pub open spec fn task_deadline(
    env: EvalEnv,
    timeout: Option<IntOrExpr>,
    states: StatesView,
    variables: Seq<MemberView>,
    now: Timestamp,
) -> Result<Option<Timestamp>, ExecutionErrorView> {
    match timeout {
        None => Ok(None),
        Some(timeout) => match timeout_seconds(env, timeout, states, variables) {
            Err(e) => Err(e),
            Ok(None) => Err(invalid_definition("Task TimeoutSeconds must be a positive integer"@)),
            Ok(Some(seconds)) => match now.later(seconds as u64) {
                Some(at) => Ok(Some(at)),
                None => Err(
                    invalid_definition("Task TimeoutSeconds overflows the absolute deadline"@),
                ),
            },
        },
    }
}

/// What resolving it leaves.
pub open spec fn timeout_asked(
    w: World,
    env: EvalEnv,
    timeout: Option<IntOrExpr>,
    states: StatesView,
    variables: Seq<MemberView>,
) -> World {
    match timeout {
        Some(IntOrExpr::Expr(expr)) => text_asked(w, env, expr@, states, variables),
        _ => w,
    }
}

/// The task that an activity invokes.
pub open spec fn invoked_task(w: World, a: ActivityView) -> ObjectReferenceView {
    ObjectReferenceView {
        kind: ObjectKind::Task,
        name: generated_name(a.execution.name, w.store.next_seq),
        uid: Uid(w.next_uid),
    }
}

/// What follows the activation of a `Task`: the task is invoked, and its timeout, if it has one, is
/// armed. A timeout that cannot be resolved is raised after the invocation, which then carries none.
pub open spec fn task_activated(
    w: World,
    env: EvalEnv,
    t: TaskState,
    a: ActivityView,
    variables: Seq<MemberView>,
    states: StatesView,
) -> Step {
    let w1 = timeout_asked(w, env, t.timeout_seconds, states, variables);
    let deadline = task_deadline(env, t.timeout_seconds, states, variables, w.now);
    let w2 = w1.minted().drawn().command(
        CommandView::ActivateTask(
            ActivateTaskView {
                execution: a.execution,
                owner: a.reference(),
                task: invoked_task(w1, a),
                resource: t.resource@,
                arguments: handed_input(a),
                retry_plan: t.retry.deep_view(),
                deadline: match deadline {
                    Ok(at) => at,
                    Err(_) => None,
                },
            },
        ),
    );
    match deadline {
        Err(e) => stopped(w2, e),
        Ok(None) => done(w2),
        Ok(Some(at)) => done(
            timer_armed(w2, a.execution, a.reference(), TimerPurpose::TaskTimeout, at),
        ),
    }
}

/// Builds the handler of a `Task`.
pub struct TaskStateHandlerFactory;

impl TaskStateHandlerFactory {
    /// An empty definition of the state that this factory serves.
    pub fn state(&self) -> (r: State)
        ensures
            r is Task,
    {
        State::Task(
            TaskState {
                comment: None,
                output: None,
                assign: None,
                next: None,
                end: None,
                resource: String::new(),
                arguments: None,
                timeout_seconds: None,
                retry: Vec::new(),
                catch: Vec::new(),
            },
        )
    }

    /// The handler bound to `state`, which must be a `Task`.
    pub fn create<'a>(&self, state: &'a State) -> (r: TaskStateHandler<'a>)
        requires
            state is Task,
        ensures
            *state == State::Task(*r.state),
    {
        match state {
            State::Task(s) => TaskStateHandler { state: s },
            _ => TaskStateHandler { state: vstd::pervasive::unreached() },
        }
    }
}

/// The handler of one `Task`.
pub struct TaskStateHandler<'a> {
    pub state: &'a TaskState,
}

impl<'a> TaskStateHandler<'a> {
    /// Resolves the instant by which the `Task` must have settled.
    pub fn resolve_task_deadline(
        &self,
        out: &mut Collector,
        env: &EvalEnv,
        variables: &Variables,
        states: &States,
    ) -> (r: Result<Option<Timestamp>, ExecutionError>)
        ensures
            match r {
                Ok(at) => task_deadline(
                    *env,
                    self.state.timeout_seconds,
                    states@,
                    variables@,
                    old(out)@.now,
                ) == Ok::<_, ExecutionErrorView>(at),
                Err(e) => task_deadline(
                    *env,
                    self.state.timeout_seconds,
                    states@,
                    variables@,
                    old(out)@.now,
                ) == Err::<Option<Timestamp>, _>(e@),
            },
            final(out)@ == timeout_asked(
                old(out)@,
                *env,
                self.state.timeout_seconds,
                states@,
                variables@,
            ),
    {
        let seconds: Option<i64> = match &self.state.timeout_seconds {
            None => return Ok(None),
            Some(IntOrExpr::Int(n)) => if *n > 0 {
                Some(*n)
            } else {
                None
            },
            Some(IntOrExpr::Expr(expr)) => {
                let value = match eval_string_or_expr(
                    out,
                    env,
                    expr.as_str(),
                    states,
                    variables,
                ) {
                    Ok(v) => v,
                    Err(e) => return Err(e),
                };
                match value.whole() {
                    Some(n) => if n <= 0 {
                        None
                    } else if n <= i64::MAX as i128 {
                        Some(n as i64)
                    } else {
                        Some(i64::MAX)
                    },
                    None => None,
                }
            },
        };
        let seconds = match seconds {
            Some(n) => n,
            None => return Err(
                ExecutionError::invalid_definition(
                    "Task TimeoutSeconds must be a positive integer".to_owned(),
                ),
            ),
        };
        match out.now().checked_add(seconds as u64) {
            Some(at) => Ok(Some(at)),
            None => Err(
                ExecutionError::invalid_definition(
                    "Task TimeoutSeconds overflows the absolute deadline".to_owned(),
                ),
            ),
        }
    }

    /// Invokes the task, and arms its timeout.
    pub fn after_activated(
        &self,
        out: &mut Collector,
        env: &EvalEnv,
        activity: &Activity,
        variables: &Variables,
        states: &States,
    ) -> (r: Result<(), ExecutionError>)
        requires
            store_ok(old(out)@.store),
        ensures
            (Step { world: final(out)@, error: failure(r) }) == task_activated(
                old(out)@,
                *env,
                *self.state,
                activity@,
                variables@,
                states@,
            ),
            store_ok(final(out)@.store),
    {
        let resolved = self.resolve_task_deadline(out, env, variables, states);
        let deadline = match &resolved {
            Ok(at) => *at,
            Err(_) => None,
        };
        let owner = activity.reference();
        let uid = out.mint();
        let name = activity.execution.name.generated_from_key(out.next_generated_seq());
        let retry_plan = self.state.retry.clone();
        assert(retry_plan.deep_view() =~= self.state.retry.deep_view());
        out.append_command(
            Command::ActivateTask(
                ActivateTask {
                    execution: activity.execution.clone(),
                    owner: owner.clone(),
                    task: ObjectReference::new(ObjectKind::Task, name, uid),
                    resource: self.state.resource.clone(),
                    arguments: hand_input(activity),
                    retry_plan,
                    deadline,
                },
            ),
        );
        match resolved {
            Err(e) => Err(e),
            Ok(None) => Ok(()),
            Ok(Some(at)) => {
                emit_timer(out, &activity.execution, &owner, TimerPurpose::TaskTimeout, at);
                Ok(())
            },
        }
    }
}

} // verus!
