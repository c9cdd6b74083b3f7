//! `Task` states.

use spica_engine::asl::{IntOrExpr, State, TaskState};
use spica_engine::eval_env::{extract_jsonata, Answer, EvalEnv, Question};
use spica_engine::handlers::states::harness::{
    self, at, activate_cmd, complete_cmd, execution_ref, minted_activity, minted_activity_ref, obj_name,
    path, seeded_input, seeded_scope, thread_ref, uid, Dispatch,
};
use spica_engine::id::Timestamp;
use spica_engine::storage::store::Store;
use spica_engine::storage::thread::ThreadRecord;
use spica_engine::types::command::{
    ActivateState, ActivateTask, Command, CompleteState, TerminateState, TerminateThread,
};
use spica_engine::types::context::States;
use spica_engine::types::entry::EntryPayload;
use spica_engine::types::error::{ExecutionError, RuntimeError};
use spica_engine::types::event::{Event, StateTransitioned};
use spica_engine::types::meta::{ObjectKind, ObjectMeta, ObjectReference};
use spica_engine::types::status::{Lifecycle, TerminationReason};
use spica_engine::types::timer::{Timer, TimerPurpose, TimerStatus};
use spica_engine::value::{Member, Number, Value};

fn number(n: i128) -> Value {
    Value::Number(Number::Integral(n))
}

fn string(s: &str) -> Value {
    Value::String(s.to_string())
}

fn object(members: Vec<(&str, Value)>) -> Value {
    Value::Object(
        members
            .into_iter()
            .map(|(name, value)| Member {
                name: name.to_string(),
                value,
            })
            .collect(),
    )
}

/// A number as an expression yields it.
fn float(s: &str) -> Value {
    Value::Number(Number::Fraction(s.to_string()))
}

fn member<'a>(value: &'a Value, name: &str) -> &'a Value {
    match value {
        Value::Object(members) => members
            .iter()
            .find(|m| m.name == name)
            .map(|m| &m.value)
            .unwrap_or(&Value::Null),
        _ => &Value::Null,
    }
}

/// Evaluates the few expressions that the states here hold.
fn evaluate(source: &str, states: &States) -> Value {
    let source = source.trim();
    let parts: Vec<&str> = source.split(" = ").collect();
    let name = parts[0]
        .strip_prefix("$states.input.")
        .expect("an expression on the input");
    let found = member(&states.input, name).clone();
    if parts.len() == 2 {
        return Value::Bool(found == number(parts[1].parse().expect("a number")));
    }
    match found {
        Value::Number(Number::Integral(n)) => float(&format!("{n}.0")),
        other => other,
    }
}

fn fill(template: &Value, states: &States) -> Value {
    match template {
        Value::String(s) => match extract_jsonata(s) {
            Some(source) => evaluate(&source, states),
            None => template.clone(),
        },
        Value::Array(items) => Value::Array(items.iter().map(|v| fill(v, states)).collect()),
        Value::Object(members) => Value::Object(
            members
                .iter()
                .map(|m| Member {
                    name: m.name.clone(),
                    value: fill(&m.value, states),
                })
                .collect(),
        ),
        other => other.clone(),
    }
}

fn answer(question: Question) -> Answer {
    let reply = match &question {
        Question::Json {
            template, states, ..
        } => Ok(fill(template, states)),
        Question::Expression { source, states, .. } => Ok(evaluate(source, states)),
        Question::Rfc3339 { text } => panic!("no instant is written here: {text}"),
    };
    Answer { question, reply }
}

/// Runs a step until no question is left open.
fn settle<F: Fn(&EvalEnv) -> Dispatch>(step: F) -> Dispatch {
    let mut env = EvalEnv::new();
    loop {
        let mut done = step(&env);
        match done.question.take() {
            Some(question) => env.answers.push(answer(question)),
            None => return done,
        }
    }
}

fn activate(state: &State, cmd: &ActivateState, scope: Option<ThreadRecord>) -> Dispatch {
    settle(|env| harness::activate(state, env, cmd, scope.clone()))
}

fn complete(state: &State, store: Store, cmd: &CompleteState) -> Dispatch {
    settle(|env| harness::complete(state, env, store.clone(), cmd))
}

const RESOURCE: &str = "arn:aws:states:::lambda:invoke";

fn invoked_task_ref() -> ObjectReference {
    ObjectReference::new(ObjectKind::Task, obj_name("execution-1"), uid(2))
}

fn timeout_timer(deadline: Timestamp) -> Timer {
    Timer {
        execution: execution_ref(),
        purpose: TimerPurpose::TaskTimeout,
        status: TimerStatus::Active,
        deadline,
        meta: ObjectMeta::born(
            ObjectKind::Timer,
            obj_name("execution-2"),
            uid(3),
            at(),
            Some(minted_activity_ref()),
        ),
    }
}

fn task_state(arguments: Option<Value>, timeout_seconds: Option<i64>, next: Option<&str>) -> State {
    State::Task(TaskState {
        next: next.map(str::to_string),
        arguments,
        resource: RESOURCE.to_string(),
        timeout_seconds: timeout_seconds.map(IntOrExpr::Int),
        ..Default::default()
    })
}

#[test]
fn activate_invokes_the_resource_and_arms_the_timeout() {
    let deadline = at()
        .checked_add(60)
        .expect("the fixture deadline is representable");
    let activated = activate(
        &task_state(
            Some(object(vec![("x", string("{% $states.input.n %}"))])),
            Some(60),
            Some("P2"),
        ),
        &activate_cmd(path("/States/P"), seeded_input()),
        Some(seeded_scope(Lifecycle::Running)),
    );

    let birth = minted_activity(path("/States/P"), seeded_input());
    let mut processed = birth.clone();
    processed.input = Some(object(vec![("x", float("1.0"))]));

    assert_eq!(
        activated.chain(),
        vec![
            EntryPayload::Event(Event::StateActivating { activity: birth }),
            EntryPayload::Event(Event::StateActivated {
                activity: processed
            }),
            EntryPayload::Command(Command::ActivateTask(ActivateTask {
                execution: execution_ref(),
                owner: minted_activity_ref(),
                task: invoked_task_ref(),
                resource: RESOURCE.to_string(),
                arguments: object(vec![("x", float("1.0"))]),
                retry_plan: vec![],
                deadline: Some(deadline),
            })),
            EntryPayload::Event(Event::TimerActivated {
                timer: timeout_timer(deadline),
            }),
        ]
    );
}

#[test]
fn activate_without_arguments_invokes_with_the_raw_input() {
    let activated = activate(
        &task_state(None, None, Some("P2")),
        &activate_cmd(path("/States/P"), seeded_input()),
        Some(seeded_scope(Lifecycle::Running)),
    );

    let chain = activated.chain();
    assert!(
        matches!(
            chain.last(),
            Some(EntryPayload::Command(Command::ActivateTask(ActivateTask {
                arguments,
                deadline: None,
                ..
            }))) if *arguments == seeded_input()
        ),
        "the raw input reaches the resource: {:?}",
        chain.last()
    );
    assert!(
        !chain
            .iter()
            .any(|p| matches!(p, EntryPayload::Event(Event::TimerActivated { .. }))),
        "a task with no TimeoutSeconds arms no bound: {chain:?}"
    );
}

#[test]
fn activate_fails_the_state_on_an_invalid_timeout() {
    let activated = activate(
        &task_state(None, Some(0), Some("P2")),
        &activate_cmd(path("/States/P"), seeded_input()),
        Some(seeded_scope(Lifecycle::Running)),
    );

    let reason = TerminationReason::Failed {
        error: ExecutionError::Runtime(RuntimeError::InvalidDefinition(
            "Task TimeoutSeconds must be a positive integer".to_string(),
        )),
    };
    let chain = activated.chain();
    assert!(
        matches!(&chain[2], EntryPayload::Command(Command::ActivateTask(t))
            if t.deadline.is_none()),
        "the invocation is still thrown, unbounded: {:?}",
        chain[2]
    );
    assert_eq!(
        chain[3..].to_vec(),
        vec![
            EntryPayload::Command(Command::TerminateState(TerminateState {
                activity: minted_activity_ref(),
                reason: reason.clone(),
            })),
            EntryPayload::Command(Command::TerminateThread(TerminateThread {
                thread: thread_ref(),
                reason,
            })),
        ]
    );
}

#[test]
fn complete_sweeps_the_deadline_timer_then_finishes() {
    let deadline = at()
        .checked_add(60)
        .expect("the fixture deadline is representable");
    let state = task_state(None, Some(60), Some("P2"));
    let activated = activate(
        &state,
        &activate_cmd(path("/States/P"), seeded_input()),
        Some(seeded_scope(Lifecycle::Running)),
    );
    let Dispatch { store, .. } = activated;

    let completed = complete(&state, store, &complete_cmd(seeded_input()));

    let mut completing = minted_activity(path("/States/P"), seeded_input());
    completing.input = Some(seeded_input());
    completing.raw_output = Some(seeded_input());
    completing.status = Lifecycle::Completing;
    let mut done = completing.clone();
    done.status = Lifecycle::Completed;
    done.output = Some(seeded_input());
    let mut cancelled = timeout_timer(deadline);
    cancelled.status = TimerStatus::Cancelled;

    assert_eq!(
        completed.chain(),
        vec![
            EntryPayload::Event(Event::StateCompleting {
                activity: completing
            }),
            EntryPayload::Event(Event::TimerCancelled { timer: cancelled }),
            EntryPayload::Event(Event::StateCompleted { activity: done }),
            EntryPayload::Event(Event::StateTransitioned(StateTransitioned {
                activity: minted_activity_ref(),
                next: path("/States/P2"),
            })),
            EntryPayload::Command(Command::ActivateState(ActivateState {
                execution: execution_ref(),
                owner: thread_ref(),
                state_path: path("/States/P2"),
                input: seeded_input(),
            })),
        ]
    );
    let row = completed
        .activity(&minted_activity_ref())
        .expect("the finish folds the completed row");
    assert_eq!(row.value.status, Lifecycle::Completed);
    assert!(
        row.active_children.is_empty(),
        "the swept timer is no longer a child: {:?}",
        row.active_children
    );
}

#[test]
fn a_computed_timeout_comes_with_a_fraction_of_zero() {
    let State::Task(mut state) = task_state(None, None, Some("P2")) else {
        unreachable!("a task");
    };
    state.timeout_seconds = Some(IntOrExpr::Expr("{% $states.input.n %}".to_string()));
    let activated = activate(
        &State::Task(state),
        &activate_cmd(path("/States/P"), seeded_input()),
        Some(seeded_scope(Lifecycle::Running)),
    );
    let deadline = at().checked_add(1).unwrap();
    assert_eq!(
        activated.chain().last(),
        Some(&EntryPayload::Event(Event::TimerActivated {
            timer: timeout_timer(deadline),
        }))
    );
}
