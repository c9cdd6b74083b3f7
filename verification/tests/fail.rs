//! `Fail` states.

use spica_engine::asl::{FailState, State};
use spica_engine::eval_env::{extract_jsonata, Answer, EvalEnv, Question};
use spica_engine::handlers::states::harness::{
    self, activate_cmd, complete_cmd, complete_store, minted_activity, minted_activity_ref, path,
    seeded_input, seeded_scope, thread_ref, Dispatch,
};
use spica_engine::storage::store::Store;
use spica_engine::storage::thread::ThreadRecord;
use spica_engine::types::activity::ActivityState;
use spica_engine::types::command::{ActivateState, Command, CompleteState, TerminateThread};
use spica_engine::types::context::States;
use spica_engine::types::entry::EntryPayload;
use spica_engine::types::error::{ExecutionError, RuntimeError};
use spica_engine::types::event::Event;
use spica_engine::types::status::{Lifecycle, TerminationReason};
use spica_engine::value::{Member, Number, Value};

fn number(n: i128) -> Value {
    Value::Number(Number::Integral(n))
}

fn string(s: &str) -> Value {
    Value::String(s.to_string())
}

fn object(members: Vec<(&str, Value)>) -> Value {
    Value::Object(
        members
            .into_iter()
            .map(|(name, value)| Member {
                name: name.to_string(),
                value,
            })
            .collect(),
    )
}

/// A number as an expression yields it.
fn float(s: &str) -> Value {
    Value::Number(Number::Fraction(s.to_string()))
}

fn member<'a>(value: &'a Value, name: &str) -> &'a Value {
    match value {
        Value::Object(members) => members
            .iter()
            .find(|m| m.name == name)
            .map(|m| &m.value)
            .unwrap_or(&Value::Null),
        _ => &Value::Null,
    }
}

/// Evaluates the few expressions that the states here hold.
fn evaluate(source: &str, states: &States) -> Value {
    let source = source.trim();
    let parts: Vec<&str> = source.split(" = ").collect();
    let name = parts[0]
        .strip_prefix("$states.input.")
        .expect("an expression on the input");
    let found = member(&states.input, name).clone();
    if parts.len() == 2 {
        return Value::Bool(found == number(parts[1].parse().expect("a number")));
    }
    match found {
        Value::Number(Number::Integral(n)) => float(&format!("{n}.0")),
        other => other,
    }
}

fn fill(template: &Value, states: &States) -> Value {
    match template {
        Value::String(s) => match extract_jsonata(s) {
            Some(source) => evaluate(&source, states),
            None => template.clone(),
        },
        Value::Array(items) => Value::Array(items.iter().map(|v| fill(v, states)).collect()),
        Value::Object(members) => Value::Object(
            members
                .iter()
                .map(|m| Member {
                    name: m.name.clone(),
                    value: fill(&m.value, states),
                })
                .collect(),
        ),
        other => other.clone(),
    }
}

fn answer(question: Question) -> Answer {
    let reply = match &question {
        Question::Json {
            template, states, ..
        } => Ok(fill(template, states)),
        Question::Expression { source, states, .. } => Ok(evaluate(source, states)),
        Question::Rfc3339 { text } => panic!("no instant is written here: {text}"),
    };
    Answer { question, reply }
}

/// Runs a step until no question is left open.
fn settle<F: Fn(&EvalEnv) -> Dispatch>(step: F) -> Dispatch {
    let mut env = EvalEnv::new();
    loop {
        let mut done = step(&env);
        match done.question.take() {
            Some(question) => env.answers.push(answer(question)),
            None => return done,
        }
    }
}

fn activate(state: &State, cmd: &ActivateState, scope: Option<ThreadRecord>) -> Dispatch {
    settle(|env| harness::activate(state, env, cmd, scope.clone()))
}

fn complete(state: &State, store: Store, cmd: &CompleteState) -> Dispatch {
    settle(|env| harness::complete(state, env, store.clone(), cmd))
}

fn fail_state(error: Option<&str>, cause: Option<&str>) -> State {
    State::Fail(FailState {
        comment: None,
        cause: cause.map(str::to_string),
        error: error.map(str::to_string),
    })
}

#[test]
fn fail_activate_emits_the_synchronous_success_chain() {
    let activated = activate(
        &fail_state(Some("ErrorA"), None),
        &activate_cmd(path("/States/P"), seeded_input()),
        Some(seeded_scope(Lifecycle::Running)),
    );

    let birth = minted_activity(path("/States/P"), seeded_input());
    let mut processed = birth.clone();
    processed.input = Some(seeded_input());

    assert_eq!(
        activated.chain(),
        vec![
            EntryPayload::Event(Event::StateActivating { activity: birth }),
            EntryPayload::Event(Event::StateActivated {
                activity: processed
            }),
            EntryPayload::Command(Command::CompleteState(CompleteState {
                activity: minted_activity_ref(),
                output: seeded_input(),
            })),
        ]
    );
    assert!(
        activated
            .children(&thread_ref())
            .contains(&minted_activity_ref()),
        "the failure is still a normal activation until the finish runs"
    );
}

#[test]
fn complete_terminates_the_activity_and_its_owner_scope() {
    let completed = complete(
        &fail_state(None, None),
        complete_store(seeded_input(), vec![]),
        &complete_cmd(seeded_input()),
    );

    let reason = TerminationReason::Failed {
        error: ExecutionError::Runtime(RuntimeError::StateFailed {
            state: "P".to_string(),
            error: "States.Fail".to_string(),
            output: object(vec![]),
        }),
    };
    let mut completing = minted_activity(path("/States/P"), seeded_input());
    completing.input = Some(seeded_input());
    completing.raw_output = Some(seeded_input());
    completing.status = Lifecycle::Completing;
    let mut terminating = completing.clone();
    terminating.status = Lifecycle::Terminating(reason.clone());
    let mut terminated = terminating.clone();
    terminated.status = Lifecycle::Terminated(reason.clone());

    assert_eq!(
        completed.chain(),
        vec![
            EntryPayload::Event(Event::StateCompleting {
                activity: completing
            }),
            EntryPayload::Event(Event::StateTerminating {
                activity: terminating
            }),
            EntryPayload::Event(Event::StateTerminated {
                activity: terminated
            }),
            EntryPayload::Command(Command::TerminateThread(TerminateThread {
                thread: thread_ref(),
                reason,
            })),
        ]
    );
    let row = completed
        .activity(&minted_activity_ref())
        .expect("the failure ed folds the activity row");
    assert!(
        row.value.status.is_terminal(),
        "the activity is left terminal, not Running: {:?}",
        row.value.status
    );
}

#[test]
fn complete_projects_error_and_cause_into_the_failure() {
    let state = fail_state(
        Some("{% $states.input.code %}"),
        Some("{% $states.input.msg %}"),
    );
    let input = object(vec![("code", string("E-42")), ("msg", string("boom"))]);
    let completed = complete(
        &state,
        complete_store(input.clone(), vec![]),
        &complete_cmd(input.clone()),
    );

    let reason = TerminationReason::Failed {
        error: ExecutionError::Runtime(RuntimeError::StateFailed {
            state: "P".to_string(),
            error: "E-42".to_string(),
            output: object(vec![("Error", string("E-42")), ("Cause", string("boom"))]),
        }),
    };
    let chain = completed.chain();
    assert!(
        matches!(
            chain.last(),
            Some(EntryPayload::Command(Command::TerminateThread(TerminateThread {
                reason: actual,
                ..
            }))) if *actual == reason
        ),
        "the evaluated Error/Cause reach the scope termination: {:?}",
        chain.last()
    );
    assert_eq!(
        completed
            .activity(&minted_activity_ref())
            .expect("the failure ed folds the activity row")
            .value
            .activity_state,
        None::<ActivityState>
    );
}
