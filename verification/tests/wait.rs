//! `Wait` states.

use spica_engine::asl::{IntOrExpr, State, WaitState};
use spica_engine::eval_env::{extract_jsonata, Answer, EvalEnv, Question};
use spica_engine::handlers::states::harness::{
    self, at, activate_cmd, complete_cmd, complete_store, execution_ref, minted_activity,
    minted_activity_ref, obj_name, path, seeded_input, seeded_scope, thread_ref, uid, Dispatch,
};
use spica_engine::handlers::states::wait::MAX_WAIT_SECONDS;
use spica_engine::id::Timestamp;
use spica_engine::storage::store::Store;
use spica_engine::storage::thread::ThreadRecord;
use spica_engine::types::activity::{Activity, ActivityState, WaitActivityState};
use spica_engine::types::command::{
    ActivateState, Command, CompleteState, TerminateState, TerminateThread,
};
use spica_engine::types::context::States;
use spica_engine::types::entry::EntryPayload;
use spica_engine::types::error::{ExecutionError, RuntimeError};
use spica_engine::types::event::{Event, StateTransitioned};
use spica_engine::types::meta::{ObjectKind, ObjectMeta};
use spica_engine::types::status::{Lifecycle, TerminationReason};
use spica_engine::types::timer::{Timer, TimerPurpose, TimerStatus};
use spica_engine::value::{Member, Number, Value};

fn number(n: i128) -> Value {
    Value::Number(Number::Integral(n))
}

/// A number as an expression yields it.
fn float(s: &str) -> Value {
    Value::Number(Number::Fraction(s.to_string()))
}

fn member<'a>(value: &'a Value, name: &str) -> &'a Value {
    match value {
        Value::Object(members) => members
            .iter()
            .find(|m| m.name == name)
            .map(|m| &m.value)
            .unwrap_or(&Value::Null),
        _ => &Value::Null,
    }
}

/// Evaluates the few expressions that the states here hold.
fn evaluate(source: &str, states: &States) -> Value {
    let source = source.trim();
    let parts: Vec<&str> = source.split(" = ").collect();
    let name = parts[0]
        .strip_prefix("$states.input.")
        .expect("an expression on the input");
    let found = member(&states.input, name).clone();
    if parts.len() == 2 {
        return Value::Bool(found == number(parts[1].parse().expect("a number")));
    }
    match found {
        Value::Number(Number::Integral(n)) => float(&format!("{n}.0")),
        other => other,
    }
}

fn fill(template: &Value, states: &States) -> Value {
    match template {
        Value::String(s) => match extract_jsonata(s) {
            Some(source) => evaluate(&source, states),
            None => template.clone(),
        },
        Value::Array(items) => Value::Array(items.iter().map(|v| fill(v, states)).collect()),
        Value::Object(members) => Value::Object(
            members
                .iter()
                .map(|m| Member {
                    name: m.name.clone(),
                    value: fill(&m.value, states),
                })
                .collect(),
        ),
        other => other.clone(),
    }
}

fn answer(question: Question) -> Answer {
    let reply = match &question {
        Question::Json {
            template, states, ..
        } => Ok(fill(template, states)),
        Question::Expression { source, states, .. } => Ok(evaluate(source, states)),
        Question::Rfc3339 { text } => panic!("no instant is written here: {text}"),
    };
    Answer { question, reply }
}

/// Runs a step until no question is left open.
fn settle<F: Fn(&EvalEnv) -> Dispatch>(step: F) -> Dispatch {
    let mut env = EvalEnv::new();
    loop {
        let mut done = step(&env);
        match done.question.take() {
            Some(question) => env.answers.push(answer(question)),
            None => return done,
        }
    }
}

fn activate(state: &State, cmd: &ActivateState, scope: Option<ThreadRecord>) -> Dispatch {
    settle(|env| harness::activate(state, env, cmd, scope.clone()))
}

fn complete(state: &State, store: Store, cmd: &CompleteState) -> Dispatch {
    settle(|env| harness::complete(state, env, store.clone(), cmd))
}

fn deadline(seconds: i64) -> Timestamp {
    at().checked_add(seconds as u64)
        .expect("the fixture deadline is representable")
}

fn wait_state(seconds: Option<i64>, next: Option<&str>) -> State {
    State::Wait(WaitState {
        seconds: seconds.map(IntOrExpr::Int),
        next: next.map(str::to_string),
        ..Default::default()
    })
}

fn activated_activity(resume_at: Timestamp) -> Activity {
    let mut activated = minted_activity(path("/States/P"), seeded_input());
    activated.input = Some(seeded_input());
    activated.activity_state = Some(ActivityState::Wait(WaitActivityState { resume_at }));
    activated
}

fn resume_timer(resume_at: Timestamp) -> Timer {
    Timer {
        execution: execution_ref(),
        purpose: TimerPurpose::WaitResume,
        status: TimerStatus::Active,
        deadline: resume_at,
        meta: ObjectMeta::born(
            ObjectKind::Timer,
            obj_name("execution-1"),
            uid(2),
            at(),
            Some(minted_activity_ref()),
        ),
    }
}

#[test]
fn activate_records_the_resume_instant_and_arms_the_resume_timer() {
    let resume_at = deadline(30);
    let activated = activate(
        &wait_state(Some(30), Some("P2")),
        &activate_cmd(path("/States/P"), seeded_input()),
        Some(seeded_scope(Lifecycle::Running)),
    );

    assert_eq!(
        activated.chain(),
        vec![
            EntryPayload::Event(Event::StateActivating {
                activity: minted_activity(path("/States/P"), seeded_input()),
            }),
            EntryPayload::Event(Event::StateActivated {
                activity: activated_activity(resume_at),
            }),
            EntryPayload::Event(Event::TimerActivated {
                timer: resume_timer(resume_at),
            }),
        ]
    );

    let timer = resume_timer(resume_at).reference();
    assert!(
        activated.children(&minted_activity_ref()).contains(&timer),
        "TimerActivated folds the owner's child edge"
    );
}

#[test]
fn complete_defers_the_finish_while_the_resume_timer_lives() {
    let resume_at = deadline(30);
    let state = wait_state(Some(30), Some("P2"));
    let activated = activate(
        &state,
        &activate_cmd(path("/States/P"), seeded_input()),
        Some(seeded_scope(Lifecycle::Running)),
    );
    let Dispatch { store, .. } = activated;

    let completed = complete(&state, store, &complete_cmd(seeded_input()));

    let mut completing = activated_activity(resume_at);
    completing.raw_output = Some(seeded_input());
    completing.status = Lifecycle::Completing;
    assert_eq!(
        completed.chain(),
        vec![EntryPayload::Event(Event::StateCompleting {
            activity: completing
        })],
        "only the durable `ing` lands while the resume timer lives"
    );
    assert_eq!(
        completed
            .activity(&minted_activity_ref())
            .expect("the row is still there")
            .value
            .status,
        Lifecycle::Completing,
        "a deferred finish leaves the activity Completing, not Running"
    );
}

#[test]
fn complete_finishes_once_the_resume_timer_has_drained() {
    let state = wait_state(Some(30), Some("P2"));
    let completed = complete(
        &state,
        complete_store(seeded_input(), vec![]),
        &complete_cmd(seeded_input()),
    );

    let mut completing = minted_activity(path("/States/P"), seeded_input());
    completing.input = Some(seeded_input());
    completing.raw_output = Some(seeded_input());
    completing.status = Lifecycle::Completing;
    let mut done = completing.clone();
    done.status = Lifecycle::Completed;
    done.output = Some(seeded_input());

    assert_eq!(
        completed.chain(),
        vec![
            EntryPayload::Event(Event::StateCompleting {
                activity: completing
            }),
            EntryPayload::Event(Event::StateCompleted { activity: done }),
            EntryPayload::Event(Event::StateTransitioned(StateTransitioned {
                activity: minted_activity_ref(),
                next: path("/States/P2"),
            })),
            EntryPayload::Command(Command::ActivateState(ActivateState {
                execution: execution_ref(),
                owner: thread_ref(),
                state_path: path("/States/P2"),
                input: seeded_input(),
            })),
        ]
    );
}

#[test]
fn activate_fails_the_state_on_an_out_of_range_seconds() {
    let activated = activate(
        &wait_state(Some(MAX_WAIT_SECONDS + 1), Some("P2")),
        &activate_cmd(path("/States/P"), seeded_input()),
        Some(seeded_scope(Lifecycle::Running)),
    );

    let reason = TerminationReason::Failed {
        error: ExecutionError::Runtime(RuntimeError::InvalidDefinition(
            "Wait Seconds must be an integer in the range 0..99999999".into(),
        )),
    };
    assert_eq!(
        activated.chain(),
        vec![
            EntryPayload::Event(Event::StateActivating {
                activity: minted_activity(path("/States/P"), seeded_input()),
            }),
            EntryPayload::Command(Command::TerminateState(TerminateState {
                activity: minted_activity_ref(),
                reason: reason.clone(),
            })),
            EntryPayload::Command(Command::TerminateThread(TerminateThread {
                thread: thread_ref(),
                reason,
            })),
        ]
    );
    assert_eq!(
        activated
            .activity(&minted_activity_ref())
            .expect("the birth event folded a row")
            .value
            .status,
        Lifecycle::Running,
        "the unwinding terminate is a command, not a fold: the row stays as the birth left it"
    );
}

fn computed_wait(expr: &str) -> State {
    State::Wait(WaitState {
        seconds: Some(IntOrExpr::Expr(expr.to_string())),
        next: Some("P2".to_string()),
        ..Default::default()
    })
}

#[test]
fn computed_seconds_come_with_a_fraction_of_zero() {
    let activated = activate(
        &computed_wait("{% $states.input.n %}"),
        &activate_cmd(path("/States/P"), seeded_input()),
        Some(seeded_scope(Lifecycle::Running)),
    );
    assert_eq!(
        activated.chain().last(),
        Some(&EntryPayload::Event(Event::TimerActivated {
            timer: resume_timer(deadline(1)),
        }))
    );
}

fn refused(seconds: &str) -> String {
    let input = Value::Object(vec![Member {
        name: "n".to_string(),
        value: float(seconds),
    }]);
    let activated = activate(
        &computed_wait("{% $states.input.n %}"),
        &activate_cmd(path("/States/P"), input),
        Some(seeded_scope(Lifecycle::Running)),
    );
    match activated.chain().last() {
        Some(EntryPayload::Command(Command::TerminateThread(TerminateThread {
            reason:
                TerminationReason::Failed {
                    error: ExecutionError::Runtime(RuntimeError::InvalidDefinition(message)),
                },
            ..
        }))) => message.clone(),
        other => panic!("the wait is refused: {other:?}"),
    }
}

#[test]
fn computed_seconds_are_whole_and_in_range() {
    assert_eq!(
        refused("30.5"),
        "Wait Seconds expression must evaluate to an integer"
    );
    for out_of_range in ["-1.0", "100000000.0", "1e16"] {
        assert_eq!(
            refused(out_of_range),
            "Wait Seconds expression must evaluate to an integer in the range 0..99999999"
        );
    }
}
