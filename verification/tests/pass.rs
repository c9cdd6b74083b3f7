//! `Pass` states.

use spica_engine::asl::{AssignObject, PassState, State};
use spica_engine::eval_env::{extract_jsonata, Answer, EvalEnv, Question};
use spica_engine::handlers::states::harness::{
    self, at, activate_cmd, complete_cmd, complete_store, execution_ref, minted_activity,
    minted_activity_ref, path, seeded_input, seeded_scope, thread_ref, uid, Dispatch,
};
use spica_engine::storage::store::Store;
use spica_engine::storage::thread::ThreadRecord;
use spica_engine::types::command::{
    ActivateState, Command, CompleteState, TerminateExecution, TerminateState,
};
use spica_engine::types::context::States;
use spica_engine::types::entry::EntryPayload;
use spica_engine::types::error::{ExecutionError, RuntimeError};
use spica_engine::types::event::{Event, StateTransitioned, VariablesAssigned};
use spica_engine::types::status::{Lifecycle, TerminationReason};
use spica_engine::value::{Member, Number, Value, Variables};

fn number(n: i128) -> Value {
    Value::Number(Number::Integral(n))
}

fn string(s: &str) -> Value {
    Value::String(s.to_string())
}

fn object(members: Vec<(&str, Value)>) -> Value {
    Value::Object(
        members
            .into_iter()
            .map(|(name, value)| Member {
                name: name.to_string(),
                value,
            })
            .collect(),
    )
}

/// A number as an expression yields it.
fn float(s: &str) -> Value {
    Value::Number(Number::Fraction(s.to_string()))
}

fn member<'a>(value: &'a Value, name: &str) -> &'a Value {
    match value {
        Value::Object(members) => members
            .iter()
            .find(|m| m.name == name)
            .map(|m| &m.value)
            .unwrap_or(&Value::Null),
        _ => &Value::Null,
    }
}

/// Evaluates the few expressions that the states here hold.
fn evaluate(source: &str, states: &States) -> Value {
    let source = source.trim();
    let parts: Vec<&str> = source.split(" = ").collect();
    let name = parts[0]
        .strip_prefix("$states.input.")
        .expect("an expression on the input");
    let found = member(&states.input, name).clone();
    if parts.len() == 2 {
        return Value::Bool(found == number(parts[1].parse().expect("a number")));
    }
    match found {
        Value::Number(Number::Integral(n)) => float(&format!("{n}.0")),
        other => other,
    }
}

fn fill(template: &Value, states: &States) -> Value {
    match template {
        Value::String(s) => match extract_jsonata(s) {
            Some(source) => evaluate(&source, states),
            None => template.clone(),
        },
        Value::Array(items) => Value::Array(items.iter().map(|v| fill(v, states)).collect()),
        Value::Object(members) => Value::Object(
            members
                .iter()
                .map(|m| Member {
                    name: m.name.clone(),
                    value: fill(&m.value, states),
                })
                .collect(),
        ),
        other => other.clone(),
    }
}

fn answer(question: Question) -> Answer {
    let reply = match &question {
        Question::Json {
            template, states, ..
        } => Ok(fill(template, states)),
        Question::Expression { source, states, .. } => Ok(evaluate(source, states)),
        Question::Rfc3339 { text } => panic!("no instant is written here: {text}"),
    };
    Answer { question, reply }
}

/// Runs a step until no question is left open.
fn settle<F: Fn(&EvalEnv) -> Dispatch>(step: F) -> Dispatch {
    let mut env = EvalEnv::new();
    loop {
        let mut done = step(&env);
        match done.question.take() {
            Some(question) => env.answers.push(answer(question)),
            None => return done,
        }
    }
}

fn activate(state: &State, cmd: &ActivateState, scope: Option<ThreadRecord>) -> Dispatch {
    settle(|env| harness::activate(state, env, cmd, scope.clone()))
}

fn complete(state: &State, store: Store, cmd: &CompleteState) -> Dispatch {
    settle(|env| harness::complete(state, env, store.clone(), cmd))
}

fn pass_state(next: Option<&str>) -> State {
    State::Pass(PassState {
        next: next.map(str::to_string),
        ..Default::default()
    })
}

#[test]
fn pass_activate_emits_the_synchronous_success_chain() {
    let activated = activate(
        &pass_state(Some("P2")),
        &activate_cmd(path("/States/P"), object(vec![("n", number(1))])),
        Some(seeded_scope(Lifecycle::Running)),
    );

    let birth = minted_activity(path("/States/P"), object(vec![("n", number(1))]));
    let mut processed = birth.clone();
    processed.input = Some(object(vec![("n", number(1))]));

    assert_eq!(
        activated.chain(),
        vec![
            EntryPayload::Event(Event::StateActivating { activity: birth }),
            EntryPayload::Event(Event::StateActivated {
                activity: processed
            }),
            EntryPayload::Command(Command::CompleteState(CompleteState {
                activity: minted_activity_ref(),
                output: object(vec![("n", number(1))]),
            })),
        ]
    );

    let activity = minted_activity_ref();
    let row = activated
        .activity(&activity)
        .expect("StateActivating folds the activity row");
    assert_eq!(row.value.status, Lifecycle::Running);
    assert_eq!(row.created_at, at());
    assert!(
        activated.children(&thread_ref()).contains(&activity),
        "StateActivating folds the owner's child edge"
    );
    assert_eq!(
        activated.store.next_generated_seq(),
        1,
        "the generated name advanced the counter"
    );
}

#[test]
fn activate_on_a_missing_scope_terminates_the_execution() {
    let activated = activate(
        &pass_state(Some("P2")),
        &activate_cmd(path("/States/P"), object(vec![("n", number(1))])),
        None,
    );

    let reason = TerminationReason::Failed {
        error: ExecutionError::Runtime(RuntimeError::StateNotFound(format!(
            "execution {}",
            execution_ref().text()
        ))),
    };
    assert_eq!(
        activated.chain(),
        vec![
            EntryPayload::Command(Command::TerminateState(TerminateState {
                activity: minted_activity_ref(),
                reason: reason.clone(),
            })),
            EntryPayload::Command(Command::TerminateExecution(TerminateExecution {
                name: execution_ref().name,
                uid: Some(execution_ref().uid),
                reason,
            })),
        ]
    );
    assert!(
        activated.activity(&minted_activity_ref()).is_none(),
        "a failed activate folds no activity row"
    );
}

#[test]
fn activate_on_a_non_running_scope_is_a_no_op() {
    let activated = activate(
        &pass_state(Some("P2")),
        &activate_cmd(path("/States/P"), object(vec![("n", number(1))])),
        Some(seeded_scope(Lifecycle::Completed)),
    );

    assert!(activated.chain().is_empty());
    assert!(
        activated.activity(&minted_activity_ref()).is_none(),
        "a skipped activate folds no activity row"
    );
}

#[test]
fn activate_defers_assign_and_output_to_the_finish() {
    let state = State::Pass(PassState {
        assign: Some(AssignObject(vec![Member {
            name: "code".to_string(),
            value: string("E-42"),
        }])),
        output: Some(object(vec![("echo", string("{% $states.input.n %}"))])),
        next: Some("P2".to_string()),
        ..Default::default()
    });
    let activated = activate(
        &state,
        &activate_cmd(path("/States/P"), object(vec![("n", number(1))])),
        Some(seeded_scope(Lifecycle::Running)),
    );

    let chain = activated.chain();
    assert_eq!(
        chain.len(),
        3,
        "the projections do not change the chain: {chain:?}"
    );
    assert!(
        !chain
            .iter()
            .any(|payload| matches!(payload, EntryPayload::Event(Event::VariablesAssigned(_)))),
        "Assign is applied by the finish, not by activate: {chain:?}"
    );
    assert!(
        matches!(&chain[2], EntryPayload::Command(Command::CompleteState(c))
            if c.output == object(vec![("n", number(1))])),
        "the input reaches CompleteState untransformed: {:?}",
        chain[2]
    );
}

#[test]
fn complete_applies_the_projection_and_routes_to_next() {
    let state = State::Pass(PassState {
        assign: Some(AssignObject(vec![Member {
            name: "code".to_string(),
            value: string("E-42"),
        }])),
        output: Some(object(vec![("echo", string("{% $states.input.n %}"))])),
        next: Some("P2".to_string()),
        ..Default::default()
    });
    let completed = complete(
        &state,
        complete_store(seeded_input(), vec![]),
        &complete_cmd(seeded_input()),
    );

    let owner = thread_ref();
    let mut assigned = Variables::new();
    assigned.insert("code".to_string(), string("E-42"));
    let mut completing = minted_activity(path("/States/P"), seeded_input());
    completing.input = Some(seeded_input());
    completing.raw_output = Some(seeded_input());
    completing.status = Lifecycle::Completing;
    let mut done = completing.clone();
    done.status = Lifecycle::Completed;
    done.output = Some(object(vec![("echo", float("1.0"))]));

    assert_eq!(
        completed.chain(),
        vec![
            EntryPayload::Event(Event::StateCompleting {
                activity: completing
            }),
            EntryPayload::Event(Event::VariablesAssigned(VariablesAssigned {
                scope: owner.clone(),
                variables: assigned,
            })),
            EntryPayload::Event(Event::StateCompleted { activity: done }),
            EntryPayload::Event(Event::StateTransitioned(StateTransitioned {
                activity: minted_activity_ref(),
                next: path("/States/P2"),
            })),
            EntryPayload::Command(Command::ActivateState(ActivateState {
                execution: execution_ref(),
                owner,
                state_path: path("/States/P2"),
                input: object(vec![("echo", float("1.0"))]),
            })),
        ]
    );
}

#[test]
fn a_state_without_a_successor_or_an_end_fails_the_execution() {
    let completed = complete(
        &pass_state(None),
        complete_store(seeded_input(), vec![]),
        &complete_cmd(seeded_input()),
    );

    let chain = completed.chain();
    assert_eq!(
        chain.last(),
        Some(&EntryPayload::Command(Command::TerminateExecution(
            TerminateExecution {
                name: execution_ref().name,
                uid: Some(execution_ref().uid),
                reason: TerminationReason::Failed {
                    error: ExecutionError::Runtime(RuntimeError::NoTerminal),
                },
            }
        )))
    );
}
