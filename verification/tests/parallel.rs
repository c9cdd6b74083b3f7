//! `Parallel` states.

use spica_engine::asl::{AssignObject, Branch, ParallelState, State};
use spica_engine::eval_env::{extract_jsonata, Answer, EvalEnv, Question};
use spica_engine::handlers::states::harness::{
    self, child_ref, activate_cmd, execution_ref, minted_activity_ref, path, seed_container,
    seeded_activity_with, seeded_child_thread, seeded_input, seeded_scope, thread_ref, Dispatch,
};
use spica_engine::storage::activity::ActivityRecord;
use spica_engine::storage::store::Store;
use spica_engine::storage::thread::ThreadRecord;
use spica_engine::types::activity::{ActivityState, ParallelActivityState, Slot};
use spica_engine::types::command::{
    ActivateState, Command, CompleteState, CompleteThread, SpawnThread, TerminateState,
};
use spica_engine::types::context::States;
use spica_engine::types::entry::EntryPayload;
use spica_engine::types::event::Event;
use spica_engine::types::error::{ExecutionError, RuntimeError};
use spica_engine::types::meta::ObjectReference;
use spica_engine::types::status::{Lifecycle, TerminationReason};
use spica_engine::value::{Member, Number, Value};

fn number(n: i128) -> Value {
    Value::Number(Number::Integral(n))
}

/// A number as an expression yields it.
fn float(s: &str) -> Value {
    Value::Number(Number::Fraction(s.to_string()))
}

fn member<'a>(value: &'a Value, name: &str) -> &'a Value {
    match value {
        Value::Object(members) => members
            .iter()
            .find(|m| m.name == name)
            .map(|m| &m.value)
            .unwrap_or(&Value::Null),
        _ => &Value::Null,
    }
}

/// Evaluates the few expressions that the states here hold.
fn evaluate(source: &str, states: &States) -> Value {
    let source = source.trim();
    let parts: Vec<&str> = source.split(" = ").collect();
    let name = parts[0]
        .strip_prefix("$states.input.")
        .expect("an expression on the input");
    let found = member(&states.input, name).clone();
    if parts.len() == 2 {
        return Value::Bool(found == number(parts[1].parse().expect("a number")));
    }
    match found {
        Value::Number(Number::Integral(n)) => float(&format!("{n}.0")),
        other => other,
    }
}

fn fill(template: &Value, states: &States) -> Value {
    match template {
        Value::String(s) => match extract_jsonata(s) {
            Some(source) => evaluate(&source, states),
            None => template.clone(),
        },
        Value::Array(items) => Value::Array(items.iter().map(|v| fill(v, states)).collect()),
        Value::Object(members) => Value::Object(
            members
                .iter()
                .map(|m| Member {
                    name: m.name.clone(),
                    value: fill(&m.value, states),
                })
                .collect(),
        ),
        other => other.clone(),
    }
}

fn answer(question: Question) -> Answer {
    let reply = match &question {
        Question::Json {
            template, states, ..
        } => Ok(fill(template, states)),
        Question::Expression { source, states, .. } => Ok(evaluate(source, states)),
        Question::Rfc3339 { text } => panic!("no instant is written here: {text}"),
    };
    Answer { question, reply }
}

/// Runs a step until no question is left open.
fn settle<F: Fn(&EvalEnv) -> Dispatch>(step: F) -> Dispatch {
    let mut env = EvalEnv::new();
    loop {
        let mut done = step(&env);
        match done.question.take() {
            Some(question) => env.answers.push(answer(question)),
            None => return done,
        }
    }
}

fn activate(state: &State, cmd: &ActivateState, scope: Option<ThreadRecord>) -> Dispatch {
    settle(|env| harness::activate(state, env, cmd, scope.clone()))
}

fn complete(state: &State, store: Store, cmd: &CompleteState) -> Dispatch {
    settle(|env| harness::complete(state, env, store.clone(), cmd))
}

fn branch() -> Branch {
    Branch {
        start_at: "X".to_string(),
        states: vec![],
    }
}

fn parallel_state(branches: usize, end: Option<bool>) -> State {
    State::Parallel(ParallelState {
        comment: None,
        output: None,
        assign: None,
        next: None,
        end,
        branches: (0..branches).map(|_| branch()).collect(),
        arguments: None,
    })
}

fn slots(indices: &[usize]) -> Vec<Slot> {
    indices
        .iter()
        .map(|i| Slot {
            index: *i,
            thread: child_ref(*i),
        })
        .collect()
}

fn container(indices: &[usize], live: Vec<ObjectReference>) -> ActivityRecord {
    seeded_activity_with(
        path("/States/P"),
        seeded_input(),
        ActivityState::Parallel(ParallelActivityState {
            branches: slots(indices),
        }),
        Lifecycle::Running,
        live,
    )
}

fn settled_branch(index: usize, output: Value, status: Lifecycle) -> ThreadRecord {
    seeded_child_thread(
        path("/States/P").branch(index),
        index,
        output,
        status,
    )
}

fn told(state: State, store: Store, child: ObjectReference) -> Dispatch {
    settle(|env| {
        harness::child_completed(&state, env, store.clone(), &minted_activity_ref(), &child)
    })
}

#[test]
fn every_branch_is_spawned_at_its_own_table() {
    let activated = activate(
        &parallel_state(2, None),
        &activate_cmd(path("/States/P"), seeded_input()),
        Some(seeded_scope(Lifecycle::Running)),
    );

    let chain = activated.chain();
    assert_eq!(chain.len(), 4);
    for (index, payload) in chain[2..].iter().enumerate() {
        assert_eq!(
            *payload,
            EntryPayload::Command(Command::SpawnThread(SpawnThread {
                owner: minted_activity_ref(),
                execution: execution_ref(),
                state_path: Some(path(&format!("/States/P/Branches/{index}/States"))),
                index,
                start_at: "X".to_string(),
                input: seeded_input(),
            }))
        );
    }
}

#[test]
fn the_last_branch_aggregates_the_outputs_in_declared_order() {
    let mut store = Store::new();
    seed_container(
        &mut store,
        container(&[0, 1], vec![]),
        &vec![
            settled_branch(1, number(11), Lifecycle::Completed),
            settled_branch(0, number(10), Lifecycle::Completed),
        ],
    );
    let done = told(parallel_state(2, Some(true)), store, child_ref(1));
    assert_eq!(
        done.chain().last(),
        Some(&EntryPayload::Command(Command::CompleteThread(
            CompleteThread {
                thread: thread_ref(),
                output: Value::Array(vec![number(10), number(11)]),
            }
        )))
    );
}

#[test]
fn a_branch_that_is_still_live_holds_the_parallel_open() {
    let mut store = Store::new();
    seed_container(
        &mut store,
        container(&[0, 1], vec![child_ref(0)]),
        &vec![
            settled_branch(0, Value::Null, Lifecycle::Running),
            settled_branch(1, number(11), Lifecycle::Completed),
        ],
    );
    let done = told(parallel_state(2, Some(true)), store, child_ref(1));
    assert!(done.chain().is_empty(), "{:?}", done.chain());
}

#[test]
fn a_failed_branch_fails_the_parallel() {
    let failure = TerminationReason::Failed {
        error: ExecutionError::Runtime(RuntimeError::NoTerminal),
    };
    let mut store = Store::new();
    seed_container(
        &mut store,
        container(&[0, 1], vec![]),
        &vec![
            settled_branch(0, number(10), Lifecycle::Completed),
            settled_branch(1, Value::Null, Lifecycle::Terminated(failure)),
        ],
    );
    let done = told(parallel_state(2, Some(true)), store, child_ref(1));
    let chain = done.chain();
    assert!(
        matches!(
            &chain[0],
            EntryPayload::Command(Command::TerminateState(TerminateState { activity, .. }))
                if *activity == minted_activity_ref()
        ),
        "{chain:?}"
    );
    assert!(
        matches!(
            chain.last(),
            Some(EntryPayload::Command(Command::TerminateThread(_)))
        ),
        "{chain:?}"
    );
}

#[test]
fn the_finish_of_a_parallel_opens_before_the_assignment() {
    let mut store = Store::new();
    seed_container(
        &mut store,
        container(&[0], vec![]),
        &vec![settled_branch(0, number(10), Lifecycle::Completed)],
    );
    let State::Parallel(mut state) = parallel_state(1, Some(true)) else {
        unreachable!("a parallel");
    };
    state.assign = Some(AssignObject(vec![Member {
        name: "seen".to_string(),
        value: number(1),
    }]));
    let chain = told(State::Parallel(state), store, child_ref(0)).chain();
    assert!(
        matches!(
            chain[..],
            [
                EntryPayload::Event(Event::StateCompleting { .. }),
                EntryPayload::Event(Event::VariablesAssigned(_)),
                EntryPayload::Event(Event::StateCompleted { .. }),
                EntryPayload::Command(Command::CompleteThread(_)),
            ]
        ),
        "{chain:?}"
    );
}
