//! `Map` states.

use spica_engine::asl::{AssignObject, IntOrExpr, ItemProcessor, MapItems, MapState, State};
use spica_engine::eval_env::{extract_jsonata, Answer, EvalEnv, Question};
use spica_engine::handlers::states::harness::{
    self, child_ref, activate_cmd, complete_cmd, complete_store, execution_ref, minted_activity,
    minted_activity_ref, path, seed_container, seeded_activity_with, seeded_child_thread,
    seeded_input, seeded_scope, thread_ref, Dispatch,
};
use spica_engine::storage::activity::ActivityRecord;
use spica_engine::storage::store::Store;
use spica_engine::storage::thread::ThreadRecord;
use spica_engine::types::activity::{Activity, ActivityState, MapActivityState, Slot};
use spica_engine::types::command::{
    ActivateState, Command, CompleteState, CompleteThread, SpawnThread, TerminateState,
    TerminateThread,
};
use spica_engine::types::context::States;
use spica_engine::types::entry::EntryPayload;
use spica_engine::types::error::{ExecutionError, RuntimeError};
use spica_engine::types::event::Event;
use spica_engine::types::meta::ObjectReference;
use spica_engine::types::status::{Lifecycle, TerminationReason};
use spica_engine::value::{Member, Number, Value};

fn number(n: i128) -> Value {
    Value::Number(Number::Integral(n))
}

fn object(members: Vec<(&str, Value)>) -> Value {
    Value::Object(
        members
            .into_iter()
            .map(|(name, value)| Member {
                name: name.to_string(),
                value,
            })
            .collect(),
    )
}

/// A number as an expression yields it.
fn float(s: &str) -> Value {
    Value::Number(Number::Fraction(s.to_string()))
}

fn member<'a>(value: &'a Value, name: &str) -> &'a Value {
    match value {
        Value::Object(members) => members
            .iter()
            .find(|m| m.name == name)
            .map(|m| &m.value)
            .unwrap_or(&Value::Null),
        _ => &Value::Null,
    }
}

/// Evaluates the few expressions that the states here hold.
fn evaluate(source: &str, states: &States) -> Value {
    let source = source.trim();
    let parts: Vec<&str> = source.split(" = ").collect();
    let name = parts[0]
        .strip_prefix("$states.input.")
        .expect("an expression on the input");
    let found = member(&states.input, name).clone();
    if parts.len() == 2 {
        return Value::Bool(found == number(parts[1].parse().expect("a number")));
    }
    match found {
        Value::Number(Number::Integral(n)) => float(&format!("{n}.0")),
        other => other,
    }
}

fn fill(template: &Value, states: &States) -> Value {
    match template {
        Value::String(s) => match extract_jsonata(s) {
            Some(source) => evaluate(&source, states),
            None => template.clone(),
        },
        Value::Array(items) => Value::Array(items.iter().map(|v| fill(v, states)).collect()),
        Value::Object(members) => Value::Object(
            members
                .iter()
                .map(|m| Member {
                    name: m.name.clone(),
                    value: fill(&m.value, states),
                })
                .collect(),
        ),
        other => other.clone(),
    }
}

fn answer(question: Question) -> Answer {
    let reply = match &question {
        Question::Json {
            template, states, ..
        } => Ok(fill(template, states)),
        Question::Expression { source, states, .. } => Ok(evaluate(source, states)),
        Question::Rfc3339 { text } => panic!("no instant is written here: {text}"),
    };
    Answer { question, reply }
}

/// Runs a step until no question is left open.
fn settle<F: Fn(&EvalEnv) -> Dispatch>(step: F) -> Dispatch {
    let mut env = EvalEnv::new();
    loop {
        let mut done = step(&env);
        match done.question.take() {
            Some(question) => env.answers.push(answer(question)),
            None => return done,
        }
    }
}

fn activate(state: &State, cmd: &ActivateState, scope: Option<ThreadRecord>) -> Dispatch {
    settle(|env| harness::activate(state, env, cmd, scope.clone()))
}

fn complete(state: &State, store: Store, cmd: &CompleteState) -> Dispatch {
    settle(|env| harness::complete(state, env, store.clone(), cmd))
}

fn map_state(items: Option<MapItems>, max_concurrency: Option<i64>, end: Option<bool>) -> State {
    State::ItemMap(MapState {
        comment: None,
        output: None,
        assign: None,
        next: None,
        end,
        item_processor: Some(ItemProcessor {
            start_at: "I0".to_string(),
            states: vec![],
        }),
        items,
        max_concurrency: max_concurrency.map(IntOrExpr::Int),
    })
}

fn planned(items: Vec<Value>, max_concurrency: usize) -> ActivityState {
    ActivityState::ItemMap(MapActivityState {
        total: items.len(),
        items,
        max_concurrency,
        children: vec![],
    })
}

fn activated_activity(plan: ActivityState) -> Activity {
    let mut activated = minted_activity(path("/States/P"), seeded_input());
    activated.input = Some(seeded_input());
    activated.activity_state = Some(plan);
    activated
}

fn sealed_activity(input: Value) -> Activity {
    let mut sealed = minted_activity(path("/States/P"), input);
    sealed.activity_state = Some(planned(vec![], 0));
    sealed
}

fn item_spawn(index: usize, input: Value) -> Command {
    Command::SpawnThread(SpawnThread {
        owner: minted_activity_ref(),
        execution: execution_ref(),
        state_path: Some(path("/States/P/ItemProcessor/States")),
        index,
        start_at: "I0".to_string(),
        input,
    })
}

fn item_children(indices: &[usize]) -> Vec<Slot> {
    indices
        .iter()
        .map(|i| Slot {
            index: *i,
            thread: child_ref(*i),
        })
        .collect()
}

fn item_child(index: usize, output: Value, status: Lifecycle) -> ThreadRecord {
    seeded_child_thread(path("/States/P/ItemProcessor/States"), index, output, status)
}

fn planned_container(
    items: Vec<Value>,
    max_concurrency: usize,
    children: Vec<Slot>,
    active_children: Vec<ObjectReference>,
) -> ActivityRecord {
    let total = items.len();
    seeded_activity_with(
        path("/States/P"),
        seeded_input(),
        ActivityState::ItemMap(MapActivityState {
            items,
            total,
            max_concurrency,
            children,
        }),
        Lifecycle::Running,
        active_children,
    )
}

fn told(state: State, store: Store, child: ObjectReference) -> Dispatch {
    settle(|env| {
        harness::child_completed(&state, env, store.clone(), &minted_activity_ref(), &child)
    })
}

#[test]
fn activate_builds_the_iteration_plan_and_fans_the_first_batch_out() {
    let activated = activate(
        &map_state(
            Some(MapItems::Array(vec![number(1), number(2), number(3)])),
            Some(2),
            None,
        ),
        &activate_cmd(path("/States/P"), seeded_input()),
        Some(seeded_scope(Lifecycle::Running)),
    );

    assert_eq!(
        activated.chain(),
        vec![
            EntryPayload::Event(Event::StateActivating {
                activity: sealed_activity(seeded_input())
            }),
            EntryPayload::Event(Event::StateActivated {
                activity: activated_activity(planned(vec![number(1), number(2), number(3)], 2))
            }),
            EntryPayload::Command(item_spawn(0, number(1))),
            EntryPayload::Command(item_spawn(1, number(2))),
        ]
    );
}

#[test]
fn activate_by_defaults_to_the_input_array() {
    let items = Value::Array(vec![number(1), number(2)]);
    let activated = activate(
        &map_state(None, None, None),
        &activate_cmd(path("/States/P"), items.clone()),
        Some(seeded_scope(Lifecycle::Running)),
    );

    let sealed = sealed_activity(items.clone());
    let mut with_plan = sealed.clone();
    with_plan.input = Some(items);
    with_plan.activity_state = Some(planned(vec![number(1), number(2)], 0));

    assert_eq!(
        activated.chain(),
        vec![
            EntryPayload::Event(Event::StateActivating { activity: sealed }),
            EntryPayload::Event(Event::StateActivated {
                activity: with_plan
            }),
            EntryPayload::Command(item_spawn(0, number(1))),
            EntryPayload::Command(item_spawn(1, number(2))),
        ]
    );
}

#[test]
fn activate_fails_when_items_do_not_resolve_to_an_array() {
    let activated = activate(
        &map_state(None, None, None),
        &activate_cmd(path("/States/P"), seeded_input()),
        Some(seeded_scope(Lifecycle::Running)),
    );

    let reason = TerminationReason::Failed {
        error: ExecutionError::Runtime(RuntimeError::InvalidDefinition(
            "Map 'P' has no Items and its input is not an array".to_string(),
        )),
    };
    assert_eq!(
        activated.chain(),
        vec![
            EntryPayload::Event(Event::StateActivating {
                activity: sealed_activity(seeded_input())
            }),
            EntryPayload::Command(Command::TerminateState(TerminateState {
                activity: minted_activity_ref(),
                reason: reason.clone(),
            })),
            EntryPayload::Command(Command::TerminateThread(TerminateThread {
                thread: thread_ref(),
                reason,
            })),
        ]
    );
}

#[test]
fn activate_converges_a_map_with_no_items() {
    let activated = activate(
        &map_state(Some(MapItems::Array(vec![])), Some(2), Some(true)),
        &activate_cmd(path("/States/P"), seeded_input()),
        Some(seeded_scope(Lifecycle::Running)),
    );

    let mut completing = activated_activity(planned(vec![], 2));
    completing.raw_output = Some(seeded_input());
    completing.status = Lifecycle::Completing;
    let mut done = completing.clone();
    done.status = Lifecycle::Completed;
    done.output = Some(Value::Array(vec![]));

    assert_eq!(
        activated.chain(),
        vec![
            EntryPayload::Event(Event::StateActivating {
                activity: sealed_activity(seeded_input())
            }),
            EntryPayload::Event(Event::StateActivated {
                activity: activated_activity(planned(vec![], 2))
            }),
            EntryPayload::Event(Event::StateCompleting {
                activity: completing
            }),
            EntryPayload::Event(Event::StateCompleted { activity: done }),
            EntryPayload::Command(Command::CompleteThread(CompleteThread {
                thread: thread_ref(),
                output: Value::Array(vec![]),
            })),
        ]
    );
}

#[test]
fn complete_completes_the_container_terminal() {
    let ignored = object(vec![("ignored", Value::Bool(true))]);
    let completed = complete(
        &map_state(Some(MapItems::Array(vec![])), Some(2), Some(true)),
        complete_store(seeded_input(), vec![]),
        &complete_cmd(ignored.clone()),
    );

    let mut completing = minted_activity(path("/States/P"), seeded_input());
    completing.input = Some(seeded_input());
    completing.raw_output = Some(ignored);
    completing.status = Lifecycle::Completing;
    let mut done = completing.clone();
    done.status = Lifecycle::Completed;
    done.output = Some(seeded_input());

    assert_eq!(
        completed.chain(),
        vec![
            EntryPayload::Event(Event::StateCompleting {
                activity: completing
            }),
            EntryPayload::Event(Event::StateCompleted { activity: done }),
            EntryPayload::Command(Command::CompleteThread(CompleteThread {
                thread: thread_ref(),
                output: seeded_input(),
            })),
        ]
    );
}

#[test]
fn child_convergence_aggregates_items_in_index_order() {
    let items = vec![number(1), number(2)];
    let mut store = Store::new();
    seed_container(
        &mut store,
        planned_container(items.clone(), 0, item_children(&[0, 1]), vec![]),
        &vec![
            item_child(1, object(vec![("i", number(1))]), Lifecycle::Completed),
            item_child(0, object(vec![("i", number(0))]), Lifecycle::Completed),
        ],
    );

    let aggregated = Value::Array(vec![
        object(vec![("i", number(0))]),
        object(vec![("i", number(1))]),
    ]);
    let completed = told(
        map_state(Some(MapItems::Array(items)), None, Some(true)),
        store,
        child_ref(1),
    );

    let mut finishing = minted_activity(path("/States/P"), seeded_input());
    finishing.input = Some(seeded_input());
    finishing.activity_state = Some(ActivityState::ItemMap(MapActivityState {
        items: vec![number(1), number(2)],
        total: 2,
        max_concurrency: 0,
        children: item_children(&[0, 1]),
    }));
    finishing.raw_output = Some(seeded_input());
    finishing.status = Lifecycle::Completing;
    let mut done = finishing.clone();
    done.status = Lifecycle::Completed;
    done.output = Some(aggregated.clone());

    assert_eq!(
        completed.chain(),
        vec![
            EntryPayload::Event(Event::StateCompleting {
                activity: finishing
            }),
            EntryPayload::Event(Event::StateCompleted { activity: done }),
            EntryPayload::Command(Command::CompleteThread(CompleteThread {
                thread: thread_ref(),
                output: aggregated,
            })),
        ]
    );
}

#[test]
fn child_settle_replenishes_a_freed_slot() {
    let items = vec![number(1), number(2), number(3)];
    let mut store = Store::new();
    seed_container(
        &mut store,
        planned_container(items.clone(), 1, item_children(&[0]), vec![]),
        &vec![item_child(0, Value::Null, Lifecycle::Completed)],
    );

    let completed = told(
        map_state(Some(MapItems::Array(items)), Some(1), Some(true)),
        store,
        child_ref(0),
    );

    assert_eq!(
        completed.chain(),
        vec![EntryPayload::Command(Command::SpawnThread(SpawnThread {
            owner: minted_activity_ref(),
            execution: execution_ref(),
            state_path: Some(path("/States/P/ItemProcessor/States")),
            index: 1,
            start_at: "I0".to_string(),
            input: number(2),
        }))]
    );
}

#[test]
fn child_settle_with_no_free_slot_replenishes_nothing() {
    let items = vec![number(1), number(2), number(3)];
    let mut store = Store::new();
    seed_container(
        &mut store,
        planned_container(
            items.clone(),
            1,
            item_children(&[0, 1]),
            vec![child_ref(0)],
        ),
        &vec![
            item_child(0, Value::Null, Lifecycle::Running),
            item_child(1, Value::Null, Lifecycle::Completed),
        ],
    );

    let completed = told(
        map_state(Some(MapItems::Array(items)), Some(1), Some(true)),
        store,
        child_ref(1),
    );

    assert!(
        completed.chain().is_empty(),
        "a settle with no free slot emits nothing: {:?}",
        completed.chain()
    );
}

#[test]
fn child_failure_fails_the_container() {
    let items = vec![number(1), number(2)];
    let failure = TerminationReason::Failed {
        error: ExecutionError::Runtime(RuntimeError::StateFailed {
            state: "I0".to_string(),
            error: "boom".to_string(),
            output: Value::Null,
        }),
    };
    let mut store = Store::new();
    seed_container(
        &mut store,
        planned_container(
            items.clone(),
            0,
            item_children(&[0, 1]),
            vec![child_ref(0)],
        ),
        &vec![
            item_child(0, Value::Null, Lifecycle::Running),
            item_child(1, Value::Null, Lifecycle::Terminated(failure)),
        ],
    );

    let completed = told(
        map_state(Some(MapItems::Array(items)), None, None),
        store,
        child_ref(1),
    );

    let reason = TerminationReason::Failed {
        error: ExecutionError::Runtime(RuntimeError::StateFailed {
            state: "P".to_string(),
            error: "Map item failed".to_string(),
            output: Value::Null,
        }),
    };
    assert_eq!(
        completed.chain(),
        vec![
            EntryPayload::Command(Command::TerminateState(TerminateState {
                activity: minted_activity_ref(),
                reason: reason.clone(),
            })),
            EntryPayload::Command(Command::TerminateThread(TerminateThread {
                thread: thread_ref(),
                reason,
            })),
        ]
    );
}

#[test]
fn child_settle_ignores_an_unknown_child() {
    let items = vec![number(1), number(2)];
    let mut store = Store::new();
    seed_container(
        &mut store,
        planned_container(items.clone(), 0, item_children(&[0, 1]), vec![]),
        &vec![item_child(0, Value::Null, Lifecycle::Completed)],
    );

    let completed = told(
        map_state(Some(MapItems::Array(items)), None, None),
        store,
        child_ref(9),
    );

    assert!(
        completed.chain().is_empty(),
        "a settle from outside the plan emits nothing: {:?}",
        completed.chain()
    );
}

#[test]
fn items_in_flight_stay_within_the_limit() {
    let items: Vec<Value> = (0..5).map(number).collect();
    let activated = activate(
        &map_state(Some(MapItems::Array(items)), Some(3), None),
        &activate_cmd(path("/States/P"), seeded_input()),
        Some(seeded_scope(Lifecycle::Running)),
    );
    let spawned = activated
        .chain()
        .iter()
        .filter(|p| matches!(p, EntryPayload::Command(Command::SpawnThread(_))))
        .count();
    assert_eq!(spawned, 3);
}

#[test]
fn a_computed_limit_comes_with_a_fraction_of_zero() {
    let State::ItemMap(mut state) = map_state(
        Some(MapItems::Array(vec![number(1), number(2), number(3)])),
        None,
        None,
    ) else {
        unreachable!("a map");
    };
    state.max_concurrency = Some(IntOrExpr::Expr("{% $states.input.n %}".to_string()));
    let activated = activate(
        &State::ItemMap(state),
        &activate_cmd(path("/States/P"), seeded_input()),
        Some(seeded_scope(Lifecycle::Running)),
    );
    let chain = activated.chain();
    assert_eq!(
        chain[1..].to_vec(),
        vec![
            EntryPayload::Event(Event::StateActivated {
                activity: activated_activity(planned(vec![number(1), number(2), number(3)], 1))
            }),
            EntryPayload::Command(item_spawn(0, number(1))),
        ]
    );
}

#[test]
fn the_finish_opens_before_the_assignment() {
    let mut store = Store::new();
    seed_container(
        &mut store,
        planned_container(vec![number(1)], 0, item_children(&[0]), vec![]),
        &vec![item_child(0, number(7), Lifecycle::Completed)],
    );
    let State::ItemMap(mut state) = map_state(None, None, Some(true)) else {
        unreachable!("a map");
    };
    state.assign = Some(AssignObject(vec![Member {
        name: "seen".to_string(),
        value: number(1),
    }]));
    let chain = told(State::ItemMap(state), store, child_ref(0)).chain();
    assert!(
        matches!(
            chain[..],
            [
                EntryPayload::Event(Event::StateCompleting { .. }),
                EntryPayload::Event(Event::VariablesAssigned(_)),
                EntryPayload::Event(Event::StateCompleted { .. }),
                EntryPayload::Command(Command::CompleteThread(_)),
            ]
        ),
        "{chain:?}"
    );
}

#[test]
fn a_failed_assignment_fails_a_map_whose_finish_is_open() {
    let mut store = Store::new();
    seed_container(
        &mut store,
        planned_container(vec![number(1)], 0, item_children(&[0]), vec![]),
        &vec![item_child(0, number(7), Lifecycle::Completed)],
    );
    let State::ItemMap(mut state) = map_state(None, None, Some(true)) else {
        unreachable!("a map");
    };
    state.assign = Some(AssignObject(vec![Member {
        name: "seen".to_string(),
        value: Value::String("{% $oops %}".to_string()),
    }]));
    let state = State::ItemMap(state);
    let step = |env: &EvalEnv| {
        harness::child_completed(
            &state,
            env,
            store.clone(),
            &minted_activity_ref(),
            &child_ref(0),
        )
    };
    let mut env = EvalEnv::new();
    let question = step(&env).question.expect("the assignment is asked for");
    env.answers.push(Answer {
        question,
        reply: Err(ExecutionError::Runtime(RuntimeError::Jsonata {
            field: "Assign".to_string(),
            message: "oops".to_string(),
        })),
    });
    let chain = step(&env).chain();
    assert!(
        matches!(
            chain[..],
            [
                EntryPayload::Event(Event::StateCompleting { .. }),
                EntryPayload::Command(Command::TerminateState(_)),
                EntryPayload::Command(Command::TerminateThread(_)),
            ]
        ),
        "{chain:?}"
    );
}
