//! `Choice` states.

use spica_engine::asl::{AssignObject, ChoiceCondition, ChoiceRule, ChoiceState, State};
use spica_engine::eval_env::{extract_jsonata, Answer, EvalEnv, Question};
use spica_engine::handlers::states::harness::{
    self, activate_cmd, complete_cmd, complete_store, execution_ref, minted_activity,
    minted_activity_ref, path, seeded_input, seeded_scope, thread_ref, Dispatch,
};
use spica_engine::storage::store::Store;
use spica_engine::storage::thread::ThreadRecord;
use spica_engine::types::command::{
    ActivateState, Command, CompleteState, TerminateState, TerminateThread,
};
use spica_engine::types::context::States;
use spica_engine::types::entry::EntryPayload;
use spica_engine::types::error::{ExecutionError, RuntimeError};
use spica_engine::types::event::{Event, StateTransitioned, VariablesAssigned};
use spica_engine::types::state_path::StatePath;
use spica_engine::types::status::{Lifecycle, TerminationReason};
use spica_engine::value::{Member, Number, Value, Variables};

fn number(n: i128) -> Value {
    Value::Number(Number::Integral(n))
}

fn string(s: &str) -> Value {
    Value::String(s.to_string())
}

fn object(members: Vec<(&str, Value)>) -> Value {
    Value::Object(
        members
            .into_iter()
            .map(|(name, value)| Member {
                name: name.to_string(),
                value,
            })
            .collect(),
    )
}

/// A number as an expression yields it.
fn float(s: &str) -> Value {
    Value::Number(Number::Fraction(s.to_string()))
}

fn member<'a>(value: &'a Value, name: &str) -> &'a Value {
    match value {
        Value::Object(members) => members
            .iter()
            .find(|m| m.name == name)
            .map(|m| &m.value)
            .unwrap_or(&Value::Null),
        _ => &Value::Null,
    }
}

/// Evaluates the few expressions that the states here hold.
fn evaluate(source: &str, states: &States) -> Value {
    let source = source.trim();
    let parts: Vec<&str> = source.split(" = ").collect();
    let name = parts[0]
        .strip_prefix("$states.input.")
        .expect("an expression on the input");
    let found = member(&states.input, name).clone();
    if parts.len() == 2 {
        return Value::Bool(found == number(parts[1].parse().expect("a number")));
    }
    match found {
        Value::Number(Number::Integral(n)) => float(&format!("{n}.0")),
        other => other,
    }
}

fn fill(template: &Value, states: &States) -> Value {
    match template {
        Value::String(s) => match extract_jsonata(s) {
            Some(source) => evaluate(&source, states),
            None => template.clone(),
        },
        Value::Array(items) => Value::Array(items.iter().map(|v| fill(v, states)).collect()),
        Value::Object(members) => Value::Object(
            members
                .iter()
                .map(|m| Member {
                    name: m.name.clone(),
                    value: fill(&m.value, states),
                })
                .collect(),
        ),
        other => other.clone(),
    }
}

fn answer(question: Question) -> Answer {
    let reply = match &question {
        Question::Json {
            template, states, ..
        } => Ok(fill(template, states)),
        Question::Expression { source, states, .. } => Ok(evaluate(source, states)),
        Question::Rfc3339 { text } => panic!("no instant is written here: {text}"),
    };
    Answer { question, reply }
}

/// Runs a step until no question is left open.
fn settle<F: Fn(&EvalEnv) -> Dispatch>(step: F) -> Dispatch {
    let mut env = EvalEnv::new();
    loop {
        let mut done = step(&env);
        match done.question.take() {
            Some(question) => env.answers.push(answer(question)),
            None => return done,
        }
    }
}

fn activate(state: &State, cmd: &ActivateState, scope: Option<ThreadRecord>) -> Dispatch {
    settle(|env| harness::activate(state, env, cmd, scope.clone()))
}

fn complete(state: &State, store: Store, cmd: &CompleteState) -> Dispatch {
    settle(|env| harness::complete(state, env, store.clone(), cmd))
}

fn rule(condition: ChoiceCondition, next: &str) -> ChoiceRule {
    ChoiceRule {
        condition: Some(condition),
        next: next.to_string(),
        assign: None,
        output: None,
    }
}

fn choice_state(choices: Vec<ChoiceRule>, default: Option<&str>, output: Option<Value>) -> State {
    State::Choice(ChoiceState {
        comment: None,
        output,
        assign: None,
        default: default.map(str::to_string),
        choices,
    })
}

fn assign(name: &str, value: &str) -> Option<AssignObject> {
    Some(AssignObject(vec![Member {
        name: name.to_string(),
        value: string(value),
    }]))
}

fn entered(chain: &[EntryPayload], at: &StatePath) -> bool {
    matches!(
        chain.last(),
        Some(EntryPayload::Command(Command::ActivateState(ActivateState { state_path, .. })))
            if state_path == at
    )
}

#[test]
fn choice_activate_emits_the_synchronous_success_chain() {
    let activated = activate(
        &choice_state(vec![rule(ChoiceCondition::Bool(true), "P2")], None, None),
        &activate_cmd(path("/States/P"), seeded_input()),
        Some(seeded_scope(Lifecycle::Running)),
    );

    let birth = minted_activity(path("/States/P"), seeded_input());
    let mut processed = birth.clone();
    processed.input = Some(seeded_input());

    assert_eq!(
        activated.chain(),
        vec![
            EntryPayload::Event(Event::StateActivating { activity: birth }),
            EntryPayload::Event(Event::StateActivated {
                activity: processed
            }),
            EntryPayload::Command(Command::CompleteState(CompleteState {
                activity: minted_activity_ref(),
                output: seeded_input(),
            })),
        ]
    );
}

#[test]
fn complete_routes_to_the_matched_rule() {
    let activated = activate(
        &choice_state(vec![rule(ChoiceCondition::Bool(true), "P2")], None, None),
        &activate_cmd(path("/States/P"), seeded_input()),
        Some(seeded_scope(Lifecycle::Running)),
    );
    let Dispatch { store, .. } = activated;
    let completed = complete(
        &choice_state(vec![rule(ChoiceCondition::Bool(true), "P2")], None, None),
        store,
        &complete_cmd(seeded_input()),
    );

    let mut completing = minted_activity(path("/States/P"), seeded_input());
    completing.input = Some(seeded_input());
    completing.raw_output = Some(seeded_input());
    completing.status = Lifecycle::Completing;
    let mut done = completing.clone();
    done.status = Lifecycle::Completed;
    done.output = Some(seeded_input());

    assert_eq!(
        completed.chain(),
        vec![
            EntryPayload::Event(Event::StateCompleting {
                activity: completing
            }),
            EntryPayload::Event(Event::StateCompleted { activity: done }),
            EntryPayload::Event(Event::StateTransitioned(StateTransitioned {
                activity: minted_activity_ref(),
                next: path("/States/P2"),
            })),
            EntryPayload::Command(Command::ActivateState(ActivateState {
                execution: execution_ref(),
                owner: thread_ref(),
                state_path: path("/States/P2"),
                input: seeded_input(),
            })),
        ]
    );
}

#[test]
fn complete_routes_by_the_evaluated_condition() {
    let state = choice_state(
        vec![
            rule(
                ChoiceCondition::Expr("{% $states.input.n = 2 %}".to_string()),
                "P2",
            ),
            rule(
                ChoiceCondition::Expr("{% $states.input.n = 1 %}".to_string()),
                "P3",
            ),
        ],
        None,
        None,
    );
    let completed = complete(
        &state,
        complete_store(seeded_input(), vec![]),
        &complete_cmd(seeded_input()),
    );

    let chain = completed.chain();
    assert!(
        entered(&chain, &path("/States/P3")),
        "the second rule's successor is entered: {:?}",
        chain.last()
    );
}

#[test]
fn complete_falls_back_to_default_when_no_rule_matches() {
    let state = State::Choice(ChoiceState {
        comment: None,
        output: None,
        assign: assign("why", "default"),
        default: Some("P3".to_string()),
        choices: vec![rule(ChoiceCondition::Bool(false), "P2")],
    });
    let completed = complete(
        &state,
        complete_store(seeded_input(), vec![]),
        &complete_cmd(seeded_input()),
    );

    let mut assigned = Variables::new();
    assigned.insert("why".to_string(), string("default"));
    let chain = completed.chain();
    assert!(
        matches!(&chain[1], EntryPayload::Event(Event::VariablesAssigned(VariablesAssigned {
            variables, ..
        })) if *variables == assigned),
        "the state-level Assign applies on the fallback: {:?}",
        chain[1]
    );
    assert!(
        entered(&chain, &path("/States/P3")),
        "the default successor is entered: {:?}",
        chain.last()
    );
}

#[test]
fn complete_prefers_the_matched_rules_assign_and_output() {
    let state = State::Choice(ChoiceState {
        comment: None,
        output: Some(object(vec![("level", string("state"))])),
        assign: assign("level", "state"),
        default: None,
        choices: vec![ChoiceRule {
            condition: Some(ChoiceCondition::Bool(true)),
            next: "P2".to_string(),
            assign: assign("level", "rule"),
            output: Some(object(vec![("level", string("rule"))])),
        }],
    });
    let completed = complete(
        &state,
        complete_store(seeded_input(), vec![]),
        &complete_cmd(seeded_input()),
    );

    let mut assigned = Variables::new();
    assigned.insert("level".to_string(), string("rule"));
    let chain = completed.chain();
    assert!(
        matches!(&chain[1], EntryPayload::Event(Event::VariablesAssigned(VariablesAssigned {
            variables, ..
        })) if *variables == assigned),
        "the rule's Assign wins over the state's: {:?}",
        chain[1]
    );
    assert!(
        matches!(
            chain.last(),
            Some(EntryPayload::Command(Command::ActivateState(ActivateState { input, .. })))
                if *input == object(vec![("level", string("rule"))])
        ),
        "the rule's Output wins over the state's: {:?}",
        chain.last()
    );
}

#[test]
fn complete_terminates_when_no_rule_matches_and_no_default() {
    let state = choice_state(vec![rule(ChoiceCondition::Bool(false), "P2")], None, None);
    let completed = complete(
        &state,
        complete_store(seeded_input(), vec![]),
        &complete_cmd(seeded_input()),
    );

    let reason = TerminationReason::Failed {
        error: ExecutionError::Runtime(RuntimeError::NoChoiceMatched {
            state: "P".to_string(),
        }),
    };
    let mut completing = minted_activity(path("/States/P"), seeded_input());
    completing.input = Some(seeded_input());
    completing.raw_output = Some(seeded_input());
    completing.status = Lifecycle::Completing;
    assert_eq!(
        completed.chain(),
        vec![
            EntryPayload::Event(Event::StateCompleting {
                activity: completing
            }),
            EntryPayload::Command(Command::TerminateState(TerminateState {
                activity: minted_activity_ref(),
                reason: reason.clone(),
            })),
            EntryPayload::Command(Command::TerminateThread(TerminateThread {
                thread: thread_ref(),
                reason,
            })),
        ]
    );
}

#[test]
fn a_condition_that_is_no_boolean_fails_the_state() {
    let state = choice_state(
        vec![rule(
            ChoiceCondition::Expr("{% $states.input.n %}".to_string()),
            "P2",
        )],
        Some("P3"),
        None,
    );
    let completed = complete(
        &state,
        complete_store(seeded_input(), vec![]),
        &complete_cmd(seeded_input()),
    );

    let chain = completed.chain();
    assert!(
        matches!(
            chain.last(),
            Some(EntryPayload::Command(Command::TerminateThread(_)))
        ),
        "a rule that does not decide ends the scope: {:?}",
        chain.last()
    );
}

#[test]
fn a_completion_of_an_activity_that_is_not_stored_is_unwound() {
    let completed = complete(
        &choice_state(vec![], Some("P2"), None),
        Store::new(),
        &complete_cmd(seeded_input()),
    );
    let reason = TerminationReason::Failed {
        error: ExecutionError::Runtime(RuntimeError::StateNotFound(
            "activity activity/execution-0".to_string(),
        )),
    };
    assert_eq!(
        completed.chain()[0],
        EntryPayload::Command(Command::TerminateState(TerminateState {
            activity: minted_activity_ref(),
            reason,
        }))
    );
}
