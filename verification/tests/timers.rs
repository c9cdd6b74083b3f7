//! Timers: armed, fired and cancelled.

use spica_engine::eval_env::EvalEnv;
use spica_engine::handler::{Collector, HandlerContext};
use spica_engine::handlers::dispatch::{can_dispatch, dispatch_command};
use spica_engine::handlers::states::harness::{
    at, complete_store, execution_ref, minted_activity_ref, obj_name, seeded_activity,
    seeded_input, uid,
};
use spica_engine::id::{EntryId, Timestamp};
use spica_engine::query::QueryObject;
use spica_engine::storage::store::Store;
use spica_engine::types::command::{Command, CompleteState, FailTask, TerminateExecution};
use spica_engine::types::entry::EntryPayload;
use spica_engine::types::error::{ExecutionError, RuntimeError};
use spica_engine::types::event::Event;
use spica_engine::types::meta::{ObjectKind, ObjectMeta, ObjectReference};
use spica_engine::types::status::TerminationReason;
use spica_engine::types::timer::{Timer, TimerPurpose, TimerStatus};

const NOW: Timestamp = Timestamp(2_000);

fn context() -> HandlerContext {
    HandlerContext {
        env: EvalEnv::new(),
        definitions: vec![],
        definition_ok: true,
    }
}

fn step(store: Store, command: Command, now: Timestamp) -> (Vec<EntryPayload>, Store) {
    let mut out = Collector::new(store, now, 500);
    assert!(can_dispatch(out.storage(), &command));
    dispatch_command(&command, &context(), &mut out);
    let (entries, store) = out.into_parts(EntryId::new(1));
    (entries.into_iter().map(|e| e.payload).collect(), store)
}

fn timer(purpose: TimerPurpose, owner: ObjectReference) -> Timer {
    Timer {
        execution: execution_ref(),
        purpose,
        status: TimerStatus::Active,
        deadline: Timestamp(1_500),
        meta: ObjectMeta::born(
            ObjectKind::Timer,
            obj_name("execution-3"),
            uid(3),
            at(),
            Some(owner),
        ),
    }
}

fn armed(purpose: TimerPurpose, owner: ObjectReference) -> (Store, ObjectReference) {
    let mut store = complete_store(seeded_input(), vec![]);
    let timer = timer(purpose, owner);
    let reference = timer.reference();
    store.apply(&Event::TimerActivated { timer }, at());
    (store, reference)
}

#[test]
fn a_wait_resumes_with_its_input_and_only_once() {
    let (store, timer) = armed(TimerPurpose::WaitResume, minted_activity_ref());
    let trigger = Command::TriggerTimer {
        timer: timer.clone(),
    };
    let (chain, store) = step(store, trigger.clone(), NOW);
    assert_eq!(chain.len(), 2);
    assert!(
        matches!(&chain[0], EntryPayload::Event(Event::TimerTriggered { timer })
            if timer.status == TimerStatus::Completed)
    );
    assert_eq!(
        chain[1],
        EntryPayload::Command(Command::CompleteState(CompleteState {
            activity: minted_activity_ref(),
            output: seeded_input(),
        }))
    );
    let (chain, store) = step(store, trigger, NOW);
    assert!(chain.is_empty(), "a timer fires once");
    let (chain, _) = step(store, Command::CancelTimer { timer }, NOW);
    assert!(chain.is_empty(), "and is not cancelled after that");
}

#[test]
fn an_execution_past_its_timeout_is_terminated() {
    let (store, timer) = armed(TimerPurpose::ExecutionTimeout, execution_ref());
    let (chain, _) = step(store, Command::TriggerTimer { timer }, NOW);
    assert_eq!(
        chain[1],
        EntryPayload::Command(Command::TerminateExecution(TerminateExecution {
            name: execution_ref().name,
            uid: Some(execution_ref().uid),
            reason: TerminationReason::Failed {
                error: ExecutionError::Runtime(RuntimeError::TimedOut {
                    message: "execution ran past its TimeoutSeconds deadline (1500)".to_string(),
                }),
            },
        }))
    );
}

#[test]
fn a_task_timeout_without_a_task_brings_about_nothing() {
    let (store, timer) = armed(TimerPurpose::TaskTimeout, minted_activity_ref());
    let (chain, _) = step(store, Command::TriggerTimer { timer }, NOW);
    assert_eq!(chain.len(), 1);
}

#[test]
fn a_task_past_its_timeout_fails() {
    let (mut store, timer) = armed(TimerPurpose::TaskTimeout, minted_activity_ref());
    let task = ObjectReference::new(ObjectKind::Task, obj_name("execution-4"), uid(4));
    store.put(QueryObject::Activity(seeded_activity(
        seeded_input(),
        vec![timer.clone(), task.clone()],
    )));
    let (chain, store) = step(store, Command::TriggerTimer { timer }, NOW);
    assert_eq!(
        store.get_children(&minted_activity_ref()),
        Ok(vec![task.clone()]),
        "the task stays in flight"
    );
    assert_eq!(
        chain[1],
        EntryPayload::Command(Command::FailTask(FailTask {
            task,
            worker_id: String::new(),
            error: ExecutionError::Runtime(RuntimeError::TimedOut {
                message: "task ran past its TimeoutSeconds deadline (1500)".to_string(),
            }),
        }))
    );
}

#[test]
fn a_cancelled_timer_is_off_the_list_of_its_owner() {
    let (store, timer) = armed(TimerPurpose::WaitResume, minted_activity_ref());
    assert_eq!(
        store.get_children(&minted_activity_ref()),
        Ok(vec![timer.clone()])
    );
    let (_, store) = step(
        store,
        Command::CancelTimer {
            timer: timer.clone(),
        },
        NOW,
    );
    assert_eq!(store.get_children(&minted_activity_ref()), Ok(vec![]));
    match store.get_timer(&timer) {
        Ok(Some(row)) => assert_eq!(row.value.status, TimerStatus::Cancelled),
        other => panic!("the timer is stored: {other:?}"),
    }
}
