//! Executions, threads and activities: created, completed and terminated.

use spica_engine::eval_env::EvalEnv;
use spica_engine::handler::{Collector, HandlerContext};
use spica_engine::handlers::dispatch::{can_dispatch, dispatch_command};
use spica_engine::handlers::states::harness::{
    at, complete_store, execution_ref, minted_activity_ref, obj_name, path, seeded_input,
    seeded_scope, thread_ref, uid,
};
use spica_engine::id::{EntryId, RequestId, Timestamp, Uid};
use spica_engine::query::QueryObject;
use spica_engine::storage::execution::ExecutionRecord;
use spica_engine::storage::store::Store;
use spica_engine::types::command::{
    ActivateState, Command, CompleteExecution, CompleteThread, CreateExecution, SpawnThread,
    TerminateExecution, TerminateState, TerminateThread,
};
use spica_engine::types::entry::EntryPayload;
use spica_engine::types::event::Event;
use spica_engine::types::execution::Execution;
use spica_engine::types::meta::{ObjectKind, ObjectMeta, ObjectReference};
use spica_engine::types::reject::{Reject, RejectionType};
use spica_engine::types::status::{Lifecycle, TerminationReason};
use spica_engine::value::{Number, Value};

fn number(n: i128) -> Value {
    Value::Number(Number::Integral(n))
}

const NOW: Timestamp = Timestamp(2_000);

fn context() -> HandlerContext {
    HandlerContext {
        env: EvalEnv::new(),
        definitions: vec![],
        definition_ok: true,
    }
}

fn step(store: Store, command: Command, now: Timestamp) -> (Vec<EntryPayload>, Store) {
    let mut out = Collector::new(store, now, 500);
    assert!(can_dispatch(out.storage(), &command));
    dispatch_command(&command, &context(), &mut out);
    let (entries, store) = out.into_parts(EntryId::new(1));
    (entries.into_iter().map(|e| e.payload).collect(), store)
}

fn running_execution() -> Execution {
    Execution {
        meta: ObjectMeta::born(
            ObjectKind::Execution,
            execution_ref().name,
            execution_ref().uid,
            at(),
            None,
        ),
        flow_version: ObjectReference::nil(),
        status: Lifecycle::Running,
        input: seeded_input(),
        output: None,
    }
}

fn with_execution(mut store: Store, children: Vec<ObjectReference>) -> Store {
    let mut row = ExecutionRecord::from_value(running_execution(), children);
    row.born(at());
    store.put(QueryObject::Execution(row));
    store
}

fn cancelled() -> TerminationReason {
    TerminationReason::Cancelled
}

fn terminate_execution(uid: Option<Uid>) -> Command {
    Command::TerminateExecution(TerminateExecution {
        name: execution_ref().name,
        uid,
        reason: cancelled(),
    })
}

#[test]
fn an_execution_completes_at_once_when_no_timer_is_armed() {
    let complete = Command::CompleteExecution(CompleteExecution {
        execution: execution_ref(),
        output: number(3),
    });
    let (chain, store) = step(with_execution(Store::new(), vec![]), complete.clone(), NOW);
    assert!(matches!(
        chain[..],
        [
            EntryPayload::Event(Event::ExecutionCompleting { .. }),
            EntryPayload::Event(Event::ExecutionCompleted { .. })
        ]
    ));
    let row = store.get_execution(&execution_ref()).unwrap().unwrap();
    assert!(row.is_terminal());
    assert_eq!(row.value.output, Some(number(3)));
    let (chain, _) = step(store, complete, NOW);
    assert!(chain.is_empty());
}

#[test]
fn a_termination_reaches_every_child_first() {
    let store = with_execution(Store::new(), vec![thread_ref()]);
    let (chain, store) = step(store, terminate_execution(None), NOW);
    assert!(matches!(
        chain[0],
        EntryPayload::Event(Event::ExecutionTerminating { .. })
    ));
    assert_eq!(
        chain[1],
        EntryPayload::Command(Command::TerminateThread(TerminateThread {
            thread: thread_ref(),
            reason: cancelled(),
        }))
    );
    assert_eq!(chain.len(), 2, "the end waits for the thread");
    let (chain, _) = step(store, terminate_execution(None), NOW);
    assert_eq!(
        chain,
        vec![EntryPayload::Reject(Reject {
            request_id: RequestId::nil(),
            rejection_type: RejectionType::InvalidState,
            rejection_reason: "terminate_execution: execution execution is Terminating(Cancelled), not running"
                .to_string(),
        })]
    );
}

#[test]
fn a_termination_names_the_incarnation() {
    let store = with_execution(Store::new(), vec![]);
    let (chain, _) = step(store, terminate_execution(Some(Uid(1))), NOW);
    assert_eq!(
        chain,
        vec![EntryPayload::Reject(Reject {
            request_id: RequestId::nil(),
            rejection_type: RejectionType::StateConflict,
            rejection_reason: format!(
                "terminate_execution: execution execution is incarnation {}, not {}",
                Uid(90).text(),
                Uid(1).text()
            ),
        })]
    );
    let (chain, _) = step(Store::new(), terminate_execution(None), NOW);
    assert_eq!(
        chain,
        vec![EntryPayload::Reject(Reject {
            request_id: RequestId::nil(),
            rejection_type: RejectionType::NotFound,
            rejection_reason: "terminate_execution: execution execution not found".to_string(),
        })]
    );
}

#[test]
fn a_terminated_activity_is_off_its_scope() {
    let mut store = complete_store(seeded_input(), vec![]);
    let mut scope = seeded_scope(Lifecycle::Running);
    scope.active_children = vec![minted_activity_ref()];
    store.put(QueryObject::Thread(scope));
    let terminate = Command::TerminateState(TerminateState {
        activity: minted_activity_ref(),
        reason: cancelled(),
    });
    let (chain, store) = step(store, terminate.clone(), NOW);
    assert!(matches!(
        chain[..2],
        [
            EntryPayload::Event(Event::StateTerminating { .. }),
            EntryPayload::Event(Event::StateTerminated { .. })
        ]
    ));
    assert_eq!(store.get_children(&thread_ref()), Ok(vec![]));
    let (again, store_after) = step(store.clone(), terminate, NOW);
    assert_eq!(again[0], chain[1], "a second termination repeats the end");
    assert_eq!(
        store_after.get_activity(&minted_activity_ref()),
        store.get_activity(&minted_activity_ref())
    );
}

#[test]
fn a_completing_thread_waits_for_its_timers() {
    let timer = ObjectReference::new(ObjectKind::Timer, obj_name("execution-3"), uid(3));
    let mut store = Store::new();
    let mut scope = seeded_scope(Lifecycle::Running);
    scope.active_children = vec![timer.clone()];
    store.put(QueryObject::Thread(scope));
    let (chain, _) = step(
        store,
        Command::CompleteThread(CompleteThread {
            thread: thread_ref(),
            output: number(1),
        }),
        NOW,
    );
    assert_eq!(chain.len(), 2);
    assert_eq!(
        chain[1],
        EntryPayload::Command(Command::CancelTimer { timer })
    );
}

#[test]
fn a_taken_name_is_refused() {
    let store = with_execution(Store::new(), vec![]);
    let (chain, _) = step(
        store,
        Command::CreateExecution(CreateExecution {
            request_id: RequestId(Uid(50)),
            name: execution_ref().name,
            flow_version: ObjectReference::nil(),
            input: Value::Null,
        }),
        NOW,
    );
    assert_eq!(
        chain,
        vec![EntryPayload::Reject(Reject {
            request_id: RequestId(Uid(50)),
            rejection_type: RejectionType::AlreadyExists,
            rejection_reason: "create_execution: execution execution already exists".to_string(),
        })]
    );
}

#[test]
fn a_thread_is_spawned_into_its_table() {
    let store = complete_store(seeded_input(), vec![]);
    let spawn = SpawnThread {
        owner: minted_activity_ref(),
        execution: execution_ref(),
        state_path: Some(path("/States/P/Branches/1/States")),
        index: 1,
        start_at: "X".to_string(),
        input: number(5),
    };
    let (chain, store) = step(store, Command::SpawnThread(spawn.clone()), NOW);
    let Some(EntryPayload::Event(Event::ThreadCreated { thread })) = chain.first() else {
        panic!("the thread is born first: {chain:?}");
    };
    assert_eq!(thread.index, 1);
    assert_eq!(thread.meta.uid, Uid(500));
    assert_eq!(
        chain[1],
        EntryPayload::Command(Command::ActivateState(ActivateState {
            execution: execution_ref(),
            owner: thread.reference(),
            state_path: path("/States/P/Branches/1/States/X"),
            input: number(5),
        }))
    );
    assert_eq!(
        store.get_children(&minted_activity_ref()),
        Ok(vec![thread.reference()])
    );
    let mut lost = spawn;
    lost.state_path = None;
    assert!(!can_dispatch(&store, &Command::SpawnThread(lost)));
}

#[test]
fn an_execution_that_has_ended_stays_as_it_ended() {
    let complete = Command::CompleteExecution(CompleteExecution {
        execution: execution_ref(),
        output: number(3),
    });
    let (_, store) = step(with_execution(Store::new(), vec![]), complete.clone(), NOW);
    for command in [
        complete,
        terminate_execution(None),
        Command::ProcessChildCompleted {
            owner: execution_ref(),
            child: thread_ref(),
        },
        Command::ContinueComplete {
            owner: execution_ref(),
        },
        Command::ContinueTerminate {
            owner: execution_ref(),
        },
    ] {
        let (_, after) = step(store.clone(), command, NOW);
        let row = after.get_execution(&execution_ref()).unwrap().unwrap();
        assert_eq!(row.value.status, Lifecycle::Completed);
        assert_eq!(row.value.output, Some(number(3)));
    }
}

#[test]
fn a_finish_ends_as_it_was_opened() {
    let store = with_execution(Store::new(), vec![thread_ref()]);
    let (_, store) = step(store, terminate_execution(None), NOW);
    let complete = Command::CompleteExecution(CompleteExecution {
        execution: execution_ref(),
        output: number(3),
    });
    let (chain, store) = step(store, complete, NOW);
    assert!(chain.is_empty());
    let row = store.get_execution(&execution_ref()).unwrap().unwrap();
    assert_eq!(row.value.status, Lifecycle::Terminating(cancelled()));
}
