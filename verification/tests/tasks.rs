//! Tasks: invoked, claimed, completed, failed and retried.

use spica_engine::eval_env::EvalEnv;
use spica_engine::handler::{Collector, HandlerContext};
use spica_engine::handlers::dispatch::{can_dispatch, dispatch_command};
use spica_engine::handlers::states::harness::{
    complete_store, execution_ref, minted_activity_ref, obj_name, seeded_input, uid,
};
use spica_engine::id::{EntryId, RequestId, Timestamp, Uid};
use spica_engine::query::QueryObject;
use spica_engine::storage::store::Store;
use spica_engine::types::command::{
    ActivateTask, ClaimTasks, Command, CompleteState, CompleteTask, FailTask,
};
use spica_engine::types::entry::EntryPayload;
use spica_engine::types::error::{ExecutionError, RuntimeError};
use spica_engine::types::event::{Event, TasksClaimed};
use spica_engine::types::meta::{ObjectKind, ObjectReference};
use spica_engine::types::reject::{Reject, RejectionType};
use spica_engine::types::task::{RetryPolicy, Task, TaskStatus};
use spica_engine::value::{Number, Value};

fn number(n: i128) -> Value {
    Value::Number(Number::Integral(n))
}

const NOW: Timestamp = Timestamp(2_000);

fn context() -> HandlerContext {
    HandlerContext {
        env: EvalEnv::new(),
        definitions: vec![],
        definition_ok: true,
    }
}

fn step(store: Store, command: Command, now: Timestamp) -> (Vec<EntryPayload>, Store) {
    let mut out = Collector::new(store, now, 500);
    assert!(can_dispatch(out.storage(), &command));
    dispatch_command(&command, &context(), &mut out);
    let (entries, store) = out.into_parts(EntryId::new(1));
    (entries.into_iter().map(|e| e.payload).collect(), store)
}

fn task_ref() -> ObjectReference {
    ObjectReference::new(ObjectKind::Task, obj_name("execution-1"), uid(2))
}

fn policy(names: &[&str], max_attempts: u32, ladder: Vec<u64>) -> RetryPolicy {
    RetryPolicy {
        error_equals: names.iter().map(|n| n.to_string()).collect(),
        max_attempts,
        ladder,
    }
}

fn invoked(retry_plan: Vec<RetryPolicy>) -> Store {
    let store = complete_store(seeded_input(), vec![]);
    let (chain, store) = step(
        store,
        Command::ActivateTask(ActivateTask {
            execution: execution_ref(),
            owner: minted_activity_ref(),
            task: task_ref(),
            resource: "mail".to_string(),
            arguments: number(1),
            retry_plan,
            deadline: None,
        }),
        NOW,
    );
    assert!(matches!(
        chain[..],
        [EntryPayload::Event(Event::TaskActivated { .. })]
    ));
    store
}

fn claim(store: Store, worker: &str, now: Timestamp) -> (Vec<Task>, Store) {
    let (chain, store) = step(
        store,
        Command::ClaimTasks(ClaimTasks {
            request_id: RequestId(Uid(40)),
            worker_id: worker.to_string(),
            resource: "mail".to_string(),
            max_tasks: 5,
            lease_seconds: 10,
        }),
        now,
    );
    match &chain[..] {
        [EntryPayload::Event(Event::TasksClaimed(TasksClaimed { tasks, .. }))] => {
            (tasks.clone(), store)
        }
        other => panic!("a claim is answered by one event: {other:?}"),
    }
}

fn boom() -> ExecutionError {
    ExecutionError::Runtime(RuntimeError::StateFailed {
        state: "P".to_string(),
        error: "Boom".to_string(),
        output: Value::Null,
    })
}

fn fail(store: Store, worker: &str, now: Timestamp) -> (Vec<EntryPayload>, Store) {
    step(
        store,
        Command::FailTask(FailTask {
            task: task_ref(),
            worker_id: worker.to_string(),
            error: boom(),
        }),
        now,
    )
}

fn stored(store: &Store) -> Task {
    match store.get_task(&task_ref()) {
        Ok(Some(row)) => row.value,
        other => panic!("the task is stored: {other:?}"),
    }
}

#[test]
fn a_task_is_leased_to_one_worker_until_the_lease_runs_out() {
    let (tasks, store) = claim(invoked(vec![]), "w1", NOW);
    assert_eq!(tasks.len(), 1);
    assert_eq!(tasks[0].worker_id, Some("w1".to_string()));
    assert_eq!(tasks[0].lease_expires_at, Some(Timestamp(12_000)));
    assert_eq!(stored(&store).status, TaskStatus::Running);

    let (tasks, store) = claim(store, "w2", Timestamp(11_999));
    assert!(tasks.is_empty());
    let (tasks, _) = claim(store, "w2", Timestamp(12_000));
    assert_eq!(tasks.len(), 1);
    assert_eq!(tasks[0].worker_id, Some("w2".to_string()));
}

#[test]
fn a_completed_task_completes_its_activity() {
    let (_, store) = claim(invoked(vec![]), "w1", NOW);
    let done = Command::CompleteTask(CompleteTask {
        request_id: RequestId(Uid(41)),
        task: task_ref(),
        worker_id: "w1".to_string(),
        output: number(7),
    });
    let (chain, store) = step(store, done.clone(), NOW);
    assert!(
        matches!(&chain[0], EntryPayload::Event(Event::TaskCompleted(e)) if e.output == number(7))
    );
    assert_eq!(
        chain.last(),
        Some(&EntryPayload::Command(Command::CompleteState(
            CompleteState {
                activity: minted_activity_ref(),
                output: number(7),
            }
        )))
    );
    let (chain, _) = step(store, done, NOW);
    assert_eq!(
        chain,
        vec![EntryPayload::Reject(Reject {
            request_id: RequestId(Uid(41)),
            rejection_type: RejectionType::InvalidState,
            rejection_reason:
                "task task/execution-1 is not currently Running (status Completed); settlement refused"
                    .to_string(),
        })]
    );
}

#[test]
fn a_report_by_another_worker_is_refused() {
    let (_, store) = claim(invoked(vec![]), "w1", NOW);
    let (chain, store) = step(
        store,
        Command::CompleteTask(CompleteTask {
            request_id: RequestId(Uid(41)),
            task: task_ref(),
            worker_id: "w2".to_string(),
            output: number(7),
        }),
        NOW,
    );
    assert_eq!(
        chain,
        vec![EntryPayload::Reject(Reject {
            request_id: RequestId(Uid(41)),
            rejection_type: RejectionType::StateConflict,
            rejection_reason:
                "task task/execution-1 is leased to Some(\"w1\"), not w2; settlement refused"
                    .to_string(),
        })]
    );
    let (chain, _) = fail(store, "w2", NOW);
    assert!(chain.is_empty());
}

#[test]
fn a_task_that_is_not_stored_cannot_be_completed() {
    let (chain, _) = step(
        Store::new(),
        Command::CompleteTask(CompleteTask {
            request_id: RequestId(Uid(41)),
            task: task_ref(),
            worker_id: "w1".to_string(),
            output: Value::Null,
        }),
        NOW,
    );
    assert_eq!(
        chain,
        vec![EntryPayload::Reject(Reject {
            request_id: RequestId(Uid(41)),
            rejection_type: RejectionType::NotFound,
            rejection_reason: "task task/execution-1 not found or not activated".to_string(),
        })]
    );
}

#[test]
fn a_failed_task_waits_for_its_retry() {
    let plan = vec![
        policy(&["Other"], 9, vec![1]),
        policy(&["Boom"], 2, vec![3, 6]),
    ];
    let (_, store) = claim(invoked(plan), "w1", NOW);
    let (chain, store) = fail(store, "w1", NOW);
    assert_eq!(chain.len(), 1);
    let task = stored(&store);
    assert_eq!(task.status, TaskStatus::Pending);
    assert_eq!(task.retry_state.attempts, 1);
    assert_eq!(
        task.retry_state.next_available_at,
        Some(Timestamp(5_000)),
        "the first delay of the policy that matches"
    );
    assert_eq!(task.retry_state.retrier_attempts[0].attempt_count, 0);
    assert_eq!(task.retry_state.retrier_attempts[1].attempt_count, 1);

    let (tasks, store) = claim(store, "w1", Timestamp(4_999));
    assert!(tasks.is_empty(), "the delay has not passed");
    let (tasks, store) = claim(store, "w1", Timestamp(5_000));
    assert_eq!(tasks.len(), 1);

    let (_, store) = fail(store, "w1", Timestamp(5_000));
    assert_eq!(
        stored(&store).retry_state.next_available_at,
        Some(Timestamp(11_000))
    );
    let (_, store) = claim(store, "w1", Timestamp(11_000));
    let (chain, store) = fail(store, "w1", Timestamp(11_000));
    assert_eq!(stored(&store).status, TaskStatus::Failed);
    assert!(
        matches!(
            chain.last(),
            Some(EntryPayload::Command(Command::TerminateThread(_)))
        ),
        "no retry is left, and nothing catches: {chain:?}"
    );
    let (chain, _) = fail(store, "w1", Timestamp(11_000));
    assert!(chain.is_empty(), "a settled task is left alone");
}

#[test]
fn a_lease_that_is_released_puts_the_task_back() {
    let (_, store) = claim(invoked(vec![]), "w1", NOW);
    let release = Command::ReleaseTaskLease { task: task_ref() };
    let (chain, store) = step(store, release.clone(), NOW);
    assert!(matches!(
        chain[..],
        [EntryPayload::Event(Event::TaskLeaseExpired { .. })]
    ));
    assert_eq!(stored(&store).status, TaskStatus::Pending);
    let (chain, store) = step(store, release, NOW);
    assert!(chain.is_empty());
    let (tasks, _) = claim(store, "w2", NOW);
    assert_eq!(tasks.len(), 1);
}

#[test]
fn a_cancelled_task_is_settled() {
    let (chain, store) = step(
        invoked(vec![]),
        Command::CancelTask { task: task_ref() },
        NOW,
    );
    assert!(matches!(
        chain[0],
        EntryPayload::Event(Event::TaskCancelled { .. })
    ));
    assert!(stored(&store).status.is_terminal());
    let (tasks, _) = claim(store, "w1", NOW);
    assert!(tasks.is_empty());
}

#[test]
fn a_stale_report_needs_no_room_for_a_retry() {
    let (_, mut store) = claim(invoked(vec![policy(&["Boom"], 2, vec![3])]), "w1", NOW);
    let mut row = store.get_task(&task_ref()).unwrap().unwrap();
    row.value.retry_state.attempts = u32::MAX;
    store.put(QueryObject::Task(row));
    let report = |worker: &str| {
        Command::FailTask(FailTask {
            task: task_ref(),
            worker_id: worker.to_string(),
            error: boom(),
        })
    };
    assert!(!can_dispatch(&store, &report("w1")), "it cannot be counted");
    assert!(can_dispatch(&store, &report("w2")), "it does not count");
    let (chain, _) = step(store, report("w2"), NOW);
    assert!(chain.is_empty());
}
