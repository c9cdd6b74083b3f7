//! The tree of nodes by id.

use spica_engine::asl::{NamedState, State, StateMachine, TaskState};
use spica_engine::eval_env::{Answer, Question};
use spica_engine::id::{
    ActivityId, EntryId, ExecutionId, FlowVersionId, NodeId, RequestId, StreamId, TaskId, TimerId,
    Timestamp, Uid,
};
use spica_engine::node::outbox::{
    Command, Event, ExecutionValue, NodeEntry, Payload, TaskResult,
};
use spica_engine::node::processor::{is_served, Action, Processor, Signal};
use spica_engine::node::storage::{
    Activity, Execution, InMemoryStorage, Status, Timer, TimerPurpose,
};
use spica_engine::types::error::{ExecutionError, RuntimeError};
use spica_engine::types::state_path::StatePath;
use spica_engine::types::status::TerminationReason;
use spica_engine::types::timer::TimerStatus;
use spica_engine::value::{Number, Value, Variables};

const EXECUTION: ExecutionId = ExecutionId(Uid(1));
const ACTIVITY: ActivityId = ActivityId(Uid(2));
const TIMER: TimerId = TimerId(Uid(3));
const TASK: TaskId = TaskId(Uid(4));

fn number(n: i128) -> Value {
    Value::Number(Number::Integral(n))
}

fn execution(status: Status) -> Execution {
    Execution {
        id: EXECUTION,
        flow_version_id: FlowVersionId(Uid(9)),
        root_execution: EXECUTION,
        parent: None,
        state_path: None,
        status,
        current_state: None,
        current_activity: None,
        scope: Variables::new(),
        input: number(0),
        output: None,
        reason: None,
        pending_output: None,
        pending_reason: None,
        active_children: vec![],
    }
}

fn activity(status: Status) -> Activity {
    Activity {
        id: ACTIVITY,
        parent: NodeId::Execution(EXECUTION),
        state_path: StatePath::parse("/States/T").unwrap(),
        status,
        input: number(1),
        retry_count: 2,
        output: None,
        reason: None,
        pending_output: None,
        pending_reason: None,
        active_children: vec![],
    }
}

fn timer(purpose: TimerPurpose, parent: NodeId) -> Timer {
    Timer {
        id: TIMER,
        parent,
        purpose,
        status: TimerStatus::Active,
        deadline: Timestamp(1_500),
    }
}

fn store(purpose: TimerPurpose, parent: NodeId) -> InMemoryStorage {
    let mut store = InMemoryStorage::new();
    store.put_execution(execution(Status::Running));
    store.put_activity(activity(Status::Running));
    store.put_timer(timer(purpose, parent));
    store
}

fn machine(arguments: Option<Value>) -> StateMachine {
    StateMachine {
        start_at: "T".to_string(),
        states: vec![NamedState {
            name: "T".to_string(),
            state: State::Task(TaskState {
                resource: "mail".to_string(),
                arguments,
                ..Default::default()
            }),
        }],
        timeout_seconds: None,
    }
}

fn processor() -> Processor {
    Processor::new(machine(None), EXECUTION)
}

const NOW: Timestamp = Timestamp(7);

fn emitted(
    processor: &Processor,
    command: &Command,
    store: &InMemoryStorage,
    next_uid: u128,
) -> Vec<Payload> {
    let (entries, question) =
        processor.dispatch(command, store, EntryId(4), StreamId(2), NOW, next_uid);
    assert_eq!(question, None);
    for entry in &entries {
        assert_eq!(entry.stream_id, StreamId(2));
        assert_eq!(entry.entry_id, EntryId(0), "the log gives the position");
        assert_eq!(entry.cause_id, Some(EntryId(4)));
        assert_eq!(entry.timestamp, NOW);
    }
    entries.into_iter().map(|entry| entry.payload).collect()
}

fn fire(processor: &Processor, store: &InMemoryStorage) -> Vec<Payload> {
    emitted(processor, &Command::CompleteTimer { timer: TIMER }, store, 100)
}

#[test]
fn arming_a_timer_records_it() {
    let out = emitted(
        &processor(),
        &Command::ActivateTimer {
            parent: NodeId::Activity(ACTIVITY),
            timer: TIMER,
            purpose: TimerPurpose::WaitResume,
            deadline: Timestamp(5),
        },
        &InMemoryStorage::new(),
        1,
    );
    assert_eq!(
        out,
        vec![Payload::Event(Event::TimerActivated {
            parent: NodeId::Activity(ACTIVITY),
            timer: TIMER,
            purpose: TimerPurpose::WaitResume,
            deadline: Timestamp(5),
        })]
    );
}

#[test]
fn a_wait_is_resumed() {
    let store = store(TimerPurpose::WaitResume, NodeId::Activity(ACTIVITY));
    assert_eq!(
        fire(&processor(), &store),
        vec![
            Payload::Event(Event::TimerCompleted { timer: TIMER }),
            Payload::Command(Command::CompleteState { activity: ACTIVITY }),
        ]
    );
}

#[test]
fn a_timer_that_is_not_armed_stays_silent() {
    let mut store = store(TimerPurpose::WaitResume, NodeId::Activity(ACTIVITY));
    let mut cancelled = timer(TimerPurpose::WaitResume, NodeId::Activity(ACTIVITY));
    cancelled.status = TimerStatus::Cancelled;
    store.put_timer(cancelled);
    assert!(fire(&processor(), &store).is_empty());
    assert!(fire(&processor(), &InMemoryStorage::new()).is_empty());
}

#[test]
fn a_retry_invokes_the_task_again() {
    let store = store(TimerPurpose::TaskRetryDelay, NodeId::Activity(ACTIVITY));
    assert_eq!(
        fire(&processor(), &store)[1],
        Payload::Command(Command::ActivateTask {
            parent: NodeId::Activity(ACTIVITY),
            task: TaskId(Uid(100)),
            resource: "mail".to_string(),
            arguments: number(1),
        })
    );
}

#[test]
fn a_retry_evaluates_its_arguments_anew() {
    let store = store(TimerPurpose::TaskRetryDelay, NodeId::Activity(ACTIVITY));
    let mut processor = Processor::new(machine(Some(Value::String("{% 5 %}".to_string()))), EXECUTION);
    let (entries, question) = processor.dispatch(
        &Command::CompleteTimer { timer: TIMER },
        &store,
        EntryId(4),
        StreamId(2),
        NOW,
        100,
    );
    assert_eq!(entries.len(), 1, "the answer is not known yet");
    let question = question.expect("the arguments are asked for");
    let Question::Json { states, .. } = &question else {
        panic!("the arguments are a template: {question:?}");
    };
    assert_eq!(states.retry_count, 2);
    assert_eq!(states.execution_input, Some(number(0)));
    processor.env.answers.push(Answer {
        question,
        reply: Ok(number(5)),
    });
    assert!(
        matches!(&fire(&processor, &store)[1], Payload::Command(Command::ActivateTask { arguments, .. })
            if *arguments == number(5))
    );
}

#[test]
fn a_retry_of_an_activity_that_has_ended_is_dropped() {
    let mut store = store(TimerPurpose::TaskRetryDelay, NodeId::Activity(ACTIVITY));
    store.put_activity(activity(Status::Completed));
    assert_eq!(fire(&processor(), &store).len(), 1);
}

#[test]
fn a_task_past_its_deadline_is_failed() {
    let mut store = store(TimerPurpose::TaskTimeout, NodeId::Activity(ACTIVITY));
    assert_eq!(fire(&processor(), &store).len(), 1, "no task is in flight");
    store.add_child(NodeId::Activity(ACTIVITY), NodeId::Timer(TIMER));
    store.add_child(NodeId::Activity(ACTIVITY), NodeId::Task(TASK));
    assert_eq!(
        fire(&processor(), &store)[1],
        Payload::Command(Command::CompleteTask {
            task: TASK,
            result: TaskResult::Failed(ExecutionError::Runtime(RuntimeError::TimedOut {
                message: "task ran past its TimeoutSeconds deadline (1500)".to_string(),
            })),
        })
    );
}

#[test]
fn an_execution_past_its_deadline_is_terminated() {
    let store = store(TimerPurpose::ExecutionTimeout, NodeId::Execution(EXECUTION));
    assert_eq!(
        fire(&processor(), &store)[1],
        Payload::Command(Command::TerminateExecution {
            id: EXECUTION,
            reason: TerminationReason::Failed {
                error: ExecutionError::Runtime(RuntimeError::TimedOut {
                    message: "execution ran past its TimeoutSeconds deadline (1500)".to_string(),
                }),
            },
        })
    );
}

#[test]
fn a_branch_is_spawned_under_a_running_container() {
    let mut store = store(TimerPurpose::WaitResume, NodeId::Activity(ACTIVITY));
    let spawn = Command::SpawnBranch {
        parent: NodeId::Activity(ACTIVITY),
        root_execution: EXECUTION,
        state_path: StatePath::parse("/States/T/Branches/0/States"),
        branch_index: 0,
        state: "X".to_string(),
        input: number(7),
    };
    let out = emitted(&processor(), &spawn, &store, 100);
    let child = ExecutionId(Uid(100));
    assert_eq!(
        out,
        vec![
            Payload::Event(Event::ExecutionCreated {
                request_id: RequestId::nil(),
                created: ExecutionValue {
                    id: child,
                    flow_version_id: FlowVersionId(Uid(9)),
                    root_execution: EXECUTION,
                    parent: Some(NodeId::Activity(ACTIVITY)),
                    state_path: StatePath::parse("/States/T/Branches/0/States"),
                    status: Status::Running,
                    input: number(7),
                    output: None,
                },
            }),
            Payload::Event(Event::ParallelBranchSpawned {
                activity: ACTIVITY,
                index: 0,
                execution: child,
            }),
            Payload::Command(Command::ActivateState {
                execution: child,
                activity: ActivityId(Uid(101)),
                state: "X".to_string(),
                input: number(7),
            }),
        ]
    );
    store.put_activity(activity(Status::Terminating));
    assert!(emitted(&processor(), &spawn, &store, 100).is_empty());
}

#[test]
fn an_owner_ends_when_its_last_child_has() {
    let mut store = InMemoryStorage::new();
    let mut ending = activity(Status::Completing);
    ending.pending_output = Some(number(8));
    ending.active_children = vec![NodeId::Timer(TIMER)];
    store.put_activity(ending);
    let notice = Command::ChildFinalized {
        parent: NodeId::Activity(ACTIVITY),
        child: NodeId::Timer(TIMER),
    };
    assert!(emitted(&processor(), &notice, &store, 1).is_empty());
    store.remove_child(NodeId::Activity(ACTIVITY), NodeId::Timer(TIMER));
    assert_eq!(
        emitted(&processor(), &notice, &store, 1),
        vec![
            Payload::Event(Event::StateCompleted {
                activity: ACTIVITY,
                output: number(8),
            }),
            Payload::Command(Command::ChildFinalized {
                parent: NodeId::Execution(EXECUTION),
                child: NodeId::Activity(ACTIVITY),
            }),
        ]
    );
}

#[test]
fn a_root_tells_nobody_that_it_ended() {
    let mut store = InMemoryStorage::new();
    store.put_execution(execution(Status::Terminating));
    let notice = Command::ChildFinalized {
        parent: NodeId::Execution(EXECUTION),
        child: NodeId::Activity(ACTIVITY),
    };
    assert_eq!(
        emitted(&processor(), &notice, &store, 1),
        vec![Payload::Event(Event::ExecutionTerminated {
            id: EXECUTION,
            reason: TerminationReason::Cancelled,
        })]
    );
    store.put_execution(execution(Status::Running));
    assert!(emitted(&processor(), &notice, &store, 1).is_empty());
}

#[test]
fn children_are_listed_once() {
    let mut store = InMemoryStorage::default();
    store.put_execution(execution(Status::Running));
    let owner = NodeId::Execution(EXECUTION);
    store.add_child(owner, NodeId::Timer(TIMER));
    store.add_child(owner, NodeId::Timer(TIMER));
    store.add_child(owner, NodeId::Activity(ACTIVITY));
    assert_eq!(
        store.children(owner),
        vec![NodeId::Timer(TIMER), NodeId::Activity(ACTIVITY)]
    );
    store.remove_child(owner, NodeId::Timer(TIMER));
    assert_eq!(store.children(owner), vec![NodeId::Activity(ACTIVITY)]);
    assert!(store.children(NodeId::Timer(TIMER)).is_empty());
    assert!(!store.get_execution(EXECUTION).unwrap().is_terminal());
}

#[test]
fn a_status_tells_its_phase() {
    assert!(Status::Running.is_running());
    assert!(Status::Completing.is_completing());
    assert!(Status::Terminating.is_terminating());
    assert!(Status::Completed.is_terminal());
    assert!(Status::Terminated(TerminationReason::Cancelled).is_terminal());
    assert!(!Status::Terminating.is_terminal());
    assert!(TimerStatus::Active.is_active());
    assert!(TimerStatus::Cancelled.is_terminal());
    assert!(!TimerStatus::Active.is_terminal());
}

fn entry(payload: Payload) -> NodeEntry {
    NodeEntry {
        stream_id: StreamId(2),
        entry_id: EntryId(9),
        cause_id: Some(EntryId(8)),
        timestamp: Timestamp(1),
        payload,
    }
}

#[test]
fn a_command_that_is_read_is_dispatched() {
    let store = store(TimerPurpose::WaitResume, NodeId::Activity(ACTIVITY));
    let read = entry(Payload::Command(Command::CompleteTimer { timer: TIMER }));
    let Action::Append(batch) = processor().step(&Signal::Read(read), &store, NOW, 100) else {
        panic!("the batch is to be written");
    };
    assert_eq!(batch.len(), 2);
    for written in &batch {
        assert_eq!(written.cause_id, Some(EntryId(9)));
        assert_eq!(written.stream_id, StreamId(2));
        assert_eq!(written.timestamp, NOW);
    }
    assert_eq!(
        batch[1].payload,
        Payload::Command(Command::CompleteState { activity: ACTIVITY })
    );
}

#[test]
fn a_command_that_needs_an_answer_asks_first() {
    let store = store(TimerPurpose::TaskRetryDelay, NodeId::Activity(ACTIVITY));
    let processor = Processor::new(machine(Some(Value::String("{% 5 %}".to_string()))), EXECUTION);
    let read = entry(Payload::Command(Command::CompleteTimer { timer: TIMER }));
    assert!(matches!(
        processor.step(&Signal::Read(read), &store, NOW, 100),
        Action::Ask(Question::Json { .. })
    ));
}

#[test]
fn an_event_that_is_read_is_applied_under_its_own_position() {
    let event = Event::TimerCompleted { timer: TIMER };
    let read = entry(Payload::Event(event.clone()));
    assert_eq!(
        processor().step(&Signal::Read(read), &InMemoryStorage::new(), NOW, 1),
        Action::Apply {
            event,
            stream_id: StreamId(2),
            cause_id: EntryId(9),
        }
    );
}

#[test]
fn a_fired_timer_is_written_behind_the_entry_that_armed_it() {
    let store = store(TimerPurpose::WaitResume, NodeId::Activity(ACTIVITY));
    let command = Command::CompleteTimer { timer: TIMER };
    let fired = Signal::Fired {
        stream_id: StreamId(2),
        cause_id: EntryId(6),
        command: command.clone(),
    };
    let Action::Append(mut batch) = processor().step(&fired, &store, NOW, 1) else {
        panic!("the command is to be written");
    };
    assert_eq!(
        batch,
        vec![NodeEntry {
            stream_id: StreamId(2),
            entry_id: EntryId(0),
            cause_id: Some(EntryId(6)),
            timestamp: NOW,
            payload: Payload::Command(command),
        }]
    );
    let mut read = batch.remove(0);
    read.entry_id = EntryId(10);
    let Action::Append(batch) = processor().step(&Signal::Read(read), &store, NOW, 1) else {
        panic!("the command is dispatched when it is read");
    };
    assert_eq!(batch[0].cause_id, Some(EntryId(10)));
}

#[test]
fn only_some_commands_have_a_handler_for_nodes() {
    assert!(is_served(&Command::CompleteTimer { timer: TIMER }));
    assert!(!is_served(&Command::CompleteState { activity: ACTIVITY }));
}
