//! Whole runs, from the first state to the last.

use spica_engine::asl::{
    Branch, Catcher, ChoiceCondition, ChoiceRule, ChoiceState, IntOrExpr, ItemProcessor, MapState,
    NamedState, ParallelState, PassState, State, StateMachine, SucceedState, TaskState, WaitState,
};
use spica_engine::eval_env::{extract_jsonata, Answer, EvalEnv, Question};
use spica_engine::handler::{Definition, HandlerContext};
use spica_engine::handlers::dispatch::can_dispatch;
use spica_engine::handlers::states::harness::{
    at, activate_cmd, execution_ref, obj_name, path, seeded_input, seeded_scope, thread_ref,
    uid,
};
use spica_engine::id::{EntryId, RequestId, StreamId, Timestamp, Uid};
use spica_engine::leader::Leader;
use spica_engine::log::InMemoryLogStream;
use spica_engine::query::QueryObject;
use spica_engine::storage::execution::ExecutionRecord;
use spica_engine::storage::projection::Projection;
use spica_engine::storage::store::Store;
use spica_engine::stream_processor::StreamProcessor;
use spica_engine::types::command::{
    ClaimTasks, Command, CompleteTask, CreateExecution, FailTask,
};
use spica_engine::types::context::States;
use spica_engine::types::entry::{Entry, EntryPayload};
use spica_engine::types::error::{ExecutionError, RuntimeError};
use spica_engine::types::event::{Event, TasksClaimed};
use spica_engine::types::execution::Execution;
use spica_engine::types::meta::{ObjectKind, ObjectMeta, ObjectName, ObjectReference};
use spica_engine::types::status::{Lifecycle, TerminationReason};
use spica_engine::types::thread::Thread;
use spica_engine::types::timer::{Timer, TimerPurpose};
use spica_engine::value::{Member, Number, Value};

fn number(n: i128) -> Value {
    Value::Number(Number::Integral(n))
}

fn string(s: &str) -> Value {
    Value::String(s.to_string())
}

fn object(members: Vec<(&str, Value)>) -> Value {
    Value::Object(
        members
            .into_iter()
            .map(|(name, value)| Member {
                name: name.to_string(),
                value,
            })
            .collect(),
    )
}

/// A number as an expression yields it.
fn float(s: &str) -> Value {
    Value::Number(Number::Fraction(s.to_string()))
}

fn member<'a>(value: &'a Value, name: &str) -> &'a Value {
    match value {
        Value::Object(members) => members
            .iter()
            .find(|m| m.name == name)
            .map(|m| &m.value)
            .unwrap_or(&Value::Null),
        _ => &Value::Null,
    }
}

/// Evaluates the few expressions that the states here hold.
fn evaluate(source: &str, states: &States) -> Value {
    let source = source.trim();
    let parts: Vec<&str> = source.split(" = ").collect();
    let name = parts[0]
        .strip_prefix("$states.input.")
        .expect("an expression on the input");
    let found = member(&states.input, name).clone();
    if parts.len() == 2 {
        return Value::Bool(found == number(parts[1].parse().expect("a number")));
    }
    match found {
        Value::Number(Number::Integral(n)) => float(&format!("{n}.0")),
        other => other,
    }
}

fn fill(template: &Value, states: &States) -> Value {
    match template {
        Value::String(s) => match extract_jsonata(s) {
            Some(source) => evaluate(&source, states),
            None => template.clone(),
        },
        Value::Array(items) => Value::Array(items.iter().map(|v| fill(v, states)).collect()),
        Value::Object(members) => Value::Object(
            members
                .iter()
                .map(|m| Member {
                    name: m.name.clone(),
                    value: fill(&m.value, states),
                })
                .collect(),
        ),
        other => other.clone(),
    }
}

fn answer(question: Question) -> Answer {
    let reply = match &question {
        Question::Json {
            template, states, ..
        } => Ok(fill(template, states)),
        Question::Expression { source, states, .. } => Ok(evaluate(source, states)),
        Question::Rfc3339 { text } => panic!("no instant is written here: {text}"),
    };
    Answer { question, reply }
}

const NOW: Timestamp = Timestamp(2_000);

fn named(name: &str, state: State) -> NamedState {
    NamedState {
        name: name.to_string(),
        state,
    }
}

fn succeed(name: &str) -> NamedState {
    named(name, State::Succeed(SucceedState::default()))
}

fn machine(states: Vec<NamedState>) -> StateMachine {
    StateMachine {
        start_at: states[0].name.clone(),
        states,
        timeout_seconds: None,
    }
}

fn version() -> ObjectReference {
    ObjectReference::new(ObjectKind::FlowVersion, obj_name("flow-1"), uid(70))
}

/// A run in progress: the leader, what it has committed, and the log.
struct Run {
    leader: Leader,
    projection: Projection,
    log: InMemoryLogStream,
    ctx: HandlerContext,
    next: i64,
    next_uid: u128,
    events: Vec<Event>,
}

impl Run {
    /// Enters the machine in the root thread of an execution.
    fn start(machine: StateMachine, input: Value) -> Run {
        let mut store = Store::new();
        let mut execution = ExecutionRecord::from_value(
            Execution {
                meta: ObjectMeta::born(
                    ObjectKind::Execution,
                    execution_ref().name,
                    execution_ref().uid,
                    at(),
                    None,
                ),
                flow_version: version(),
                status: Lifecycle::Running,
                input: input.clone(),
                output: None,
            },
            vec![thread_ref()],
        );
        execution.born(at());
        store.put(QueryObject::Execution(execution));
        store.put(QueryObject::Thread(seeded_scope(Lifecycle::Running)));
        let mut enter = path("/States");
        enter.push_back(&machine.start_at);
        let mut log = InMemoryLogStream::new(StreamId(1));
        log.append(&vec![command(Command::ActivateState(activate_cmd(
            enter, input,
        )))]);
        let mut projection = Projection::new();
        projection.commit(store, Some(0));
        Run {
            leader: Leader::new(),
            projection,
            log,
            ctx: HandlerContext {
                env: EvalEnv::new(),
                definitions: vec![Definition {
                    version: version(),
                    machine,
                }],
                definition_ok: true,
            },
            next: 1,
            next_uid: 1_000,
            events: vec![],
        }
    }

    /// Reads on to the end of the log.
    fn drive(&mut self) {
        assert!(self.ctx.validate());
        while let Some(entry) = self.log.read(EntryId::new(self.next)).cloned() {
            if let EntryPayload::Command(command) = &entry.payload {
                assert!(can_dispatch(self.projection.store(), command));
            }
            let report = StreamProcessor::lead(
                &mut self.leader,
                &mut self.projection,
                &mut self.log,
                &self.ctx,
                &entry,
                NOW,
                self.next_uid,
            )
            .expect("there is room in the log");
            if let Some(question) = report.question {
                self.ctx.env.answers.push(answer(question));
                continue;
            }
            self.events.extend(report.applied);
            self.next_uid += 100;
            self.next += 1;
        }
        assert!(self.projection.store().is_in_order());
    }

    fn submit(&mut self, inner: Command) {
        self.log.append(&vec![command(inner)]);
        self.drive();
    }

    fn thread(&self) -> Thread {
        self.projection
            .store()
            .get_thread(&thread_ref())
            .unwrap()
            .unwrap()
            .value
    }

    fn entered(&self) -> Vec<String> {
        self.events
            .iter()
            .filter_map(|e| match e {
                Event::StateActivating { activity } => Some(activity.state_path.state_name()),
                _ => None,
            })
            .collect()
    }

    /// Folding the whole log from the start gives the rows that were committed.
    fn replayed(&self, mut store: Store) -> Store {
        for entry in self.log.entries() {
            if let EntryPayload::Event(event) = &entry.payload {
                store.apply(event, entry.timestamp);
            }
        }
        store
    }
}

fn command(inner: Command) -> Entry {
    Entry {
        stream_id: StreamId::nil(),
        entry_id: EntryId::nil(),
        cause_id: None,
        timestamp: NOW,
        payload: EntryPayload::Command(inner),
    }
}

#[test]
fn a_run_goes_from_state_to_state() {
    let mut run = Run::start(
        machine(vec![
            named(
                "A",
                State::Pass(PassState {
                    output: Some(object(vec![("m", string("{% $states.input.n %}"))])),
                    next: Some("B".to_string()),
                    ..Default::default()
                }),
            ),
            named(
                "B",
                State::Choice(ChoiceState {
                    choices: vec![ChoiceRule {
                        condition: Some(ChoiceCondition::Bool(true)),
                        next: "C".to_string(),
                        assign: None,
                        output: None,
                    }],
                    ..Default::default()
                }),
            ),
            succeed("C"),
        ]),
        seeded_input(),
    );
    run.drive();
    assert_eq!(run.entered(), vec!["A", "B", "C"]);
    let thread = run.thread();
    assert_eq!(thread.status, Lifecycle::Completed);
    assert_eq!(thread.output, Some(object(vec![("m", float("1.0"))])));
}

#[test]
fn a_fan_out_converges_in_order() {
    let branch = || Branch {
        start_at: "X".to_string(),
        states: vec![succeed("X")],
    };
    let mut run = Run::start(
        machine(vec![
            named(
                "P",
                State::Parallel(ParallelState {
                    comment: None,
                    output: None,
                    assign: None,
                    next: Some("M".to_string()),
                    end: None,
                    branches: vec![branch(), branch()],
                    arguments: None,
                }),
            ),
            named(
                "M",
                State::ItemMap(MapState {
                    comment: None,
                    output: None,
                    assign: None,
                    next: None,
                    end: Some(true),
                    item_processor: Some(ItemProcessor {
                        start_at: "Y".to_string(),
                        states: vec![succeed("Y")],
                    }),
                    items: None,
                    max_concurrency: Some(IntOrExpr::Int(1)),
                }),
            ),
        ]),
        number(6),
    );
    run.drive();
    assert_eq!(run.entered(), vec!["P", "X", "X", "M", "Y", "Y"]);
    let thread = run.thread();
    assert_eq!(thread.status, Lifecycle::Completed);
    assert_eq!(
        thread.output,
        Some(Value::Array(vec![number(6), number(6)]))
    );
}

#[test]
fn a_wait_is_resumed_by_its_timer() {
    let mut run = Run::start(
        machine(vec![
            named(
                "W",
                State::Wait(WaitState {
                    seconds: Some(IntOrExpr::Int(5)),
                    next: Some("S".to_string()),
                    ..Default::default()
                }),
            ),
            succeed("S"),
        ]),
        number(1),
    );
    run.drive();
    assert_eq!(run.thread().status, Lifecycle::Running);
    let timer = run
        .events
        .iter()
        .find_map(|e| match e {
            Event::TimerActivated { timer } => Some(timer.clone()),
            _ => None,
        })
        .expect("the wait arms a timer");
    assert_eq!(timer.deadline, Timestamp(7_000));
    run.submit(Command::TriggerTimer {
        timer: timer.reference(),
    });
    assert_eq!(run.entered(), vec!["W", "S"]);
    assert_eq!(run.thread().status, Lifecycle::Completed);
}

#[test]
fn a_task_is_worked_on_by_a_worker() {
    let mut run = Run::start(
        machine(vec![named(
            "T",
            State::Task(TaskState {
                resource: "mail".to_string(),
                end: Some(true),
                ..Default::default()
            }),
        )]),
        number(1),
    );
    run.drive();
    run.submit(Command::ClaimTasks(ClaimTasks {
        request_id: RequestId(Uid(5)),
        worker_id: "w".to_string(),
        resource: "mail".to_string(),
        max_tasks: 1,
        lease_seconds: 60,
    }));
    let task = run
        .events
        .iter()
        .find_map(|e| match e {
            Event::TasksClaimed(TasksClaimed { tasks, .. }) => tasks.first().cloned(),
            _ => None,
        })
        .expect("the task is handed out");
    assert_eq!(task.arguments, number(1));
    run.submit(Command::CompleteTask(CompleteTask {
        request_id: RequestId(Uid(6)),
        task: task.reference(),
        worker_id: "w".to_string(),
        output: number(9),
    }));
    let thread = run.thread();
    assert_eq!(thread.status, Lifecycle::Completed);
    assert_eq!(thread.output, Some(number(9)));
}

#[test]
fn a_caught_failure_goes_on_at_the_catcher() {
    let mut run = Run::start(
        machine(vec![
            named(
                "T",
                State::Task(TaskState {
                    resource: "mail".to_string(),
                    end: Some(true),
                    catch: vec![Catcher {
                        error_equals: vec!["States.ALL".to_string()],
                        next: "S".to_string(),
                        assign: None,
                        output: None,
                    }],
                    ..Default::default()
                }),
            ),
            succeed("S"),
        ]),
        number(1),
    );
    run.drive();
    let task = run
        .events
        .iter()
        .find_map(|e| match e {
            Event::TaskActivated { task } => Some(task.reference()),
            _ => None,
        })
        .expect("the task is invoked");
    run.submit(Command::FailTask(FailTask {
        task,
        worker_id: String::new(),
        error: ExecutionError::Runtime(RuntimeError::Cancelled {
            message: "stop".to_string(),
        }),
    }));
    assert_eq!(run.entered(), vec!["T", "S"]);
    assert_eq!(run.thread().status, Lifecycle::Completed);
}

#[test]
fn the_store_is_the_fold_of_the_log() {
    let mut run = Run::start(machine(vec![succeed("A")]), number(1));
    let before = run.projection.begin_txn();
    run.drive();
    let replayed = run.replayed(before);
    let committed = run.projection.store();
    assert_eq!(replayed.len(), committed.len());
    for i in 0..committed.len() {
        let (kind, name) = committed.key_at(i);
        assert_eq!(replayed.find(kind, name), committed.find(kind, name));
    }
}

impl Run {
    /// Creates an execution of the machine in an empty store.
    fn create(machine: StateMachine, store: Store) -> Run {
        let mut run = Run::start(machine, number(1));
        run.log = InMemoryLogStream::new(StreamId(1));
        run.log.append(&vec![command(Command::CreateExecution(CreateExecution {
            request_id: RequestId(Uid(50)),
            name: ObjectName::plain("run"),
            flow_version: version(),
            input: number(1),
        }))]);
        run.projection.commit(store, Some(0));
        run
    }

    fn created(&self) -> Execution {
        let probe = ObjectReference::new(ObjectKind::Execution, ObjectName::plain("run"), uid(0));
        self.projection
            .store()
            .get_execution(&probe)
            .unwrap()
            .unwrap()
            .value
    }

    fn timers(&self) -> Vec<Timer> {
        self.events
            .iter()
            .filter_map(|e| match e {
                Event::TimerActivated { timer } => Some(timer.clone()),
                _ => None,
            })
            .collect()
    }
}

#[test]
fn a_timeout_leaves_the_name_counter_alone() {
    let mut timed = machine(vec![succeed("A")]);
    timed.timeout_seconds = Some(60);
    let mut run = Run::create(timed, Store::new());
    let first = run.log.read(EntryId::new(1)).cloned().unwrap();
    let report = StreamProcessor::lead(
        &mut run.leader,
        &mut run.projection,
        &mut run.log,
        &run.ctx,
        &first,
        NOW,
        10,
    )
    .expect("there is room in the log");
    run.events.extend(report.applied);
    let timers = run.timers();
    assert_eq!(timers.len(), 1);
    assert_eq!(run.created().meta.uid, Uid(10));
    assert_eq!(timers[0].meta.uid, Uid(11));
    assert_eq!(timers[0].meta.name.as_str(), "run-bbbbbbbq");
    assert_eq!(timers[0].meta.owner, Some(run.created().reference()));
    assert_eq!(timers[0].purpose, TimerPurpose::ExecutionTimeout);
    assert_eq!(timers[0].deadline, Timestamp(62_000));
    assert_eq!(run.projection.store().next_generated_seq(), 0);
}

#[test]
fn a_created_execution_without_a_thread_fails_at_its_first_state() {
    let mut run = Run::create(machine(vec![succeed("A")]), Store::new());
    run.drive();
    assert_eq!(run.entered(), Vec::<String>::new());
    let execution = run.created();
    assert_eq!(
        execution.status,
        Lifecycle::Terminated(TerminationReason::Failed {
            error: ExecutionError::Runtime(RuntimeError::StateNotFound(
                "execution execution/run".to_string()
            )),
        })
    );
}

#[test]
fn a_created_execution_starts_in_the_thread_of_its_name() {
    let mut store = Store::new();
    let mut scope = seeded_scope(Lifecycle::Running);
    scope.value.meta.name = ObjectName::plain("run");
    store.put(QueryObject::Thread(scope));
    let mut run = Run::create(machine(vec![succeed("A")]), store);
    run.drive();
    assert_eq!(run.entered(), vec!["A"]);
}

#[test]
fn after_a_replay_no_stored_name_is_drawn_again() {
    let branch = || Branch {
        start_at: "X".to_string(),
        states: vec![succeed("X")],
    };
    let mut run = Run::start(
        machine(vec![named(
            "P",
            State::Parallel(ParallelState {
                comment: None,
                output: None,
                assign: None,
                next: None,
                end: Some(true),
                branches: vec![branch(), branch()],
                arguments: None,
            }),
        )]),
        number(1),
    );
    let before = run.projection.begin_txn();
    run.drive();
    let replayed = run.replayed(before);
    let next = replayed.next_generated_seq();
    assert_eq!(next, run.projection.store().next_generated_seq());
    let name = execution_ref().name.generated_from_key(next);
    let last = execution_ref().name.generated_from_key(next - 1);
    for kind in [ObjectKind::Thread, ObjectKind::Activity, ObjectKind::Timer, ObjectKind::Task] {
        assert!(replayed.find(kind, &name).is_none());
    }
    assert!(replayed.find(ObjectKind::Activity, &last).is_some());
}
