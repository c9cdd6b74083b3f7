//! The trace of an execution: the line that is logged for each event, and for each refusal.

use vstd::prelude::*;
use vstd::string::*;

use crate::handlers::lifecycle::{or_null, value_or_null};
use crate::id::{RequestId, Timestamp};
use crate::types::error::{ExecutionError, ExecutionErrorView};
use crate::types::event::{group_event_view, Event, EventView};
use crate::types::flow::{FlowVersion, FlowVersionView};
use crate::types::meta::{
    name_text, reference_text, ObjectName, ObjectNameView, ObjectReference, ObjectReferenceView,
};
use crate::types::reject::{Reject, RejectView, RejectionType};
use crate::types::state_path::{pointer_text, state_name};
use crate::types::status::{Lifecycle, LifecycleView};
use crate::types::task::{Task, TaskStatus, TaskView};
use crate::types::timer::TimerPurpose;
use crate::value::{Json, MemberView, Value, Variables};

verus! {

broadcast use group_event_view;

/// How much a line matters. Milestones are `Info`, phases and timers `Debug`, failures `Warn`.
#[derive(Clone, Copy, Debug, PartialEq, Eq, Structural)]
pub enum TraceLevel {
    Debug,
    Info,
    Warn,
}

/// What a field of a line shows.
#[derive(Debug, PartialEq, Eq)]
pub enum TraceValue {
    Text(String),
    Json(Value),
    Name(Option<ObjectName>),
    Owner(Option<ObjectReference>),
    Status(Lifecycle),
    Purpose(TimerPurpose),
    Error(ExecutionError),
    Number(i128),
    Worker(Option<String>),
    Instant(Option<Timestamp>),
    Keys(Vec<String>),
    Request(RequestId),
    Rejection(RejectionType),
}

/// What a [`TraceValue`] holds.
pub enum TraceValueView {
    Text(Seq<char>),
    Json(Json),
    Name(Option<ObjectNameView>),
    Owner(Option<ObjectReferenceView>),
    Status(LifecycleView),
    Purpose(TimerPurpose),
    Error(ExecutionErrorView),
    Number(int),
    Worker(Option<Seq<char>>),
    Instant(Option<Timestamp>),
    Keys(Seq<Seq<char>>),
    Request(RequestId),
    Rejection(RejectionType),
}

impl View for TraceValue {
    type V = TraceValueView;

    open spec fn view(&self) -> TraceValueView {
        match self {
            TraceValue::Text(x) => TraceValueView::Text(x@),
            TraceValue::Json(x) => TraceValueView::Json(x@),
            TraceValue::Name(x) => TraceValueView::Name(x.deep_view()),
            TraceValue::Owner(x) => TraceValueView::Owner(x.deep_view()),
            TraceValue::Status(x) => TraceValueView::Status(x@),
            TraceValue::Purpose(x) => TraceValueView::Purpose(*x),
            TraceValue::Error(x) => TraceValueView::Error(x@),
            TraceValue::Number(x) => TraceValueView::Number(*x as int),
            TraceValue::Worker(x) => TraceValueView::Worker(x.deep_view()),
            TraceValue::Instant(x) => TraceValueView::Instant(*x),
            TraceValue::Keys(x) => TraceValueView::Keys(x.deep_view()),
            TraceValue::Request(x) => TraceValueView::Request(*x),
            TraceValue::Rejection(x) => TraceValueView::Rejection(*x),
        }
    }
}

/// A field of a line.
#[derive(Debug, PartialEq, Eq)]
pub struct TraceField {
    pub name: String,
    pub value: TraceValue,
}

impl View for TraceField {
    type V = (Seq<char>, TraceValueView);

    open spec fn view(&self) -> (Seq<char>, TraceValueView) {
        (self.name@, self.value@)
    }
}

impl DeepView for TraceField {
    type V = (Seq<char>, TraceValueView);

    open spec fn deep_view(&self) -> (Seq<char>, TraceValueView) {
        self.view()
    }
}

impl TraceField {
    fn new(name: &str, value: TraceValue) -> (r: TraceField)
        ensures
            r@ == (name@, value@),
    {
        TraceField { name: name.to_string(), value }
    }
}

/// A line of the trace.
#[derive(Debug, PartialEq, Eq)]
pub struct TraceLine {
    pub level: TraceLevel,
    pub message: String,
    pub fields: Vec<TraceField>,
}

/// What a [`TraceLine`] holds.
pub struct TraceLineView {
    pub level: TraceLevel,
    pub message: Seq<char>,
    pub fields: Seq<(Seq<char>, TraceValueView)>,
}

impl View for TraceLine {
    type V = TraceLineView;

    open spec fn view(&self) -> TraceLineView {
        TraceLineView {
            level: self.level,
            message: self.message@,
            fields: self.fields.deep_view(),
        }
    }
}

impl DeepView for TraceLine {
    type V = TraceLineView;

    open spec fn deep_view(&self) -> TraceLineView {
        self.view()
    }
}

/// The line with the given parts.
pub open spec fn line(
    level: TraceLevel,
    message: Seq<char>,
    fields: Seq<(Seq<char>, TraceValueView)>,
) -> TraceLineView {
    TraceLineView { level, message, fields }
}

fn traced(level: TraceLevel, message: &str, fields: Vec<TraceField>) -> (r: TraceLine)
    ensures
        r@ == line(level, message@, fields.deep_view()),
{
    TraceLine { level, message: message.to_string(), fields }
}

fn fields1(a: TraceField) -> (r: Vec<TraceField>)
    ensures
        r.deep_view() == seq![a@],
{
    let r = vec![a];
    assert(r.deep_view() =~= seq![a@]);
    r
}

fn fields2(a: TraceField, b: TraceField) -> (r: Vec<TraceField>)
    ensures
        r.deep_view() == seq![a@, b@],
{
    let r = vec![a, b];
    assert(r.deep_view() =~= seq![a@, b@]);
    r
}

fn fields3(a: TraceField, b: TraceField, c: TraceField) -> (r: Vec<TraceField>)
    ensures
        r.deep_view() == seq![a@, b@, c@],
{
    let r = vec![a, b, c];
    assert(r.deep_view() =~= seq![a@, b@, c@]);
    r
}

fn fields4(a: TraceField, b: TraceField, c: TraceField, d: TraceField) -> (r: Vec<TraceField>)
    ensures
        r.deep_view() == seq![a@, b@, c@, d@],
{
    let r = vec![a, b, c, d];
    assert(r.deep_view() =~= seq![a@, b@, c@, d@]);
    r
}

/// The name of the flow that a version is of.
pub open spec fn flow_name(version: FlowVersionView) -> Option<ObjectNameView> {
    match version.meta.owner {
        Some(owner) => Some(owner.name),
        None => None,
    }
}

fn name_of_flow(version: &FlowVersion) -> (r: Option<ObjectName>)
    ensures
        r.deep_view() == flow_name(version@),
{
    match &version.meta.owner {
        Some(owner) => Some(owner.name.clone()),
        None => None,
    }
}

/// The worker that the first of some tasks is leased to.
pub open spec fn first_worker(tasks: Seq<TaskView>) -> Option<Seq<char>> {
    if tasks.len() == 0 {
        None
    } else {
        tasks.first().worker_id
    }
}

/// When the lease of the first of some tasks ends.
pub open spec fn first_lease(tasks: Seq<TaskView>) -> Option<Timestamp> {
    if tasks.len() == 0 {
        None
    } else {
        tasks.first().lease_expires_at
    }
}

fn worker_of_first(tasks: &Vec<Task>) -> (r: Option<String>)
    ensures
        r.deep_view() == first_worker(tasks.deep_view()),
{
    if tasks.len() == 0 {
        None
    } else {
        assert(tasks.deep_view().first() == tasks@[0]@);
        tasks[0].worker_id.clone()
    }
}

fn lease_of_first(tasks: &Vec<Task>) -> (r: Option<Timestamp>)
    ensures
        r == first_lease(tasks.deep_view()),
{
    if tasks.len() == 0 {
        None
    } else {
        assert(tasks.deep_view().first() == tasks@[0]@);
        tasks[0].lease_expires_at
    }
}

fn count_of(tasks: &Vec<Task>) -> (r: i128)
    ensures
        r == tasks.deep_view().len(),
{
    tasks.len() as i128
}

/// The names of some variables, in order.
pub open spec fn names_of(variables: Seq<MemberView>) -> Seq<Seq<char>> {
    variables.map_values(|m: MemberView| m.name)
}

fn collect_names(variables: &Variables) -> (r: Vec<String>)
    ensures
        r.deep_view() == names_of(variables@),
{
    let mut names: Vec<String> = Vec::new();
    let mut i: usize = 0;
    while i < variables.entries.len()
        invariant
            i <= variables.entries@.len(),
            names@.len() == i,
            forall|j: int| 0 <= j < i ==> (#[trigger] names@[j])@ == variables.entries@[j].name@,
        decreases variables.entries.len() - i,
    {
        names.push(variables.entries[i].name.clone());
        i += 1;
    }
    assert(names.deep_view() =~= names_of(variables@));
    names
}

/// The line that is logged for an event.
pub open spec fn trace_of(event: EventView) -> TraceLineView {
    match event {
        EventView::FlowCreated(e) => line(
            TraceLevel::Info,
            "flow created (brand-new name entered the system)"@,
            seq![
                ("name"@, TraceValueView::Text(name_text(e.flow.meta.name))),
            ],
        ),
        EventView::FlowVersionCreated(e) => line(
            TraceLevel::Info,
            "flow version created"@,
            seq![
                ("flow_version"@, TraceValueView::Text(reference_text(e.flow_version.reference()))),
                ("name"@, TraceValueView::Name(flow_name(e.flow_version))),
                ("version"@, TraceValueView::Number(e.flow_version.version as int)),
            ],
        ),
        EventView::ExecutionCreated(e) => line(
            TraceLevel::Info,
            "execution created"@,
            seq![
                ("execution"@, TraceValueView::Text(reference_text(e.execution.reference()))),
                ("input"@, TraceValueView::Json(e.execution.input)),
            ],
        ),
        EventView::ExecutionCompleting { execution } => line(
            TraceLevel::Debug,
            "execution completing"@,
            seq![
                ("execution"@, TraceValueView::Text(reference_text(execution.reference()))),
                ("output"@, TraceValueView::Json(or_null(execution.output))),
            ],
        ),
        EventView::ExecutionCompleted { execution } => line(
            TraceLevel::Info,
            "execution completed"@,
            seq![
                ("execution"@, TraceValueView::Text(reference_text(execution.reference()))),
                ("output"@, TraceValueView::Json(or_null(execution.output))),
            ],
        ),
        EventView::ExecutionTerminating { execution } => line(
            TraceLevel::Warn,
            "execution terminating"@,
            seq![
                ("execution"@, TraceValueView::Text(reference_text(execution.reference()))),
                ("reason"@, TraceValueView::Status(execution.status)),
            ],
        ),
        EventView::ExecutionTerminated { execution } => line(
            TraceLevel::Warn,
            "execution terminated"@,
            seq![
                ("execution"@, TraceValueView::Text(reference_text(execution.reference()))),
                ("reason"@, TraceValueView::Status(execution.status)),
            ],
        ),
        EventView::ThreadCreated { thread } => line(
            TraceLevel::Info,
            "thread created (fan-out child)"@,
            seq![
                ("thread"@, TraceValueView::Text(reference_text(thread.reference()))),
                ("root"@, TraceValueView::Text(reference_text(thread.execution))),
            ],
        ),
        EventView::ThreadCompleting { thread } => line(
            TraceLevel::Debug,
            "thread completing"@,
            seq![
                ("thread"@, TraceValueView::Text(reference_text(thread.reference()))),
                ("output"@, TraceValueView::Json(or_null(thread.output))),
            ],
        ),
        EventView::ThreadCompleted { thread } => line(
            TraceLevel::Info,
            "thread completed"@,
            seq![
                ("thread"@, TraceValueView::Text(reference_text(thread.reference()))),
                ("output"@, TraceValueView::Json(or_null(thread.output))),
            ],
        ),
        EventView::ThreadTerminating { thread } => line(
            TraceLevel::Warn,
            "thread terminating"@,
            seq![
                ("thread"@, TraceValueView::Text(reference_text(thread.reference()))),
                ("reason"@, TraceValueView::Status(thread.status)),
            ],
        ),
        EventView::ThreadTerminated { thread } => line(
            TraceLevel::Warn,
            "thread terminated"@,
            seq![
                ("thread"@, TraceValueView::Text(reference_text(thread.reference()))),
                ("reason"@, TraceValueView::Status(thread.status)),
            ],
        ),
        EventView::StateActivating { activity } => line(
            TraceLevel::Debug,
            "entered state"@,
            seq![
                ("activity"@, TraceValueView::Text(reference_text(activity.reference()))),
                ("state"@, TraceValueView::Text(state_name(activity.state_path))),
                ("raw_input"@, TraceValueView::Json(activity.raw_input)),
            ],
        ),
        EventView::StateActivated { activity } => line(
            TraceLevel::Debug,
            "state activated"@,
            seq![
                ("activity"@, TraceValueView::Text(reference_text(activity.reference()))),
            ],
        ),
        EventView::StateCompleting { activity } => line(
            TraceLevel::Debug,
            "state completing"@,
            seq![
                ("activity"@, TraceValueView::Text(reference_text(activity.reference()))),
            ],
        ),
        EventView::StateCompleted { activity } => line(
            TraceLevel::Debug,
            "state completed"@,
            seq![
                ("activity"@, TraceValueView::Text(reference_text(activity.reference()))),
                ("output"@, TraceValueView::Json(or_null(activity.output))),
            ],
        ),
        EventView::StateTerminating { activity } => line(
            TraceLevel::Warn,
            "state terminating"@,
            seq![
                ("activity"@, TraceValueView::Text(reference_text(activity.reference()))),
                ("reason"@, TraceValueView::Status(activity.status)),
            ],
        ),
        EventView::StateTerminated { activity } => line(
            TraceLevel::Warn,
            "state terminated"@,
            seq![
                ("activity"@, TraceValueView::Text(reference_text(activity.reference()))),
                ("reason"@, TraceValueView::Status(activity.status)),
            ],
        ),
        EventView::TimerActivated { timer } => line(
            TraceLevel::Debug,
            "timer activated"@,
            seq![
                ("timer"@, TraceValueView::Text(reference_text(timer.reference()))),
                ("parent"@, TraceValueView::Owner(timer.meta.owner)),
                ("purpose"@, TraceValueView::Purpose(timer.purpose)),
                ("deadline_ms"@, TraceValueView::Number(timer.deadline.0 as int)),
            ],
        ),
        EventView::TimerTriggered { timer } => line(
            TraceLevel::Debug,
            "timer completed"@,
            seq![
                ("timer"@, TraceValueView::Text(reference_text(timer.reference()))),
                ("parent"@, TraceValueView::Owner(timer.meta.owner)),
                ("purpose"@, TraceValueView::Purpose(timer.purpose)),
                ("deadline_ms"@, TraceValueView::Number(timer.deadline.0 as int)),
            ],
        ),
        EventView::TimerCancelled { timer } => line(
            TraceLevel::Debug,
            "timer cancelled"@,
            seq![
                ("timer"@, TraceValueView::Text(reference_text(timer.reference()))),
                ("parent"@, TraceValueView::Owner(timer.meta.owner)),
                ("purpose"@, TraceValueView::Purpose(timer.purpose)),
                ("deadline_ms"@, TraceValueView::Number(timer.deadline.0 as int)),
            ],
        ),
        EventView::TaskActivated { task } => line(
            TraceLevel::Debug,
            "task activated"@,
            seq![
                ("task"@, TraceValueView::Text(reference_text(task.reference()))),
                ("parent"@, TraceValueView::Owner(task.meta.owner)),
                ("resource"@, TraceValueView::Text(task.resource)),
            ],
        ),
        EventView::TasksClaimed(e) => line(
            TraceLevel::Debug,
            "tasks claimed to worker"@,
            seq![
                ("count"@, TraceValueView::Number(e.tasks.len() as int)),
                ("worker"@, TraceValueView::Worker(first_worker(e.tasks))),
                ("lease_expires_at"@, TraceValueView::Instant(first_lease(e.tasks))),
            ],
        ),
        EventView::TaskCompleted(e) => line(
            TraceLevel::Debug,
            "task completed"@,
            seq![
                ("task"@, TraceValueView::Text(reference_text(e.task.reference()))),
                ("output"@, TraceValueView::Json(e.output)),
            ],
        ),
        EventView::TaskFailed(e) => if e.task.status is Pending {
            line(
                TraceLevel::Warn,
                "task failed; retry scheduled"@,
                seq![
                    ("task"@, TraceValueView::Text(reference_text(e.task.reference()))),
                    ("error"@, TraceValueView::Error(e.error)),
                    ("attempts"@, TraceValueView::Number(e.task.retry_state.attempts as int)),
                    (
                        "next_available_at"@,
                        TraceValueView::Instant(e.task.retry_state.next_available_at),
                    ),
                ],
            )
        } else {
            line(
                TraceLevel::Warn,
                "task failed (terminal)"@,
                seq![
                    ("task"@, TraceValueView::Text(reference_text(e.task.reference()))),
                    ("error"@, TraceValueView::Error(e.error)),
                ],
            )
        },
        EventView::TaskCancelled { task } => line(
            TraceLevel::Debug,
            "task cancelled"@,
            seq![
                ("task"@, TraceValueView::Text(reference_text(task.reference()))),
            ],
        ),
        EventView::VariablesAssigned(e) => line(
            TraceLevel::Debug,
            "variables assigned"@,
            seq![
                ("keys"@, TraceValueView::Keys(names_of(e.variables))),
            ],
        ),
        EventView::StateTransitioned(e) => line(
            TraceLevel::Info,
            "state routed to next"@,
            seq![
                ("activity"@, TraceValueView::Text(reference_text(e.activity))),
                ("next"@, TraceValueView::Text(pointer_text(e.next))),
            ],
        ),
        EventView::TaskLeaseExpired { task } => line(
            TraceLevel::Debug,
            "task lease expired"@,
            seq![("task"@, TraceValueView::Text(reference_text(task.reference())))],
        ),
        EventView::ProcessChildCompletedHandled { owner, child } => line(
            TraceLevel::Debug,
            "child completion handled"@,
            seq![
                ("owner"@, TraceValueView::Text(reference_text(owner))),
                ("child"@, TraceValueView::Text(reference_text(child))),
            ],
        ),
    }
}

/// The phases of a state, and timers, are for debugging; the birth and the success of an execution
/// are milestones; and what fails is a warning.
pub proof fn law_levels_go_by_what_happens(event: EventView)
    ensures
        event is StateActivating || event is StateActivated || event is StateCompleting
            || event is StateCompleted || event is TimerActivated || event is TimerTriggered
            || event is TimerCancelled ==> trace_of(event).level is Debug,
        event is ExecutionCreated || event is ExecutionCompleted ==> trace_of(event).level is Info,
        event is ExecutionTerminating || event is ExecutionTerminated || event is ThreadTerminating
            || event is ThreadTerminated || event is StateTerminating || event is StateTerminated
            || event is TaskFailed ==> trace_of(event).level is Warn,
{
}

/// The line that is logged for an event.
#[verifier::rlimit(60)]
pub fn log_event(event: &Event) -> (r: TraceLine)
    ensures
        r@ == trace_of(event@),
{
    match event {
        Event::FlowCreated(e) => traced(
            TraceLevel::Info,
            "flow created (brand-new name entered the system)",
            fields1(
                TraceField::new("name", TraceValue::Text(e.flow.meta.name.as_str())),
            ),
        ),
        Event::FlowVersionCreated(e) => traced(
            TraceLevel::Info,
            "flow version created",
            fields3(
                TraceField::new(
                    "flow_version",
                    TraceValue::Text(e.flow_version.reference().text()),
                ),
                TraceField::new("name", TraceValue::Name(name_of_flow(&e.flow_version))),
                TraceField::new("version", TraceValue::Number(e.flow_version.version as i128)),
            ),
        ),
        Event::ExecutionCreated(e) => traced(
            TraceLevel::Info,
            "execution created",
            fields2(
                TraceField::new("execution", TraceValue::Text(e.execution.reference().text())),
                TraceField::new("input", TraceValue::Json(e.execution.input.clone())),
            ),
        ),
        Event::ExecutionCompleting { execution } => traced(
            TraceLevel::Debug,
            "execution completing",
            fields2(
                TraceField::new("execution", TraceValue::Text(execution.reference().text())),
                TraceField::new("output", TraceValue::Json(value_or_null(&execution.output))),
            ),
        ),
        Event::ExecutionCompleted { execution } => traced(
            TraceLevel::Info,
            "execution completed",
            fields2(
                TraceField::new("execution", TraceValue::Text(execution.reference().text())),
                TraceField::new("output", TraceValue::Json(value_or_null(&execution.output))),
            ),
        ),
        Event::ExecutionTerminating { execution } => traced(
            TraceLevel::Warn,
            "execution terminating",
            fields2(
                TraceField::new("execution", TraceValue::Text(execution.reference().text())),
                TraceField::new("reason", TraceValue::Status(execution.status.clone())),
            ),
        ),
        Event::ExecutionTerminated { execution } => traced(
            TraceLevel::Warn,
            "execution terminated",
            fields2(
                TraceField::new("execution", TraceValue::Text(execution.reference().text())),
                TraceField::new("reason", TraceValue::Status(execution.status.clone())),
            ),
        ),
        Event::ThreadCreated { thread } => traced(
            TraceLevel::Info,
            "thread created (fan-out child)",
            fields2(
                TraceField::new("thread", TraceValue::Text(thread.reference().text())),
                TraceField::new("root", TraceValue::Text(thread.execution.text())),
            ),
        ),
        Event::ThreadCompleting { thread } => traced(
            TraceLevel::Debug,
            "thread completing",
            fields2(
                TraceField::new("thread", TraceValue::Text(thread.reference().text())),
                TraceField::new("output", TraceValue::Json(value_or_null(&thread.output))),
            ),
        ),
        Event::ThreadCompleted { thread } => traced(
            TraceLevel::Info,
            "thread completed",
            fields2(
                TraceField::new("thread", TraceValue::Text(thread.reference().text())),
                TraceField::new("output", TraceValue::Json(value_or_null(&thread.output))),
            ),
        ),
        Event::ThreadTerminating { thread } => traced(
            TraceLevel::Warn,
            "thread terminating",
            fields2(
                TraceField::new("thread", TraceValue::Text(thread.reference().text())),
                TraceField::new("reason", TraceValue::Status(thread.status.clone())),
            ),
        ),
        Event::ThreadTerminated { thread } => traced(
            TraceLevel::Warn,
            "thread terminated",
            fields2(
                TraceField::new("thread", TraceValue::Text(thread.reference().text())),
                TraceField::new("reason", TraceValue::Status(thread.status.clone())),
            ),
        ),
        Event::StateActivating { activity } => traced(
            TraceLevel::Debug,
            "entered state",
            fields3(
                TraceField::new("activity", TraceValue::Text(activity.reference().text())),
                TraceField::new("state", TraceValue::Text(activity.state_path.state_name())),
                TraceField::new("raw_input", TraceValue::Json(activity.raw_input.clone())),
            ),
        ),
        Event::StateActivated { activity } => traced(
            TraceLevel::Debug,
            "state activated",
            fields1(
                TraceField::new("activity", TraceValue::Text(activity.reference().text())),
            ),
        ),
        Event::StateCompleting { activity } => traced(
            TraceLevel::Debug,
            "state completing",
            fields1(
                TraceField::new("activity", TraceValue::Text(activity.reference().text())),
            ),
        ),
        Event::StateCompleted { activity } => traced(
            TraceLevel::Debug,
            "state completed",
            fields2(
                TraceField::new("activity", TraceValue::Text(activity.reference().text())),
                TraceField::new("output", TraceValue::Json(value_or_null(&activity.output))),
            ),
        ),
        Event::StateTerminating { activity } => traced(
            TraceLevel::Warn,
            "state terminating",
            fields2(
                TraceField::new("activity", TraceValue::Text(activity.reference().text())),
                TraceField::new("reason", TraceValue::Status(activity.status.clone())),
            ),
        ),
        Event::StateTerminated { activity } => traced(
            TraceLevel::Warn,
            "state terminated",
            fields2(
                TraceField::new("activity", TraceValue::Text(activity.reference().text())),
                TraceField::new("reason", TraceValue::Status(activity.status.clone())),
            ),
        ),
        Event::TimerActivated { timer } => traced(
            TraceLevel::Debug,
            "timer activated",
            fields4(
                TraceField::new("timer", TraceValue::Text(timer.reference().text())),
                TraceField::new("parent", TraceValue::Owner(timer.meta.owner.clone())),
                TraceField::new("purpose", TraceValue::Purpose(timer.purpose)),
                TraceField::new(
                    "deadline_ms",
                    TraceValue::Number(timer.deadline.as_millis() as i128),
                ),
            ),
        ),
        Event::TimerTriggered { timer } => traced(
            TraceLevel::Debug,
            "timer completed",
            fields4(
                TraceField::new("timer", TraceValue::Text(timer.reference().text())),
                TraceField::new("parent", TraceValue::Owner(timer.meta.owner.clone())),
                TraceField::new("purpose", TraceValue::Purpose(timer.purpose)),
                TraceField::new(
                    "deadline_ms",
                    TraceValue::Number(timer.deadline.as_millis() as i128),
                ),
            ),
        ),
        Event::TimerCancelled { timer } => traced(
            TraceLevel::Debug,
            "timer cancelled",
            fields4(
                TraceField::new("timer", TraceValue::Text(timer.reference().text())),
                TraceField::new("parent", TraceValue::Owner(timer.meta.owner.clone())),
                TraceField::new("purpose", TraceValue::Purpose(timer.purpose)),
                TraceField::new(
                    "deadline_ms",
                    TraceValue::Number(timer.deadline.as_millis() as i128),
                ),
            ),
        ),
        Event::TaskActivated { task } => traced(
            TraceLevel::Debug,
            "task activated",
            fields3(
                TraceField::new("task", TraceValue::Text(task.reference().text())),
                TraceField::new("parent", TraceValue::Owner(task.meta.owner.clone())),
                TraceField::new("resource", TraceValue::Text(task.resource.clone())),
            ),
        ),
        Event::TasksClaimed(e) => traced(
            TraceLevel::Debug,
            "tasks claimed to worker",
            fields3(
                TraceField::new("count", TraceValue::Number(count_of(&e.tasks))),
                TraceField::new("worker", TraceValue::Worker(worker_of_first(&e.tasks))),
                TraceField::new("lease_expires_at", TraceValue::Instant(lease_of_first(&e.tasks))),
            ),
        ),
        Event::TaskCompleted(e) => traced(
            TraceLevel::Debug,
            "task completed",
            fields2(
                TraceField::new("task", TraceValue::Text(e.task.reference().text())),
                TraceField::new("output", TraceValue::Json(e.output.clone())),
            ),
        ),
        Event::TaskFailed(e) => if e.task.status == TaskStatus::Pending {
            traced(
                TraceLevel::Warn,
                "task failed; retry scheduled",
                fields4(
                    TraceField::new("task", TraceValue::Text(e.task.reference().text())),
                    TraceField::new("error", TraceValue::Error(e.error.clone())),
                    TraceField::new(
                        "attempts",
                        TraceValue::Number(e.task.retry_state.attempts as i128),
                    ),
                    TraceField::new(
                        "next_available_at",
                        TraceValue::Instant(e.task.retry_state.next_available_at),
                    ),
                ),
            )
        } else {
            traced(
                TraceLevel::Warn,
                "task failed (terminal)",
                fields2(
                    TraceField::new("task", TraceValue::Text(e.task.reference().text())),
                    TraceField::new("error", TraceValue::Error(e.error.clone())),
                ),
            )
        },
        Event::TaskCancelled { task } => traced(
            TraceLevel::Debug,
            "task cancelled",
            fields1(
                TraceField::new("task", TraceValue::Text(task.reference().text())),
            ),
        ),
        Event::VariablesAssigned(e) => traced(
            TraceLevel::Debug,
            "variables assigned",
            fields1(
                TraceField::new("keys", TraceValue::Keys(collect_names(&e.variables))),
            ),
        ),
        Event::StateTransitioned(e) => traced(
            TraceLevel::Info,
            "state routed to next",
            fields2(
                TraceField::new("activity", TraceValue::Text(e.activity.text())),
                TraceField::new("next", TraceValue::Text(e.next.text())),
            ),
        ),
        Event::TaskLeaseExpired { task } => traced(
            TraceLevel::Debug,
            "task lease expired",
            fields1(TraceField::new("task", TraceValue::Text(task.reference().text()))),
        ),
        Event::ProcessChildCompletedHandled { owner, child } => traced(
            TraceLevel::Debug,
            "child completion handled",
            fields2(
                TraceField::new("owner", TraceValue::Text(owner.text())),
                TraceField::new("child", TraceValue::Text(child.text())),
            ),
        ),
    }
}

/// The line that is logged for a refusal.
pub open spec fn trace_of_reject(reject: RejectView) -> TraceLineView {
    TraceLineView {
        level: TraceLevel::Warn,
        message: "command rejected"@,
        fields: seq![
            ("request_id"@, TraceValueView::Request(reject.request_id)),
            ("rejection_type"@, TraceValueView::Rejection(reject.rejection_type)),
            ("rejection_reason"@, TraceValueView::Text(reject.rejection_reason)),
        ],
    }
}

/// The line that is logged for a refusal.
pub fn log_reject(reject: &Reject) -> (r: TraceLine)
    ensures
        r@ == trace_of_reject(reject@),
{
    TraceLine {
        level: TraceLevel::Warn,
        message: "command rejected".to_string(),
        fields: fields3(
            TraceField::new("request_id", TraceValue::Request(reject.request_id)),
            TraceField::new("rejection_type", TraceValue::Rejection(reject.rejection_type)),
            TraceField::new("rejection_reason", TraceValue::Text(reject.rejection_reason.clone())),
        ),
    }
}

} // verus!
