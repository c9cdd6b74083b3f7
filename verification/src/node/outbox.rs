//! The commands and events of nodes, and the outbox that a handler emits them into.

use vstd::prelude::*;

use crate::eval_env::{clone_reply, reply_view, EvalEnv, Question, QuestionView};
use crate::handler::reply;
use crate::id::{
    ActivityId, EntryId, ExecutionId, FlowVersionId, NodeId, RequestId, StreamId, TaskId, TimerId,
    Timestamp, Uid,
};
use crate::node::storage::{Status, StatusView, TimerPurpose};
use crate::types::error::{ExecutionError, ExecutionErrorView, InfraError};
use crate::types::state_path::StatePath;
use crate::types::status::{TerminationReason, TerminationReasonView};
use crate::value::{Json, Value};

verus! {

/// How the work of a task ended.
#[derive(Debug, PartialEq, Eq)]
pub enum TaskResult {
    Completed(Value),
    Failed(ExecutionError),
}

/// What a [`TaskResult`] holds.
pub enum TaskResultView {
    Completed(Json),
    Failed(ExecutionErrorView),
}

impl View for TaskResult {
    type V = TaskResultView;

    open spec fn view(&self) -> TaskResultView {
        match self {
            TaskResult::Completed(x) => TaskResultView::Completed(x@),
            TaskResult::Failed(x) => TaskResultView::Failed(x@),
        }
    }
}

impl DeepView for TaskResult {
    type V = TaskResultView;

    open spec fn deep_view(&self) -> TaskResultView {
        self.view()
    }
}

impl Clone for TaskResult {
    fn clone(&self) -> (r: Self)
        ensures
            r@ == self@,
    {
        match self {
            TaskResult::Completed(x) => TaskResult::Completed(x.clone()),
            TaskResult::Failed(x) => TaskResult::Failed(x.clone()),
        }
    }
}

/// An execution, as the event that creates it records it.
#[derive(Debug, PartialEq, Eq)]
pub struct ExecutionValue {
    pub id: ExecutionId,
    pub flow_version_id: FlowVersionId,
    pub root_execution: ExecutionId,
    pub parent: Option<NodeId>,
    pub state_path: Option<StatePath>,
    pub status: Status,
    pub input: Value,
    pub output: Option<Value>,
}

/// What a [`ExecutionValue`] holds.
pub struct ExecutionValueView {
    pub id: ExecutionId,
    pub flow_version_id: FlowVersionId,
    pub root_execution: ExecutionId,
    pub parent: Option<NodeId>,
    pub state_path: Option<Seq<Seq<char>>>,
    pub status: StatusView,
    pub input: Json,
    pub output: Option<Json>,
}

impl View for ExecutionValue {
    type V = ExecutionValueView;

    open spec fn view(&self) -> ExecutionValueView {
        ExecutionValueView {
            id: self.id,
            flow_version_id: self.flow_version_id,
            root_execution: self.root_execution,
            parent: self.parent,
            state_path: self.state_path.deep_view(),
            status: self.status@,
            input: self.input@,
            output: self.output.deep_view(),
        }
    }
}

impl DeepView for ExecutionValue {
    type V = ExecutionValueView;

    open spec fn deep_view(&self) -> ExecutionValueView {
        self.view()
    }
}

impl Clone for ExecutionValue {
    fn clone(&self) -> (r: Self)
        ensures
            r@ == self@,
    {
        ExecutionValue {
            id: self.id,
            flow_version_id: self.flow_version_id,
            root_execution: self.root_execution,
            parent: self.parent,
            state_path: self.state_path.clone(),
            status: self.status.clone(),
            input: self.input.clone(),
            output: self.output.clone(),
        }
    }
}

/// What is to be done with a node.
#[derive(Debug, PartialEq, Eq)]
pub enum Command {
    ActivateTimer { parent: NodeId, timer: TimerId, purpose: TimerPurpose, deadline: Timestamp },
    CompleteTimer { timer: TimerId },
    ActivateState { execution: ExecutionId, activity: ActivityId, state: String, input: Value },
    CompleteState { activity: ActivityId },
    ActivateTask { parent: NodeId, task: TaskId, resource: String, arguments: Value },
    /// The work of a task ended.
    CompleteTask { task: TaskId, result: TaskResult },
    TerminateExecution { id: ExecutionId, reason: TerminationReason },
    SpawnBranch { parent: NodeId, root_execution: ExecutionId, state_path: Option<StatePath>, branch_index: usize, state: String, input: Value },
    /// A child of `parent` has ended.
    ChildFinalized { parent: NodeId, child: NodeId },
}

/// What a [`Command`] holds.
pub enum CommandView {
    ActivateTimer { parent: NodeId, timer: TimerId, purpose: TimerPurpose, deadline: Timestamp },
    CompleteTimer { timer: TimerId },
    ActivateState { execution: ExecutionId, activity: ActivityId, state: Seq<char>, input: Json },
    CompleteState { activity: ActivityId },
    ActivateTask { parent: NodeId, task: TaskId, resource: Seq<char>, arguments: Json },
    CompleteTask { task: TaskId, result: TaskResultView },
    TerminateExecution { id: ExecutionId, reason: TerminationReasonView },
    SpawnBranch { parent: NodeId, root_execution: ExecutionId, state_path: Option<Seq<Seq<char>>>, branch_index: usize, state: Seq<char>, input: Json },
    ChildFinalized { parent: NodeId, child: NodeId },
}

impl View for Command {
    type V = CommandView;

    open spec fn view(&self) -> CommandView {
        match self {
            Command::ActivateTimer { parent, timer, purpose, deadline } => CommandView::ActivateTimer { parent: *parent, timer: *timer, purpose: *purpose, deadline: *deadline },
            Command::CompleteTimer { timer } => CommandView::CompleteTimer { timer: *timer },
            Command::ActivateState { execution, activity, state, input } => CommandView::ActivateState { execution: *execution, activity: *activity, state: state@, input: input@ },
            Command::CompleteState { activity } => CommandView::CompleteState { activity: *activity },
            Command::ActivateTask { parent, task, resource, arguments } => CommandView::ActivateTask { parent: *parent, task: *task, resource: resource@, arguments: arguments@ },
            Command::CompleteTask { task, result } => CommandView::CompleteTask { task: *task, result: result@ },
            Command::TerminateExecution { id, reason } => CommandView::TerminateExecution { id: *id, reason: reason@ },
            Command::SpawnBranch { parent, root_execution, state_path, branch_index, state, input } => CommandView::SpawnBranch { parent: *parent, root_execution: *root_execution, state_path: state_path.deep_view(), branch_index: *branch_index, state: state@, input: input@ },
            Command::ChildFinalized { parent, child } => CommandView::ChildFinalized { parent: *parent, child: *child },
        }
    }
}

impl DeepView for Command {
    type V = CommandView;

    open spec fn deep_view(&self) -> CommandView {
        self.view()
    }
}

impl Clone for Command {
    fn clone(&self) -> (r: Self)
        ensures
            r@ == self@,
    {
        match self {
            Command::ActivateTimer { parent, timer, purpose, deadline } => Command::ActivateTimer { parent: *parent, timer: *timer, purpose: *purpose, deadline: *deadline },
            Command::CompleteTimer { timer } => Command::CompleteTimer { timer: *timer },
            Command::ActivateState { execution, activity, state, input } => Command::ActivateState { execution: *execution, activity: *activity, state: state.clone(), input: input.clone() },
            Command::CompleteState { activity } => Command::CompleteState { activity: *activity },
            Command::ActivateTask { parent, task, resource, arguments } => Command::ActivateTask { parent: *parent, task: *task, resource: resource.clone(), arguments: arguments.clone() },
            Command::CompleteTask { task, result } => Command::CompleteTask { task: *task, result: result.clone() },
            Command::TerminateExecution { id, reason } => Command::TerminateExecution { id: *id, reason: reason.clone() },
            Command::SpawnBranch { parent, root_execution, state_path, branch_index, state, input } => Command::SpawnBranch { parent: *parent, root_execution: *root_execution, state_path: state_path.clone(), branch_index: *branch_index, state: state.clone(), input: input.clone() },
            Command::ChildFinalized { parent, child } => Command::ChildFinalized { parent: *parent, child: *child },
        }
    }
}

/// What happened to a node.
#[derive(Debug, PartialEq, Eq)]
pub enum Event {
    TimerActivated { parent: NodeId, timer: TimerId, purpose: TimerPurpose, deadline: Timestamp },
    TimerCompleted { timer: TimerId },
    ExecutionCreated { request_id: RequestId, created: ExecutionValue },
    ParallelBranchSpawned { activity: ActivityId, index: usize, execution: ExecutionId },
    ExecutionCompleted { id: ExecutionId, output: Value },
    ExecutionTerminated { id: ExecutionId, reason: TerminationReason },
    StateCompleted { activity: ActivityId, output: Value },
    StateTerminated { activity: ActivityId, reason: TerminationReason },
}

/// What a [`Event`] holds.
pub enum EventView {
    TimerActivated { parent: NodeId, timer: TimerId, purpose: TimerPurpose, deadline: Timestamp },
    TimerCompleted { timer: TimerId },
    ExecutionCreated { request_id: RequestId, created: ExecutionValueView },
    ParallelBranchSpawned { activity: ActivityId, index: usize, execution: ExecutionId },
    ExecutionCompleted { id: ExecutionId, output: Json },
    ExecutionTerminated { id: ExecutionId, reason: TerminationReasonView },
    StateCompleted { activity: ActivityId, output: Json },
    StateTerminated { activity: ActivityId, reason: TerminationReasonView },
}

impl View for Event {
    type V = EventView;

    open spec fn view(&self) -> EventView {
        match self {
            Event::TimerActivated { parent, timer, purpose, deadline } => EventView::TimerActivated { parent: *parent, timer: *timer, purpose: *purpose, deadline: *deadline },
            Event::TimerCompleted { timer } => EventView::TimerCompleted { timer: *timer },
            Event::ExecutionCreated { request_id, created } => EventView::ExecutionCreated { request_id: *request_id, created: created@ },
            Event::ParallelBranchSpawned { activity, index, execution } => EventView::ParallelBranchSpawned { activity: *activity, index: *index, execution: *execution },
            Event::ExecutionCompleted { id, output } => EventView::ExecutionCompleted { id: *id, output: output@ },
            Event::ExecutionTerminated { id, reason } => EventView::ExecutionTerminated { id: *id, reason: reason@ },
            Event::StateCompleted { activity, output } => EventView::StateCompleted { activity: *activity, output: output@ },
            Event::StateTerminated { activity, reason } => EventView::StateTerminated { activity: *activity, reason: reason@ },
        }
    }
}

impl DeepView for Event {
    type V = EventView;

    open spec fn deep_view(&self) -> EventView {
        self.view()
    }
}

impl Clone for Event {
    fn clone(&self) -> (r: Self)
        ensures
            r@ == self@,
    {
        match self {
            Event::TimerActivated { parent, timer, purpose, deadline } => Event::TimerActivated { parent: *parent, timer: *timer, purpose: *purpose, deadline: *deadline },
            Event::TimerCompleted { timer } => Event::TimerCompleted { timer: *timer },
            Event::ExecutionCreated { request_id, created } => Event::ExecutionCreated { request_id: *request_id, created: created.clone() },
            Event::ParallelBranchSpawned { activity, index, execution } => Event::ParallelBranchSpawned { activity: *activity, index: *index, execution: *execution },
            Event::ExecutionCompleted { id, output } => Event::ExecutionCompleted { id: *id, output: output.clone() },
            Event::ExecutionTerminated { id, reason } => Event::ExecutionTerminated { id: *id, reason: reason.clone() },
            Event::StateCompleted { activity, output } => Event::StateCompleted { activity: *activity, output: output.clone() },
            Event::StateTerminated { activity, reason } => Event::StateTerminated { activity: *activity, reason: reason.clone() },
        }
    }
}

/// What a handler emits.
#[derive(Debug, PartialEq, Eq)]
pub enum Payload {
    Command(Command),
    Event(Event),
}

/// What a [`Payload`] holds.
pub enum PayloadView {
    Command(CommandView),
    Event(EventView),
}

impl View for Payload {
    type V = PayloadView;

    open spec fn view(&self) -> PayloadView {
        match self {
            Payload::Command(x) => PayloadView::Command(x@),
            Payload::Event(x) => PayloadView::Event(x@),
        }
    }
}

impl DeepView for Payload {
    type V = PayloadView;

    open spec fn deep_view(&self) -> PayloadView {
        self.view()
    }
}

impl Clone for Payload {
    fn clone(&self) -> (r: Self)
        ensures
            r@ == self@,
    {
        match self {
            Payload::Command(x) => Payload::Command(x.clone()),
            Payload::Event(x) => Payload::Event(x.clone()),
        }
    }
}

/// One entry of the log of nodes.
#[derive(Debug, PartialEq, Eq)]
pub struct NodeEntry {
    pub stream_id: StreamId,
    pub entry_id: EntryId,
    /// The entry that this one follows from.
    pub cause_id: Option<EntryId>,
    pub timestamp: Timestamp,
    pub payload: Payload,
}

/// What a [`NodeEntry`] holds.
pub struct NodeEntryView {
    pub stream_id: StreamId,
    pub entry_id: EntryId,
    pub cause_id: Option<EntryId>,
    pub timestamp: Timestamp,
    pub payload: PayloadView,
}

impl View for NodeEntry {
    type V = NodeEntryView;

    open spec fn view(&self) -> NodeEntryView {
        NodeEntryView {
            stream_id: self.stream_id,
            entry_id: self.entry_id,
            cause_id: self.cause_id,
            timestamp: self.timestamp,
            payload: self.payload@,
        }
    }
}

impl DeepView for NodeEntry {
    type V = NodeEntryView;

    open spec fn deep_view(&self) -> NodeEntryView {
        self.view()
    }
}

/// An entry that is yet to be written: the log gives it its position.
pub open spec fn envelope(
    stream_id: StreamId,
    cause_id: EntryId,
    now: Timestamp,
    payload: PayloadView,
) -> NodeEntryView {
    NodeEntryView {
        stream_id,
        entry_id: EntryId(0),
        cause_id: Some(cause_id),
        timestamp: now,
        payload,
    }
}

/// The entries to write for what was emitted, in order.
pub open spec fn envelopes(
    chain: Seq<PayloadView>,
    stream_id: StreamId,
    cause_id: EntryId,
    now: Timestamp,
) -> Seq<NodeEntryView> {
    chain.map_values(|payload: PayloadView| envelope(stream_id, cause_id, now, payload))
}

/// What a handler has done so far: what it has emitted, the next id it mints, and the first question
/// that it found unanswered.
pub struct Emitted {
    pub chain: Seq<PayloadView>,
    pub next_uid: u128,
    pub question: Option<QuestionView>,
}

impl Emitted {
    /// After an event.
    pub open spec fn event(self, event: EventView) -> Emitted {
        Emitted { chain: self.chain.push(PayloadView::Event(event)), ..self }
    }

    /// After a command.
    pub open spec fn command(self, command: CommandView) -> Emitted {
        Emitted { chain: self.chain.push(PayloadView::Command(command)), ..self }
    }

    /// After minting an id; its bits are `self.next_uid`.
    pub open spec fn minted(self) -> Emitted {
        Emitted { next_uid: self.next_uid.wrapping_add(1), ..self }
    }

    /// After asking a question: it is noted when it is the first without an answer.
    pub open spec fn asked(self, env: EvalEnv, question: QuestionView) -> Emitted {
        if env.answer(question) is None && self.question is None {
            Emitted { question: Some(question), ..self }
        } else {
            self
        }
    }
}

/// Takes what a handler emits.
#[derive(Debug, PartialEq, Eq)]
pub struct Outbox {
    chain: Vec<Payload>,
    next_uid: u128,
    question: Option<Question>,
}

impl View for Outbox {
    type V = Emitted;

    closed spec fn view(&self) -> Emitted {
        Emitted {
            chain: self.chain.deep_view(),
            next_uid: self.next_uid,
            question: self.question.deep_view(),
        }
    }
}

impl Outbox {
    /// An empty outbox, which mints ids from `next_uid` on.
    pub fn new(next_uid: u128) -> (r: Outbox)
        ensures
            r@ == (Emitted { chain: Seq::empty(), next_uid, question: None }),
    {
        let r = Outbox { chain: Vec::new(), next_uid, question: None };
        assert(r@.chain =~= Seq::empty());
        r
    }

    /// What has been emitted.
    pub fn chain(&self) -> (r: &Vec<Payload>)
        ensures
            r.deep_view() == self@.chain,
    {
        &self.chain
    }

    /// The first question that was found unanswered.
    pub fn question(&self) -> (r: &Option<Question>)
        ensures
            r.deep_view() == self@.question,
    {
        &self.question
    }

    /// The entries to write, and the first question that was found unanswered.
    pub fn into_parts(self, stream_id: StreamId, cause_id: EntryId, now: Timestamp) -> (r: (
        Vec<NodeEntry>,
        Option<Question>,
    ))
        ensures
            r.0.deep_view() == envelopes(self@.chain, stream_id, cause_id, now),
            r.1.deep_view() == self@.question,
    {
        let chain = self.chain;
        let mut entries: Vec<NodeEntry> = Vec::new();
        let mut i: usize = 0;
        while i < chain.len()
            invariant
                i <= chain.len(),
                entries@.len() == i,
                forall|j: int|
                    0 <= j < i ==> (#[trigger] entries@[j])@ == envelope(
                        stream_id,
                        cause_id,
                        now,
                        chain@[j]@,
                    ),
            decreases chain.len() - i,
        {
            entries.push(
                NodeEntry {
                    stream_id,
                    entry_id: EntryId::nil(),
                    cause_id: Some(cause_id),
                    timestamp: now,
                    payload: chain[i].clone(),
                },
            );
            i += 1;
        }
        assert(entries.deep_view() =~= envelopes(self@.chain, stream_id, cause_id, now));
        (entries, self.question)
    }

    /// Emits an event.
    pub fn emit_event(&mut self, event: Event)
        ensures
            final(self)@ == old(self)@.event(event@),
    {
        let ghost before = self@.chain;
        self.chain.push(Payload::Event(event));
        assert(self@.chain =~= before.push(PayloadView::Event(event@)));
    }

    /// Emits a command.
    pub fn emit_command(&mut self, command: Command)
        ensures
            final(self)@ == old(self)@.command(command@),
    {
        let ghost before = self@.chain;
        self.chain.push(Payload::Command(command));
        assert(self@.chain =~= before.push(PayloadView::Command(command@)));
    }

    fn mint(&mut self) -> (r: Uid)
        ensures
            r == Uid(old(self)@.next_uid),
            final(self)@ == old(self)@.minted(),
    {
        let uid = Uid(self.next_uid);
        self.next_uid = self.next_uid.wrapping_add(1);
        uid
    }

    /// Mints the id of an execution.
    pub fn next_execution(&mut self) -> (r: ExecutionId)
        ensures
            r == ExecutionId(Uid(old(self)@.next_uid)),
            final(self)@ == old(self)@.minted(),
    {
        ExecutionId(self.mint())
    }

    /// Mints the id of an activity.
    pub fn next_activity(&mut self) -> (r: ActivityId)
        ensures
            r == ActivityId(Uid(old(self)@.next_uid)),
            final(self)@ == old(self)@.minted(),
    {
        ActivityId(self.mint())
    }

    /// Mints the id of a task.
    pub fn next_task(&mut self) -> (r: TaskId)
        ensures
            r == TaskId(Uid(old(self)@.next_uid)),
            final(self)@ == old(self)@.minted(),
    {
        TaskId(self.mint())
    }

    /// Asks a question.
    pub fn ask(&mut self, env: &EvalEnv, question: Question) -> (r: Result<Value, ExecutionError>)
        ensures
            reply_view(r) == reply(*env, question@),
            final(self)@ == old(self)@.asked(*env, question@),
    {
        match env.find(&question) {
            Some(a) => clone_reply(&a.reply),
            None => {
                if self.question.is_none() {
                    self.question = Some(question);
                }
                Err(ExecutionError::Infra(InfraError::Unanswered))
            },
        }
    }
}

} // verus!
