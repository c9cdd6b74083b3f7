//! Commands.

use vstd::prelude::*;

use crate::id::{FlowName, RequestId, Timestamp, Uid};
use crate::types::error::{ExecutionError, ExecutionErrorView};
use crate::types::meta::{ObjectName, ObjectNameView, ObjectReference, ObjectReferenceView};
use crate::types::state_path::StatePath;
use crate::types::status::{TerminationReason, TerminationReasonView};
use crate::types::task::{RetryPolicy, RetryPolicyView};
use crate::value::{Json, Value};

verus! {

/// Create a flow with its first version.
#[derive(Debug, PartialEq, Eq)]
pub struct CreateFlow {
    pub request_id: RequestId,
    pub name: FlowName,
    pub definition: String,
}

/// What a [`CreateFlow`] holds.
pub struct CreateFlowView {
    pub request_id: RequestId,
    pub name: Seq<char>,
    pub definition: Seq<char>,
}

impl View for CreateFlow {
    type V = CreateFlowView;

    open spec fn view(&self) -> CreateFlowView {
        CreateFlowView {
            request_id: self.request_id,
            name: self.name@,
            definition: self.definition@,
        }
    }
}

impl DeepView for CreateFlow {
    type V = CreateFlowView;

    open spec fn deep_view(&self) -> CreateFlowView {
        self.view()
    }
}

impl Clone for CreateFlow {
    fn clone(&self) -> (r: Self)
        ensures
            r@ == self@,
    {
        CreateFlow {
            request_id: self.request_id,
            name: self.name.clone(),
            definition: self.definition.clone(),
        }
    }
}

/// Start an execution of a flow version under a new name.
#[derive(Debug, PartialEq, Eq)]
pub struct CreateExecution {
    pub request_id: RequestId,
    pub name: ObjectName,
    pub flow_version: ObjectReference,
    pub input: Value,
}

/// What a [`CreateExecution`] holds.
pub struct CreateExecutionView {
    pub request_id: RequestId,
    pub name: ObjectNameView,
    pub flow_version: ObjectReferenceView,
    pub input: Json,
}

impl View for CreateExecution {
    type V = CreateExecutionView;

    open spec fn view(&self) -> CreateExecutionView {
        CreateExecutionView {
            request_id: self.request_id,
            name: self.name@,
            flow_version: self.flow_version@,
            input: self.input@,
        }
    }
}

impl DeepView for CreateExecution {
    type V = CreateExecutionView;

    open spec fn deep_view(&self) -> CreateExecutionView {
        self.view()
    }
}

impl Clone for CreateExecution {
    fn clone(&self) -> (r: Self)
        ensures
            r@ == self@,
    {
        CreateExecution {
            request_id: self.request_id,
            name: self.name.clone(),
            flow_version: self.flow_version.clone(),
            input: self.input.clone(),
        }
    }
}

/// Start one branch of a `Parallel`, or one item of a `Map`.
#[derive(Debug, PartialEq, Eq)]
pub struct SpawnThread {
    pub owner: ObjectReference,
    pub execution: ObjectReference,
    pub state_path: Option<StatePath>,
    pub index: usize,
    pub start_at: String,
    pub input: Value,
}

/// What a [`SpawnThread`] holds.
pub struct SpawnThreadView {
    pub owner: ObjectReferenceView,
    pub execution: ObjectReferenceView,
    pub state_path: Option<Seq<Seq<char>>>,
    pub index: usize,
    pub start_at: Seq<char>,
    pub input: Json,
}

impl View for SpawnThread {
    type V = SpawnThreadView;

    open spec fn view(&self) -> SpawnThreadView {
        SpawnThreadView {
            owner: self.owner@,
            execution: self.execution@,
            state_path: self.state_path.deep_view(),
            index: self.index,
            start_at: self.start_at@,
            input: self.input@,
        }
    }
}

impl DeepView for SpawnThread {
    type V = SpawnThreadView;

    open spec fn deep_view(&self) -> SpawnThreadView {
        self.view()
    }
}

impl Clone for SpawnThread {
    fn clone(&self) -> (r: Self)
        ensures
            r@ == self@,
    {
        SpawnThread {
            owner: self.owner.clone(),
            execution: self.execution.clone(),
            state_path: self.state_path.clone(),
            index: self.index,
            start_at: self.start_at.clone(),
            input: self.input.clone(),
        }
    }
}

/// Finish an execution with success.
#[derive(Debug, PartialEq, Eq)]
pub struct CompleteExecution {
    pub execution: ObjectReference,
    pub output: Value,
}

/// What a [`CompleteExecution`] holds.
pub struct CompleteExecutionView {
    pub execution: ObjectReferenceView,
    pub output: Json,
}

impl View for CompleteExecution {
    type V = CompleteExecutionView;

    open spec fn view(&self) -> CompleteExecutionView {
        CompleteExecutionView {
            execution: self.execution@,
            output: self.output@,
        }
    }
}

impl DeepView for CompleteExecution {
    type V = CompleteExecutionView;

    open spec fn deep_view(&self) -> CompleteExecutionView {
        self.view()
    }
}

impl Clone for CompleteExecution {
    fn clone(&self) -> (r: Self)
        ensures
            r@ == self@,
    {
        CompleteExecution {
            execution: self.execution.clone(),
            output: self.output.clone(),
        }
    }
}

/// Finish a thread with success.
#[derive(Debug, PartialEq, Eq)]
pub struct CompleteThread {
    pub thread: ObjectReference,
    pub output: Value,
}

/// What a [`CompleteThread`] holds.
pub struct CompleteThreadView {
    pub thread: ObjectReferenceView,
    pub output: Json,
}

impl View for CompleteThread {
    type V = CompleteThreadView;

    open spec fn view(&self) -> CompleteThreadView {
        CompleteThreadView {
            thread: self.thread@,
            output: self.output@,
        }
    }
}

impl DeepView for CompleteThread {
    type V = CompleteThreadView;

    open spec fn deep_view(&self) -> CompleteThreadView {
        self.view()
    }
}

impl Clone for CompleteThread {
    fn clone(&self) -> (r: Self)
        ensures
            r@ == self@,
    {
        CompleteThread {
            thread: self.thread.clone(),
            output: self.output.clone(),
        }
    }
}

/// Finish the execution that carries a name, or only the given incarnation of it, without success.
#[derive(Debug, PartialEq, Eq)]
pub struct TerminateExecution {
    pub name: ObjectName,
    pub uid: Option<Uid>,
    pub reason: TerminationReason,
}

/// What a [`TerminateExecution`] holds.
pub struct TerminateExecutionView {
    pub name: ObjectNameView,
    pub uid: Option<Uid>,
    pub reason: TerminationReasonView,
}

impl View for TerminateExecution {
    type V = TerminateExecutionView;

    open spec fn view(&self) -> TerminateExecutionView {
        TerminateExecutionView {
            name: self.name@,
            uid: self.uid,
            reason: self.reason@,
        }
    }
}

impl DeepView for TerminateExecution {
    type V = TerminateExecutionView;

    open spec fn deep_view(&self) -> TerminateExecutionView {
        self.view()
    }
}

impl Clone for TerminateExecution {
    fn clone(&self) -> (r: Self)
        ensures
            r@ == self@,
    {
        TerminateExecution {
            name: self.name.clone(),
            uid: self.uid,
            reason: self.reason.clone(),
        }
    }
}

/// Finish a thread without success.
#[derive(Debug, PartialEq, Eq)]
pub struct TerminateThread {
    pub thread: ObjectReference,
    pub reason: TerminationReason,
}

/// What a [`TerminateThread`] holds.
pub struct TerminateThreadView {
    pub thread: ObjectReferenceView,
    pub reason: TerminationReasonView,
}

impl View for TerminateThread {
    type V = TerminateThreadView;

    open spec fn view(&self) -> TerminateThreadView {
        TerminateThreadView {
            thread: self.thread@,
            reason: self.reason@,
        }
    }
}

impl DeepView for TerminateThread {
    type V = TerminateThreadView;

    open spec fn deep_view(&self) -> TerminateThreadView {
        self.view()
    }
}

impl Clone for TerminateThread {
    fn clone(&self) -> (r: Self)
        ensures
            r@ == self@,
    {
        TerminateThread {
            thread: self.thread.clone(),
            reason: self.reason.clone(),
        }
    }
}

/// Enter a state.
#[derive(Debug, PartialEq, Eq)]
pub struct ActivateState {
    pub execution: ObjectReference,
    pub owner: ObjectReference,
    pub state_path: StatePath,
    pub input: Value,
}

/// What a [`ActivateState`] holds.
pub struct ActivateStateView {
    pub execution: ObjectReferenceView,
    pub owner: ObjectReferenceView,
    pub state_path: Seq<Seq<char>>,
    pub input: Json,
}

impl View for ActivateState {
    type V = ActivateStateView;

    open spec fn view(&self) -> ActivateStateView {
        ActivateStateView {
            execution: self.execution@,
            owner: self.owner@,
            state_path: self.state_path@,
            input: self.input@,
        }
    }
}

impl DeepView for ActivateState {
    type V = ActivateStateView;

    open spec fn deep_view(&self) -> ActivateStateView {
        self.view()
    }
}

impl Clone for ActivateState {
    fn clone(&self) -> (r: Self)
        ensures
            r@ == self@,
    {
        ActivateState {
            execution: self.execution.clone(),
            owner: self.owner.clone(),
            state_path: self.state_path.clone(),
            input: self.input.clone(),
        }
    }
}

/// Finish an activity with success; `output` is the raw result of its state.
#[derive(Debug, PartialEq, Eq)]
pub struct CompleteState {
    pub activity: ObjectReference,
    pub output: Value,
}

/// What a [`CompleteState`] holds.
pub struct CompleteStateView {
    pub activity: ObjectReferenceView,
    pub output: Json,
}

impl View for CompleteState {
    type V = CompleteStateView;

    open spec fn view(&self) -> CompleteStateView {
        CompleteStateView {
            activity: self.activity@,
            output: self.output@,
        }
    }
}

impl DeepView for CompleteState {
    type V = CompleteStateView;

    open spec fn deep_view(&self) -> CompleteStateView {
        self.view()
    }
}

impl Clone for CompleteState {
    fn clone(&self) -> (r: Self)
        ensures
            r@ == self@,
    {
        CompleteState {
            activity: self.activity.clone(),
            output: self.output.clone(),
        }
    }
}

/// Finish an activity without success.
#[derive(Debug, PartialEq, Eq)]
pub struct TerminateState {
    pub activity: ObjectReference,
    pub reason: TerminationReason,
}

/// What a [`TerminateState`] holds.
pub struct TerminateStateView {
    pub activity: ObjectReferenceView,
    pub reason: TerminationReasonView,
}

impl View for TerminateState {
    type V = TerminateStateView;

    open spec fn view(&self) -> TerminateStateView {
        TerminateStateView {
            activity: self.activity@,
            reason: self.reason@,
        }
    }
}

impl DeepView for TerminateState {
    type V = TerminateStateView;

    open spec fn deep_view(&self) -> TerminateStateView {
        self.view()
    }
}

impl Clone for TerminateState {
    fn clone(&self) -> (r: Self)
        ensures
            r@ == self@,
    {
        TerminateState {
            activity: self.activity.clone(),
            reason: self.reason.clone(),
        }
    }
}

/// Invoke the resource of a `Task` state.
#[derive(Debug, PartialEq, Eq)]
pub struct ActivateTask {
    pub execution: ObjectReference,
    pub owner: ObjectReference,
    pub task: ObjectReference,
    pub resource: String,
    pub arguments: Value,
    pub retry_plan: Vec<RetryPolicy>,
    pub deadline: Option<Timestamp>,
}

/// What a [`ActivateTask`] holds.
pub struct ActivateTaskView {
    pub execution: ObjectReferenceView,
    pub owner: ObjectReferenceView,
    pub task: ObjectReferenceView,
    pub resource: Seq<char>,
    pub arguments: Json,
    pub retry_plan: Seq<RetryPolicyView>,
    pub deadline: Option<Timestamp>,
}

impl View for ActivateTask {
    type V = ActivateTaskView;

    open spec fn view(&self) -> ActivateTaskView {
        ActivateTaskView {
            execution: self.execution@,
            owner: self.owner@,
            task: self.task@,
            resource: self.resource@,
            arguments: self.arguments@,
            retry_plan: self.retry_plan.deep_view(),
            deadline: self.deadline,
        }
    }
}

impl DeepView for ActivateTask {
    type V = ActivateTaskView;

    open spec fn deep_view(&self) -> ActivateTaskView {
        self.view()
    }
}

impl Clone for ActivateTask {
    fn clone(&self) -> (r: Self)
        ensures
            r@ == self@,
    {
        let r = ActivateTask {
            execution: self.execution.clone(),
            owner: self.owner.clone(),
            task: self.task.clone(),
            resource: self.resource.clone(),
            arguments: self.arguments.clone(),
            retry_plan: self.retry_plan.clone(),
            deadline: self.deadline,
        };
        assert(r.retry_plan.deep_view() =~= self.retry_plan.deep_view());
        r
    }
}

/// Lease claimable tasks of a resource to a worker.
#[derive(Debug, PartialEq, Eq)]
pub struct ClaimTasks {
    pub request_id: RequestId,
    pub worker_id: String,
    pub resource: String,
    pub max_tasks: usize,
    pub lease_seconds: u64,
}

/// What a [`ClaimTasks`] holds.
pub struct ClaimTasksView {
    pub request_id: RequestId,
    pub worker_id: Seq<char>,
    pub resource: Seq<char>,
    pub max_tasks: usize,
    pub lease_seconds: u64,
}

impl View for ClaimTasks {
    type V = ClaimTasksView;

    open spec fn view(&self) -> ClaimTasksView {
        ClaimTasksView {
            request_id: self.request_id,
            worker_id: self.worker_id@,
            resource: self.resource@,
            max_tasks: self.max_tasks,
            lease_seconds: self.lease_seconds,
        }
    }
}

impl DeepView for ClaimTasks {
    type V = ClaimTasksView;

    open spec fn deep_view(&self) -> ClaimTasksView {
        self.view()
    }
}

impl Clone for ClaimTasks {
    fn clone(&self) -> (r: Self)
        ensures
            r@ == self@,
    {
        ClaimTasks {
            request_id: self.request_id,
            worker_id: self.worker_id.clone(),
            resource: self.resource.clone(),
            max_tasks: self.max_tasks,
            lease_seconds: self.lease_seconds,
        }
    }
}

/// Report a leased task completed.
#[derive(Debug, PartialEq, Eq)]
pub struct CompleteTask {
    pub request_id: RequestId,
    pub task: ObjectReference,
    pub worker_id: String,
    pub output: Value,
}

/// What a [`CompleteTask`] holds.
pub struct CompleteTaskView {
    pub request_id: RequestId,
    pub task: ObjectReferenceView,
    pub worker_id: Seq<char>,
    pub output: Json,
}

impl View for CompleteTask {
    type V = CompleteTaskView;

    open spec fn view(&self) -> CompleteTaskView {
        CompleteTaskView {
            request_id: self.request_id,
            task: self.task@,
            worker_id: self.worker_id@,
            output: self.output@,
        }
    }
}

impl DeepView for CompleteTask {
    type V = CompleteTaskView;

    open spec fn deep_view(&self) -> CompleteTaskView {
        self.view()
    }
}

impl Clone for CompleteTask {
    fn clone(&self) -> (r: Self)
        ensures
            r@ == self@,
    {
        CompleteTask {
            request_id: self.request_id,
            task: self.task.clone(),
            worker_id: self.worker_id.clone(),
            output: self.output.clone(),
        }
    }
}

/// Report a task failed; no worker is named when a deadline did it.
#[derive(Debug, PartialEq, Eq)]
pub struct FailTask {
    pub task: ObjectReference,
    pub worker_id: String,
    pub error: ExecutionError,
}

/// What a [`FailTask`] holds.
pub struct FailTaskView {
    pub task: ObjectReferenceView,
    pub worker_id: Seq<char>,
    pub error: ExecutionErrorView,
}

impl View for FailTask {
    type V = FailTaskView;

    open spec fn view(&self) -> FailTaskView {
        FailTaskView {
            task: self.task@,
            worker_id: self.worker_id@,
            error: self.error@,
        }
    }
}

impl DeepView for FailTask {
    type V = FailTaskView;

    open spec fn deep_view(&self) -> FailTaskView {
        self.view()
    }
}

impl Clone for FailTask {
    fn clone(&self) -> (r: Self)
        ensures
            r@ == self@,
    {
        FailTask {
            task: self.task.clone(),
            worker_id: self.worker_id.clone(),
            error: self.error.clone(),
        }
    }
}

/// What the engine is asked to do.
#[derive(Debug, PartialEq, Eq)]
pub enum Command {
    CreateFlow(CreateFlow),
    CreateExecution(CreateExecution),
    SpawnThread(SpawnThread),
    CompleteExecution(CompleteExecution),
    CompleteThread(CompleteThread),
    TerminateExecution(TerminateExecution),
    TerminateThread(TerminateThread),
    ActivateState(ActivateState),
    CompleteState(CompleteState),
    TerminateState(TerminateState),
    ActivateTask(ActivateTask),
    ClaimTasks(ClaimTasks),
    CompleteTask(CompleteTask),
    FailTask(FailTask),
    /// The deadline of a timer passed.
    TriggerTimer { timer: ObjectReference },
    /// Cancel an armed timer.
    CancelTimer { timer: ObjectReference },
    /// The lease of a task ran out.
    ReleaseTaskLease { task: ObjectReference },
    /// Cancel a task in flight.
    CancelTask { task: ObjectReference },
    /// Finish a drained owner that is completing.
    ContinueComplete { owner: ObjectReference },
    /// Finish a drained owner that is terminating.
    ContinueTerminate { owner: ObjectReference },
    /// A child of the owner reached its end.
    ProcessChildCompleted { owner: ObjectReference, child: ObjectReference },
}

/// What a [`Command`] holds.
pub enum CommandView {
    CreateFlow(CreateFlowView),
    CreateExecution(CreateExecutionView),
    SpawnThread(SpawnThreadView),
    CompleteExecution(CompleteExecutionView),
    CompleteThread(CompleteThreadView),
    TerminateExecution(TerminateExecutionView),
    TerminateThread(TerminateThreadView),
    ActivateState(ActivateStateView),
    CompleteState(CompleteStateView),
    TerminateState(TerminateStateView),
    ActivateTask(ActivateTaskView),
    ClaimTasks(ClaimTasksView),
    CompleteTask(CompleteTaskView),
    FailTask(FailTaskView),
    TriggerTimer { timer: ObjectReferenceView },
    CancelTimer { timer: ObjectReferenceView },
    ReleaseTaskLease { task: ObjectReferenceView },
    CancelTask { task: ObjectReferenceView },
    ContinueComplete { owner: ObjectReferenceView },
    ContinueTerminate { owner: ObjectReferenceView },
    ProcessChildCompleted { owner: ObjectReferenceView, child: ObjectReferenceView },
}

/// What `x` holds; read off by the lemmas of [`group_command_view`].
#[verifier::opaque]
pub open spec fn command_view(x: Command) -> CommandView {
    match x {
        Command::CreateFlow(x) => CommandView::CreateFlow(x@),
        Command::CreateExecution(x) => CommandView::CreateExecution(x@),
        Command::SpawnThread(x) => CommandView::SpawnThread(x@),
        Command::CompleteExecution(x) => CommandView::CompleteExecution(x@),
        Command::CompleteThread(x) => CommandView::CompleteThread(x@),
        Command::TerminateExecution(x) => CommandView::TerminateExecution(x@),
        Command::TerminateThread(x) => CommandView::TerminateThread(x@),
        Command::ActivateState(x) => CommandView::ActivateState(x@),
        Command::CompleteState(x) => CommandView::CompleteState(x@),
        Command::TerminateState(x) => CommandView::TerminateState(x@),
        Command::ActivateTask(x) => CommandView::ActivateTask(x@),
        Command::ClaimTasks(x) => CommandView::ClaimTasks(x@),
        Command::CompleteTask(x) => CommandView::CompleteTask(x@),
        Command::FailTask(x) => CommandView::FailTask(x@),
        Command::TriggerTimer { timer } => CommandView::TriggerTimer { timer: timer@ },
        Command::CancelTimer { timer } => CommandView::CancelTimer { timer: timer@ },
        Command::ReleaseTaskLease { task } => CommandView::ReleaseTaskLease { task: task@ },
        Command::CancelTask { task } => CommandView::CancelTask { task: task@ },
        Command::ContinueComplete { owner } => CommandView::ContinueComplete { owner: owner@ },
        Command::ContinueTerminate { owner } => CommandView::ContinueTerminate { owner: owner@ },
        Command::ProcessChildCompleted { owner, child } => CommandView::ProcessChildCompleted { owner: owner@, child: child@ },
    }
}

impl View for Command {
    type V = CommandView;

    open spec fn view(&self) -> CommandView {
        command_view(*self)
    }
}

pub broadcast proof fn lemma_command_create_flow(x: CreateFlow)
    ensures
        #[trigger] command_view(Command::CreateFlow(x)) == (CommandView::CreateFlow(x@)),
{
    reveal(command_view);
}

pub broadcast proof fn lemma_command_create_execution(x: CreateExecution)
    ensures
        #[trigger] command_view(Command::CreateExecution(x)) == (CommandView::CreateExecution(x@)),
{
    reveal(command_view);
}

pub broadcast proof fn lemma_command_spawn_thread(x: SpawnThread)
    ensures
        #[trigger] command_view(Command::SpawnThread(x)) == (CommandView::SpawnThread(x@)),
{
    reveal(command_view);
}

pub broadcast proof fn lemma_command_complete_execution(x: CompleteExecution)
    ensures
        #[trigger] command_view(Command::CompleteExecution(x)) == (CommandView::CompleteExecution(x@)),
{
    reveal(command_view);
}

pub broadcast proof fn lemma_command_complete_thread(x: CompleteThread)
    ensures
        #[trigger] command_view(Command::CompleteThread(x)) == (CommandView::CompleteThread(x@)),
{
    reveal(command_view);
}

pub broadcast proof fn lemma_command_terminate_execution(x: TerminateExecution)
    ensures
        #[trigger] command_view(Command::TerminateExecution(x)) == (CommandView::TerminateExecution(x@)),
{
    reveal(command_view);
}

pub broadcast proof fn lemma_command_terminate_thread(x: TerminateThread)
    ensures
        #[trigger] command_view(Command::TerminateThread(x)) == (CommandView::TerminateThread(x@)),
{
    reveal(command_view);
}

pub broadcast proof fn lemma_command_activate_state(x: ActivateState)
    ensures
        #[trigger] command_view(Command::ActivateState(x)) == (CommandView::ActivateState(x@)),
{
    reveal(command_view);
}

pub broadcast proof fn lemma_command_complete_state(x: CompleteState)
    ensures
        #[trigger] command_view(Command::CompleteState(x)) == (CommandView::CompleteState(x@)),
{
    reveal(command_view);
}

pub broadcast proof fn lemma_command_terminate_state(x: TerminateState)
    ensures
        #[trigger] command_view(Command::TerminateState(x)) == (CommandView::TerminateState(x@)),
{
    reveal(command_view);
}

pub broadcast proof fn lemma_command_activate_task(x: ActivateTask)
    ensures
        #[trigger] command_view(Command::ActivateTask(x)) == (CommandView::ActivateTask(x@)),
{
    reveal(command_view);
}

pub broadcast proof fn lemma_command_claim_tasks(x: ClaimTasks)
    ensures
        #[trigger] command_view(Command::ClaimTasks(x)) == (CommandView::ClaimTasks(x@)),
{
    reveal(command_view);
}

pub broadcast proof fn lemma_command_complete_task(x: CompleteTask)
    ensures
        #[trigger] command_view(Command::CompleteTask(x)) == (CommandView::CompleteTask(x@)),
{
    reveal(command_view);
}

pub broadcast proof fn lemma_command_fail_task(x: FailTask)
    ensures
        #[trigger] command_view(Command::FailTask(x)) == (CommandView::FailTask(x@)),
{
    reveal(command_view);
}

pub broadcast proof fn lemma_command_trigger_timer(timer: ObjectReference)
    ensures
        #[trigger] command_view(Command::TriggerTimer { timer }) == (CommandView::TriggerTimer { timer: timer@ }),
{
    reveal(command_view);
}

pub broadcast proof fn lemma_command_cancel_timer(timer: ObjectReference)
    ensures
        #[trigger] command_view(Command::CancelTimer { timer }) == (CommandView::CancelTimer { timer: timer@ }),
{
    reveal(command_view);
}

pub broadcast proof fn lemma_command_release_task_lease(task: ObjectReference)
    ensures
        #[trigger] command_view(Command::ReleaseTaskLease { task }) == (CommandView::ReleaseTaskLease { task: task@ }),
{
    reveal(command_view);
}

pub broadcast proof fn lemma_command_cancel_task(task: ObjectReference)
    ensures
        #[trigger] command_view(Command::CancelTask { task }) == (CommandView::CancelTask { task: task@ }),
{
    reveal(command_view);
}

pub broadcast proof fn lemma_command_continue_complete(owner: ObjectReference)
    ensures
        #[trigger] command_view(Command::ContinueComplete { owner }) == (CommandView::ContinueComplete { owner: owner@ }),
{
    reveal(command_view);
}

pub broadcast proof fn lemma_command_continue_terminate(owner: ObjectReference)
    ensures
        #[trigger] command_view(Command::ContinueTerminate { owner }) == (CommandView::ContinueTerminate { owner: owner@ }),
{
    reveal(command_view);
}

pub broadcast proof fn lemma_command_process_child_completed(owner: ObjectReference, child: ObjectReference)
    ensures
        #[trigger] command_view(Command::ProcessChildCompleted { owner, child }) == (CommandView::ProcessChildCompleted { owner: owner@, child: child@ }),
{
    reveal(command_view);
}

/// What each variant of [`Command`] holds.
pub broadcast group group_command_view {
    lemma_command_create_flow,
    lemma_command_create_execution,
    lemma_command_spawn_thread,
    lemma_command_complete_execution,
    lemma_command_complete_thread,
    lemma_command_terminate_execution,
    lemma_command_terminate_thread,
    lemma_command_activate_state,
    lemma_command_complete_state,
    lemma_command_terminate_state,
    lemma_command_activate_task,
    lemma_command_claim_tasks,
    lemma_command_complete_task,
    lemma_command_fail_task,
    lemma_command_trigger_timer,
    lemma_command_cancel_timer,
    lemma_command_release_task_lease,
    lemma_command_cancel_task,
    lemma_command_continue_complete,
    lemma_command_continue_terminate,
    lemma_command_process_child_completed,
}

impl DeepView for Command {
    type V = CommandView;

    open spec fn deep_view(&self) -> CommandView {
        self.view()
    }
}

impl Clone for Command {
    fn clone(&self) -> (r: Self)
        ensures
            r@ == self@,
    {
        broadcast use group_command_view;

        match self {
            Command::CreateFlow(x) => Command::CreateFlow(x.clone()),
            Command::CreateExecution(x) => Command::CreateExecution(x.clone()),
            Command::SpawnThread(x) => Command::SpawnThread(x.clone()),
            Command::CompleteExecution(x) => Command::CompleteExecution(x.clone()),
            Command::CompleteThread(x) => Command::CompleteThread(x.clone()),
            Command::TerminateExecution(x) => Command::TerminateExecution(x.clone()),
            Command::TerminateThread(x) => Command::TerminateThread(x.clone()),
            Command::ActivateState(x) => Command::ActivateState(x.clone()),
            Command::CompleteState(x) => Command::CompleteState(x.clone()),
            Command::TerminateState(x) => Command::TerminateState(x.clone()),
            Command::ActivateTask(x) => Command::ActivateTask(x.clone()),
            Command::ClaimTasks(x) => Command::ClaimTasks(x.clone()),
            Command::CompleteTask(x) => Command::CompleteTask(x.clone()),
            Command::FailTask(x) => Command::FailTask(x.clone()),
            Command::TriggerTimer { timer } => Command::TriggerTimer { timer: timer.clone() },
            Command::CancelTimer { timer } => Command::CancelTimer { timer: timer.clone() },
            Command::ReleaseTaskLease { task } => Command::ReleaseTaskLease { task: task.clone() },
            Command::CancelTask { task } => Command::CancelTask { task: task.clone() },
            Command::ContinueComplete { owner } => Command::ContinueComplete { owner: owner.clone() },
            Command::ContinueTerminate { owner } => Command::ContinueTerminate { owner: owner.clone() },
            Command::ProcessChildCompleted { owner, child } => Command::ProcessChildCompleted { owner: owner.clone(), child: child.clone() },
        }
    }
}

} // verus!
