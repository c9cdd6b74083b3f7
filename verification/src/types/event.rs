//! Events.

use vstd::prelude::*;

use crate::id::RequestId;
use crate::types::activity::{Activity, ActivityView};
use crate::types::error::{ExecutionError, ExecutionErrorView};
use crate::types::execution::{Execution, ExecutionView};
use crate::types::flow::{Flow, FlowVersion, FlowVersionView, FlowView};
use crate::types::meta::{ObjectReference, ObjectReferenceView};
use crate::types::state_path::StatePath;
use crate::types::task::{Task, TaskView};
use crate::types::thread::{Thread, ThreadView};
use crate::types::timer::{Timer, TimerView};
use crate::value::{Json, MemberView, Value, Variables};

verus! {

/// A flow was created.
#[derive(Debug, PartialEq, Eq)]
pub struct FlowCreated {
    pub request_id: RequestId,
    pub flow: Flow,
}

/// What a [`FlowCreated`] holds.
pub struct FlowCreatedView {
    pub request_id: RequestId,
    pub flow: FlowView,
}

impl View for FlowCreated {
    type V = FlowCreatedView;

    open spec fn view(&self) -> FlowCreatedView {
        FlowCreatedView {
            request_id: self.request_id,
            flow: self.flow@,
        }
    }
}

impl DeepView for FlowCreated {
    type V = FlowCreatedView;

    open spec fn deep_view(&self) -> FlowCreatedView {
        self.view()
    }
}

impl Clone for FlowCreated {
    fn clone(&self) -> (r: Self)
        ensures
            r@ == self@,
    {
        FlowCreated {
            request_id: self.request_id,
            flow: self.flow.clone(),
        }
    }
}

/// A version of a flow was created.
#[derive(Debug, PartialEq, Eq)]
pub struct FlowVersionCreated {
    pub request_id: RequestId,
    pub flow_version: FlowVersion,
}

/// What a [`FlowVersionCreated`] holds.
pub struct FlowVersionCreatedView {
    pub request_id: RequestId,
    pub flow_version: FlowVersionView,
}

impl View for FlowVersionCreated {
    type V = FlowVersionCreatedView;

    open spec fn view(&self) -> FlowVersionCreatedView {
        FlowVersionCreatedView {
            request_id: self.request_id,
            flow_version: self.flow_version@,
        }
    }
}

impl DeepView for FlowVersionCreated {
    type V = FlowVersionCreatedView;

    open spec fn deep_view(&self) -> FlowVersionCreatedView {
        self.view()
    }
}

impl Clone for FlowVersionCreated {
    fn clone(&self) -> (r: Self)
        ensures
            r@ == self@,
    {
        FlowVersionCreated {
            request_id: self.request_id,
            flow_version: self.flow_version.clone(),
        }
    }
}

/// An execution was created.
#[derive(Debug, PartialEq, Eq)]
pub struct ExecutionCreated {
    pub request_id: RequestId,
    pub execution: Execution,
}

/// What a [`ExecutionCreated`] holds.
pub struct ExecutionCreatedView {
    pub request_id: RequestId,
    pub execution: ExecutionView,
}

impl View for ExecutionCreated {
    type V = ExecutionCreatedView;

    open spec fn view(&self) -> ExecutionCreatedView {
        ExecutionCreatedView {
            request_id: self.request_id,
            execution: self.execution@,
        }
    }
}

impl DeepView for ExecutionCreated {
    type V = ExecutionCreatedView;

    open spec fn deep_view(&self) -> ExecutionCreatedView {
        self.view()
    }
}

impl Clone for ExecutionCreated {
    fn clone(&self) -> (r: Self)
        ensures
            r@ == self@,
    {
        ExecutionCreated {
            request_id: self.request_id,
            execution: self.execution.clone(),
        }
    }
}

/// The tasks that one claim leased.
#[derive(Debug, PartialEq, Eq)]
pub struct TasksClaimed {
    pub request_id: RequestId,
    pub tasks: Vec<Task>,
}

/// What a [`TasksClaimed`] holds.
pub struct TasksClaimedView {
    pub request_id: RequestId,
    pub tasks: Seq<TaskView>,
}

impl View for TasksClaimed {
    type V = TasksClaimedView;

    open spec fn view(&self) -> TasksClaimedView {
        TasksClaimedView {
            request_id: self.request_id,
            tasks: self.tasks.deep_view(),
        }
    }
}

impl DeepView for TasksClaimed {
    type V = TasksClaimedView;

    open spec fn deep_view(&self) -> TasksClaimedView {
        self.view()
    }
}

impl Clone for TasksClaimed {
    fn clone(&self) -> (r: Self)
        ensures
            r@ == self@,
    {
        let r = TasksClaimed {
            request_id: self.request_id,
            tasks: self.tasks.clone(),
        };
        assert(r.tasks.deep_view() =~= self.tasks.deep_view());
        r
    }
}

/// A task was completed.
#[derive(Debug, PartialEq, Eq)]
pub struct TaskCompleted {
    pub request_id: RequestId,
    pub task: Task,
    pub output: Value,
}

/// What a [`TaskCompleted`] holds.
pub struct TaskCompletedView {
    pub request_id: RequestId,
    pub task: TaskView,
    pub output: Json,
}

impl View for TaskCompleted {
    type V = TaskCompletedView;

    open spec fn view(&self) -> TaskCompletedView {
        TaskCompletedView {
            request_id: self.request_id,
            task: self.task@,
            output: self.output@,
        }
    }
}

impl DeepView for TaskCompleted {
    type V = TaskCompletedView;

    open spec fn deep_view(&self) -> TaskCompletedView {
        self.view()
    }
}

impl Clone for TaskCompleted {
    fn clone(&self) -> (r: Self)
        ensures
            r@ == self@,
    {
        TaskCompleted {
            request_id: self.request_id,
            task: self.task.clone(),
            output: self.output.clone(),
        }
    }
}

/// A task failed: pending again when a retry is scheduled, failed for good otherwise.
#[derive(Debug, PartialEq, Eq)]
pub struct TaskFailed {
    pub task: Task,
    pub error: ExecutionError,
}

/// What a [`TaskFailed`] holds.
pub struct TaskFailedView {
    pub task: TaskView,
    pub error: ExecutionErrorView,
}

impl View for TaskFailed {
    type V = TaskFailedView;

    open spec fn view(&self) -> TaskFailedView {
        TaskFailedView {
            task: self.task@,
            error: self.error@,
        }
    }
}

impl DeepView for TaskFailed {
    type V = TaskFailedView;

    open spec fn deep_view(&self) -> TaskFailedView {
        self.view()
    }
}

impl Clone for TaskFailed {
    fn clone(&self) -> (r: Self)
        ensures
            r@ == self@,
    {
        TaskFailed {
            task: self.task.clone(),
            error: self.error.clone(),
        }
    }
}

/// The variables of a scope, after an `Assign`.
#[derive(Debug, PartialEq, Eq)]
pub struct VariablesAssigned {
    pub scope: ObjectReference,
    pub variables: Variables,
}

/// What a [`VariablesAssigned`] holds.
pub struct VariablesAssignedView {
    pub scope: ObjectReferenceView,
    pub variables: Seq<MemberView>,
}

impl View for VariablesAssigned {
    type V = VariablesAssignedView;

    open spec fn view(&self) -> VariablesAssignedView {
        VariablesAssignedView {
            scope: self.scope@,
            variables: self.variables@,
        }
    }
}

impl DeepView for VariablesAssigned {
    type V = VariablesAssignedView;

    open spec fn deep_view(&self) -> VariablesAssignedView {
        self.view()
    }
}

impl Clone for VariablesAssigned {
    fn clone(&self) -> (r: Self)
        ensures
            r@ == self@,
    {
        VariablesAssigned {
            scope: self.scope.clone(),
            variables: self.variables.clone(),
        }
    }
}

/// A finished activity hands over to the state at `next`.
#[derive(Debug, PartialEq, Eq)]
pub struct StateTransitioned {
    pub activity: ObjectReference,
    pub next: StatePath,
}

/// What a [`StateTransitioned`] holds.
pub struct StateTransitionedView {
    pub activity: ObjectReferenceView,
    pub next: Seq<Seq<char>>,
}

impl View for StateTransitioned {
    type V = StateTransitionedView;

    open spec fn view(&self) -> StateTransitionedView {
        StateTransitionedView {
            activity: self.activity@,
            next: self.next@,
        }
    }
}

impl DeepView for StateTransitioned {
    type V = StateTransitionedView;

    open spec fn deep_view(&self) -> StateTransitionedView {
        self.view()
    }
}

impl Clone for StateTransitioned {
    fn clone(&self) -> (r: Self)
        ensures
            r@ == self@,
    {
        StateTransitioned {
            activity: self.activity.clone(),
            next: self.next.clone(),
        }
    }
}

/// What happened.
#[derive(Debug, PartialEq, Eq)]
pub enum Event {
    FlowCreated(FlowCreated),
    FlowVersionCreated(FlowVersionCreated),
    ExecutionCreated(ExecutionCreated),
    ExecutionCompleting { execution: Execution },
    ExecutionCompleted { execution: Execution },
    ExecutionTerminating { execution: Execution },
    ExecutionTerminated { execution: Execution },
    ThreadCreated { thread: Thread },
    ThreadCompleting { thread: Thread },
    ThreadCompleted { thread: Thread },
    ThreadTerminating { thread: Thread },
    ThreadTerminated { thread: Thread },
    StateActivating { activity: Activity },
    StateActivated { activity: Activity },
    StateCompleting { activity: Activity },
    StateCompleted { activity: Activity },
    StateTerminating { activity: Activity },
    StateTerminated { activity: Activity },
    TimerActivated { timer: Timer },
    TimerTriggered { timer: Timer },
    TimerCancelled { timer: Timer },
    TaskActivated { task: Task },
    TasksClaimed(TasksClaimed),
    TaskCompleted(TaskCompleted),
    TaskFailed(TaskFailed),
    TaskCancelled { task: Task },
    TaskLeaseExpired { task: Task },
    VariablesAssigned(VariablesAssigned),
    StateTransitioned(StateTransitioned),
    /// A notice that a child ended changed nothing.
    ProcessChildCompletedHandled { owner: ObjectReference, child: ObjectReference },
}

/// What a [`Event`] holds.
pub enum EventView {
    FlowCreated(FlowCreatedView),
    FlowVersionCreated(FlowVersionCreatedView),
    ExecutionCreated(ExecutionCreatedView),
    ExecutionCompleting { execution: ExecutionView },
    ExecutionCompleted { execution: ExecutionView },
    ExecutionTerminating { execution: ExecutionView },
    ExecutionTerminated { execution: ExecutionView },
    ThreadCreated { thread: ThreadView },
    ThreadCompleting { thread: ThreadView },
    ThreadCompleted { thread: ThreadView },
    ThreadTerminating { thread: ThreadView },
    ThreadTerminated { thread: ThreadView },
    StateActivating { activity: ActivityView },
    StateActivated { activity: ActivityView },
    StateCompleting { activity: ActivityView },
    StateCompleted { activity: ActivityView },
    StateTerminating { activity: ActivityView },
    StateTerminated { activity: ActivityView },
    TimerActivated { timer: TimerView },
    TimerTriggered { timer: TimerView },
    TimerCancelled { timer: TimerView },
    TaskActivated { task: TaskView },
    TasksClaimed(TasksClaimedView),
    TaskCompleted(TaskCompletedView),
    TaskFailed(TaskFailedView),
    TaskCancelled { task: TaskView },
    TaskLeaseExpired { task: TaskView },
    VariablesAssigned(VariablesAssignedView),
    StateTransitioned(StateTransitionedView),
    ProcessChildCompletedHandled { owner: ObjectReferenceView, child: ObjectReferenceView },
}

/// What `x` holds; read off by the lemmas of [`group_event_view`].
#[verifier::opaque]
pub open spec fn event_view(x: Event) -> EventView {
    match x {
        Event::FlowCreated(x) => EventView::FlowCreated(x@),
        Event::FlowVersionCreated(x) => EventView::FlowVersionCreated(x@),
        Event::ExecutionCreated(x) => EventView::ExecutionCreated(x@),
        Event::ExecutionCompleting { execution } => EventView::ExecutionCompleting { execution: execution@ },
        Event::ExecutionCompleted { execution } => EventView::ExecutionCompleted { execution: execution@ },
        Event::ExecutionTerminating { execution } => EventView::ExecutionTerminating { execution: execution@ },
        Event::ExecutionTerminated { execution } => EventView::ExecutionTerminated { execution: execution@ },
        Event::ThreadCreated { thread } => EventView::ThreadCreated { thread: thread@ },
        Event::ThreadCompleting { thread } => EventView::ThreadCompleting { thread: thread@ },
        Event::ThreadCompleted { thread } => EventView::ThreadCompleted { thread: thread@ },
        Event::ThreadTerminating { thread } => EventView::ThreadTerminating { thread: thread@ },
        Event::ThreadTerminated { thread } => EventView::ThreadTerminated { thread: thread@ },
        Event::StateActivating { activity } => EventView::StateActivating { activity: activity@ },
        Event::StateActivated { activity } => EventView::StateActivated { activity: activity@ },
        Event::StateCompleting { activity } => EventView::StateCompleting { activity: activity@ },
        Event::StateCompleted { activity } => EventView::StateCompleted { activity: activity@ },
        Event::StateTerminating { activity } => EventView::StateTerminating { activity: activity@ },
        Event::StateTerminated { activity } => EventView::StateTerminated { activity: activity@ },
        Event::TimerActivated { timer } => EventView::TimerActivated { timer: timer@ },
        Event::TimerTriggered { timer } => EventView::TimerTriggered { timer: timer@ },
        Event::TimerCancelled { timer } => EventView::TimerCancelled { timer: timer@ },
        Event::TaskActivated { task } => EventView::TaskActivated { task: task@ },
        Event::TasksClaimed(x) => EventView::TasksClaimed(x@),
        Event::TaskCompleted(x) => EventView::TaskCompleted(x@),
        Event::TaskFailed(x) => EventView::TaskFailed(x@),
        Event::TaskCancelled { task } => EventView::TaskCancelled { task: task@ },
        Event::TaskLeaseExpired { task } => EventView::TaskLeaseExpired { task: task@ },
        Event::VariablesAssigned(x) => EventView::VariablesAssigned(x@),
        Event::StateTransitioned(x) => EventView::StateTransitioned(x@),
        Event::ProcessChildCompletedHandled { owner, child } => EventView::ProcessChildCompletedHandled { owner: owner@, child: child@ },
    }
}

impl View for Event {
    type V = EventView;

    open spec fn view(&self) -> EventView {
        event_view(*self)
    }
}

pub broadcast proof fn lemma_event_flow_created(x: FlowCreated)
    ensures
        #[trigger] event_view(Event::FlowCreated(x)) == (EventView::FlowCreated(x@)),
{
    reveal(event_view);
}

pub broadcast proof fn lemma_event_flow_version_created(x: FlowVersionCreated)
    ensures
        #[trigger] event_view(Event::FlowVersionCreated(x)) == (EventView::FlowVersionCreated(x@)),
{
    reveal(event_view);
}

pub broadcast proof fn lemma_event_execution_created(x: ExecutionCreated)
    ensures
        #[trigger] event_view(Event::ExecutionCreated(x)) == (EventView::ExecutionCreated(x@)),
{
    reveal(event_view);
}

pub broadcast proof fn lemma_event_execution_completing(execution: Execution)
    ensures
        #[trigger] event_view(Event::ExecutionCompleting { execution }) == (EventView::ExecutionCompleting { execution: execution@ }),
{
    reveal(event_view);
}

pub broadcast proof fn lemma_event_execution_completed(execution: Execution)
    ensures
        #[trigger] event_view(Event::ExecutionCompleted { execution }) == (EventView::ExecutionCompleted { execution: execution@ }),
{
    reveal(event_view);
}

pub broadcast proof fn lemma_event_execution_terminating(execution: Execution)
    ensures
        #[trigger] event_view(Event::ExecutionTerminating { execution }) == (EventView::ExecutionTerminating { execution: execution@ }),
{
    reveal(event_view);
}

pub broadcast proof fn lemma_event_execution_terminated(execution: Execution)
    ensures
        #[trigger] event_view(Event::ExecutionTerminated { execution }) == (EventView::ExecutionTerminated { execution: execution@ }),
{
    reveal(event_view);
}

pub broadcast proof fn lemma_event_thread_created(thread: Thread)
    ensures
        #[trigger] event_view(Event::ThreadCreated { thread }) == (EventView::ThreadCreated { thread: thread@ }),
{
    reveal(event_view);
}

pub broadcast proof fn lemma_event_thread_completing(thread: Thread)
    ensures
        #[trigger] event_view(Event::ThreadCompleting { thread }) == (EventView::ThreadCompleting { thread: thread@ }),
{
    reveal(event_view);
}

pub broadcast proof fn lemma_event_thread_completed(thread: Thread)
    ensures
        #[trigger] event_view(Event::ThreadCompleted { thread }) == (EventView::ThreadCompleted { thread: thread@ }),
{
    reveal(event_view);
}

pub broadcast proof fn lemma_event_thread_terminating(thread: Thread)
    ensures
        #[trigger] event_view(Event::ThreadTerminating { thread }) == (EventView::ThreadTerminating { thread: thread@ }),
{
    reveal(event_view);
}

pub broadcast proof fn lemma_event_thread_terminated(thread: Thread)
    ensures
        #[trigger] event_view(Event::ThreadTerminated { thread }) == (EventView::ThreadTerminated { thread: thread@ }),
{
    reveal(event_view);
}

pub broadcast proof fn lemma_event_state_activating(activity: Activity)
    ensures
        #[trigger] event_view(Event::StateActivating { activity }) == (EventView::StateActivating { activity: activity@ }),
{
    reveal(event_view);
}

pub broadcast proof fn lemma_event_state_activated(activity: Activity)
    ensures
        #[trigger] event_view(Event::StateActivated { activity }) == (EventView::StateActivated { activity: activity@ }),
{
    reveal(event_view);
}

pub broadcast proof fn lemma_event_state_completing(activity: Activity)
    ensures
        #[trigger] event_view(Event::StateCompleting { activity }) == (EventView::StateCompleting { activity: activity@ }),
{
    reveal(event_view);
}

pub broadcast proof fn lemma_event_state_completed(activity: Activity)
    ensures
        #[trigger] event_view(Event::StateCompleted { activity }) == (EventView::StateCompleted { activity: activity@ }),
{
    reveal(event_view);
}

pub broadcast proof fn lemma_event_state_terminating(activity: Activity)
    ensures
        #[trigger] event_view(Event::StateTerminating { activity }) == (EventView::StateTerminating { activity: activity@ }),
{
    reveal(event_view);
}

pub broadcast proof fn lemma_event_state_terminated(activity: Activity)
    ensures
        #[trigger] event_view(Event::StateTerminated { activity }) == (EventView::StateTerminated { activity: activity@ }),
{
    reveal(event_view);
}

pub broadcast proof fn lemma_event_timer_activated(timer: Timer)
    ensures
        #[trigger] event_view(Event::TimerActivated { timer }) == (EventView::TimerActivated { timer: timer@ }),
{
    reveal(event_view);
}

pub broadcast proof fn lemma_event_timer_triggered(timer: Timer)
    ensures
        #[trigger] event_view(Event::TimerTriggered { timer }) == (EventView::TimerTriggered { timer: timer@ }),
{
    reveal(event_view);
}

pub broadcast proof fn lemma_event_timer_cancelled(timer: Timer)
    ensures
        #[trigger] event_view(Event::TimerCancelled { timer }) == (EventView::TimerCancelled { timer: timer@ }),
{
    reveal(event_view);
}

pub broadcast proof fn lemma_event_task_activated(task: Task)
    ensures
        #[trigger] event_view(Event::TaskActivated { task }) == (EventView::TaskActivated { task: task@ }),
{
    reveal(event_view);
}

pub broadcast proof fn lemma_event_tasks_claimed(x: TasksClaimed)
    ensures
        #[trigger] event_view(Event::TasksClaimed(x)) == (EventView::TasksClaimed(x@)),
{
    reveal(event_view);
}

pub broadcast proof fn lemma_event_task_completed(x: TaskCompleted)
    ensures
        #[trigger] event_view(Event::TaskCompleted(x)) == (EventView::TaskCompleted(x@)),
{
    reveal(event_view);
}

pub broadcast proof fn lemma_event_task_failed(x: TaskFailed)
    ensures
        #[trigger] event_view(Event::TaskFailed(x)) == (EventView::TaskFailed(x@)),
{
    reveal(event_view);
}

pub broadcast proof fn lemma_event_task_cancelled(task: Task)
    ensures
        #[trigger] event_view(Event::TaskCancelled { task }) == (EventView::TaskCancelled { task: task@ }),
{
    reveal(event_view);
}

pub broadcast proof fn lemma_event_task_lease_expired(task: Task)
    ensures
        #[trigger] event_view(Event::TaskLeaseExpired { task }) == (EventView::TaskLeaseExpired { task: task@ }),
{
    reveal(event_view);
}

pub broadcast proof fn lemma_event_variables_assigned(x: VariablesAssigned)
    ensures
        #[trigger] event_view(Event::VariablesAssigned(x)) == (EventView::VariablesAssigned(x@)),
{
    reveal(event_view);
}

pub broadcast proof fn lemma_event_state_transitioned(x: StateTransitioned)
    ensures
        #[trigger] event_view(Event::StateTransitioned(x)) == (EventView::StateTransitioned(x@)),
{
    reveal(event_view);
}

pub broadcast proof fn lemma_event_process_child_completed_handled(owner: ObjectReference, child: ObjectReference)
    ensures
        #[trigger] event_view(Event::ProcessChildCompletedHandled { owner, child }) == (EventView::ProcessChildCompletedHandled { owner: owner@, child: child@ }),
{
    reveal(event_view);
}

/// What each variant of [`Event`] holds.
pub broadcast group group_event_view {
    lemma_event_flow_created,
    lemma_event_flow_version_created,
    lemma_event_execution_created,
    lemma_event_execution_completing,
    lemma_event_execution_completed,
    lemma_event_execution_terminating,
    lemma_event_execution_terminated,
    lemma_event_thread_created,
    lemma_event_thread_completing,
    lemma_event_thread_completed,
    lemma_event_thread_terminating,
    lemma_event_thread_terminated,
    lemma_event_state_activating,
    lemma_event_state_activated,
    lemma_event_state_completing,
    lemma_event_state_completed,
    lemma_event_state_terminating,
    lemma_event_state_terminated,
    lemma_event_timer_activated,
    lemma_event_timer_triggered,
    lemma_event_timer_cancelled,
    lemma_event_task_activated,
    lemma_event_tasks_claimed,
    lemma_event_task_completed,
    lemma_event_task_failed,
    lemma_event_task_cancelled,
    lemma_event_task_lease_expired,
    lemma_event_variables_assigned,
    lemma_event_state_transitioned,
    lemma_event_process_child_completed_handled,
}

impl DeepView for Event {
    type V = EventView;

    open spec fn deep_view(&self) -> EventView {
        self.view()
    }
}

impl Clone for Event {
    fn clone(&self) -> (r: Self)
        ensures
            r@ == self@,
    {
        broadcast use group_event_view;

        match self {
            Event::FlowCreated(x) => Event::FlowCreated(x.clone()),
            Event::FlowVersionCreated(x) => Event::FlowVersionCreated(x.clone()),
            Event::ExecutionCreated(x) => Event::ExecutionCreated(x.clone()),
            Event::ExecutionCompleting { execution } => Event::ExecutionCompleting { execution: execution.clone() },
            Event::ExecutionCompleted { execution } => Event::ExecutionCompleted { execution: execution.clone() },
            Event::ExecutionTerminating { execution } => Event::ExecutionTerminating { execution: execution.clone() },
            Event::ExecutionTerminated { execution } => Event::ExecutionTerminated { execution: execution.clone() },
            Event::ThreadCreated { thread } => Event::ThreadCreated { thread: thread.clone() },
            Event::ThreadCompleting { thread } => Event::ThreadCompleting { thread: thread.clone() },
            Event::ThreadCompleted { thread } => Event::ThreadCompleted { thread: thread.clone() },
            Event::ThreadTerminating { thread } => Event::ThreadTerminating { thread: thread.clone() },
            Event::ThreadTerminated { thread } => Event::ThreadTerminated { thread: thread.clone() },
            Event::StateActivating { activity } => Event::StateActivating { activity: activity.clone() },
            Event::StateActivated { activity } => Event::StateActivated { activity: activity.clone() },
            Event::StateCompleting { activity } => Event::StateCompleting { activity: activity.clone() },
            Event::StateCompleted { activity } => Event::StateCompleted { activity: activity.clone() },
            Event::StateTerminating { activity } => Event::StateTerminating { activity: activity.clone() },
            Event::StateTerminated { activity } => Event::StateTerminated { activity: activity.clone() },
            Event::TimerActivated { timer } => Event::TimerActivated { timer: timer.clone() },
            Event::TimerTriggered { timer } => Event::TimerTriggered { timer: timer.clone() },
            Event::TimerCancelled { timer } => Event::TimerCancelled { timer: timer.clone() },
            Event::TaskActivated { task } => Event::TaskActivated { task: task.clone() },
            Event::TasksClaimed(x) => Event::TasksClaimed(x.clone()),
            Event::TaskCompleted(x) => Event::TaskCompleted(x.clone()),
            Event::TaskFailed(x) => Event::TaskFailed(x.clone()),
            Event::TaskCancelled { task } => Event::TaskCancelled { task: task.clone() },
            Event::TaskLeaseExpired { task } => Event::TaskLeaseExpired { task: task.clone() },
            Event::VariablesAssigned(x) => Event::VariablesAssigned(x.clone()),
            Event::StateTransitioned(x) => Event::StateTransitioned(x.clone()),
            Event::ProcessChildCompletedHandled { owner, child } => Event::ProcessChildCompletedHandled { owner: owner.clone(), child: child.clone() },
        }
    }
}

} // verus!
