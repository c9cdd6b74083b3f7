//! Tasks and their retries.

use vstd::prelude::*;
use vstd::string::*;

use crate::id::Timestamp;
use crate::types::meta::{ObjectMeta, ObjectMetaView, ObjectReference, ObjectReferenceView};
use crate::value::{Json, Value};

verus! {

/// How far one retrier of a task has got.
#[derive(Clone, Copy, Debug, PartialEq, Eq, Structural)]
pub struct RetrierAttemptState {
    pub attempt_count: u32,
    pub last_retry_at: Option<Timestamp>,
}

impl View for RetrierAttemptState {
    type V = RetrierAttemptState;

    open spec fn view(&self) -> RetrierAttemptState {
        *self
    }
}

impl DeepView for RetrierAttemptState {
    type V = RetrierAttemptState;

    open spec fn deep_view(&self) -> RetrierAttemptState {
        self.view()
    }
}

/// How far the retries of a task have got.
#[derive(Debug, PartialEq, Eq)]
pub struct RetryState {
    /// Retries made, over all retriers.
    pub attempts: u32,
    /// Retries made, by the position of the retrier in the plan.
    pub retrier_attempts: Vec<RetrierAttemptState>,
    /// No worker may claim the task before this instant.
    pub next_available_at: Option<Timestamp>,
}

/// What a [`RetryState`] holds.
pub struct RetryStateView {
    pub attempts: u32,
    pub retrier_attempts: Seq<RetrierAttemptState>,
    pub next_available_at: Option<Timestamp>,
}

impl View for RetryState {
    type V = RetryStateView;

    open spec fn view(&self) -> RetryStateView {
        RetryStateView {
            attempts: self.attempts,
            retrier_attempts: self.retrier_attempts.deep_view(),
            next_available_at: self.next_available_at,
        }
    }
}

impl DeepView for RetryState {
    type V = RetryStateView;

    open spec fn deep_view(&self) -> RetryStateView {
        self.view()
    }
}

impl Clone for RetryState {
    fn clone(&self) -> (r: Self)
        ensures
            r@ == self@,
    {
        let r = RetryState {
            attempts: self.attempts,
            retrier_attempts: self.retrier_attempts.clone(),
            next_available_at: self.next_available_at,
        };
        assert(r.retrier_attempts.deep_view() =~= self.retrier_attempts.deep_view());
        r
    }
}

/// One retrier of a task, resolved when the task was invoked.
#[derive(Debug, PartialEq, Eq)]
pub struct RetryPolicy {
    /// The error names that it retries.
    pub error_equals: Vec<String>,
    pub max_attempts: u32,
    /// The seconds to wait before each retry; past its end the last one repeats.
    pub ladder: Vec<u64>,
}

/// What a [`RetryPolicy`] holds.
pub struct RetryPolicyView {
    pub error_equals: Seq<Seq<char>>,
    pub max_attempts: u32,
    pub ladder: Seq<u64>,
}

impl View for RetryPolicy {
    type V = RetryPolicyView;

    open spec fn view(&self) -> RetryPolicyView {
        RetryPolicyView {
            error_equals: self.error_equals.deep_view(),
            max_attempts: self.max_attempts,
            ladder: self.ladder.deep_view(),
        }
    }
}

impl DeepView for RetryPolicy {
    type V = RetryPolicyView;

    open spec fn deep_view(&self) -> RetryPolicyView {
        self.view()
    }
}

impl Clone for RetryPolicy {
    fn clone(&self) -> (r: Self)
        ensures
            r@ == self@,
    {
        let r = RetryPolicy {
            error_equals: self.error_equals.clone(),
            max_attempts: self.max_attempts,
            ladder: self.ladder.clone(),
        };
        assert(r.error_equals.deep_view() =~= self.error_equals.deep_view());
        assert(r.ladder.deep_view() =~= self.ladder.deep_view());
        r
    }
}

/// The lifecycle of a task.
#[derive(Clone, Copy, Debug, PartialEq, Eq, Structural)]
pub enum TaskStatus {
    Pending,
    Running,
    Completed,
    Failed,
    Cancelled,
}

impl View for TaskStatus {
    type V = TaskStatus;

    open spec fn view(&self) -> TaskStatus {
        *self
    }
}

impl DeepView for TaskStatus {
    type V = TaskStatus;

    open spec fn deep_view(&self) -> TaskStatus {
        self.view()
    }
}

/// One invocation of the resource of a `Task` state.
#[derive(Debug, PartialEq, Eq)]
pub struct Task {
    pub meta: ObjectMeta,
    pub execution: ObjectReference,
    pub resource: String,
    pub arguments: Value,
    pub status: TaskStatus,
    pub deadline: Option<Timestamp>,
    /// The worker that holds the lease.
    pub worker_id: Option<String>,
    pub lease_expires_at: Option<Timestamp>,
    pub retry_plan: Vec<RetryPolicy>,
    pub retry_state: RetryState,
}

/// What a [`Task`] holds.
pub struct TaskView {
    pub meta: ObjectMetaView,
    pub execution: ObjectReferenceView,
    pub resource: Seq<char>,
    pub arguments: Json,
    pub status: TaskStatus,
    pub deadline: Option<Timestamp>,
    pub worker_id: Option<Seq<char>>,
    pub lease_expires_at: Option<Timestamp>,
    pub retry_plan: Seq<RetryPolicyView>,
    pub retry_state: RetryStateView,
}

impl View for Task {
    type V = TaskView;

    open spec fn view(&self) -> TaskView {
        TaskView {
            meta: self.meta@,
            execution: self.execution@,
            resource: self.resource@,
            arguments: self.arguments@,
            status: self.status,
            deadline: self.deadline,
            worker_id: self.worker_id.deep_view(),
            lease_expires_at: self.lease_expires_at,
            retry_plan: self.retry_plan.deep_view(),
            retry_state: self.retry_state@,
        }
    }
}

impl DeepView for Task {
    type V = TaskView;

    open spec fn deep_view(&self) -> TaskView {
        self.view()
    }
}

impl Clone for Task {
    fn clone(&self) -> (r: Self)
        ensures
            r@ == self@,
    {
        let r = Task {
            meta: self.meta.clone(),
            execution: self.execution.clone(),
            resource: self.resource.clone(),
            arguments: self.arguments.clone(),
            status: self.status,
            deadline: self.deadline,
            worker_id: self.worker_id.clone(),
            lease_expires_at: self.lease_expires_at,
            retry_plan: self.retry_plan.clone(),
            retry_state: self.retry_state.clone(),
        };
        assert(r.retry_plan.deep_view() =~= self.retry_plan.deep_view());
        r
    }
}

impl TaskView {
    /// The reference that addresses the task.
    pub open spec fn reference(self) -> ObjectReferenceView {
        self.meta.reference()
    }
}

impl Task {
    /// The reference that addresses the task.
    pub fn reference(&self) -> (r: ObjectReference)
        ensures
            r@ == self@.reference(),
    {
        self.meta.reference()
    }
}

impl TaskStatus {
    pub fn is_running(&self) -> (r: bool)
        ensures
            r == (*self is Running),
    {
        matches!(self, TaskStatus::Running)
    }

    pub open spec fn terminal(self) -> bool {
        self is Completed || self is Failed || self is Cancelled
    }

    /// Whether the task has been settled for good.
    pub fn is_terminal(&self) -> (r: bool)
        ensures
            r == self.terminal(),
    {
        matches!(self, TaskStatus::Completed | TaskStatus::Failed | TaskStatus::Cancelled)
    }

    pub open spec fn spec_text(self) -> Seq<char> {
        match self {
            TaskStatus::Pending => "Pending"@,
            TaskStatus::Running => "Running"@,
            TaskStatus::Completed => "Completed"@,
            TaskStatus::Failed => "Failed"@,
            TaskStatus::Cancelled => "Cancelled"@,
        }
    }

    /// The status in text.
    pub fn text(&self) -> (r: &'static str)
        ensures
            r@ == self.spec_text(),
    {
        match self {
            TaskStatus::Pending => "Pending",
            TaskStatus::Running => "Running",
            TaskStatus::Completed => "Completed",
            TaskStatus::Failed => "Failed",
            TaskStatus::Cancelled => "Cancelled",
        }
    }
}

/// Whether an instant, if there is one, has been reached at `now`.
pub open spec fn reached(at: Option<Timestamp>, now: Timestamp) -> bool {
    at matches Some(t) ==> t.0 <= now.0
}

impl TaskView {
    /// Whether a worker may claim the task at `now`: it is pending and no backoff holds it back, or
    /// the lease on it has run out.
    pub open spec fn claimable(self, now: Timestamp) -> bool {
        match self.status {
            TaskStatus::Pending => reached(self.retry_state.next_available_at, now),
            TaskStatus::Running => self.lease_expires_at is Some && reached(
                self.lease_expires_at,
                now,
            ),
            _ => false,
        }
    }
}

impl Task {
    /// Whether a worker may claim the task at `now`.
    pub fn is_claimable_at(&self, now: Timestamp) -> (r: bool)
        ensures
            r == self@.claimable(now),
    {
        match self.status {
            TaskStatus::Pending => match self.retry_state.next_available_at {
                Some(t) => t.0 <= now.0,
                None => true,
            },
            TaskStatus::Running => match self.lease_expires_at {
                Some(t) => t.0 <= now.0,
                None => false,
            },
            _ => false,
        }
    }
}

impl RetryPolicyView {
    /// The seconds to wait before the retry that follows `made` retries.
    pub open spec fn backoff(self, made: u32) -> u64 {
        if self.ladder.len() == 0 {
            0
        } else if made < self.ladder.len() {
            self.ladder[made as int]
        } else {
            self.ladder.last()
        }
    }
}

impl RetryPolicy {
    /// The seconds to wait before the retry that follows `made` retries.
    pub fn backoff_for_attempt(&self, made: u32) -> (r: u64)
        ensures
            r == self@.backoff(made),
    {
        let n = self.ladder.len();
        if n == 0 {
            0
        } else if (made as u64) < (n as u64) {
            assert(self@.ladder[made as int] == self.ladder@[made as int]);
            self.ladder[made as usize]
        } else {
            assert(self@.ladder.last() == self.ladder@[n - 1]);
            self.ladder[n - 1]
        }
    }
}

impl Default for RetryState {
    fn default() -> (r: Self)
        ensures
            r@ == no_retries(),
    {
        let r = RetryState { attempts: 0, retrier_attempts: Vec::new(), next_available_at: None };
        assert(r@.retrier_attempts =~= Seq::empty());
        r
    }
}

/// The retries of a task that has not been retried.
pub open spec fn no_retries() -> RetryStateView {
    RetryStateView { attempts: 0, retrier_attempts: Seq::empty(), next_available_at: None }
}

} // verus!
