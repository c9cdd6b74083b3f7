//! The lifecycle that executions, threads and activities share.

use vstd::prelude::*;

use crate::types::error::{ExecutionError, ExecutionErrorView};

verus! {

/// Why a node was terminated.
#[derive(Debug, PartialEq, Eq)]
pub enum TerminationReason {
    Cancelled,
    Failed { error: ExecutionError },
}

/// What a [`TerminationReason`] holds.
pub enum TerminationReasonView {
    Cancelled,
    Failed { error: ExecutionErrorView },
}

impl View for TerminationReason {
    type V = TerminationReasonView;

    open spec fn view(&self) -> TerminationReasonView {
        match self {
            TerminationReason::Cancelled => TerminationReasonView::Cancelled,
            TerminationReason::Failed { error } => TerminationReasonView::Failed { error: error@ },
        }
    }
}

impl DeepView for TerminationReason {
    type V = TerminationReasonView;

    open spec fn deep_view(&self) -> TerminationReasonView {
        self.view()
    }
}

impl Clone for TerminationReason {
    fn clone(&self) -> (r: Self)
        ensures
            r@ == self@,
    {
        match self {
            TerminationReason::Cancelled => TerminationReason::Cancelled,
            TerminationReason::Failed { error } => TerminationReason::Failed { error: error.clone() },
        }
    }
}

/// The lifecycle of an execution, a thread or an activity: `Running`, then `Completing` and `Completed` on
/// success, or `Terminating` and `Terminated` otherwise. A node stays in the winding-down phase for as
/// long as it owns children.
#[derive(Debug, PartialEq, Eq)]
pub enum Lifecycle {
    Running,
    Completing,
    Completed,
    Terminating(TerminationReason),
    Terminated(TerminationReason),
}

/// What a [`Lifecycle`] holds.
pub enum LifecycleView {
    Running,
    Completing,
    Completed,
    Terminating(TerminationReasonView),
    Terminated(TerminationReasonView),
}

impl View for Lifecycle {
    type V = LifecycleView;

    open spec fn view(&self) -> LifecycleView {
        match self {
            Lifecycle::Running => LifecycleView::Running,
            Lifecycle::Completing => LifecycleView::Completing,
            Lifecycle::Completed => LifecycleView::Completed,
            Lifecycle::Terminating(x) => LifecycleView::Terminating(x@),
            Lifecycle::Terminated(x) => LifecycleView::Terminated(x@),
        }
    }
}

impl DeepView for Lifecycle {
    type V = LifecycleView;

    open spec fn deep_view(&self) -> LifecycleView {
        self.view()
    }
}

impl Clone for Lifecycle {
    fn clone(&self) -> (r: Self)
        ensures
            r@ == self@,
    {
        match self {
            Lifecycle::Running => Lifecycle::Running,
            Lifecycle::Completing => Lifecycle::Completing,
            Lifecycle::Completed => Lifecycle::Completed,
            Lifecycle::Terminating(x) => Lifecycle::Terminating(x.clone()),
            Lifecycle::Terminated(x) => Lifecycle::Terminated(x.clone()),
        }
    }
}

/// The lifecycle of an execution.
pub type ExecutionStatus = Lifecycle;

/// The lifecycle of a thread.
pub type ThreadStatus = Lifecycle;

/// The lifecycle of an activity.
pub type ActivityStatus = Lifecycle;

impl LifecycleView {
    /// Whether the node has reached its end.
    pub open spec fn terminal(self) -> bool {
        self is Completed || self is Terminated
    }

    /// The reason of a node that terminates or has terminated.
    pub open spec fn reason(self) -> Option<TerminationReasonView> {
        match self {
            LifecycleView::Terminating(reason) => Some(reason),
            LifecycleView::Terminated(reason) => Some(reason),
            _ => None,
        }
    }
}

impl Lifecycle {
    pub fn is_running(&self) -> (r: bool)
        ensures
            r == (self@ is Running),
    {
        matches!(self, Lifecycle::Running)
    }

    pub fn is_completing(&self) -> (r: bool)
        ensures
            r == (self@ is Completing),
    {
        matches!(self, Lifecycle::Completing)
    }

    pub fn is_terminating(&self) -> (r: bool)
        ensures
            r == (self@ is Terminating),
    {
        matches!(self, Lifecycle::Terminating(_))
    }

    /// Whether the node has reached its end.
    pub fn is_terminal(&self) -> (r: bool)
        ensures
            r == self@.terminal(),
    {
        matches!(self, Lifecycle::Completed | Lifecycle::Terminated(_))
    }

    /// The reason of a node that terminates or has terminated.
    pub fn termination_reason(&self) -> (r: Option<&TerminationReason>)
        ensures
            r.deep_view() == self@.reason(),
    {
        match self {
            Lifecycle::Terminating(reason) => Some(reason),
            Lifecycle::Terminated(reason) => Some(reason),
            _ => None,
        }
    }
}

/// The reason of a termination by `error`.
pub open spec fn failed(error: ExecutionErrorView) -> TerminationReasonView {
    TerminationReasonView::Failed { error }
}

} // verus!
