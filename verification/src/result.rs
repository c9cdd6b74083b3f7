//! What is told of an execution.

use vstd::prelude::*;

use crate::types::error::{error_name, error_output, ExecutionErrorView};
use crate::types::execution::{Execution, ExecutionView};
use crate::types::status::{Lifecycle, LifecycleView, TerminationReason, TerminationReasonView};
use crate::value::{Json, Value};

verus! {

/// A success: the machine reached an end that is no failure.
#[derive(Debug, PartialEq, Eq)]
pub struct ExecutionResult {
    /// The output of the last state.
    pub output: Value,
}

/// What a [`ExecutionResult`] holds.
pub struct ExecutionResultView {
    pub output: Json,
}

impl View for ExecutionResult {
    type V = ExecutionResultView;

    open spec fn view(&self) -> ExecutionResultView {
        ExecutionResultView {
            output: self.output@,
        }
    }
}

impl DeepView for ExecutionResult {
    type V = ExecutionResultView;

    open spec fn deep_view(&self) -> ExecutionResultView {
        self.view()
    }
}

impl Clone for ExecutionResult {
    fn clone(&self) -> (r: Self)
        ensures
            r@ == self@,
    {
        ExecutionResult {
            output: self.output.clone(),
        }
    }
}

/// Where an execution stands at one instant.
#[derive(Debug, PartialEq, Eq)]
pub struct ExecutionStatusSnapshot {
    pub status: Lifecycle,
    /// The output, once it is completed.
    pub output: Option<Value>,
    /// The name of the error that terminated it.
    pub error_name: Option<String>,
    /// The output of the error that terminated it.
    pub error_output: Option<Value>,
}

/// What a [`ExecutionStatusSnapshot`] holds.
pub struct ExecutionStatusSnapshotView {
    pub status: LifecycleView,
    pub output: Option<Json>,
    pub error_name: Option<Seq<char>>,
    pub error_output: Option<Json>,
}

impl View for ExecutionStatusSnapshot {
    type V = ExecutionStatusSnapshotView;

    open spec fn view(&self) -> ExecutionStatusSnapshotView {
        ExecutionStatusSnapshotView {
            status: self.status@,
            output: self.output.deep_view(),
            error_name: self.error_name.deep_view(),
            error_output: self.error_output.deep_view(),
        }
    }
}

impl DeepView for ExecutionStatusSnapshot {
    type V = ExecutionStatusSnapshotView;

    open spec fn deep_view(&self) -> ExecutionStatusSnapshotView {
        self.view()
    }
}

impl Clone for ExecutionStatusSnapshot {
    fn clone(&self) -> (r: Self)
        ensures
            r@ == self@,
    {
        ExecutionStatusSnapshot {
            status: self.status.clone(),
            output: self.output.clone(),
            error_name: self.error_name.clone(),
            error_output: self.error_output.clone(),
        }
    }
}

/// The error that terminated a node, if one did.
pub open spec fn terminating_error(status: LifecycleView) -> Option<ExecutionErrorView> {
    match status {
        LifecycleView::Terminated(TerminationReasonView::Failed { error }) => Some(error),
        _ => None,
    }
}

/// Where an execution stands: its output once it is completed, and the error once it is terminated by
/// one.
pub open spec fn snapshot_of(x: ExecutionView) -> ExecutionStatusSnapshotView {
    ExecutionStatusSnapshotView {
        status: x.status,
        output: if x.status is Completed {
            x.output
        } else {
            None
        },
        error_name: match terminating_error(x.status) {
            Some(error) => Some(error_name(error)),
            None => None,
        },
        error_output: match terminating_error(x.status) {
            Some(error) => error_output(error),
            None => None,
        },
    }
}

impl ExecutionStatusSnapshot {
    /// Where an execution stands.
    pub fn of(execution: &Execution) -> (r: ExecutionStatusSnapshot)
        ensures
            r@ == snapshot_of(execution@),
    {
        let mut error_name: Option<String> = None;
        let mut error_output: Option<Value> = None;
        if let Lifecycle::Terminated(TerminationReason::Failed { error }) = &execution.status {
            error_name = Some(error.error_name());
            error_output = error.error_output();
        }
        ExecutionStatusSnapshot {
            status: execution.status.clone(),
            output: if let Lifecycle::Completed = &execution.status {
                execution.output.clone()
            } else {
                None
            },
            error_name,
            error_output,
        }
    }
}

} // verus!
