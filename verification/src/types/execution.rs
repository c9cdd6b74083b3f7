//! Executions.

use vstd::prelude::*;

use crate::types::meta::{ObjectMeta, ObjectMetaView, ObjectReference, ObjectReferenceView};
use crate::types::status::{Lifecycle, LifecycleView};
use crate::value::{Json, Value};

verus! {

/// A top-level run of a state machine.
#[derive(Debug, PartialEq, Eq)]
pub struct Execution {
    pub meta: ObjectMeta,
    /// The immutable version of the flow that the run, and every thread in it, executes.
    pub flow_version: ObjectReference,
    pub status: Lifecycle,
    pub input: Value,
    pub output: Option<Value>,
}

/// What a [`Execution`] holds.
pub struct ExecutionView {
    pub meta: ObjectMetaView,
    pub flow_version: ObjectReferenceView,
    pub status: LifecycleView,
    pub input: Json,
    pub output: Option<Json>,
}

impl View for Execution {
    type V = ExecutionView;

    open spec fn view(&self) -> ExecutionView {
        ExecutionView {
            meta: self.meta@,
            flow_version: self.flow_version@,
            status: self.status@,
            input: self.input@,
            output: self.output.deep_view(),
        }
    }
}

impl DeepView for Execution {
    type V = ExecutionView;

    open spec fn deep_view(&self) -> ExecutionView {
        self.view()
    }
}

impl Clone for Execution {
    fn clone(&self) -> (r: Self)
        ensures
            r@ == self@,
    {
        Execution {
            meta: self.meta.clone(),
            flow_version: self.flow_version.clone(),
            status: self.status.clone(),
            input: self.input.clone(),
            output: self.output.clone(),
        }
    }
}

impl ExecutionView {
    /// The reference that addresses this execution.
    pub open spec fn reference(self) -> ObjectReferenceView {
        self.meta.reference()
    }
}

impl Execution {
    /// The reference that addresses this execution.
    pub fn reference(&self) -> (r: ObjectReference)
        ensures
            r@ == self@.reference(),
    {
        self.meta.reference()
    }

    /// Whether it has reached its end.
    pub fn is_terminal(&self) -> (r: bool)
        ensures
            r == self@.status.terminal(),
    {
        self.status.is_terminal()
    }
}

} // verus!
