//! What a worker is handed.

use vstd::prelude::*;

use crate::id::TaskId;
use crate::value::{Json, Value};

verus! {

/// A task that is handed to a worker: what to call, and with what.
#[derive(Debug, PartialEq, Eq)]
pub struct ActivatedTask {
    pub task: TaskId,
    pub resource: String,
    pub arguments: Value,
}

/// What a [`ActivatedTask`] holds.
pub struct ActivatedTaskView {
    pub task: TaskId,
    pub resource: Seq<char>,
    pub arguments: Json,
}

impl View for ActivatedTask {
    type V = ActivatedTaskView;

    open spec fn view(&self) -> ActivatedTaskView {
        ActivatedTaskView {
            task: self.task,
            resource: self.resource@,
            arguments: self.arguments@,
        }
    }
}

impl DeepView for ActivatedTask {
    type V = ActivatedTaskView;

    open spec fn deep_view(&self) -> ActivatedTaskView {
        self.view()
    }
}

impl Clone for ActivatedTask {
    fn clone(&self) -> (r: Self)
        ensures
            r@ == self@,
    {
        ActivatedTask {
            task: self.task,
            resource: self.resource.clone(),
            arguments: self.arguments.clone(),
        }
    }
}

} // verus!
