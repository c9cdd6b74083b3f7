//! Threads.

use vstd::prelude::*;

use crate::types::meta::{ObjectMeta, ObjectMetaView, ObjectReference, ObjectReferenceView};
use crate::types::state_path::StatePath;
use crate::types::status::{Lifecycle, LifecycleView};
use crate::value::{Json, Value};

verus! {

/// A scoped sub-run: the root thread of an execution, one branch of a `Parallel`, or one item of a `Map`.
#[derive(Debug, PartialEq, Eq)]
pub struct Thread {
    pub meta: ObjectMeta,
    /// The execution that the thread belongs to, at any depth.
    pub execution: ObjectReference,
    /// The `States` table that the thread runs in.
    pub state_path: StatePath,
    pub start_at: String,
    /// The branch or item that the thread runs.
    pub index: usize,
    pub status: Lifecycle,
    pub input: Value,
    pub output: Option<Value>,
}

/// What a [`Thread`] holds.
pub struct ThreadView {
    pub meta: ObjectMetaView,
    pub execution: ObjectReferenceView,
    pub state_path: Seq<Seq<char>>,
    pub start_at: Seq<char>,
    pub index: usize,
    pub status: LifecycleView,
    pub input: Json,
    pub output: Option<Json>,
}

impl View for Thread {
    type V = ThreadView;

    open spec fn view(&self) -> ThreadView {
        ThreadView {
            meta: self.meta@,
            execution: self.execution@,
            state_path: self.state_path@,
            start_at: self.start_at@,
            index: self.index,
            status: self.status@,
            input: self.input@,
            output: self.output.deep_view(),
        }
    }
}

impl DeepView for Thread {
    type V = ThreadView;

    open spec fn deep_view(&self) -> ThreadView {
        self.view()
    }
}

impl Clone for Thread {
    fn clone(&self) -> (r: Self)
        ensures
            r@ == self@,
    {
        Thread {
            meta: self.meta.clone(),
            execution: self.execution.clone(),
            state_path: self.state_path.clone(),
            start_at: self.start_at.clone(),
            index: self.index,
            status: self.status.clone(),
            input: self.input.clone(),
            output: self.output.clone(),
        }
    }
}

impl ThreadView {
    /// The reference that addresses this thread.
    pub open spec fn reference(self) -> ObjectReferenceView {
        self.meta.reference()
    }
}

impl Thread {
    /// The reference that addresses this thread.
    pub fn reference(&self) -> (r: ObjectReference)
        ensures
            r@ == self@.reference(),
    {
        self.meta.reference()
    }

    /// Whether it has reached its end.
    pub fn is_terminal(&self) -> (r: bool)
        ensures
            r == self@.status.terminal(),
    {
        self.status.is_terminal()
    }
}

} // verus!
