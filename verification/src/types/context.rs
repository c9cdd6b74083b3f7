//! The context that expressions are evaluated in.

use vstd::prelude::*;

use crate::value::{Json, Value};

verus! {

/// What an expression sees as `$states`: the input of the state it stands in, the name of that state, how
/// often its work was retried, in the complete step its raw result, the context that `Assign` applies in
/// and the output of the error being caught, and, where it is bound, the input of the whole execution.
#[derive(Debug, PartialEq, Eq)]
pub struct States {
    pub input: Value,
    pub state_name: String,
    pub retry_count: u32,
    pub result: Option<Value>,
    pub assign_ctx: Option<Value>,
    pub error_output: Option<Value>,
    pub execution_input: Option<Value>,
}

/// What a [`States`] holds.
pub struct StatesView {
    pub input: Json,
    pub state_name: Seq<char>,
    pub retry_count: u32,
    pub result: Option<Json>,
    pub assign_ctx: Option<Json>,
    pub error_output: Option<Json>,
    pub execution_input: Option<Json>,
}

impl View for States {
    type V = StatesView;

    open spec fn view(&self) -> StatesView {
        StatesView {
            input: self.input@,
            state_name: self.state_name@,
            retry_count: self.retry_count,
            result: self.result.deep_view(),
            assign_ctx: self.assign_ctx.deep_view(),
            error_output: self.error_output.deep_view(),
            execution_input: self.execution_input.deep_view(),
        }
    }
}

impl DeepView for States {
    type V = StatesView;

    open spec fn deep_view(&self) -> StatesView {
        self.view()
    }
}

impl Clone for States {
    fn clone(&self) -> (r: Self)
        ensures
            r@ == self@,
    {
        States {
            input: self.input.clone(),
            state_name: self.state_name.clone(),
            retry_count: self.retry_count,
            result: self.result.clone(),
            assign_ctx: self.assign_ctx.clone(),
            error_output: self.error_output.clone(),
            execution_input: self.execution_input.clone(),
        }
    }
}

/// The context of a step that has no result yet.
pub open spec fn entering(input: Json, state_name: Seq<char>, retry_count: u32) -> StatesView {
    StatesView {
        input,
        state_name,
        retry_count,
        result: None,
        assign_ctx: None,
        error_output: None,
        execution_input: None,
    }
}

fn same_option(a: &Option<Value>, b: &Option<Value>) -> (r: bool)
    ensures
        r == (a.deep_view() == b.deep_view()),
{
    match (a, b) {
        (None, None) => true,
        (Some(x), Some(y)) => x.same(y),
        _ => false,
    }
}

impl States {
    /// The context of a step that has no result yet.
    pub fn new(input: &Value, state_name: String, retry_count: u32) -> (r: States)
        ensures
            r@ == entering(input@, state_name@, retry_count),
    {
        States {
            input: input.clone(),
            state_name,
            retry_count,
            result: None,
            assign_ctx: None,
            error_output: None,
            execution_input: None,
        }
    }

    /// Whether the two are the same context.
    pub fn same(&self, other: &States) -> (r: bool)
        ensures
            r == (self@ == other@),
    {
        self.input.same(&other.input) && self.state_name == other.state_name && self.retry_count
            == other.retry_count && same_option(&self.result, &other.result) && same_option(
            &self.assign_ctx,
            &other.assign_ctx,
        ) && same_option(&self.error_output, &other.error_output) && same_option(
            &self.execution_input,
            &other.execution_input,
        )
    }
}

} // verus!
