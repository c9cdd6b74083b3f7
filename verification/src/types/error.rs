//! Errors, and the reserved names that `Retry` and `Catch` match them by.

use vstd::prelude::*;
use vstd::string::*;

use crate::value::{Json, Value};

verus! {

/// A failure of the run itself, which ends the execution that it happens in.
#[derive(Debug, PartialEq, Eq)]
pub enum RuntimeError {
    /// A state, or a node that a state needs, is not there.
    StateNotFound(String),
    /// The definition, or what it evaluates to, is not acceptable.
    InvalidDefinition(String),
    /// A state names neither a successor nor an end.
    NoTerminal,
    /// No rule of a `Choice` matched and it has no default.
    NoChoiceMatched { state: String },
    /// An expression did not evaluate to what its field takes.
    Jsonata { field: String, message: String },
    /// A deadline passed.
    TimedOut { message: String },
    /// The work was cancelled.
    Cancelled { message: String },
    /// A state failed by its own rules, under the error name that handlers match on.
    StateFailed { state: String, error: String, output: Value },
}

/// What a [`RuntimeError`] holds.
pub enum RuntimeErrorView {
    StateNotFound(Seq<char>),
    InvalidDefinition(Seq<char>),
    NoTerminal,
    NoChoiceMatched { state: Seq<char> },
    Jsonata { field: Seq<char>, message: Seq<char> },
    TimedOut { message: Seq<char> },
    Cancelled { message: Seq<char> },
    StateFailed { state: Seq<char>, error: Seq<char>, output: Json },
}

impl View for RuntimeError {
    type V = RuntimeErrorView;

    open spec fn view(&self) -> RuntimeErrorView {
        match self {
            RuntimeError::StateNotFound(x) => RuntimeErrorView::StateNotFound(x@),
            RuntimeError::InvalidDefinition(x) => RuntimeErrorView::InvalidDefinition(x@),
            RuntimeError::NoTerminal => RuntimeErrorView::NoTerminal,
            RuntimeError::NoChoiceMatched { state } => RuntimeErrorView::NoChoiceMatched { state: state@ },
            RuntimeError::Jsonata { field, message } => RuntimeErrorView::Jsonata { field: field@, message: message@ },
            RuntimeError::TimedOut { message } => RuntimeErrorView::TimedOut { message: message@ },
            RuntimeError::Cancelled { message } => RuntimeErrorView::Cancelled { message: message@ },
            RuntimeError::StateFailed { state, error, output } => RuntimeErrorView::StateFailed { state: state@, error: error@, output: output@ },
        }
    }
}

impl DeepView for RuntimeError {
    type V = RuntimeErrorView;

    open spec fn deep_view(&self) -> RuntimeErrorView {
        self.view()
    }
}

impl Clone for RuntimeError {
    fn clone(&self) -> (r: Self)
        ensures
            r@ == self@,
    {
        match self {
            RuntimeError::StateNotFound(x) => RuntimeError::StateNotFound(x.clone()),
            RuntimeError::InvalidDefinition(x) => RuntimeError::InvalidDefinition(x.clone()),
            RuntimeError::NoTerminal => RuntimeError::NoTerminal,
            RuntimeError::NoChoiceMatched { state } => RuntimeError::NoChoiceMatched { state: state.clone() },
            RuntimeError::Jsonata { field, message } => RuntimeError::Jsonata { field: field.clone(), message: message.clone() },
            RuntimeError::TimedOut { message } => RuntimeError::TimedOut { message: message.clone() },
            RuntimeError::Cancelled { message } => RuntimeError::Cancelled { message: message.clone() },
            RuntimeError::StateFailed { state, error, output } => RuntimeError::StateFailed { state: state.clone(), error: error.clone(), output: output.clone() },
        }
    }
}

/// A failure of the machinery around the run.
#[derive(Debug, PartialEq, Eq)]
pub enum InfraError {
    /// The store could not be read.
    Storage(String),
    /// An expression has not been evaluated yet.
    Unanswered,
}

/// What a [`InfraError`] holds.
pub enum InfraErrorView {
    Storage(Seq<char>),
    Unanswered,
}

impl View for InfraError {
    type V = InfraErrorView;

    open spec fn view(&self) -> InfraErrorView {
        match self {
            InfraError::Storage(x) => InfraErrorView::Storage(x@),
            InfraError::Unanswered => InfraErrorView::Unanswered,
        }
    }
}

impl DeepView for InfraError {
    type V = InfraErrorView;

    open spec fn deep_view(&self) -> InfraErrorView {
        self.view()
    }
}

impl Clone for InfraError {
    fn clone(&self) -> (r: Self)
        ensures
            r@ == self@,
    {
        match self {
            InfraError::Storage(x) => InfraError::Storage(x.clone()),
            InfraError::Unanswered => InfraError::Unanswered,
        }
    }
}

/// Why an execution, or a request about one, failed.
#[derive(Debug, PartialEq, Eq)]
pub enum ExecutionError {
    Runtime(RuntimeError),
    Infra(InfraError),
}

/// What a [`ExecutionError`] holds.
pub enum ExecutionErrorView {
    Runtime(RuntimeErrorView),
    Infra(InfraErrorView),
}

impl View for ExecutionError {
    type V = ExecutionErrorView;

    open spec fn view(&self) -> ExecutionErrorView {
        match self {
            ExecutionError::Runtime(x) => ExecutionErrorView::Runtime(x@),
            ExecutionError::Infra(x) => ExecutionErrorView::Infra(x@),
        }
    }
}

impl DeepView for ExecutionError {
    type V = ExecutionErrorView;

    open spec fn deep_view(&self) -> ExecutionErrorView {
        self.view()
    }
}

impl Clone for ExecutionError {
    fn clone(&self) -> (r: Self)
        ensures
            r@ == self@,
    {
        match self {
            ExecutionError::Runtime(x) => ExecutionError::Runtime(x.clone()),
            ExecutionError::Infra(x) => ExecutionError::Infra(x.clone()),
        }
    }
}

/// The reserved name that `Retry` and `Catch` match an error by.
pub open spec fn error_name(error: ExecutionErrorView) -> Seq<char> {
    match error {
        ExecutionErrorView::Runtime(RuntimeErrorView::TimedOut { .. }) => "States.Timeout"@,
        ExecutionErrorView::Runtime(RuntimeErrorView::NoChoiceMatched { .. }) => {
            "States.NoChoiceMatched"@
        },
        ExecutionErrorView::Runtime(RuntimeErrorView::Jsonata { .. }) => {
            "States.QueryEvaluationError"@
        },
        ExecutionErrorView::Runtime(RuntimeErrorView::StateFailed { error, .. }) => error,
        _ => "States.Runtime"@,
    }
}

/// The error output that an error carries for its catcher.
pub open spec fn error_output(error: ExecutionErrorView) -> Option<Json> {
    match error {
        ExecutionErrorView::Runtime(RuntimeErrorView::StateFailed { output, .. }) => Some(output),
        _ => None,
    }
}

/// The error of a definition that is not acceptable.
pub open spec fn invalid_definition(message: Seq<char>) -> ExecutionErrorView {
    ExecutionErrorView::Runtime(RuntimeErrorView::InvalidDefinition(message))
}

/// The error of a state, or of a node that a state needs, that is not there.
pub open spec fn state_not_found(message: Seq<char>) -> ExecutionErrorView {
    ExecutionErrorView::Runtime(RuntimeErrorView::StateNotFound(message))
}

impl ExecutionError {
    /// The error of a definition that is not acceptable.
    pub fn invalid_definition(message: String) -> (r: ExecutionError)
        ensures
            r@ == invalid_definition(message@),
    {
        ExecutionError::Runtime(RuntimeError::InvalidDefinition(message))
    }

    /// The error of a state, or of a node that a state needs, that is not there.
    pub fn state_not_found(message: String) -> (r: ExecutionError)
        ensures
            r@ == state_not_found(message@),
    {
        ExecutionError::Runtime(RuntimeError::StateNotFound(message))
    }

    /// The reserved name that `Retry` and `Catch` match this error by.
    pub fn error_name(&self) -> (r: String)
        ensures
            r@ == error_name(self@),
    {
        match self {
            ExecutionError::Runtime(RuntimeError::TimedOut { .. }) => "States.Timeout".to_owned(),
            ExecutionError::Runtime(RuntimeError::NoChoiceMatched { .. }) => {
                "States.NoChoiceMatched".to_owned()
            },
            ExecutionError::Runtime(RuntimeError::Jsonata { .. }) => {
                "States.QueryEvaluationError".to_owned()
            },
            ExecutionError::Runtime(RuntimeError::StateFailed { error, .. }) => error.clone(),
            _ => "States.Runtime".to_owned(),
        }
    }

    /// The error output that this error carries for its catcher.
    pub fn error_output(&self) -> (r: Option<Value>)
        ensures
            r.deep_view() == error_output(self@),
    {
        match self {
            ExecutionError::Runtime(RuntimeError::StateFailed { output, .. }) => Some(
                output.clone(),
            ),
            _ => None,
        }
    }
}

} // verus!
