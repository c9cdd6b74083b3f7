//! Values, errors and statuses as they are shown in messages: a variant by its name, with what it
//! carries.

use vstd::prelude::*;
use vstd::string::*;

use crate::id::{debug_text, quoted};
use crate::text::{integer_text, join3, signed_decimal};
use crate::types::error::{
    ExecutionError, ExecutionErrorView, InfraError, InfraErrorView, RuntimeError, RuntimeErrorView,
};
use crate::types::status::{Lifecycle, LifecycleView, TerminationReason, TerminationReasonView};
use crate::value::{
    lemma_array_view, lemma_object_view, Json, MemberView, Number, NumberView, Value,
};

verus! {

broadcast use {lemma_array_view, lemma_object_view};

/// A number as it is shown.
pub open spec fn number_shown(n: NumberView) -> Seq<char> {
    match n {
        NumberView::Integral(n) => signed_decimal(n as int),
        NumberView::Fraction(text) => text,
    }
}

/// A value as it is shown.
pub open spec fn json_shown(v: Json) -> Seq<char>
    decreases v, 0nat,
{
    match v {
        Json::Null => "Null"@,
        Json::Bool(true) => "Bool(true)"@,
        Json::Bool(false) => "Bool(false)"@,
        Json::Number(n) => "Number("@ + number_shown(n) + ")"@,
        Json::String(text) => "String("@ + quoted(text) + ")"@,
        Json::Array(items) => "Array ["@ + items_shown(items, items.len()) + "]"@,
        Json::Object(members) => "Object {"@ + members_shown(members, members.len()) + "}"@,
    }
}

/// The first `n` items of an array as they are shown.
pub open spec fn items_shown(items: Seq<Json>, n: nat) -> Seq<char>
    decreases items, n,
{
    if n == 0 || n > items.len() {
        Seq::empty()
    } else if n == 1 {
        json_shown(items[0])
    } else {
        items_shown(items, (n - 1) as nat) + ", "@ + json_shown(items[n - 1])
    }
}

/// The first `n` members of an object as they are shown.
pub open spec fn members_shown(members: Seq<MemberView>, n: nat) -> Seq<char>
    decreases members, n,
{
    if n == 0 || n > members.len() {
        Seq::empty()
    } else {
        let shown = quoted(members[n - 1].name) + ": "@ + json_shown(members[n - 1].value);
        if n == 1 {
            shown
        } else {
            members_shown(members, (n - 1) as nat) + ", "@ + shown
        }
    }
}

/// An error of the run as it is shown.
pub open spec fn runtime_error_shown(error: RuntimeErrorView) -> Seq<char> {
    match error {
        RuntimeErrorView::StateNotFound(x) => "StateNotFound("@ + quoted(x) + ")"@,
        RuntimeErrorView::InvalidDefinition(x) => "InvalidDefinition("@ + quoted(x) + ")"@,
        RuntimeErrorView::NoTerminal => "NoTerminal"@,
        RuntimeErrorView::NoChoiceMatched { state } => "NoChoiceMatched { state: "@ + quoted(state)
            + " }"@,
        RuntimeErrorView::Jsonata { field, message } => "Jsonata { field: "@ + quoted(field) + (
        ", message: "@ + quoted(message) + " }"@),
        RuntimeErrorView::TimedOut { message } => "TimedOut { message: "@ + quoted(message)
            + " }"@,
        RuntimeErrorView::Cancelled { message } => "Cancelled { message: "@ + quoted(message)
            + " }"@,
        RuntimeErrorView::StateFailed { state, error, output } => "StateFailed { state: "@
            + quoted(state) + (", error: "@ + quoted(error) + (", output: "@ + json_shown(output)
            + " }"@)),
    }
}

/// An error as it is shown.
pub open spec fn error_shown(error: ExecutionErrorView) -> Seq<char> {
    match error {
        ExecutionErrorView::Runtime(x) => "Runtime("@ + runtime_error_shown(x) + ")"@,
        ExecutionErrorView::Infra(InfraErrorView::Storage(x)) => "Infra(Storage("@ + quoted(x)
            + "))"@,
        ExecutionErrorView::Infra(InfraErrorView::Unanswered) => "Infra(Unanswered)"@,
    }
}

/// A reason as it is shown.
pub open spec fn reason_shown(reason: TerminationReasonView) -> Seq<char> {
    match reason {
        TerminationReasonView::Cancelled => "Cancelled"@,
        TerminationReasonView::Failed { error } => "Failed { error: "@ + error_shown(error)
            + " }"@,
    }
}

/// A status as it is shown.
pub open spec fn status_shown(status: LifecycleView) -> Seq<char> {
    match status {
        LifecycleView::Running => "Running"@,
        LifecycleView::Completing => "Completing"@,
        LifecycleView::Completed => "Completed"@,
        LifecycleView::Terminating(reason) => "Terminating("@ + reason_shown(reason) + ")"@,
        LifecycleView::Terminated(reason) => "Terminated("@ + reason_shown(reason) + ")"@,
    }
}

impl Number {
    /// The number as it is shown.
    pub fn shown(&self) -> (r: String)
        ensures
            r@ == number_shown(self@),
    {
        match self {
            Number::Integral(n) => integer_text(*n),
            Number::Fraction(text) => text.clone(),
        }
    }
}

impl Value {
    /// The value as it is shown.
    pub fn shown(&self) -> (r: String)
        ensures
            r@ == json_shown(self@),
        decreases self,
    {
        match self {
            Value::Null => "Null".to_owned(),
            Value::Bool(b) => if *b {
                "Bool(true)".to_owned()
            } else {
                "Bool(false)".to_owned()
            },
            Value::Number(n) => join3("Number(", n.shown().as_str(), ")"),
            Value::String(text) => join3("String(", debug_text(text.as_str()).as_str(), ")"),
            Value::Array(items) => {
                let ghost all = items.deep_view();
                let mut shown = String::new();
                assert(shown@ =~= Seq::empty());
                let mut i: usize = 0;
                while i < items.len()
                    invariant
                        i <= items.len(),
                        all == items.deep_view(),
                        shown@ == items_shown(all, i as nat),
                        *self == Value::Array(*items),
                    decreases items.len() - i,
                {
                    proof {
                        broadcast use vstd::std_specs::vec::axiom_vec_index_decreases;

                        assert(decreases_to!(*self => (*self)->Array_0));
                        assert(decreases_to!(*items => items[i as int]));
                    }
                    let item = items[i].shown();
                    assert(all[i as int] == items@[i as int]@);
                    if i == 0 {
                        shown = item;
                    } else {
                        shown = join3(shown.as_str(), ", ", item.as_str());
                    }
                    i += 1;
                }
                join3("Array [", shown.as_str(), "]")
            },
            Value::Object(members) => {
                let ghost all = members.deep_view();
                let mut shown = String::new();
                assert(shown@ =~= Seq::empty());
                let mut i: usize = 0;
                while i < members.len()
                    invariant
                        i <= members.len(),
                        all == members.deep_view(),
                        shown@ == members_shown(all, i as nat),
                        *self == Value::Object(*members),
                    decreases members.len() - i,
                {
                    proof {
                        broadcast use vstd::std_specs::vec::axiom_vec_index_decreases;

                        assert(decreases_to!(*self => (*self)->Object_0));
                        assert(decreases_to!(*members => members[i as int]));
                        assert(decreases_to!(members[i as int] => members[i as int].value));
                    }
                    let name = debug_text(members[i].name.as_str());
                    let value = members[i].value.shown();
                    let member = join3(name.as_str(), ": ", value.as_str());
                    assert(all[i as int] == members@[i as int]@);
                    if i == 0 {
                        shown = member;
                    } else {
                        shown = join3(shown.as_str(), ", ", member.as_str());
                    }
                    i += 1;
                }
                join3("Object {", shown.as_str(), "}")
            },
        }
    }
}

impl RuntimeError {
    /// The error as it is shown.
    pub fn shown(&self) -> (r: String)
        ensures
            r@ == runtime_error_shown(self@),
    {
        match self {
            RuntimeError::StateNotFound(x) => join3(
                "StateNotFound(",
                debug_text(x.as_str()).as_str(),
                ")",
            ),
            RuntimeError::InvalidDefinition(x) => join3(
                "InvalidDefinition(",
                debug_text(x.as_str()).as_str(),
                ")",
            ),
            RuntimeError::NoTerminal => "NoTerminal".to_owned(),
            RuntimeError::NoChoiceMatched { state } => join3(
                "NoChoiceMatched { state: ",
                debug_text(state.as_str()).as_str(),
                " }",
            ),
            RuntimeError::Jsonata { field, message } => join3(
                "Jsonata { field: ",
                debug_text(field.as_str()).as_str(),
                join3(", message: ", debug_text(message.as_str()).as_str(), " }").as_str(),
            ),
            RuntimeError::TimedOut { message } => join3(
                "TimedOut { message: ",
                debug_text(message.as_str()).as_str(),
                " }",
            ),
            RuntimeError::Cancelled { message } => join3(
                "Cancelled { message: ",
                debug_text(message.as_str()).as_str(),
                " }",
            ),
            RuntimeError::StateFailed { state, error, output } => {
                let tail = join3(", output: ", output.shown().as_str(), " }");
                let rest = join3(", error: ", debug_text(error.as_str()).as_str(), tail.as_str());
                join3(
                    "StateFailed { state: ",
                    debug_text(state.as_str()).as_str(),
                    rest.as_str(),
                )
            },
        }
    }
}

impl ExecutionError {
    /// The error as it is shown.
    pub fn shown(&self) -> (r: String)
        ensures
            r@ == error_shown(self@),
    {
        match self {
            ExecutionError::Runtime(x) => join3("Runtime(", x.shown().as_str(), ")"),
            ExecutionError::Infra(InfraError::Storage(x)) => join3(
                "Infra(Storage(",
                debug_text(x.as_str()).as_str(),
                "))",
            ),
            ExecutionError::Infra(InfraError::Unanswered) => "Infra(Unanswered)".to_owned(),
        }
    }
}

impl TerminationReason {
    /// The reason as it is shown.
    pub fn shown(&self) -> (r: String)
        ensures
            r@ == reason_shown(self@),
    {
        match self {
            TerminationReason::Cancelled => "Cancelled".to_owned(),
            TerminationReason::Failed { error } => join3(
                "Failed { error: ",
                error.shown().as_str(),
                " }",
            ),
        }
    }
}

impl Lifecycle {
    /// The status as it is shown, with the reason of a node that terminates or has terminated.
    pub fn shown(&self) -> (r: String)
        ensures
            r@ == status_shown(self@),
    {
        match self {
            Lifecycle::Running => "Running".to_owned(),
            Lifecycle::Completing => "Completing".to_owned(),
            Lifecycle::Completed => "Completed".to_owned(),
            Lifecycle::Terminating(reason) => join3("Terminating(", reason.shown().as_str(), ")"),
            Lifecycle::Terminated(reason) => join3("Terminated(", reason.shown().as_str(), ")"),
        }
    }
}

} // verus!
