//! What the engine promises, told of what goes into an operation and what comes out of it: the entries
//! that a command adds to the log, and the rows that it leaves.
//!
//! The words that the laws are told in stand here; they are made of records and of the answers of the
//! evaluator alone.

use vstd::prelude::*;

use crate::asl::AssignObject;
use crate::eval_env::{EvalEnv, QuestionView};
use crate::handler::World;
use crate::id::Timestamp;
use crate::types::activity::ActivityView;
use crate::types::command::{
    CommandView, TerminateExecutionView, TerminateStateView, TerminateThreadView,
};
use crate::types::context::StatesView;
use crate::types::entry::EntryPayloadView;
use crate::types::error::ExecutionErrorView;
use crate::types::event::{EventView, VariablesAssignedView};
use crate::types::meta::{ObjectMetaView, ObjectReferenceView};
use crate::types::status::TerminationReasonView;
use crate::value::{bind_all, Json, MemberView};

pub mod choice;
pub mod evaluation;
pub mod fold;
pub mod lifecycle;
pub mod lookup;
pub mod map;
pub mod nodes;
pub mod notices;
pub mod parallel;
pub mod questions;
pub mod routing;
pub mod rows;
pub mod states;
pub mod streams;
pub mod tasks;
pub mod timers;
pub mod values;

verus! {

/// `source` as an expression stands in a definition: in `{% %}`.
pub open spec fn braced(source: Seq<char>) -> Seq<char> {
    seq!['{', '%'] + source + seq!['%', '}']
}

/// A command in a chain.
pub open spec fn sent(command: CommandView) -> EntryPayloadView {
    EntryPayloadView::Command(command)
}

/// An event in a chain.
pub open spec fn told(event: EventView) -> EntryPayloadView {
    EntryPayloadView::Event(event)
}

/// The evaluator has the answer `v` to an expression.
pub open spec fn gives(
    env: EvalEnv,
    source: Seq<char>,
    states: StatesView,
    variables: Seq<MemberView>,
    v: Json,
) -> bool {
    env.answer(QuestionView::Expression { source, states, variables }) == Some(Ok::<_, ExecutionErrorView>(v))
}

/// The evaluator has the answer `v` to a template.
pub open spec fn fills(
    env: EvalEnv,
    template: Json,
    states: StatesView,
    variables: Seq<MemberView>,
    v: Json,
) -> bool {
    env.answer(QuestionView::Json { template, states, variables }) == Some(Ok::<_, ExecutionErrorView>(v))
}

/// What expressions see as a state completes.
pub open spec fn seen(
    a: ActivityView,
    result: Option<Json>,
    error_output: Option<Json>,
) -> StatesView {
    StatesView {
        input: a.raw_input,
        state_name: if a.state_path.len() == 0 {
            Seq::empty()
        } else {
            a.state_path[a.state_path.len() - 1]
        },
        retry_count: match a.retry_state {
            Some(retries) => retries.attempts,
            None => 0,
        },
        result,
        assign_ctx: Some(a.raw_input),
        error_output,
        execution_input: None,
    }
}

/// What expressions see as a state is entered.
pub open spec fn seen_on_entry(input: Json, path: Seq<Seq<char>>) -> StatesView {
    StatesView {
        input,
        state_name: if path.len() == 0 {
            Seq::empty()
        } else {
            path[path.len() - 1]
        },
        retry_count: 0,
        result: None,
        assign_ctx: None,
        error_output: None,
        execution_input: None,
    }
}

/// `Assign` makes `scope` of the variables: without one they stay, otherwise the members of the object
/// that it evaluates to are bound.
pub open spec fn binds(
    env: EvalEnv,
    assign: Option<AssignObject>,
    states: StatesView,
    variables: Seq<MemberView>,
    scope: Seq<MemberView>,
) -> bool {
    match assign {
        None => scope == variables,
        Some(assign) => match env.answer(
            QuestionView::Json {
                template: Json::Object(assign.0.deep_view()),
                states,
                variables,
            },
        ) {
            Some(Ok(Json::Object(members))) => scope == bind_all(variables, members),
            _ => false,
        },
    }
}

/// What `Assign` adds to the log: the new variables, where it binds any.
pub open spec fn binding_told(
    env: EvalEnv,
    owner: ObjectReferenceView,
    assign: Option<AssignObject>,
    states: StatesView,
    variables: Seq<MemberView>,
) -> Seq<EntryPayloadView> {
    match assign {
        None => Seq::empty(),
        Some(assign) => match env.answer(
            QuestionView::Json {
                template: Json::Object(assign.0.deep_view()),
                states,
                variables,
            },
        ) {
            Some(Ok(Json::Object(members))) if members.len() > 0 => seq![
                EntryPayloadView::Event(
                    EventView::VariablesAssigned(
                        VariablesAssignedView {
                            scope: owner,
                            variables: bind_all(variables, members),
                        },
                    ),
                ),
            ],
            _ => Seq::empty(),
        },
    }
}

/// `Output` makes `value`: what it evaluates to, or `fallback` without one.
pub open spec fn shows(
    env: EvalEnv,
    output: Option<Json>,
    states: StatesView,
    scope: Seq<MemberView>,
    fallback: Json,
    value: Json,
) -> bool {
    match output {
        Some(template) => fills(env, template, states, scope, value),
        None => value == fallback,
    }
}

/// The metadata as changed at `now`.
pub open spec fn changed(meta: ObjectMetaView, now: Timestamp) -> ObjectMetaView {
    ObjectMetaView {
        kind: meta.kind,
        name: meta.name,
        uid: meta.uid,
        owner: meta.owner,
        created_at: meta.created_at,
        updated_at: now,
    }
}

/// The reference that metadata makes.
pub open spec fn named_by(meta: ObjectMetaView) -> ObjectReferenceView {
    ObjectReferenceView { kind: meta.kind, name: meta.name, uid: meta.uid }
}

/// The termination of an activity.
pub open spec fn ends_activity(
    activity: ObjectReferenceView,
    reason: TerminationReasonView,
) -> EntryPayloadView {
    EntryPayloadView::Command(
        CommandView::TerminateState(TerminateStateView { activity, reason }),
    )
}

/// The termination of a scope: of an execution or of a thread.
pub open spec fn ends_scope(
    scope: ObjectReferenceView,
    reason: TerminationReasonView,
) -> Seq<EntryPayloadView> {
    if scope.kind is Execution {
        seq![
            EntryPayloadView::Command(
                CommandView::TerminateExecution(
                    TerminateExecutionView { name: scope.name, uid: Some(scope.uid), reason },
                ),
            ),
        ]
    } else if scope.kind is Thread {
        seq![
            EntryPayloadView::Command(
                CommandView::TerminateThread(TerminateThreadView { thread: scope, reason }),
            ),
        ]
    } else {
        Seq::empty()
    }
}

/// Nothing but the question that is left open differs.
pub open spec fn but_for_the_question(a: World, b: World) -> bool {
    &&& a.chain == b.chain
    &&& a.acks == b.acks
    &&& a.store == b.store
    &&& a.now == b.now
    &&& a.next_uid == b.next_uid
}

} // verus!
