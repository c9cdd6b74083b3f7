//! Questions: what cannot be evaluated for want of an answer is asked, and nothing else comes of it.

use vstd::prelude::*;

use crate::asl::{AssignObject, ChoiceRule, IntOrExpr, State};
use crate::eval_env::{EvalEnv, QuestionView};
use crate::handler::World;
use crate::handlers::shared::{
    after_assign, after_output, assigned, completing_context, json_asked, json_reply, projected,
    text_asked, text_reply,
};
use crate::handlers::state_handler::{finished, processed, processing_asked};
use crate::handlers::states::choice::{picked, scanned};
use crate::handlers::states::fail::{optional_asked, optional_reply};
use crate::handlers::states::task::{task_deadline, timeout_asked};
use crate::id::Timestamp;
use crate::laws::but_for_the_question;
use crate::types::activity::ActivityView;
use crate::types::context::StatesView;
use crate::types::error::{ExecutionErrorView, InfraErrorView};
use crate::types::meta::ObjectReferenceView;
use crate::types::state_path::state_name;
use crate::value::{Json, MemberView};

verus! {

/// The error of an evaluation that has no answer yet.
pub open spec fn unanswered() -> ExecutionErrorView {
    ExecutionErrorView::Infra(InfraErrorView::Unanswered)
}

/// No answer says that there is none.
pub open spec fn honest(env: EvalEnv) -> bool {
    forall|q: QuestionView| #[trigger] env.answer(q) != Some(Err::<Json, _>(unanswered()))
}

/// After an evaluation that came to `error`, or to none: one that has no answer has a question open, the
/// first of them when there was none before; one that came to a value, or to another error, left none.
pub open spec fn asks(
    w: World,
    after: World,
    env: EvalEnv,
    error: Option<ExecutionErrorView>,
) -> bool {
    &&& but_for_the_question(after, w)
    &&& error == Some(unanswered()) ==> {
        &&& after.question is Some
        &&& w.question is None ==> env.answer(after.question->0) is None
        &&& w.question is Some ==> after.question == w.question
    }
    &&& error != Some(unanswered()) ==> after == w
}

/// The error of an evaluation.
pub open spec fn error_of<T>(r: Result<T, ExecutionErrorView>) -> Option<ExecutionErrorView> {
    match r {
        Ok(_) => None,
        Err(e) => Some(e),
    }
}

/// A text and a template that have no answer are asked; others are not.
pub proof fn law_unanswered_value_is_asked(
    w: World,
    env: EvalEnv,
    text: Seq<char>,
    template: Json,
    states: StatesView,
    variables: Seq<MemberView>,
)
    requires
        honest(env),
    ensures
        asks(
            w,
            text_asked(w, env, text, states, variables),
            env,
            error_of(text_reply(env, text, states, variables)),
        ),
        asks(
            w,
            json_asked(w, env, template, states, variables),
            env,
            error_of(json_reply(env, template, states, variables)),
        ),
{
}

/// A `Choice` asks for the first condition that it cannot test for want of an answer; with every condition
/// that it came to answered, it asks nothing.
pub proof fn law_choice_asks_for_its_conditions(
    w: World,
    env: EvalEnv,
    rules: Seq<ChoiceRule>,
    default: Option<Seq<char>>,
    state: Seq<char>,
    states: StatesView,
    variables: Seq<MemberView>,
)
    requires
        honest(env),
    ensures
        asks(
            w,
            scanned(w, env, rules, states, variables),
            env,
            error_of(picked(env, rules, default, state, states, variables)),
        ),
    decreases rules.len(),
{
    if rules.len() > 0 {
        law_choice_asks_for_its_conditions(
            w,
            env,
            rules.drop_first(),
            default,
            state,
            states,
            variables,
        );
    }
}

/// A state whose input cannot be processed for want of an answer asks for it; one whose input is processed,
/// or fails otherwise, asks nothing.
pub proof fn law_entry_asks_for_what_it_needs(
    w: World,
    env: EvalEnv,
    state: State,
    a: ActivityView,
    variables: Seq<MemberView>,
    states: StatesView,
    now: Timestamp,
)
    requires
        honest(env),
        state matches State::Wait(s) ==> s.seconds is Some || s.timestamp is Some,
    ensures
        asks(
            w,
            processing_asked(w, env, state, a, variables, states),
            env,
            error_of(processed(env, state, a, variables, states, now)),
        ),
{
}

/// A `Task` whose deadline cannot be computed for want of an answer asks for it.
pub proof fn law_deadline_asks_for_what_it_needs(
    w: World,
    env: EvalEnv,
    timeout: Option<IntOrExpr>,
    states: StatesView,
    variables: Seq<MemberView>,
    now: Timestamp,
)
    requires
        honest(env),
    ensures
        asks(
            w,
            timeout_asked(w, env, timeout, states, variables),
            env,
            error_of(task_deadline(env, timeout, states, variables, now)),
        ),
{
}

/// `Assign`, `Output` and the texts of a `Fail` that have no answer are asked.
pub proof fn law_finish_asks_for_what_it_needs(
    w: World,
    env: EvalEnv,
    owner: ObjectReferenceView,
    assign: Option<AssignObject>,
    output: Option<Json>,
    text: Option<Seq<char>>,
    states: StatesView,
    variables: Seq<MemberView>,
    fallback: Json,
)
    requires
        honest(env),
    ensures
        assigned(env, assign, states, variables) is Err ==> asks(
            w,
            after_assign(w, env, owner, assign, states, variables),
            env,
            error_of(assigned(env, assign, states, variables)),
        ),
        assigned(env, assign, states, variables) is Ok ==> after_assign(
            w,
            env,
            owner,
            assign,
            states,
            variables,
        ).question == w.question,
        asks(
            w,
            after_output(w, env, output, states, variables),
            env,
            error_of(projected(env, output, states, variables, fallback)),
        ),
        asks(
            w,
            optional_asked(w, env, text, states, variables),
            env,
            error_of(optional_reply(env, text, states, variables)),
        ),
{
}

/// A finish that stops for want of an answer has a question open; one that comes through has none that was
/// not open before.
pub proof fn law_stopped_finish_has_a_question(
    w: World,
    env: EvalEnv,
    state: State,
    activity: ObjectReferenceView,
    a: ActivityView,
    variables: Seq<MemberView>,
)
    requires
        honest(env),
    ensures
        ({
            let step = finished(w, env, state, activity, a, variables);
            &&& step.error == Some(unanswered()) ==> step.world.question is Some
            &&& step.error != Some(unanswered()) ==> step.world.question == w.question
        }),
{
    if let State::Choice(c) = state {
        let states = completing_context(a, a.retry_count(), None, None);
        law_choice_asks_for_its_conditions(
            w,
            env,
            c.choices@,
            c.default.deep_view(),
            state_name(a.state_path),
            states,
            variables,
        );
    }
}

} // verus!
