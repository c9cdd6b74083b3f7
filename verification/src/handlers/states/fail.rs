//! The `Fail` state: ends its own activity and its scope with an error.

use vstd::prelude::*;
use vstd::string::*;

use crate::asl::{FailState, State};
use crate::eval_env::EvalEnv;
use crate::handler::{Collector, World};
use crate::handlers::shared::{
    completing_context, completing_states, eval_string_or_expr, text_asked, text_reply,
};
use crate::handlers::states::common::{done, failure, stopped, Step};
use crate::id::Timestamp;
use crate::storage::order::{activity_ok, store_ok};
use crate::types::activity::{Activity, ActivityView};
use crate::types::context::{States, StatesView};
use crate::types::error::{
    ExecutionError, ExecutionErrorView, RuntimeError, RuntimeErrorView,
};
use crate::types::event::{group_event_view, Event, EventView};
use crate::types::state_path::state_name;
use crate::types::status::{failed, Lifecycle, LifecycleView, TerminationReason, TerminationReasonView};
use crate::value::{lemma_object_view, Json, Member, MemberView, Value, Variables};

verus! {

broadcast use group_event_view;

/// The answer to an optional string that may be an expression.
pub open spec fn optional_reply(
    env: EvalEnv,
    s: Option<Seq<char>>,
    states: StatesView,
    variables: Seq<MemberView>,
) -> Result<Option<Json>, ExecutionErrorView> {
    match s {
        None => Ok(None),
        Some(s) => match text_reply(env, s, states, variables) {
            Ok(v) => Ok(Some(v)),
            Err(e) => Err(e),
        },
    }
}

/// What evaluating it leaves.
pub open spec fn optional_asked(
    w: World,
    env: EvalEnv,
    s: Option<Seq<char>>,
    states: StatesView,
    variables: Seq<MemberView>,
) -> World {
    match s {
        None => w,
        Some(s) => text_asked(w, env, s, states, variables),
    }
}

/// A member, when there is a value for it.
pub open spec fn optional_member(name: Seq<char>, value: Option<Json>) -> Seq<MemberView> {
    match value {
        Some(value) => seq![MemberView { name, value }],
        None => Seq::empty(),
    }
}

/// The error of a `Fail` in `state`. It is named by `error` when that is a string, and carries both
/// values.
pub open spec fn fail_error(
    state: Seq<char>,
    error: Option<Json>,
    cause: Option<Json>,
) -> ExecutionErrorView {
    ExecutionErrorView::Runtime(
        RuntimeErrorView::StateFailed {
            state,
            error: match error {
                Some(Json::String(s)) => s,
                _ => "States.Fail"@,
            },
            output: Json::Object(
                optional_member("Error"@, error) + optional_member("Cause"@, cause),
            ),
        },
    )
}

/// An activity that terminates, since `now`.
pub open spec fn terminating_activity(
    a: ActivityView,
    reason: TerminationReasonView,
    now: Timestamp,
) -> ActivityView {
    ActivityView { meta: a.meta.touched(now), status: LifecycleView::Terminating(reason), ..a }
}

/// An activity that terminated at `now`.
pub open spec fn terminated_activity(
    a: ActivityView,
    reason: TerminationReasonView,
    now: Timestamp,
) -> ActivityView {
    ActivityView { meta: a.meta.touched(now), status: LifecycleView::Terminated(reason), ..a }
}

/// What ending an activity and its scope with `reason` leaves.
pub open spec fn failed_activity(w: World, a: ActivityView, reason: TerminationReasonView) -> World {
    w.event(
        EventView::StateTerminating { activity: terminating_activity(a, reason, w.now) },
    ).event(
        EventView::StateTerminated { activity: terminated_activity(a, reason, w.now) },
    ).scope_termination(a.meta.owner->0, reason)
}

/// The finish of a `Fail`: its `Error` and its `Cause` are evaluated, and make the error that ends
/// the activity and its scope.
pub open spec fn finish_fail(
    w: World,
    env: EvalEnv,
    f: FailState,
    a: ActivityView,
    variables: Seq<MemberView>,
) -> Step {
    let states = completing_context(a, a.retry_count(), None, None);
    let w1 = optional_asked(w, env, f.error.deep_view(), states, variables);
    match optional_reply(env, f.error.deep_view(), states, variables) {
        Err(e) => stopped(w1, e),
        Ok(error) => {
            let w2 = optional_asked(w1, env, f.cause.deep_view(), states, variables);
            match optional_reply(env, f.cause.deep_view(), states, variables) {
                Err(e) => stopped(w2, e),
                Ok(cause) => done(
                    failed_activity(
                        w2,
                        a,
                        failed(fail_error(state_name(a.state_path), error, cause)),
                    ),
                ),
            }
        },
    }
}

/// Evaluates an optional string that may be an expression.
fn eval_optional(
    out: &mut Collector,
    env: &EvalEnv,
    s: &Option<String>,
    states: &States,
    variables: &Variables,
) -> (r: Result<Option<Value>, ExecutionError>)
    ensures
        match r {
            Ok(v) => optional_reply(*env, s.deep_view(), states@, variables@) == Ok::<
                _,
                ExecutionErrorView,
            >(v.deep_view()),
            Err(e) => optional_reply(*env, s.deep_view(), states@, variables@) == Err::<
                Option<Json>,
                _,
            >(e@),
        },
        final(out)@ == optional_asked(old(out)@, *env, s.deep_view(), states@, variables@),
{
    match s {
        None => Ok(None),
        Some(s) => match eval_string_or_expr(out, env, s.as_str(), states, variables) {
            Ok(v) => Ok(Some(v)),
            Err(e) => Err(e),
        },
    }
}

/// Builds the handler of a `Fail`.
pub struct FailStateHandlerFactory;

impl FailStateHandlerFactory {
    /// An empty definition of the state that this factory serves.
    pub fn state(&self) -> (r: State)
        ensures
            r is Fail,
    {
        State::Fail(FailState { comment: None, cause: None, error: None })
    }

    /// The handler bound to `state`, which must be a `Fail`.
    pub fn create<'a>(&self, state: &'a State) -> (r: FailStateHandler<'a>)
        requires
            state is Fail,
        ensures
            *state == State::Fail(*r.state),
    {
        match state {
            State::Fail(s) => FailStateHandler { state: s },
            _ => FailStateHandler { state: vstd::pervasive::unreached() },
        }
    }
}

/// The handler of one `Fail`.
pub struct FailStateHandler<'a> {
    pub state: &'a FailState,
}

impl<'a> FailStateHandler<'a> {
    /// The error that the evaluated `Error` and `Cause` make.
    pub fn fail_reason(
        state: String,
        error: Option<Value>,
        cause: Option<Value>,
    ) -> (r: TerminationReason)
        ensures
            r@ == failed(fail_error(state@, error.deep_view(), cause.deep_view())),
    {
        let ghost error_view = error.deep_view();
        let ghost cause_view = cause.deep_view();
        let mut members: Vec<Member> = Vec::new();
        let mut name = "States.Fail".to_owned();
        if let Some(value) = error {
            if let Value::String(s) = &value {
                name = s.clone();
            }
            members.push(Member { name: "Error".to_owned(), value });
        }
        assert(members.deep_view() =~= optional_member("Error"@, error_view));
        let ghost first = members.deep_view();
        if let Some(value) = cause {
            members.push(Member { name: "Cause".to_owned(), value });
        }
        assert(members.deep_view() =~= first + optional_member("Cause"@, cause_view));
        proof {
            lemma_object_view(members);
        }
        TerminationReason::Failed {
            error: ExecutionError::Runtime(
                RuntimeError::StateFailed {
                    state,
                    error: name,
                    output: Value::Object(members),
                },
            ),
        }
    }

    /// Ends the activity and its scope.
    pub fn finish(
        &self,
        out: &mut Collector,
        env: &EvalEnv,
        activity_value: &Activity,
        variables: &Variables,
    ) -> (r: Result<(), ExecutionError>)
        requires
            store_ok(old(out)@.store),
            activity_ok(activity_value@),
        ensures
            (Step { world: final(out)@, error: failure(r) }) == finish_fail(
                old(out)@,
                *env,
                *self.state,
                activity_value@,
                variables@,
            ),
            store_ok(final(out)@.store),
    {
        let states = completing_states(
            activity_value,
            activity_value.retry_count(),
            None,
            None,
        );
        let error = match eval_optional(out, env, &self.state.error, &states, variables) {
            Ok(v) => v,
            Err(e) => return Err(e),
        };
        let cause = match eval_optional(out, env, &self.state.cause, &states, variables) {
            Ok(v) => v,
            Err(e) => return Err(e),
        };
        let reason = Self::fail_reason(activity_value.state_path.state_name(), error, cause);
        run_failed_activity(out, activity_value, reason);
        Ok(())
    }
}

/// Ends an activity and its scope with `reason`.
pub fn run_failed_activity(out: &mut Collector, activity: &Activity, reason: TerminationReason)
    requires
        store_ok(old(out)@.store),
        activity_ok(activity@),
    ensures
        final(out)@ == failed_activity(old(out)@, activity@, reason@),
        store_ok(final(out)@.store),
{
    let mut terminated = activity.clone();
    terminated.meta.with_update_at(out.now());
    terminated.status = Lifecycle::Terminating(reason.clone());
    out.append_event(Event::StateTerminating { activity: terminated.clone() });
    terminated.meta.with_update_at(out.now());
    terminated.status = Lifecycle::Terminated(reason.clone());
    out.append_event(Event::StateTerminated { activity: terminated });
    let owner = activity.meta.owner.clone().unwrap();
    out.emit_scope_termination(&owner, reason);
}

} // verus!
