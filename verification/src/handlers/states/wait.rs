//! The `Wait` state: holds until an instant that it resolves as it is entered.

use vstd::prelude::*;
use vstd::string::*;

use crate::asl::{IntOrExpr, State, WaitState, WaitTimestamp};
use crate::eval_env::{EvalEnv, Question, QuestionView};
use crate::handler::{reply, Collector, World};
use crate::handlers::shared::{emit_timer, eval_string_or_expr, text_asked, text_reply, timer_armed};
use crate::id::Timestamp;
use crate::number::whole_value;
use crate::storage::order::store_ok;
use crate::text::join2;
use crate::types::activity::{Activity, ActivityState, ActivityStateView, ActivityView};
use crate::types::context::{States, StatesView};
use crate::types::error::{invalid_definition, ExecutionError, ExecutionErrorView};
use crate::types::timer::TimerPurpose;
use crate::value::{Json, MemberView, Number, NumberView, Value, Variables};

verus! {

/// The longest that a `Wait` may hold, in seconds.
pub const MAX_WAIT_SECONDS: i64 = 99_999_999;

/// The instant `seconds` after `now`.
pub open spec fn wait_until(now: Timestamp, seconds: int) -> Result<Timestamp, ExecutionErrorView> {
    match now.later(seconds as u64) {
        Some(at) => Ok(at),
        None => Err(invalid_definition("Wait Seconds overflows the absolute deadline"@)),
    }
}

/// The instant that a text in RFC 3339 writes; `invalid` is the error of one that does not.
pub open spec fn instant(
    env: EvalEnv,
    text: Seq<char>,
    invalid: Seq<char>,
) -> Result<Timestamp, ExecutionErrorView> {
    match reply(env, QuestionView::Rfc3339 { text }) {
        Err(e) => Err(e),
        Ok(Json::Number(NumberView::Integral(n))) if i64::MIN <= n <= i64::MAX => Ok(
            Timestamp(n as i64),
        ),
        Ok(_) => Err(invalid_definition(invalid + text)),
    }
}

/// The instant at which a `Wait` that is entered at `now` resumes. It says so either in seconds, up
/// to a limit, or as an instant; either may be an expression.
pub open spec fn wait_deadline(
    env: EvalEnv,
    s: WaitState,
    states: StatesView,
    variables: Seq<MemberView>,
    now: Timestamp,
) -> Result<Timestamp, ExecutionErrorView> {
    match (s.seconds, s.timestamp) {
        (Some(IntOrExpr::Int(n)), _) => if 0 <= n <= MAX_WAIT_SECONDS {
            wait_until(now, n as int)
        } else {
            Err(invalid_definition("Wait Seconds must be an integer in the range 0..99999999"@))
        },
        (Some(IntOrExpr::Expr(expr)), _) => match text_reply(env, expr@, states, variables) {
            Err(e) => Err(e),
            Ok(value) => match whole_value(value) {
                Some(n) => if 0 <= n <= MAX_WAIT_SECONDS {
                    wait_until(now, n)
                } else {
                    Err(
                        invalid_definition(
                            "Wait Seconds expression must evaluate to an integer in the range 0..99999999"@,
                        ),
                    )
                },
                None => Err(
                    invalid_definition("Wait Seconds expression must evaluate to an integer"@),
                ),
            },
        },
        (None, Some(WaitTimestamp::Literal(text))) => instant(
            env,
            text@,
            "Wait Timestamp is not a valid RFC3339 timestamp: "@,
        ),
        (None, Some(WaitTimestamp::Expr(expr))) => match text_reply(
            env,
            expr@,
            states,
            variables,
        ) {
            Err(e) => Err(e),
            Ok(Json::String(text)) => instant(
                env,
                text,
                "Wait Timestamp expression must evaluate to a valid RFC3339 timestamp: "@,
            ),
            Ok(_) => Err(
                invalid_definition("Wait Timestamp expression must evaluate to a string"@),
            ),
        },
        (None, None) => arbitrary(),
    }
}

/// What resolving the instant leaves.
pub open spec fn wait_asked(
    w: World,
    env: EvalEnv,
    s: WaitState,
    states: StatesView,
    variables: Seq<MemberView>,
) -> World {
    match (s.seconds, s.timestamp) {
        (Some(IntOrExpr::Int(_)), _) => w,
        (Some(IntOrExpr::Expr(expr)), _) => text_asked(w, env, expr@, states, variables),
        (None, Some(WaitTimestamp::Literal(text))) => w.asked(
            env,
            QuestionView::Rfc3339 { text: text@ },
        ),
        (None, Some(WaitTimestamp::Expr(expr))) => {
            let asked = text_asked(w, env, expr@, states, variables);
            match text_reply(env, expr@, states, variables) {
                Ok(Json::String(text)) => asked.asked(env, QuestionView::Rfc3339 { text }),
                _ => asked,
            }
        },
        (None, None) => w,
    }
}

/// What follows the activation of a `Wait`: the timer that resumes it is armed.
pub open spec fn wait_activated(w: World, a: ActivityView) -> World {
    match a.activity_state {
        Some(ActivityStateView::Wait(wait)) => timer_armed(
            w,
            a.execution,
            a.reference(),
            TimerPurpose::WaitResume,
            wait.resume_at,
        ),
        _ => w,
    }
}

/// A `Wait` that holds for a number of seconds resumes exactly that long after it is entered.
pub proof fn law_wait_holds_for_its_seconds(
    env: EvalEnv,
    s: WaitState,
    states: StatesView,
    variables: Seq<MemberView>,
    now: Timestamp,
    seconds: i64,
)
    requires
        s.seconds == Some(IntOrExpr::Int(seconds)),
    ensures
        match wait_deadline(env, s, states, variables, now) {
            Ok(at) => {
                &&& 0 <= seconds <= MAX_WAIT_SECONDS
                &&& at.0 == now.0 + seconds * 1000
            },
            Err(_) => {
                ||| seconds < 0
                ||| seconds > MAX_WAIT_SECONDS
                ||| now.0 + seconds * 1000 > i64::MAX
            },
        },
{
}

/// Builds the handler of a `Wait`.
pub struct WaitStateHandlerFactory;

impl WaitStateHandlerFactory {
    /// An empty definition of the state that this factory serves.
    pub fn state(&self) -> (r: State)
        ensures
            r is Wait,
    {
        State::Wait(
            WaitState {
                comment: None,
                output: None,
                assign: None,
                next: None,
                end: None,
                seconds: None,
                timestamp: None,
            },
        )
    }

    /// The handler bound to `state`, which must be a `Wait`.
    pub fn create<'a>(&self, state: &'a State) -> (r: WaitStateHandler<'a>)
        requires
            state is Wait,
        ensures
            *state == State::Wait(*r.state),
    {
        match state {
            State::Wait(s) => WaitStateHandler { state: s },
            _ => WaitStateHandler { state: vstd::pervasive::unreached() },
        }
    }
}

/// The handler of one `Wait`.
pub struct WaitStateHandler<'a> {
    pub state: &'a WaitState,
}

/// The instant `seconds` after `now`.
fn add_seconds(now: Timestamp, seconds: u64) -> (r: Result<Timestamp, ExecutionError>)
    ensures
        match r {
            Ok(at) => wait_until(now, seconds as int) == Ok::<_, ExecutionErrorView>(at),
            Err(e) => wait_until(now, seconds as int) == Err::<Timestamp, _>(e@),
        },
{
    match now.checked_add(seconds) {
        Some(at) => Ok(at),
        None => Err(
            ExecutionError::invalid_definition(
                "Wait Seconds overflows the absolute deadline".to_owned(),
            ),
        ),
    }
}

/// Reads an instant in RFC 3339.
fn read_instant(
    out: &mut Collector,
    env: &EvalEnv,
    text: &String,
    invalid: &str,
) -> (r: Result<Timestamp, ExecutionError>)
    ensures
        match r {
            Ok(at) => instant(*env, text@, invalid@) == Ok::<_, ExecutionErrorView>(at),
            Err(e) => instant(*env, text@, invalid@) == Err::<Timestamp, _>(e@),
        },
        final(out)@ == old(out)@.asked(*env, QuestionView::Rfc3339 { text: text@ }),
{
    match out.ask(env, Question::Rfc3339 { text: text.clone() }) {
        Err(e) => Err(e),
        Ok(Value::Number(Number::Integral(n))) => {
            if i64::MIN as i128 <= n && n <= i64::MAX as i128 {
                Ok(Timestamp(n as i64))
            } else {
                Err(ExecutionError::invalid_definition(join2(invalid, text.as_str())))
            }
        },
        Ok(_) => Err(ExecutionError::invalid_definition(join2(invalid, text.as_str()))),
    }
}

impl<'a> WaitStateHandler<'a> {
    /// Resolves the instant at which the `Wait` resumes.
    pub fn resolve_wait_deadline(
        &self,
        out: &mut Collector,
        env: &EvalEnv,
        variables: &Variables,
        states: &States,
        now: Timestamp,
    ) -> (r: Result<Timestamp, ExecutionError>)
        requires
            self.state.seconds is Some <==> self.state.timestamp is None,
        ensures
            match r {
                Ok(at) => wait_deadline(*env, *self.state, states@, variables@, now) == Ok::<
                    _,
                    ExecutionErrorView,
                >(at),
                Err(e) => wait_deadline(*env, *self.state, states@, variables@, now) == Err::<
                    Timestamp,
                    _,
                >(e@),
            },
            final(out)@ == wait_asked(old(out)@, *env, *self.state, states@, variables@),
    {
        match &self.state.seconds {
            Some(IntOrExpr::Int(n)) => {
                if *n < 0 || *n > MAX_WAIT_SECONDS {
                    return Err(
                        ExecutionError::invalid_definition(
                            "Wait Seconds must be an integer in the range 0..99999999".to_owned(),
                        ),
                    );
                }
                add_seconds(now, *n as u64)
            },
            Some(IntOrExpr::Expr(expr)) => {
                let value = match eval_string_or_expr(
                    out,
                    env,
                    expr.as_str(),
                    states,
                    variables,
                ) {
                    Ok(v) => v,
                    Err(e) => return Err(e),
                };
                match value.whole() {
                    Some(n) => {
                        if n < 0 || n > MAX_WAIT_SECONDS as i128 {
                            return Err(
                                ExecutionError::invalid_definition(
                                    "Wait Seconds expression must evaluate to an integer in the range 0..99999999".to_owned(),
                                ),
                            );
                        }
                        add_seconds(now, n as u64)
                    },
                    None => Err(
                        ExecutionError::invalid_definition(
                            "Wait Seconds expression must evaluate to an integer".to_owned(),
                        ),
                    ),
                }
            },
            None => match &self.state.timestamp {
                Some(WaitTimestamp::Literal(text)) => read_instant(
                    out,
                    env,
                    text,
                    "Wait Timestamp is not a valid RFC3339 timestamp: ",
                ),
                Some(WaitTimestamp::Expr(expr)) => {
                    let value = match eval_string_or_expr(
                        out,
                        env,
                        expr.as_str(),
                        states,
                        variables,
                    ) {
                        Ok(v) => v,
                        Err(e) => return Err(e),
                    };
                    match value {
                        Value::String(text) => read_instant(
                            out,
                            env,
                            &text,
                            "Wait Timestamp expression must evaluate to a valid RFC3339 timestamp: ",
                        ),
                        _ => Err(
                            ExecutionError::invalid_definition(
                                "Wait Timestamp expression must evaluate to a string".to_owned(),
                            ),
                        ),
                    }
                },
                None => vstd::pervasive::unreached(),
            },
        }
    }

    /// Arms the timer that resumes the `Wait`.
    pub fn after_activated(&self, out: &mut Collector, activity: &Activity)
        requires
            store_ok(old(out)@.store),
        ensures
            final(out)@ == wait_activated(old(out)@, activity@),
            store_ok(final(out)@.store),
    {
        if let Some(ActivityState::Wait(wait)) = &activity.activity_state {
            emit_timer(
                out,
                &activity.execution,
                &activity.reference(),
                TimerPurpose::WaitResume,
                wait.resume_at,
            );
        }
    }
}

} // verus!
