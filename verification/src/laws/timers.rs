//! Timers: armed, fired and cancelled; and the `Wait` state.

use vstd::prelude::*;

use crate::asl::{IntOrExpr, WaitState, WaitTimestamp};
use crate::eval_env::{EvalEnv, QuestionView};
use crate::handler::{HandlerContext, World};
use crate::handlers::cancel_timer::timer_cancellation;
use crate::handlers::child_completed::settled;
use crate::handlers::shared::{sweep, timer_armed, timers_cancelled};
use crate::handlers::states::wait::{wait_activated, wait_asked, wait_deadline};
use crate::handlers::trigger_timer::{first_task, task_in_flight, timer_trigger};
use crate::id::{Timestamp, Uid};
use crate::laws::{braced, changed, ends_scope, gives, named_by, sent, told};
use crate::laws::evaluation::law_expressions_stand_in_braces;
use crate::number::whole_value;
use crate::storage::store::StoreView;
use crate::text::signed_decimal;
use crate::types::activity::{ActivityStateView, ActivityView, WaitActivityState};
use crate::types::command::{CommandView, CompleteStateView, FailTaskView};
use crate::types::context::StatesView;
use crate::types::error::{ExecutionErrorView, RuntimeErrorView};
use crate::types::event::EventView;
use crate::types::meta::{NameKey, ObjectKind, ObjectMetaView, ObjectNameView, ObjectReferenceView};
use crate::types::status::TerminationReasonView;
use crate::types::timer::{TimerPurpose, TimerStatus, TimerView};
use crate::value::{Json, MemberView, NumberView};

verus! {

/// A timer that `owner` arms at the instant of `w`: it has the next uid and the next number behind the name
/// of the execution.
pub open spec fn armed(
    w: World,
    execution: ObjectReferenceView,
    owner: ObjectReferenceView,
    purpose: TimerPurpose,
    deadline: Timestamp,
) -> TimerView {
    TimerView {
        meta: ObjectMetaView {
            kind: ObjectKind::Timer,
            name: ObjectNameView {
                base: execution.name.base,
                key: Some(NameKey::Number(w.store.next_seq)),
            },
            uid: Uid(w.next_uid),
            owner: Some(owner),
            created_at: w.now,
            updated_at: w.now,
        },
        execution,
        purpose,
        status: TimerStatus::Active,
        deadline,
    }
}

/// Arming a timer tells of it, and takes one uid and one number.
pub proof fn law_timer_is_armed(
    w: World,
    execution: ObjectReferenceView,
    owner: ObjectReferenceView,
    purpose: TimerPurpose,
    deadline: Timestamp,
)
    ensures
        timer_armed(w, execution, owner, purpose, deadline).chain == w.chain.push(
            told(
                EventView::TimerActivated {
                    timer: armed(w, execution, owner, purpose, deadline),
                },
            ),
        ),
        timer_armed(w, execution, owner, purpose, deadline).next_uid == w.next_uid.wrapping_add(1),
        timer_armed(w, execution, owner, purpose, deadline).now == w.now,
{
}

/// A `Wait` resumes at an instant: so many whole seconds from now, or the instant that its text or its
/// expression writes.
pub open spec fn resumes(
    env: EvalEnv,
    s: WaitState,
    states: StatesView,
    variables: Seq<MemberView>,
    now: Timestamp,
    at: Timestamp,
) -> bool {
    match s.seconds {
        Some(IntOrExpr::Int(n)) => 0 <= n <= 99_999_999 && at.0 == now.0 + n * 1000,
        Some(IntOrExpr::Expr(text)) => exists|source: Seq<char>, v: Json|
            text@ == #[trigger] braced(source) && #[trigger] gives(
                env,
                source,
                states,
                variables,
                v,
            ) && (whole_value(v) matches Some(n) && 0 <= n <= 99_999_999 && at.0 == now.0 + n
                * 1000),
        None => match s.timestamp {
            Some(WaitTimestamp::Literal(text)) => env.answer(
                QuestionView::Rfc3339 { text: text@ },
            ) == Some(
                Ok::<_, ExecutionErrorView>(Json::Number(NumberView::Integral(at.0 as i128))),
            ),
            Some(WaitTimestamp::Expr(text)) => exists|source: Seq<char>, t: Seq<char>|
                text@ == #[trigger] braced(source) && #[trigger] gives(
                    env,
                    source,
                    states,
                    variables,
                    Json::String(t),
                ) && env.answer(QuestionView::Rfc3339 { text: t }) == Some(
                    Ok::<_, ExecutionErrorView>(Json::Number(NumberView::Integral(at.0 as i128))),
                ),
            None => false,
        },
    }
}

/// The deadline of a `Wait` is the instant that it resumes at.
pub proof fn law_wait_resumes_at_its_instant(
    w: World,
    env: EvalEnv,
    s: WaitState,
    states: StatesView,
    variables: Seq<MemberView>,
    now: Timestamp,
    at: Timestamp,
)
    requires
        resumes(env, s, states, variables, now, at),
    ensures
        wait_deadline(env, s, states, variables, now) == Ok::<_, ExecutionErrorView>(at),
        wait_asked(w, env, s, states, variables) == w,
{
    match (s.seconds, s.timestamp) {
        (Some(IntOrExpr::Expr(text)), _) => {
            let (source, v) = choose|source: Seq<char>, v: Json|
                text@ == #[trigger] braced(source) && #[trigger] gives(
                    env,
                    source,
                    states,
                    variables,
                    v,
                ) && (whole_value(v) matches Some(n) && 0 <= n <= 99_999_999 && at.0 == now.0 + n
                    * 1000);
            law_expressions_stand_in_braces(source, text@);
        },
        (None, Some(WaitTimestamp::Expr(text))) => {
            let (source, t) = choose|source: Seq<char>, t: Seq<char>|
                text@ == #[trigger] braced(source) && #[trigger] gives(
                    env,
                    source,
                    states,
                    variables,
                    Json::String(t),
                ) && env.answer(QuestionView::Rfc3339 { text: t }) == Some(
                    Ok::<_, ExecutionErrorView>(Json::Number(NumberView::Integral(at.0 as i128))),
                );
            law_expressions_stand_in_braces(source, text@);
        },
        _ => {},
    }
}

/// `Seconds` that are no whole number from 0 to 99999999, and a `Timestamp` that writes no instant, are
/// refused.
pub proof fn law_bad_wait_is_refused(
    env: EvalEnv,
    s: WaitState,
    states: StatesView,
    variables: Seq<MemberView>,
    now: Timestamp,
    source: Seq<char>,
    v: Json,
)
    ensures
        s.seconds matches Some(IntOrExpr::Int(n)) && !(0 <= n <= 99_999_999) ==> wait_deadline(
            env,
            s,
            states,
            variables,
            now,
        ) == Err::<Timestamp, _>(
            ExecutionErrorView::Runtime(
                RuntimeErrorView::InvalidDefinition(
                    "Wait Seconds must be an integer in the range 0..99999999"@,
                ),
            ),
        ),
        s.seconds matches Some(IntOrExpr::Expr(text)) && text@ == braced(source) && gives(
            env,
            source,
            states,
            variables,
            v,
        ) && whole_value(v) is None ==> wait_deadline(env, s, states, variables, now) == Err::<
            Timestamp,
            _,
        >(
            ExecutionErrorView::Runtime(
                RuntimeErrorView::InvalidDefinition(
                    "Wait Seconds expression must evaluate to an integer"@,
                ),
            ),
        ),
        s.seconds matches Some(IntOrExpr::Expr(text)) && text@ == braced(source) && gives(
            env,
            source,
            states,
            variables,
            v,
        ) && (whole_value(v) matches Some(n) && !(0 <= n <= 99_999_999)) ==> wait_deadline(
            env,
            s,
            states,
            variables,
            now,
        ) is Err,
        s.seconds is None && (s.timestamp matches Some(WaitTimestamp::Expr(text)) && text@
            == braced(source)) && gives(env, source, states, variables, v) && !(v is String)
            ==> wait_deadline(env, s, states, variables, now) == Err::<Timestamp, _>(
            ExecutionErrorView::Runtime(
                RuntimeErrorView::InvalidDefinition(
                    "Wait Timestamp expression must evaluate to a string"@,
                ),
            ),
        ),
{
    if let Some(IntOrExpr::Expr(text)) = s.seconds {
        law_expressions_stand_in_braces(source, text@);
    }
    if let Some(WaitTimestamp::Expr(text)) = s.timestamp {
        law_expressions_stand_in_braces(source, text@);
    }
}

/// An activated `Wait` arms a timer for the instant that it resumes at.
pub proof fn law_wait_arms_its_timer(w: World, a: ActivityView, resume_at: Timestamp)
    requires
        a.activity_state == Some(ActivityStateView::Wait(WaitActivityState { resume_at })),
    ensures
        wait_activated(w, a).chain == w.chain.push(
            told(
                EventView::TimerActivated {
                    timer: armed(
                        w,
                        a.execution,
                        named_by(a.meta),
                        TimerPurpose::WaitResume,
                        resume_at,
                    ),
                },
            ),
        ),
{
    law_timer_is_armed(w, a.execution, named_by(a.meta), TimerPurpose::WaitResume, resume_at);
}

/// The task that an activity has in flight is the first task among its children.
pub proof fn law_first_task_is_in_flight(children: Seq<ObjectReferenceView>, i: int)
    ensures
        0 <= i < children.len() && children[i].kind is Task && (forall|j: int|
            0 <= j < i ==> !((#[trigger] children[j]).kind is Task)) ==> first_task(children)
            == Some(children[i]),
        (forall|j: int| 0 <= j < children.len() ==> !((#[trigger] children[j]).kind is Task))
            ==> first_task(children) is None,
    decreases children.len(),
{
    if children.len() > 0 {
        let rest = children.drop_first();
        law_first_task_is_in_flight(rest, i - 1);
        assert forall|j: int| 0 <= j < rest.len() implies rest[j] == children[j + 1] by {}
        if forall|j: int| 0 <= j < children.len() ==> !((#[trigger] children[j]).kind is Task) {
            assert(!(children[0].kind is Task));
            assert forall|j: int| 0 <= j < rest.len() implies !((
            #[trigger] rest[j]).kind is Task) by {
                assert(rest[j] == children[j + 1]);
            }
        }
        if 0 < i < children.len() && children[i].kind is Task && (forall|j: int|
            0 <= j < i ==> !((#[trigger] children[j]).kind is Task)) {
            assert(!(children[0].kind is Task));
            assert forall|j: int| 0 <= j < i - 1 implies !((#[trigger] rest[j]).kind is Task) by {
                assert(rest[j] == children[j + 1]);
            }
            assert(rest[i - 1] == children[i]);
        }
    }
}

/// The error of a deadline that has passed.
pub open spec fn too_late(what: Seq<char>, deadline: Timestamp) -> ExecutionErrorView {
    ExecutionErrorView::Runtime(
        RuntimeErrorView::TimedOut { message: what + signed_decimal(deadline.0 as int) + ")"@ },
    )
}

/// An armed timer that fires is told so, and brings about what it was armed for: a `Wait` is completed with
/// its input, a task that runs too long fails by the engine with a timeout, a lease that has run out is
/// released, and an execution that takes too long is terminated.
pub proof fn law_fired_timer_does_its_purpose(
    w: World,
    timer: ObjectReferenceView,
    t: TimerView,
    owner: ObjectReferenceView,
)
    requires
        w.store.timer(timer) matches Ok(Some(row)) && row.value == t,
        t.status is Active,
        t.meta.owner == Some(owner),
    ensures
        ({
            let after = timer_trigger(w, timer);
            let w1 = w.event(
                EventView::TimerTriggered {
                    timer: TimerView {
                        meta: changed(t.meta, w.now),
                        status: TimerStatus::Completed,
                        ..t
                    },
                },
            );
            match t.purpose {
                TimerPurpose::WaitResume => owner.kind is Activity ==> after.chain == w1.chain.push(
                    sent(
                        CommandView::CompleteState(
                            CompleteStateView {
                                activity: owner,
                                output: match w1.store.activity(owner) {
                                    Ok(Some(row)) => match row.value.input {
                                        Some(v) => v,
                                        None => Json::Null,
                                    },
                                    _ => Json::Null,
                                },
                            },
                        ),
                    ),
                ) && after.store == w1.store,
                TimerPurpose::TaskTimeout => owner.kind is Activity ==> match task_in_flight(
                    w1.store,
                    owner,
                ) {
                    Some(task) => after.chain == w1.chain.push(
                        sent(
                            CommandView::FailTask(
                                FailTaskView {
                                    task,
                                    worker_id: Seq::empty(),
                                    error: too_late(
                                        "task ran past its TimeoutSeconds deadline ("@,
                                        t.deadline,
                                    ),
                                },
                            ),
                        ),
                    ) && after.store == w1.store,
                    None => after == w1,
                },
                TimerPurpose::DeliveryLease => owner.kind is Activity ==> match task_in_flight(
                    w1.store,
                    owner,
                ) {
                    Some(task) => after.chain == w1.chain.push(
                        sent(CommandView::ReleaseTaskLease { task }),
                    ) && after.store == w1.store,
                    None => after == w1,
                },
                TimerPurpose::ExecutionTimeout => after.chain == w1.chain + ends_scope(
                    owner,
                    TerminationReasonView::Failed {
                        error: too_late(
                            "execution ran past its TimeoutSeconds deadline ("@,
                            t.deadline,
                        ),
                    },
                ) && after.store == w1.store,
            }
        }),
{
    let after = timer_trigger(w, timer);
    let w1 = w.event(
        EventView::TimerTriggered {
            timer: TimerView {
                meta: changed(t.meta, w.now),
                status: TimerStatus::Completed,
                ..t
            },
        },
    );
    if t.purpose is ExecutionTimeout {
        assert(after.chain =~= w1.chain + ends_scope(
            owner,
            TerminationReasonView::Failed {
                error: too_late("execution ran past its TimeoutSeconds deadline ("@, t.deadline),
            },
        ));
    }
}

/// The task in flight is read off the children of the activity.
pub proof fn law_task_in_flight_is_a_child(s: StoreView, activity: ObjectReferenceView)
    ensures
        s.fault is Some ==> task_in_flight(s, activity) is None,
        s.activity(activity) matches Ok(Some(row)) ==> (activity.kind is Activity ==> task_in_flight(
            s,
            activity,
        ) == first_task(row.active_children)),
{
}

/// An armed timer that is cancelled is told so, and its owner hears of it.
pub proof fn law_cancelled_timer_is_told(
    w: World,
    ctx: HandlerContext,
    timer: ObjectReferenceView,
    t: TimerView,
    owner: ObjectReferenceView,
)
    requires
        w.store.timer(timer) matches Ok(Some(row)) && row.value == t,
        t.status is Active,
        t.meta.owner == Some(owner),
    ensures
        timer_cancellation(w, ctx, timer) == settled(
            w.event(
                EventView::TimerCancelled {
                    timer: TimerView {
                        meta: changed(t.meta, w.now),
                        status: TimerStatus::Cancelled,
                        ..t
                    },
                },
            ),
            ctx,
            owner,
            timer,
        ),
{
}

/// Cancelling the timers of an activity goes through its children in order: each armed timer among them is
/// told to be cancelled, and nothing else is.
pub proof fn law_sweep_cancels_armed_timers(
    w: World,
    children: Seq<ObjectReferenceView>,
    child: ObjectReferenceView,
)
    ensures
        sweep(w, Seq::empty()) == w,
        ({
            let before = sweep(w, children);
            let after = sweep(w, children.push(child));
            &&& child.kind is Timer && (before.store.timer(child) matches Ok(Some(row))
                && row.value.status is Active) ==> after == before.event(
                EventView::TimerCancelled {
                    timer: TimerView {
                        meta: changed(before.store.timer(child)->Ok_0->0.value.meta, before.now),
                        status: TimerStatus::Cancelled,
                        ..before.store.timer(child)->Ok_0->0.value
                    },
                },
            )
            &&& !(child.kind is Timer && (before.store.timer(child) matches Ok(Some(row))
                && row.value.status is Active)) ==> after == before
        }),
{
    assert(children.push(child).drop_last() =~= children);
}

/// The timers of an activity are those among its children.
pub proof fn law_timers_of_an_activity_are_its_children(w: World, activity: ObjectReferenceView)
    ensures
        w.store.activity(activity) matches Ok(Some(row)) ==> timers_cancelled(w, activity) == sweep(
            w,
            row.active_children,
        ),
        !(w.store.activity(activity) matches Ok(Some(_))) ==> timers_cancelled(w, activity) == w,
{
}

} // verus!
