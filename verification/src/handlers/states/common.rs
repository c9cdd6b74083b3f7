//! What several states share: the success finish, the finish and failure of a container, and the
//! spawning of its children.

use vstd::prelude::*;

use crate::asl::AssignObject;
use crate::eval_env::EvalEnv;
use crate::handler::{Collector, World};
use crate::handlers::shared::{
    after_assign, after_output, apply_assign, assigned, completed_activity, completing_context,
    completing_states, emit_state_completed, emit_transition, option_ref, project_output,
    projected, raw_result, transition,
};
use crate::id::Timestamp;
use crate::storage::order::{activity_ok, store_ok};
use crate::types::activity::{Activity, ActivityView};
use crate::types::command::{
    group_command_view, Command, CommandView, TerminateState, TerminateStateView,
};
use crate::types::entry::EntryPayloadView;
use crate::types::error::{ExecutionError, ExecutionErrorView};
use crate::types::event::{group_event_view, Event, EventView};
use crate::types::meta::{ObjectReference, ObjectReferenceView};
use crate::types::status::{Lifecycle, LifecycleView, TerminationReason, TerminationReasonView};
use crate::value::{Json, MemberView, Value, Variables};

verus! {

broadcast use {group_command_view, group_event_view};

/// What a step leaves, and the error that stopped it, if one did.
pub struct Step {
    pub world: World,
    pub error: Option<ExecutionErrorView>,
}

/// A step that nothing stopped.
pub open spec fn done(world: World) -> Step {
    Step { world, error: None }
}

/// A step that an error stopped.
pub open spec fn stopped(world: World, error: ExecutionErrorView) -> Step {
    Step { world, error: Some(error) }
}

/// The error of a result, if it is one.
pub open spec fn failure(r: Result<(), ExecutionError>) -> Option<ExecutionErrorView> {
    match r {
        Ok(_) => None,
        Err(e) => Some(e@),
    }
}

/// The success finish: `Assign`, then `Output` over the raw result, then the record and the route.
pub open spec fn finish_success(
    w: World,
    env: EvalEnv,
    activity: ObjectReferenceView,
    a: ActivityView,
    variables: Seq<MemberView>,
    assign: Option<AssignObject>,
    output: Option<Json>,
    next: Option<Seq<char>>,
    end: Option<bool>,
) -> Step {
    let owner = a.meta.owner->0;
    let result = raw_result(a);
    let states = completing_context(a, a.retry_count(), Some(result), None);
    let w1 = after_assign(w, env, owner, assign, states, variables);
    match assigned(env, assign, states, variables) {
        Err(e) => stopped(w1, e),
        Ok(scope) => {
            let w2 = after_output(w1, env, output, states, scope);
            match projected(env, output, states, scope, result) {
                Err(e) => stopped(w2, e),
                Ok(value) => done(
                    transition(
                        w2.event(
                            EventView::StateCompleted {
                                activity: completed_activity(a, value, w2.now),
                            },
                        ),
                        a.execution,
                        owner,
                        activity,
                        a.state_path,
                        value,
                        next,
                        end,
                    ),
                ),
            }
        },
    }
}

/// Runs the success finish.
pub fn run_finish_success(
    out: &mut Collector,
    env: &EvalEnv,
    activity: &ObjectReference,
    activity_value: &Activity,
    variables: &Variables,
    assign: Option<&AssignObject>,
    output: Option<&Value>,
    next: Option<&String>,
    end: Option<bool>,
) -> (r: Result<(), ExecutionError>)
    requires
        store_ok(old(out)@.store),
        activity_ok(activity_value@),
    ensures
        (Step { world: final(out)@, error: failure(r) }) == finish_success(
            old(out)@,
            *env,
            activity@,
            activity_value@,
            variables@,
            option_ref(assign),
            output.deep_view(),
            next.deep_view(),
            end,
        ),
        store_ok(final(out)@.store),
{
    let result = match &activity_value.raw_output {
        Some(v) => v.clone(),
        None => activity_value.raw_input.clone(),
    };
    let states = completing_states(
        activity_value,
        activity_value.retry_count(),
        Some(&result),
        None,
    );
    let owner = activity_value.meta.owner.clone().unwrap();
    let mut scope = variables.clone();
    match apply_assign(out, env, &owner, assign, &states, &mut scope) {
        Ok(_) => {},
        Err(e) => return Err(e),
    }
    let value = match project_output(out, env, output, &states, &scope, result) {
        Ok(v) => v,
        Err(e) => return Err(e),
    };
    emit_state_completed(out, activity_value, &value);
    emit_transition(
        out,
        &activity_value.execution,
        &owner,
        activity,
        &activity_value.state_path,
        &value,
        next,
        end,
    );
    Ok(())
}

/// An activity whose finish opened at `now`.
pub open spec fn completing_activity(a: ActivityView, now: Timestamp) -> ActivityView {
    ActivityView {
        meta: a.meta.touched(now),
        status: LifecycleView::Completing,
        raw_output: Some(raw_result(a)),
        ..a
    }
}

/// The finish of a container whose children have all settled, with `aggregated` as its result: the
/// finish opens; then `Assign`, then `Output` over the aggregate, then the record and the route. A
/// failed evaluation fails the container and its scope.
pub open spec fn finish_container(
    w: World,
    env: EvalEnv,
    activity: ObjectReferenceView,
    a: ActivityView,
    variables: Seq<MemberView>,
    assign: Option<AssignObject>,
    output: Option<Json>,
    next: Option<Seq<char>>,
    end: Option<bool>,
    aggregated: Json,
) -> World {
    let owner = a.meta.owner->0;
    let states = completing_context(a, a.retry_count(), Some(aggregated), None);
    let finished = completing_activity(a, w.now);
    let w0 = w.event(EventView::StateCompleting { activity: finished });
    let w1 = after_assign(w0, env, owner, assign, states, variables);
    match assigned(env, assign, states, variables) {
        Err(e) => w1.terminate(Some(activity), owner, e),
        Ok(scope) => {
            let w2 = after_output(w1, env, output, states, scope);
            match projected(env, output, states, scope, aggregated) {
                Err(e) => w2.terminate(Some(activity), owner, e),
                Ok(value) => transition(
                    w2.event(
                        EventView::StateCompleted {
                            activity: completed_activity(finished, value, w2.now),
                        },
                    ),
                    a.execution,
                    owner,
                    activity,
                    a.state_path,
                    value,
                    next,
                    end,
                ),
            }
        },
    }
}

/// The first thing that the finish of a container records is that it has opened, whatever `Assign`
/// and `Output` come to.
pub proof fn law_container_finish_opens_first(
    w: World,
    env: EvalEnv,
    activity: ObjectReferenceView,
    a: ActivityView,
    variables: Seq<MemberView>,
    assign: Option<AssignObject>,
    output: Option<Json>,
    next: Option<Seq<char>>,
    end: Option<bool>,
    aggregated: Json,
)
    ensures
        ({
            let chain = finish_container(
                w,
                env,
                activity,
                a,
                variables,
                assign,
                output,
                next,
                end,
                aggregated,
            ).chain;
            &&& chain.len() > w.chain.len()
            &&& chain.take(w.chain.len() as int) == w.chain
            &&& chain[w.chain.len() as int] == EntryPayloadView::Event(
                EventView::StateCompleting { activity: completing_activity(a, w.now) },
            )
        }),
{
}

/// Finishes a container whose children have all settled.
pub fn run_finish_container(
    out: &mut Collector,
    env: &EvalEnv,
    activity: &ObjectReference,
    activity_value: &Activity,
    variables: &Variables,
    assign: Option<&AssignObject>,
    output: Option<&Value>,
    next: Option<&String>,
    end: Option<bool>,
    aggregated: Value,
)
    requires
        store_ok(old(out)@.store),
        activity_ok(activity_value@),
    ensures
        final(out)@ == finish_container(
            old(out)@,
            *env,
            activity@,
            activity_value@,
            variables@,
            option_ref(assign),
            output.deep_view(),
            next.deep_view(),
            end,
            aggregated@,
        ),
        store_ok(final(out)@.store),
{
    let states = completing_states(
        activity_value,
        activity_value.retry_count(),
        Some(&aggregated),
        None,
    );
    let owner = activity_value.meta.owner.clone().unwrap();
    let mut finished = activity_value.clone();
    finished.meta.with_update_at(out.now());
    finished.status = Lifecycle::Completing;
    if finished.raw_output.is_none() {
        finished.raw_output = Some(finished.raw_input.clone());
    }
    out.append_event(Event::StateCompleting { activity: finished.clone() });
    let mut scope = variables.clone();
    match apply_assign(out, env, &owner, assign, &states, &mut scope) {
        Ok(_) => {},
        Err(e) => {
            out.terminate(Some(activity.clone()), &owner, e);
            return ;
        },
    }
    let value = match project_output(out, env, output, &states, &scope, aggregated) {
        Ok(v) => v,
        Err(e) => {
            out.terminate(Some(activity.clone()), &owner, e);
            return ;
        },
    };
    emit_state_completed(out, &finished, &value);
    emit_transition(
        out,
        &activity_value.execution,
        &owner,
        activity,
        &activity_value.state_path,
        &value,
        next,
        end,
    );
}

/// The failure of a container: its own termination, whose sweep stops the children in flight, and
/// that of its scope.
pub open spec fn fail_container(
    w: World,
    a: ActivityView,
    reason: TerminationReasonView,
) -> World {
    w.command(
        CommandView::TerminateState(TerminateStateView { activity: a.reference(), reason }),
    ).scope_termination(a.meta.owner->0, reason)
}

/// Fails a container.
pub fn run_fail_container(out: &mut Collector, activity: &Activity, reason: TerminationReason)
    requires
        activity_ok(activity@),
    ensures
        final(out)@ == fail_container(old(out)@, activity@, reason@),
{
    out.append_command(
        Command::TerminateState(
            TerminateState { activity: activity.reference(), reason: reason.clone() },
        ),
    );
    let owner = activity.meta.owner.clone().unwrap();
    out.emit_scope_termination(&owner, reason);
}

/// The finish that a container falls back to when it is completed from outside: it completes with
/// what it was entered with, and ends its thread.
pub open spec fn finish_stray(w: World, activity: ObjectReferenceView, a: ActivityView) -> World {
    transition(
        w.event(
            EventView::StateCompleted { activity: completed_activity(a, a.raw_input, w.now) },
        ),
        a.execution,
        a.meta.owner->0,
        activity,
        a.state_path,
        a.raw_input,
        None,
        Some(true),
    )
}

/// Runs the finish that a container falls back to.
pub fn run_finish_stray(out: &mut Collector, activity: &ObjectReference, activity_value: &Activity)
    requires
        store_ok(old(out)@.store),
        activity_ok(activity_value@),
    ensures
        final(out)@ == finish_stray(old(out)@, activity@, activity_value@),
        store_ok(final(out)@.store),
{
    emit_state_completed(out, activity_value, &activity_value.raw_input);
    let owner = activity_value.meta.owner.clone().unwrap();
    emit_transition(
        out,
        &activity_value.execution,
        &owner,
        activity,
        &activity_value.state_path,
        &activity_value.raw_input,
        None,
        Some(true),
    );
}

} // verus!
