//! The end of a node that finishes and has no child left, in a round of its own.

use vstd::prelude::*;

use crate::handler::{Collector, HandlerContext, World};
use crate::handlers::child_completed::{child_settled, settled};
use crate::handlers::dispatch::bind_state;
use crate::handlers::lifecycle::{
    completed_execution, completed_thread, emit_completed_execution, emit_completed_thread,
    emit_terminated_execution, emit_terminated_thread, or_null, terminated_execution,
    terminated_thread, value_or_null,
};
use crate::handlers::resolve::{resolve_scope_state, scope_state};
use crate::handlers::state_handler::finished;
use crate::storage::order::{activity_ok, store_ok};
use crate::storage::scope::{ScopeRecord, ScopeRecordView};
use crate::types::activity::{Activity, ActivityView};
use crate::types::event::{group_event_view, Event, EventView};
use crate::types::meta::{ObjectKind, ObjectReference, ObjectReferenceView};
use crate::types::state_path::state_name;
use crate::types::status::{Lifecycle, LifecycleView, TerminationReason, TerminationReasonView};

verus! {

broadcast use group_event_view;

/// How the deferred finish of an activity went.
#[derive(Clone, Copy, Debug, PartialEq, Eq, Structural)]
pub enum DeferredFinish {
    /// The finish of its state ran.
    Handled,
    /// Its thread or its state could not be found anymore.
    Unresolvable,
    /// The finish failed, and the activity was terminated.
    Terminated,
}

/// What the deferred finish of an activity leaves, and how it went.
pub open spec fn deferred_finish(
    w: World,
    ctx: HandlerContext,
    node: ObjectReferenceView,
    a: ActivityView,
) -> (World, DeferredFinish) {
    match w.store.thread(a.meta.owner->0) {
        Ok(Some(thread)) => match scope_state(
            ctx,
            w.store,
            ScopeRecordView::Thread(thread),
            state_name(a.state_path),
        ) {
            Ok(state) => {
                let step = finished(w, ctx.env, state, node, a, thread.variables);
                match step.error {
                    Some(e) => (
                        step.world.terminate(Some(node), a.execution, e),
                        DeferredFinish::Terminated,
                    ),
                    None => (step.world, DeferredFinish::Handled),
                }
            },
            Err(_) => (w, DeferredFinish::Unresolvable),
        },
        _ => (w, DeferredFinish::Unresolvable),
    }
}

/// An activity closed without its state: with its raw result, or else its processed input.
pub open spec fn closed_activity(a: ActivityView) -> ActivityView {
    ActivityView {
        status: LifecycleView::Completed,
        output: Some(
            match a.raw_output {
                Some(v) => v,
                None => or_null(a.input),
            },
        ),
        ..a
    }
}

/// An activity that has unwound.
pub open spec fn unwound_activity(a: ActivityView, reason: TerminationReasonView) -> ActivityView {
    ActivityView { status: LifecycleView::Terminated(reason), ..a }
}

/// The end of an activity.
pub open spec fn activity_finished(
    w: World,
    ctx: HandlerContext,
    node: ObjectReferenceView,
) -> World {
    match w.store.activity(node) {
        Ok(Some(row)) => if row.active_children.len() > 0 {
            w
        } else {
            let a = row.value;
            let owner = a.meta.owner->0;
            match a.status {
                LifecycleView::Completing => {
                    let (w1, how) = deferred_finish(w, ctx, node, a);
                    match how {
                        DeferredFinish::Handled => settled(w1, ctx, owner, node),
                        DeferredFinish::Terminated => w1,
                        DeferredFinish::Unresolvable => settled(
                            w1.event(EventView::StateCompleted { activity: closed_activity(a) }),
                            ctx,
                            owner,
                            node,
                        ),
                    }
                },
                LifecycleView::Terminating(reason) => settled(
                    w.event(EventView::StateTerminated { activity: unwound_activity(a, reason) }),
                    ctx,
                    owner,
                    node,
                ),
                _ => w,
            }
        },
        _ => w,
    }
}

/// Hands a settled node on to its owner, if it has one.
pub open spec fn handed_up(
    w: World,
    ctx: HandlerContext,
    owner: Option<ObjectReferenceView>,
    node: ObjectReferenceView,
) -> World {
    match owner {
        Some(owner) => settled(w, ctx, owner, node),
        None => w,
    }
}

/// The end of a thread.
pub open spec fn thread_finished(w: World, ctx: HandlerContext, node: ObjectReferenceView) -> World {
    match w.store.thread(node) {
        Ok(Some(row)) => if row.active_children.len() > 0 {
            w
        } else {
            let x = row.value;
            match x.status {
                LifecycleView::Completing => handed_up(
                    w.event(
                        EventView::ThreadCompleted {
                            thread: completed_thread(x, or_null(x.output), w.now),
                        },
                    ),
                    ctx,
                    x.meta.owner,
                    node,
                ),
                LifecycleView::Terminating(reason) => handed_up(
                    w.event(
                        EventView::ThreadTerminated {
                            thread: terminated_thread(x, reason, w.now),
                        },
                    ),
                    ctx,
                    x.meta.owner,
                    node,
                ),
                _ => w,
            }
        },
        _ => w,
    }
}

/// The end of an execution.
pub open spec fn execution_finished(
    w: World,
    ctx: HandlerContext,
    node: ObjectReferenceView,
) -> World {
    match w.store.execution(node) {
        Ok(Some(row)) => if row.active_children.len() > 0 {
            w
        } else {
            let x = row.value;
            match x.status {
                LifecycleView::Completing => handed_up(
                    w.event(
                        EventView::ExecutionCompleted {
                            execution: completed_execution(x, or_null(x.output), w.now),
                        },
                    ),
                    ctx,
                    x.meta.owner,
                    node,
                ),
                LifecycleView::Terminating(reason) => handed_up(
                    w.event(
                        EventView::ExecutionTerminated {
                            execution: terminated_execution(x, reason, w.now),
                        },
                    ),
                    ctx,
                    x.meta.owner,
                    node,
                ),
                _ => w,
            }
        },
        _ => w,
    }
}

/// What continuing a node leaves: one that finishes and has no child left reaches its end, and its
/// owner reacts.
pub open spec fn node_finished(w: World, ctx: HandlerContext, node: ObjectReferenceView) -> World {
    match node.kind {
        ObjectKind::Activity => activity_finished(w, ctx, node),
        ObjectKind::Thread => thread_finished(w, ctx, node),
        ObjectKind::Execution => execution_finished(w, ctx, node),
        _ => w,
    }
}

/// Runs the finish of an activity's own state.
pub fn finish_activity_via_state(
    ctx: &HandlerContext,
    out: &mut Collector,
    node: &ObjectReference,
    activity_value: &Activity,
) -> (r: DeferredFinish)
    requires
        store_ok(old(out)@.store),
        activity_ok(activity_value@),
    ensures
        (final(out)@, r) == deferred_finish(old(out)@, *ctx, node@, activity_value@),
        store_ok(final(out)@.store),
{
    let owner = activity_value.meta.owner.clone().unwrap();
    let thread = match out.storage().get_thread(&owner) {
        Ok(Some(t)) => t,
        _ => return DeferredFinish::Unresolvable,
    };
    let scope = ScopeRecord::Thread(thread);
    let name = activity_value.state_path.state_name();
    let state = match resolve_scope_state(ctx, out.storage(), &scope, name.as_str()) {
        Ok(s) => s,
        Err(_) => return DeferredFinish::Unresolvable,
    };
    let handler = bind_state(state);
    match handler.finish(out, &ctx.env, node, activity_value, scope.variables()) {
        Ok(_) => DeferredFinish::Handled,
        Err(e) => {
            out.terminate(Some(node.clone()), &activity_value.execution, e);
            DeferredFinish::Terminated
        },
    }
}

fn finish_activity(ctx: &HandlerContext, out: &mut Collector, node: &ObjectReference)
    requires
        store_ok(old(out)@.store),
    ensures
        final(out)@ == activity_finished(old(out)@, *ctx, node@),
        store_ok(final(out)@.store),
{
    let act = match out.storage().get_activity(node) {
        Ok(Some(a)) => a,
        _ => return ,
    };
    assert(act@.active_children.len() == act.active_children@.len());
    if act.active_children.len() > 0 {
        return ;
    }
    let owner = act.value.meta.owner.clone().unwrap();
    match &act.value.status {
        Lifecycle::Completing => match finish_activity_via_state(ctx, out, node, &act.value) {
            DeferredFinish::Handled => {},
            DeferredFinish::Terminated => return ,
            DeferredFinish::Unresolvable => close_activity(out, &act.value),
        },
        Lifecycle::Terminating(reason) => unwind_activity(out, &act.value, reason),
        _ => return ,
    }
    child_settled(ctx, out, &owner, node);
}

/// Closes an activity without its state.
pub fn close_activity(out: &mut Collector, a: &Activity)
    requires
        store_ok(old(out)@.store),
        activity_ok(a@),
    ensures
        final(out)@ == old(out)@.event(
            EventView::StateCompleted { activity: closed_activity(a@) },
        ),
        store_ok(final(out)@.store),
{
    let output = match &a.raw_output {
        Some(v) => v.clone(),
        None => value_or_null(&a.input),
    };
    let mut activity = a.clone();
    activity.status = Lifecycle::Completed;
    activity.output = Some(output);
    out.append_event(Event::StateCompleted { activity });
}

/// Records that an activity has unwound.
pub fn unwind_activity(out: &mut Collector, a: &Activity, reason: &TerminationReason)
    requires
        store_ok(old(out)@.store),
        activity_ok(a@),
    ensures
        final(out)@ == old(out)@.event(
            EventView::StateTerminated { activity: unwound_activity(a@, reason@) },
        ),
        store_ok(final(out)@.store),
{
    let mut activity = a.clone();
    activity.status = Lifecycle::Terminated(reason.clone());
    out.append_event(Event::StateTerminated { activity });
}

/// Hands a settled node on to its owner, if it has one.
pub fn hand_up(
    ctx: &HandlerContext,
    out: &mut Collector,
    owner: &Option<ObjectReference>,
    node: &ObjectReference,
)
    requires
        store_ok(old(out)@.store),
    ensures
        final(out)@ == handed_up(old(out)@, *ctx, owner.deep_view(), node@),
        store_ok(final(out)@.store),
{
    if let Some(owner) = owner {
        child_settled(ctx, out, owner, node);
    }
}

fn finish_thread(ctx: &HandlerContext, out: &mut Collector, node: &ObjectReference)
    requires
        store_ok(old(out)@.store),
    ensures
        final(out)@ == thread_finished(old(out)@, *ctx, node@),
        store_ok(final(out)@.store),
{
    let thread = match out.storage().get_thread(node) {
        Ok(Some(t)) => t,
        _ => return ,
    };
    assert(thread@.active_children.len() == thread.active_children@.len());
    if thread.active_children.len() > 0 {
        return ;
    }
    match &thread.value.status {
        Lifecycle::Completing => {
            let output = value_or_null(&thread.value.output);
            emit_completed_thread(out, &thread.value, &output);
        },
        Lifecycle::Terminating(reason) => emit_terminated_thread(out, &thread.value, reason),
        _ => return ,
    }
    hand_up(ctx, out, &thread.value.meta.owner, node);
}

fn finish_execution(ctx: &HandlerContext, out: &mut Collector, node: &ObjectReference)
    requires
        store_ok(old(out)@.store),
    ensures
        final(out)@ == execution_finished(old(out)@, *ctx, node@),
        store_ok(final(out)@.store),
{
    let exec = match out.storage().get_execution(node) {
        Ok(Some(e)) => e,
        _ => return ,
    };
    assert(exec@.active_children.len() == exec.active_children@.len());
    if exec.active_children.len() > 0 {
        return ;
    }
    match &exec.value.status {
        Lifecycle::Completing => {
            let output = value_or_null(&exec.value.output);
            emit_completed_execution(out, &exec.value, &output);
        },
        Lifecycle::Terminating(reason) => emit_terminated_execution(out, &exec.value, reason),
        _ => return ,
    }
    hand_up(ctx, out, &exec.value.meta.owner, node);
}

/// Ends a node that finishes and has no child left.
pub fn finish_node(ctx: &HandlerContext, out: &mut Collector, node: &ObjectReference)
    requires
        store_ok(old(out)@.store),
    ensures
        final(out)@ == node_finished(old(out)@, *ctx, node@),
        store_ok(final(out)@.store),
{
    match node.kind {
        ObjectKind::Activity => finish_activity(ctx, out, node),
        ObjectKind::Thread => finish_thread(ctx, out, node),
        ObjectKind::Execution => finish_execution(ctx, out, node),
        _ => {},
    }
}

/// Handles `ContinueComplete`.
pub struct ContinueCompleteHandler;

impl Default for ContinueCompleteHandler {
    fn default() -> (r: Self)
        ensures
            r == ContinueCompleteHandler,
    {
        ContinueCompleteHandler
    }
}

impl ContinueCompleteHandler {
    /// Ends `owner`, when it finishes and has no child left.
    pub fn handle(&self, owner: &ObjectReference, ctx: &HandlerContext, out: &mut Collector)
        requires
            store_ok(old(out)@.store),
        ensures
            final(out)@ == node_finished(old(out)@, *ctx, owner@),
            store_ok(final(out)@.store),
    {
        finish_node(ctx, out, owner);
    }
}

/// Handles `ContinueTerminate`.
pub struct ContinueTerminateHandler;

impl Default for ContinueTerminateHandler {
    fn default() -> (r: Self)
        ensures
            r == ContinueTerminateHandler,
    {
        ContinueTerminateHandler
    }
}

impl ContinueTerminateHandler {
    /// Ends `owner`, when it finishes and has no child left.
    pub fn handle(&self, owner: &ObjectReference, ctx: &HandlerContext, out: &mut Collector)
        requires
            store_ok(old(out)@.store),
        ensures
            final(out)@ == node_finished(old(out)@, *ctx, owner@),
            store_ok(final(out)@.store),
    {
        finish_node(ctx, out, owner);
    }
}

/// Continuing a node that still has a child, or that does not finish, changes nothing.
pub proof fn law_premature_continue_is_idle(
    w: World,
    ctx: HandlerContext,
    node: ObjectReferenceView,
)
    ensures
        node.kind is Activity && (w.store.activity(node) matches Ok(Some(row))
            && (row.active_children.len() > 0 || row.value.status is Running
            || row.value.status.terminal())) ==> node_finished(w, ctx, node) == w,
        node.kind is Thread && (w.store.thread(node) matches Ok(Some(row))
            && (row.active_children.len() > 0 || row.value.status is Running
            || row.value.status.terminal())) ==> node_finished(w, ctx, node) == w,
        node.kind is Execution && (w.store.execution(node) matches Ok(Some(row))
            && (row.active_children.len() > 0 || row.value.status is Running
            || row.value.status.terminal())) ==> node_finished(w, ctx, node) == w,
{
}

} // verus!
