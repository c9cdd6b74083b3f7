//! What the owner of a settled child does: one step, never up the whole chain of owners.

use vstd::prelude::*;

use crate::handler::{Collector, HandlerContext, World};
use crate::handlers::dispatch::bind_state;
use crate::handlers::resolve::{resolve_scope_state, scope_state};
use crate::handlers::state_handler::child_reaction;
use crate::storage::activity::{ActivityRecord, ActivityRecordView};
use crate::storage::order::{activity_ok, store_ok};
use crate::storage::scope::{load_scope_ref, scope_of};
use crate::types::command::{group_command_view, Command, CommandView};
use crate::types::meta::{ObjectKind, ObjectReference, ObjectReferenceView};
use crate::types::state_path::state_name;
use crate::types::status::{Lifecycle, LifecycleView};

verus! {

broadcast use group_command_view;

/// A node that finishes and has no child left is told to continue; any other waits.
pub open spec fn continued(
    w: World,
    node: ObjectReferenceView,
    children: Seq<ObjectReferenceView>,
    status: LifecycleView,
) -> World {
    if children.len() > 0 {
        w
    } else {
        match status {
            LifecycleView::Completing => w.command(CommandView::ContinueComplete { owner: node }),
            LifecycleView::Terminating(_) => w.command(
                CommandView::ContinueTerminate { owner: node },
            ),
            _ => w,
        }
    }
}

/// What the running activity of a container does: its state reacts, if it can still be found.
pub open spec fn replenished(
    w: World,
    ctx: HandlerContext,
    activity: ObjectReferenceView,
    row: ActivityRecordView,
    child: ObjectReferenceView,
) -> World {
    match scope_of(w.store, row.value.meta.owner->0) {
        Ok(Some(scope)) => match scope_state(
            ctx,
            w.store,
            scope,
            state_name(row.value.state_path),
        ) {
            Ok(state) => child_reaction(
                w,
                ctx.env,
                state,
                activity,
                row.value,
                scope.variables(),
                child,
            ),
            Err(_) => w,
        },
        _ => w,
    }
}

/// What the settling of `child` makes of its owner `parent`. A running activity reacts as its state
/// does; a node that finishes and has no child left is told to continue in a later round.
pub open spec fn settled(
    w: World,
    ctx: HandlerContext,
    parent: ObjectReferenceView,
    child: ObjectReferenceView,
) -> World {
    match parent.kind {
        ObjectKind::Activity => match w.store.activity(parent) {
            Ok(Some(row)) => if row.value.status is Running {
                replenished(w, ctx, parent, row, child)
            } else {
                continued(w, parent, row.active_children, row.value.status)
            },
            _ => w,
        },
        ObjectKind::Execution => match w.store.execution(parent) {
            Ok(Some(row)) => continued(w, parent, row.active_children, row.value.status),
            _ => w,
        },
        ObjectKind::Thread => match w.store.thread(parent) {
            Ok(Some(row)) => continued(w, parent, row.active_children, row.value.status),
            _ => w,
        },
        _ => w,
    }
}

/// Tells a node that finishes and has no child left to continue.
pub fn continue_drained(
    out: &mut Collector,
    node: &ObjectReference,
    children: &Vec<ObjectReference>,
    status: &Lifecycle,
)
    ensures
        final(out)@ == continued(old(out)@, node@, children.deep_view(), status@),
{
    assert(children.deep_view().len() == children@.len());
    if children.len() > 0 {
        return ;
    }
    match status {
        Lifecycle::Completing => out.append_command(
            Command::ContinueComplete { owner: node.clone() },
        ),
        Lifecycle::Terminating(_) => out.append_command(
            Command::ContinueTerminate { owner: node.clone() },
        ),
        _ => {},
    }
}

/// Lets the state of a running activity react to a settled child.
pub fn dispatch_child_completed(
    ctx: &HandlerContext,
    out: &mut Collector,
    activity: &ObjectReference,
    act: &ActivityRecord,
    child: &ObjectReference,
)
    requires
        store_ok(old(out)@.store),
        activity_ok(act@.value),
    ensures
        final(out)@ == replenished(old(out)@, *ctx, activity@, act@, child@),
        store_ok(final(out)@.store),
{
    let owner = act.value.meta.owner.clone().unwrap();
    let scope = match load_scope_ref(out.storage(), &owner) {
        Ok(Some(s)) => s,
        _ => return ,
    };
    let name = act.value.state_path.state_name();
    let state = match resolve_scope_state(ctx, out.storage(), &scope, name.as_str()) {
        Ok(s) => s,
        Err(_) => return ,
    };
    let handler = bind_state(state);
    handler.child_completed(out, &ctx.env, activity, &act.value, scope.variables(), child);
}

/// Reacts, at the owner `parent`, to the settling of `child`.
pub fn child_settled(
    ctx: &HandlerContext,
    out: &mut Collector,
    parent: &ObjectReference,
    child: &ObjectReference,
)
    requires
        store_ok(old(out)@.store),
    ensures
        final(out)@ == settled(old(out)@, *ctx, parent@, child@),
        store_ok(final(out)@.store),
{
    match parent.kind {
        ObjectKind::Activity => {
            let act = match out.storage().get_activity(parent) {
                Ok(Some(a)) => a,
                _ => return ,
            };
            if act.value.status.is_running() {
                dispatch_child_completed(ctx, out, parent, &act, child);
            } else {
                continue_drained(out, parent, &act.active_children, &act.value.status);
            }
        },
        ObjectKind::Execution => {
            let exec = match out.storage().get_execution(parent) {
                Ok(Some(e)) => e,
                _ => return ,
            };
            continue_drained(out, parent, &exec.active_children, &exec.value.status);
        },
        ObjectKind::Thread => {
            let thread = match out.storage().get_thread(parent) {
                Ok(Some(t)) => t,
                _ => return ,
            };
            continue_drained(out, parent, &thread.active_children, &thread.value.status);
        },
        _ => {},
    }
}

/// A node that does not finish, or still has a child, is never told to continue; one that does and
/// has none is told exactly once.
pub proof fn law_continues_only_when_drained(
    w: World,
    node: ObjectReferenceView,
    children: Seq<ObjectReferenceView>,
    status: LifecycleView,
)
    ensures
        ({
            let after = continued(w, node, children, status);
            if children.len() == 0 && (status is Completing || status is Terminating) {
                after.chain.len() == w.chain.len() + 1
            } else {
                after == w
            }
        }),
{
}

} // verus!
