//! The settling of a child as a command of its own, which ends the owner and is relayed upwards.

use vstd::prelude::*;

use crate::handler::{Collector, HandlerContext, World};
use crate::handlers::child_completed::{dispatch_child_completed, replenished};
use crate::handlers::continue_::{
    close_activity, closed_activity, unwind_activity, unwound_activity,
};
use crate::handlers::lifecycle::{
    completed_execution, completed_thread, emit_completed_execution, emit_completed_thread,
    emit_terminated_execution, emit_terminated_thread, or_null, terminated_execution,
    terminated_thread, value_or_null,
};
use crate::storage::order::store_ok;
use crate::types::command::{group_command_view, Command, CommandView};
use crate::types::event::{group_event_view, Event, EventView};
use crate::types::meta::{ObjectKind, ObjectReference, ObjectReferenceView};
use crate::types::status::{Lifecycle, LifecycleView};

verus! {

broadcast use {group_command_view, group_event_view};

/// Relays the settling of `node` to its owner, if it has one.
pub open spec fn relayed(
    w: World,
    owner: Option<ObjectReferenceView>,
    node: ObjectReferenceView,
) -> World {
    match owner {
        Some(owner) => w.command(CommandView::ProcessChildCompleted { owner, child: node }),
        None => w,
    }
}

/// A dispatch that has emitted nothing leaves a receipt, so that every command has a follow-up.
pub open spec fn receipted(
    w: World,
    owner: ObjectReferenceView,
    child: ObjectReferenceView,
) -> World {
    if w.chain.len() == 0 {
        w.event(EventView::ProcessChildCompletedHandled { owner, child })
    } else {
        w
    }
}

/// What the settling of `child` makes of an execution that owns it.
pub open spec fn execution_reaction(
    w: World,
    parent: ObjectReferenceView,
    child: ObjectReferenceView,
) -> World {
    match w.store.execution(parent) {
        Ok(Some(row)) => if row.active_children.len() > 0 {
            w
        } else {
            let x = row.value;
            receipted(
                match x.status {
                    LifecycleView::Completing => relayed(
                        w.event(
                            EventView::ExecutionCompleted {
                                execution: completed_execution(x, or_null(x.output), w.now),
                            },
                        ),
                        x.meta.owner,
                        parent,
                    ),
                    LifecycleView::Terminating(reason) => relayed(
                        w.event(
                            EventView::ExecutionTerminated {
                                execution: terminated_execution(x, reason, w.now),
                            },
                        ),
                        x.meta.owner,
                        parent,
                    ),
                    _ => w,
                },
                parent,
                child,
            )
        },
        _ => w,
    }
}

/// What the settling of `child` makes of a thread that owns it.
pub open spec fn thread_reaction(
    w: World,
    parent: ObjectReferenceView,
    child: ObjectReferenceView,
) -> World {
    match w.store.thread(parent) {
        Ok(Some(row)) => if row.active_children.len() > 0 {
            w
        } else {
            let x = row.value;
            receipted(
                match x.status {
                    LifecycleView::Completing => relayed(
                        w.event(
                            EventView::ThreadCompleted {
                                thread: completed_thread(x, or_null(x.output), w.now),
                            },
                        ),
                        x.meta.owner,
                        parent,
                    ),
                    LifecycleView::Terminating(reason) => relayed(
                        w.event(
                            EventView::ThreadTerminated {
                                thread: terminated_thread(x, reason, w.now),
                            },
                        ),
                        x.meta.owner,
                        parent,
                    ),
                    _ => w,
                },
                parent,
                child,
            )
        },
        _ => w,
    }
}

/// What the settling of `child` makes of an activity that owns it.
pub open spec fn activity_reaction(
    w: World,
    ctx: HandlerContext,
    parent: ObjectReferenceView,
    child: ObjectReferenceView,
) -> World {
    match w.store.activity(parent) {
        Ok(Some(row)) => {
            let a = row.value;
            match a.status {
                LifecycleView::Completing => if row.active_children.len() > 0 {
                    w
                } else {
                    receipted(
                        relayed(
                            w.event(EventView::StateCompleted { activity: closed_activity(a) }),
                            a.meta.owner,
                            parent,
                        ),
                        parent,
                        child,
                    )
                },
                LifecycleView::Terminating(reason) => if row.active_children.len() > 0 {
                    w
                } else {
                    receipted(
                        relayed(
                            w.event(
                                EventView::StateTerminated {
                                    activity: unwound_activity(a, reason),
                                },
                            ),
                            a.meta.owner,
                            parent,
                        ),
                        parent,
                        child,
                    )
                },
                LifecycleView::Running => receipted(
                    replenished(w, ctx, parent, row, child),
                    parent,
                    child,
                ),
                _ => receipted(w, parent, child),
            }
        },
        _ => w,
    }
}

/// What the settling of `child` makes of its owner: one that finishes and has no child left reaches
/// its end, which is relayed to its own owner; a running container reacts as its state does; and
/// where nothing comes of it a receipt is left. An owner that is gone, or that finishes and still
/// has a child, leaves nothing.
pub open spec fn reaction(
    w: World,
    ctx: HandlerContext,
    parent: ObjectReferenceView,
    child: ObjectReferenceView,
) -> World {
    match parent.kind {
        ObjectKind::Execution => execution_reaction(w, parent, child),
        ObjectKind::Thread => thread_reaction(w, parent, child),
        ObjectKind::Activity => activity_reaction(w, ctx, parent, child),
        _ => receipted(w, parent, child),
    }
}

/// Handles `ProcessChildCompleted`.
pub struct ProcessChildCompletedHandler;

impl Default for ProcessChildCompletedHandler {
    fn default() -> (r: Self)
        ensures
            r == ProcessChildCompletedHandler,
    {
        ProcessChildCompletedHandler
    }
}

fn relay(out: &mut Collector, owner: &Option<ObjectReference>, node: &ObjectReference)
    ensures
        final(out)@ == relayed(old(out)@, owner.deep_view(), node@),
{
    if let Some(owner) = owner {
        out.append_command(
            Command::ProcessChildCompleted { owner: owner.clone(), child: node.clone() },
        );
    }
}

fn leave_receipt(out: &mut Collector, owner: &ObjectReference, child: &ObjectReference)
    requires
        store_ok(old(out)@.store),
    ensures
        final(out)@ == receipted(old(out)@, owner@, child@),
        store_ok(final(out)@.store),
{
    if out.is_empty() {
        out.append_event(
            Event::ProcessChildCompletedHandled { owner: owner.clone(), child: child.clone() },
        );
    }
}

impl ProcessChildCompletedHandler {
    pub fn new() -> (r: Self)
        ensures
            r == ProcessChildCompletedHandler,
    {
        ProcessChildCompletedHandler
    }

    /// Reacts, at the owner `parent`, to the settling of `child`.
    pub fn react(
        &self,
        ctx: &HandlerContext,
        out: &mut Collector,
        parent: &ObjectReference,
        child: &ObjectReference,
    )
        requires
            store_ok(old(out)@.store),
        ensures
            final(out)@ == reaction(old(out)@, *ctx, parent@, child@),
            store_ok(final(out)@.store),
    {
        match parent.kind {
            ObjectKind::Execution => {
                let exec = match out.storage().get_execution(parent) {
                    Ok(Some(e)) => e,
                    _ => return ,
                };
                assert(exec@.active_children.len() == exec.active_children@.len());
                if exec.active_children.len() > 0 {
                    return ;
                }
                match &exec.value.status {
                    Lifecycle::Completing => {
                        let output = value_or_null(&exec.value.output);
                        emit_completed_execution(out, &exec.value, &output);
                        relay(out, &exec.value.meta.owner, parent);
                    },
                    Lifecycle::Terminating(reason) => {
                        emit_terminated_execution(out, &exec.value, reason);
                        relay(out, &exec.value.meta.owner, parent);
                    },
                    _ => {},
                }
            },
            ObjectKind::Thread => {
                let thread = match out.storage().get_thread(parent) {
                    Ok(Some(t)) => t,
                    _ => return ,
                };
                assert(thread@.active_children.len() == thread.active_children@.len());
                if thread.active_children.len() > 0 {
                    return ;
                }
                match &thread.value.status {
                    Lifecycle::Completing => {
                        let output = value_or_null(&thread.value.output);
                        emit_completed_thread(out, &thread.value, &output);
                        relay(out, &thread.value.meta.owner, parent);
                    },
                    Lifecycle::Terminating(reason) => {
                        emit_terminated_thread(out, &thread.value, reason);
                        relay(out, &thread.value.meta.owner, parent);
                    },
                    _ => {},
                }
            },
            ObjectKind::Activity => {
                let act = match out.storage().get_activity(parent) {
                    Ok(Some(a)) => a,
                    _ => return ,
                };
                assert(act@.active_children.len() == act.active_children@.len());
                match &act.value.status {
                    Lifecycle::Completing => {
                        if act.active_children.len() > 0 {
                            return ;
                        }
                        close_activity(out, &act.value);
                        relay(out, &act.value.meta.owner, parent);
                    },
                    Lifecycle::Terminating(reason) => {
                        if act.active_children.len() > 0 {
                            return ;
                        }
                        unwind_activity(out, &act.value, reason);
                        relay(out, &act.value.meta.owner, parent);
                    },
                    Lifecycle::Running => dispatch_child_completed(ctx, out, parent, &act, child),
                    _ => {},
                }
            },
            _ => {},
        }
        leave_receipt(out, parent, child);
    }

    /// Reacts to the settling of `child` at `owner`.
    pub fn handle(
        &self,
        owner: &ObjectReference,
        child: &ObjectReference,
        ctx: &HandlerContext,
        out: &mut Collector,
    )
        requires
            store_ok(old(out)@.store),
        ensures
            final(out)@ == reaction(old(out)@, *ctx, owner@, child@),
            store_ok(final(out)@.store),
    {
        self.react(ctx, out, owner, child);
    }
}

/// An owner that has reached its end, or that no child can have, takes a notice without change but
/// for the receipt: a duplicate is harmless. An execution or a thread has no child left then.
pub proof fn law_late_notice_leaves_a_receipt(
    w: World,
    ctx: HandlerContext,
    parent: ObjectReferenceView,
    child: ObjectReferenceView,
)
    requires
        w.chain.len() == 0,
        match parent.kind {
            ObjectKind::Execution => w.store.execution(parent) matches Ok(Some(row))
                && row.value.status.terminal() && row.active_children.len() == 0,
            ObjectKind::Thread => w.store.thread(parent) matches Ok(Some(row))
                && row.value.status.terminal() && row.active_children.len() == 0,
            ObjectKind::Activity => w.store.activity(parent) matches Ok(Some(row))
                && row.value.status.terminal(),
            _ => true,
        },
    ensures
        reaction(w, ctx, parent, child) == w.event(
            EventView::ProcessChildCompletedHandled { owner: parent, child },
        ),
{
}

} // verus!
