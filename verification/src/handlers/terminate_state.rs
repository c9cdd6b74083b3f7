//! `TerminateState`: the abnormal finish of an activity.

use vstd::prelude::*;

use crate::handler::{Collector, HandlerContext, World};
use crate::handlers::child_completed::{child_settled, settled};
use crate::handlers::continue_::{unwind_activity, unwound_activity};
use crate::storage::order::store_ok;
use crate::types::activity::ActivityView;
use crate::types::command::{
    group_command_view, Command, CommandView, TerminateExecution, TerminateExecutionView,
    TerminateState, TerminateStateView, TerminateThread, TerminateThreadView,
};
use crate::types::event::{group_event_view, Event, EventView};
use crate::types::meta::{ObjectKind, ObjectReference, ObjectReferenceView};
use crate::types::status::{Lifecycle, LifecycleView, TerminationReason, TerminationReasonView};

verus! {

broadcast use {group_command_view, group_event_view};

/// How a child of an activity is terminated.
pub open spec fn activity_command(
    child: ObjectReferenceView,
    reason: TerminationReasonView,
) -> Option<CommandView> {
    match child.kind {
        ObjectKind::Timer => Some(CommandView::CancelTimer { timer: child }),
        ObjectKind::Execution => Some(
            CommandView::TerminateExecution(
                TerminateExecutionView { name: child.name, uid: Some(child.uid), reason },
            ),
        ),
        ObjectKind::Thread => Some(
            CommandView::TerminateThread(TerminateThreadView { thread: child, reason }),
        ),
        ObjectKind::Task => Some(CommandView::CancelTask { task: child }),
        _ => None,
    }
}

/// What terminating each of `children` leaves.
pub open spec fn activity_swept(
    w: World,
    children: Seq<ObjectReferenceView>,
    reason: TerminationReasonView,
) -> World
    decreases children.len(),
{
    if children.len() == 0 {
        w
    } else {
        let before = activity_swept(w, children.drop_last(), reason);
        match activity_command(children.last(), reason) {
            Some(command) => before.command(command),
            None => before,
        }
    }
}

/// How many of `children` must settle before the node can end.
pub open spec fn activity_pending(children: Seq<ObjectReferenceView>) -> nat
    decreases children.len(),
{
    if children.len() == 0 {
        0
    } else {
        activity_pending(children.drop_last()) + if activity_command(
            children.last(),
            TerminationReasonView::Cancelled,
        ) is Some {
            1nat
        } else {
            0nat
        }
    }
}

/// Terminates each of `children`, and says how many must settle.
pub fn activity_sweep(
    out: &mut Collector,
    children: &Vec<ObjectReference>,
    reason: &TerminationReason,
) -> (r: usize)
    ensures
        final(out)@ == activity_swept(old(out)@, children.deep_view(), reason@),
        final(out)@.store == old(out)@.store,
        r == activity_pending(children.deep_view()),
{
    let ghost all = children.deep_view();
    let ghost before = out@;
    let mut pending: usize = 0;
    let mut i: usize = 0;
    assert(all.take(0) =~= Seq::empty());
    while i < children.len()
        invariant
            i <= children.len(),
            all == children.deep_view(),
            out@ == activity_swept(before, all.take(i as int), reason@),
            out@.store == before.store,
            pending <= i,
            pending == activity_pending(all.take(i as int)),
        decreases children.len() - i,
    {
        let ghost next = all.take(i as int + 1);
        assert(next.drop_last() =~= all.take(i as int));
        assert(next.last() == children@[i as int]@);
        let child = &children[i];
        match child.kind {
            ObjectKind::Timer => {
                out.append_command(Command::CancelTimer { timer: child.clone() });
                pending += 1;
            },
            ObjectKind::Execution => {
                out.append_command(
                    Command::TerminateExecution(
                        TerminateExecution {
                            name: child.name.clone(),
                            uid: Some(child.uid),
                            reason: reason.clone(),
                        },
                    ),
                );
                pending += 1;
            },
            ObjectKind::Thread => {
                out.append_command(
                    Command::TerminateThread(
                        TerminateThread { thread: child.clone(), reason: reason.clone() },
                    ),
                );
                pending += 1;
            },
            ObjectKind::Task => {
                out.append_command(Command::CancelTask { task: child.clone() });
                pending += 1;
            },
            _ => {},
        }
        i += 1;
    }
    assert(all.take(all.len() as int) =~= all);
    pending
}

/// An activity that starts to unwind.
pub open spec fn unwinding_activity(
    a: ActivityView,
    reason: TerminationReasonView,
) -> ActivityView {
    ActivityView { status: LifecycleView::Terminating(reason), ..a }
}

/// What terminating an activity leaves. One that is gone, that has completed, or that already
/// unwinds is left alone. One that has terminated says so again, with its own reason, and its owner
/// reacts. Otherwise it starts to unwind and its children are terminated; without any that must
/// settle, it has terminated at once, and its owner reacts.
pub open spec fn state_termination(
    w: World,
    ctx: HandlerContext,
    cmd: TerminateStateView,
) -> World {
    match w.store.activity(cmd.activity) {
        Ok(Some(row)) => {
            let a = row.value;
            let owner = a.meta.owner->0;
            match a.status {
                LifecycleView::Completed => w,
                LifecycleView::Terminating(_) => w,
                LifecycleView::Terminated(reason) => settled(
                    w.event(EventView::StateTerminated { activity: unwound_activity(a, reason) }),
                    ctx,
                    owner,
                    cmd.activity,
                ),
                _ => {
                    let w1 = activity_swept(
                        w.event(
                            EventView::StateTerminating {
                                activity: unwinding_activity(a, cmd.reason),
                            },
                        ),
                        row.active_children,
                        cmd.reason,
                    );
                    if activity_pending(row.active_children) == 0 {
                        settled(
                            w1.event(
                                EventView::StateTerminated {
                                    activity: unwound_activity(a, cmd.reason),
                                },
                            ),
                            ctx,
                            owner,
                            cmd.activity,
                        )
                    } else {
                        w1
                    }
                },
            }
        },
        _ => w,
    }
}

/// Terminating an activity that has completed, or that already unwinds, changes nothing.
pub proof fn law_duplicate_termination_is_idle(
    w: World,
    ctx: HandlerContext,
    cmd: TerminateStateView,
)
    requires
        w.store.activity(cmd.activity) matches Ok(Some(row)) && (row.value.status is Completed
            || row.value.status is Terminating),
    ensures
        state_termination(w, ctx, cmd) == w,
{
}

/// Handles `TerminateState`.
pub struct TerminateStateHandler;

impl Default for TerminateStateHandler {
    fn default() -> (r: Self)
        ensures
            r == TerminateStateHandler,
    {
        TerminateStateHandler
    }
}

impl TerminateStateHandler {
    pub fn handle(&self, p: &TerminateState, ctx: &HandlerContext, out: &mut Collector)
        requires
            store_ok(old(out)@.store),
        ensures
            final(out)@ == state_termination(old(out)@, *ctx, p@),
            store_ok(final(out)@.store),
    {
        let act = match out.storage().get_activity(&p.activity) {
            Ok(Some(a)) => a,
            _ => return ,
        };
        let owner = act.value.meta.owner.clone().unwrap();
        match &act.value.status {
            Lifecycle::Completed => return ,
            Lifecycle::Terminating(_) => return ,
            Lifecycle::Terminated(reason) => {
                unwind_activity(out, &act.value, reason);
                child_settled(ctx, out, &owner, &p.activity);
                return ;
            },
            _ => {},
        }
        let mut terminating = act.value.clone();
        terminating.status = Lifecycle::Terminating(p.reason.clone());
        out.append_event(Event::StateTerminating { activity: terminating });
        let pending = activity_sweep(out, &act.active_children, &p.reason);
        if pending == 0 {
            unwind_activity(out, &act.value, &p.reason);
            child_settled(ctx, out, &owner, &p.activity);
        }
    }
}

} // verus!
