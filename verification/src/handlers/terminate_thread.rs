//! `TerminateThread`: the abnormal finish of a thread.

use vstd::prelude::*;

use crate::handler::{Collector, HandlerContext, World};
use crate::handlers::continue_::{hand_up, handed_up};
use crate::handlers::lifecycle::{
    emit_terminated_thread, emit_terminating_thread, terminated_thread, terminating_thread,
};
use crate::storage::order::store_ok;
use crate::storage::scope::{load_scope_ref, scope_of, ScopeRecord, ScopeRecordView};
use crate::types::command::{
    group_command_view, Command, CommandView, TerminateExecution, TerminateExecutionView,
    TerminateState, TerminateStateView, TerminateThread, TerminateThreadView,
};
use crate::types::event::{group_event_view, EventView};
use crate::types::meta::{ObjectKind, ObjectReference, ObjectReferenceView};
use crate::types::status::{TerminationReason, TerminationReasonView};

verus! {

broadcast use {group_command_view, group_event_view};

/// How a child of a scope is terminated; a task belongs to an activity, not to a scope.
pub open spec fn scope_command(
    child: ObjectReferenceView,
    reason: TerminationReasonView,
) -> Option<CommandView> {
    match child.kind {
        ObjectKind::Timer => Some(CommandView::CancelTimer { timer: child }),
        ObjectKind::Activity => Some(
            CommandView::TerminateState(TerminateStateView { activity: child, reason }),
        ),
        ObjectKind::Thread => Some(
            CommandView::TerminateThread(TerminateThreadView { thread: child, reason }),
        ),
        _ => None,
    }
}

/// What terminating each of `children` leaves.
pub open spec fn scope_swept(
    w: World,
    children: Seq<ObjectReferenceView>,
    reason: TerminationReasonView,
) -> World
    decreases children.len(),
{
    if children.len() == 0 {
        w
    } else {
        let before = scope_swept(w, children.drop_last(), reason);
        match scope_command(children.last(), reason) {
            Some(command) => before.command(command),
            None => before,
        }
    }
}

/// How many of `children` must settle before the node can end.
pub open spec fn scope_pending(children: Seq<ObjectReferenceView>) -> nat
    decreases children.len(),
{
    if children.len() == 0 {
        0
    } else {
        scope_pending(children.drop_last()) + if scope_command(
            children.last(),
            TerminationReasonView::Cancelled,
        ) is Some {
            1nat
        } else {
            0nat
        }
    }
}

/// Terminates each of `children`, and says how many must settle.
pub fn scope_sweep(
    out: &mut Collector,
    children: &Vec<ObjectReference>,
    reason: &TerminationReason,
) -> (r: usize)
    ensures
        final(out)@ == scope_swept(old(out)@, children.deep_view(), reason@),
        final(out)@.store == old(out)@.store,
        r == scope_pending(children.deep_view()),
{
    let ghost all = children.deep_view();
    let ghost before = out@;
    let mut pending: usize = 0;
    let mut i: usize = 0;
    assert(all.take(0) =~= Seq::empty());
    while i < children.len()
        invariant
            i <= children.len(),
            all == children.deep_view(),
            out@ == scope_swept(before, all.take(i as int), reason@),
            out@.store == before.store,
            pending <= i,
            pending == scope_pending(all.take(i as int)),
        decreases children.len() - i,
    {
        let ghost next = all.take(i as int + 1);
        assert(next.drop_last() =~= all.take(i as int));
        assert(next.last() == children@[i as int]@);
        let child = &children[i];
        match child.kind {
            ObjectKind::Timer => {
                out.append_command(Command::CancelTimer { timer: child.clone() });
                pending += 1;
            },
            ObjectKind::Activity => {
                out.append_command(
                    Command::TerminateState(
                        TerminateState { activity: child.clone(), reason: reason.clone() },
                    ),
                );
                pending += 1;
            },
            ObjectKind::Thread => {
                out.append_command(
                    Command::TerminateThread(
                        TerminateThread { thread: child.clone(), reason: reason.clone() },
                    ),
                );
                pending += 1;
            },
            _ => {},
        }
        i += 1;
    }
    assert(all.take(all.len() as int) =~= all);
    pending
}

/// A thread that an execution owns stands for the whole run: the execution, while it still runs, is
/// terminated with it.
pub open spec fn run_terminated(
    w: World,
    owner: Option<ObjectReferenceView>,
    reason: TerminationReasonView,
) -> World {
    match owner {
        Some(owner) => if owner.kind is Execution {
            match w.store.execution(owner) {
                Ok(Some(row)) if row.value.status is Running => w.command(
                    CommandView::TerminateExecution(
                        TerminateExecutionView { name: owner.name, uid: Some(owner.uid), reason },
                    ),
                ),
                _ => w,
            }
        } else {
            w
        },
        None => w,
    }
}

fn terminate_run(out: &mut Collector, owner: &Option<ObjectReference>, reason: &TerminationReason)
    ensures
        final(out)@ == run_terminated(old(out)@, owner.deep_view(), reason@),
        final(out)@.store == old(out)@.store,
{
    if let Some(owner) = owner {
        if owner.kind == ObjectKind::Execution {
            if let Ok(Some(exec)) = out.storage().get_execution(owner) {
                if exec.value.status.is_running() {
                    out.append_command(
                        Command::TerminateExecution(
                            TerminateExecution {
                                name: owner.name.clone(),
                                uid: Some(owner.uid),
                                reason: reason.clone(),
                            },
                        ),
                    );
                }
            }
        }
    }
}

/// What terminating a thread leaves. One that is gone, that does not run anymore, or that is none is
/// left alone. Otherwise it starts to unwind, with the execution that it stands for if it does, and
/// its children are terminated; without any that must settle, it has terminated at once, and its
/// owner reacts.
pub open spec fn thread_termination(
    w: World,
    ctx: HandlerContext,
    cmd: TerminateThreadView,
) -> World {
    match scope_of(w.store, cmd.thread) {
        Ok(Some(ScopeRecordView::Thread(row))) => if !(row.value.status is Running) {
            w
        } else {
            let w1 = scope_swept(
                run_terminated(
                    w.event(
                        EventView::ThreadTerminating {
                            thread: terminating_thread(row.value, cmd.reason, w.now),
                        },
                    ),
                    row.value.meta.owner,
                    cmd.reason,
                ),
                row.active_children,
                cmd.reason,
            );
            if scope_pending(row.active_children) == 0 {
                handed_up(
                    w1.event(
                        EventView::ThreadTerminated {
                            thread: terminated_thread(row.value, cmd.reason, w1.now),
                        },
                    ),
                    ctx,
                    row.value.meta.owner,
                    row.value.reference(),
                )
            } else {
                w1
            }
        },
        _ => w,
    }
}

/// Terminating a thread that is ending, or has ended, changes nothing.
pub proof fn law_second_termination_is_idle(
    w: World,
    ctx: HandlerContext,
    cmd: TerminateThreadView,
)
    requires
        scope_of(w.store, cmd.thread) matches Ok(Some(ScopeRecordView::Thread(row))) && !(
        row.value.status is Running),
    ensures
        thread_termination(w, ctx, cmd) == w,
{
}

/// Handles `TerminateThread`.
pub struct TerminateThreadHandler;

impl Default for TerminateThreadHandler {
    fn default() -> (r: Self)
        ensures
            r == TerminateThreadHandler,
    {
        TerminateThreadHandler
    }
}

impl TerminateThreadHandler {
    pub fn handle(&self, p: &TerminateThread, ctx: &HandlerContext, out: &mut Collector)
        requires
            store_ok(old(out)@.store),
        ensures
            final(out)@ == thread_termination(old(out)@, *ctx, p@),
            store_ok(final(out)@.store),
    {
        let row = match load_scope_ref(out.storage(), &p.thread) {
            Ok(Some(ScopeRecord::Thread(row))) => row,
            _ => return ,
        };
        if !row.value.status.is_running() {
            return ;
        }
        emit_terminating_thread(out, &row.value, &p.reason);
        terminate_run(out, &row.value.meta.owner, &p.reason);
        let pending = scope_sweep(out, &row.active_children, &p.reason);
        if pending == 0 {
            emit_terminated_thread(out, &row.value, &p.reason);
            hand_up(ctx, out, &row.value.meta.owner, &row.value.reference());
        }
    }
}

} // verus!
