//! `CompleteExecution`: the success finish of an execution.

use vstd::prelude::*;

use crate::handler::{Collector, HandlerContext, World};
use crate::handlers::lifecycle::{
    completed_execution, completing_execution, emit_completed_execution, emit_completing_execution,
};
use crate::storage::order::store_ok;
use crate::text::join2;
use crate::types::command::{
    group_command_view, Command, CommandView, CompleteExecution, CompleteExecutionView,
};
use crate::types::error::{state_not_found, ExecutionError};
use crate::types::event::{group_event_view, EventView};
use crate::types::meta::{reference_text, ObjectKind, ObjectReference, ObjectReferenceView};

verus! {

broadcast use {group_command_view, group_event_view};

/// What cancelling the timers among `children` leaves: each is cancelled by a command.
pub open spec fn timers_swept(w: World, children: Seq<ObjectReferenceView>) -> World
    decreases children.len(),
{
    if children.len() == 0 {
        w
    } else {
        let before = timers_swept(w, children.drop_last());
        if children.last().kind is Timer {
            before.command(CommandView::CancelTimer { timer: children.last() })
        } else {
            before
        }
    }
}

/// How many of `children` are timers.
pub open spec fn timer_count(children: Seq<ObjectReferenceView>) -> nat
    decreases children.len(),
{
    if children.len() == 0 {
        0
    } else {
        timer_count(children.drop_last()) + if children.last().kind is Timer {
            1nat
        } else {
            0nat
        }
    }
}

/// Cancels every timer among `children`, and says how many there are.
pub fn cancel_timers(out: &mut Collector, children: &Vec<ObjectReference>) -> (r: usize)
    ensures
        final(out)@ == timers_swept(old(out)@, children.deep_view()),
        final(out)@.store == old(out)@.store,
        r == timer_count(children.deep_view()),
{
    let ghost all = children.deep_view();
    let ghost before = out@;
    let mut pending: usize = 0;
    let mut i: usize = 0;
    assert(all.take(0) =~= Seq::empty());
    while i < children.len()
        invariant
            i <= children.len(),
            all == children.deep_view(),
            out@ == timers_swept(before, all.take(i as int)),
            out@.store == before.store,
            pending <= i,
            pending == timer_count(all.take(i as int)),
        decreases children.len() - i,
    {
        let ghost next = all.take(i as int + 1);
        assert(next.drop_last() =~= all.take(i as int));
        assert(next.last() == children@[i as int]@);
        if children[i].kind == ObjectKind::Timer {
            out.append_command(Command::CancelTimer { timer: children[i].clone() });
            pending += 1;
        }
        i += 1;
    }
    assert(all.take(all.len() as int) =~= all);
    pending
}

/// What completing an execution leaves. One that is gone fails; one that does not run anymore is
/// left alone. Otherwise the finish opens with the output and the timers are cancelled; without any,
/// the execution is completed at once.
pub open spec fn execution_completion(w: World, cmd: CompleteExecutionView) -> World {
    match w.store.execution(cmd.execution) {
        Err(e) => w.terminate(None, cmd.execution, e),
        Ok(None) => w.terminate(
            None,
            cmd.execution,
            state_not_found("execution "@ + reference_text(cmd.execution)),
        ),
        Ok(Some(row)) => if !(row.value.status is Running) {
            w
        } else {
            let w1 = timers_swept(
                w.event(
                    EventView::ExecutionCompleting {
                        execution: completing_execution(row.value, cmd.output, w.now),
                    },
                ),
                row.active_children,
            );
            if timer_count(row.active_children) == 0 {
                w1.event(
                    EventView::ExecutionCompleted {
                        execution: completed_execution(row.value, cmd.output, w1.now),
                    },
                )
            } else {
                w1
            }
        },
    }
}

/// Completing an execution that is ending, or has ended, changes nothing.
pub proof fn law_second_completion_is_idle(w: World, cmd: CompleteExecutionView)
    requires
        w.store.execution(cmd.execution) matches Ok(Some(row)) && !(row.value.status is Running),
    ensures
        execution_completion(w, cmd) == w,
{
}

/// Handles `CompleteExecution`.
pub struct CompleteExecutionHandler;

impl Default for CompleteExecutionHandler {
    fn default() -> (r: Self)
        ensures
            r == CompleteExecutionHandler,
    {
        CompleteExecutionHandler
    }
}

impl CompleteExecutionHandler {
    pub fn handle(&self, p: &CompleteExecution, ctx: &HandlerContext, out: &mut Collector)
        requires
            store_ok(old(out)@.store),
        ensures
            final(out)@ == execution_completion(old(out)@, p@),
            store_ok(final(out)@.store),
    {
        let exec = match out.storage().get_execution(&p.execution) {
            Ok(Some(e)) => e,
            Ok(None) => {
                out.terminate(
                    None,
                    &p.execution,
                    ExecutionError::state_not_found(
                        join2("execution ", p.execution.text().as_str()),
                    ),
                );
                return ;
            },
            Err(e) => {
                out.terminate(None, &p.execution, e);
                return ;
            },
        };
        if !exec.value.status.is_running() {
            return ;
        }
        emit_completing_execution(out, &exec.value, &p.output);
        let pending = cancel_timers(out, &exec.active_children);
        if pending == 0 {
            emit_completed_execution(out, &exec.value, &p.output);
        }
    }
}

} // verus!
