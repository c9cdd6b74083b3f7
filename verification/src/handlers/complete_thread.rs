//! `CompleteThread`: the success finish of a thread.

use vstd::prelude::*;

use crate::handler::{Collector, HandlerContext, World};
use crate::handlers::child_completed::{child_settled, settled};
use crate::handlers::complete_execution::{cancel_timers, timer_count, timers_swept};
use crate::handlers::lifecycle::{
    completed_thread, completing_thread, emit_completed_thread, emit_completing_thread,
};
use crate::storage::order::store_ok;
use crate::types::command::{
    group_command_view, Command, CommandView, CompleteExecution, CompleteExecutionView,
    CompleteThread, CompleteThreadView,
};
use crate::types::event::{group_event_view, EventView};
use crate::types::meta::{ObjectKind, ObjectReferenceView};
use crate::value::Json;

verus! {

broadcast use {group_command_view, group_event_view};

/// What the success of a thread means for its owner: an execution completes with the same output, a
/// container reacts to the settled child.
pub open spec fn thread_success(
    w: World,
    ctx: HandlerContext,
    owner: Option<ObjectReferenceView>,
    thread: ObjectReferenceView,
    output: Json,
) -> World {
    match owner {
        None => w,
        Some(owner) => if owner.kind is Execution {
            w.command(
                CommandView::CompleteExecution(CompleteExecutionView { execution: owner, output }),
            )
        } else {
            settled(w, ctx, owner, thread)
        },
    }
}

/// What completing a thread leaves. One that is gone or does not run anymore is left alone.
/// Otherwise the finish opens with the output and the timers are cancelled; without any, the thread
/// is completed at once, and its owner learns of it.
pub open spec fn thread_completion(
    w: World,
    ctx: HandlerContext,
    cmd: CompleteThreadView,
) -> World {
    match w.store.thread(cmd.thread) {
        Ok(Some(row)) => if !(row.value.status is Running) {
            w
        } else {
            let w1 = timers_swept(
                w.event(
                    EventView::ThreadCompleting {
                        thread: completing_thread(row.value, cmd.output, w.now),
                    },
                ),
                row.active_children,
            );
            if timer_count(row.active_children) == 0 {
                thread_success(
                    w1.event(
                        EventView::ThreadCompleted {
                            thread: completed_thread(row.value, cmd.output, w1.now),
                        },
                    ),
                    ctx,
                    row.value.meta.owner,
                    row.value.reference(),
                    cmd.output,
                )
            } else {
                w1
            }
        },
        _ => w,
    }
}

/// Completing a thread that is ending, or has ended, changes nothing.
pub proof fn law_second_completion_is_idle(w: World, ctx: HandlerContext, cmd: CompleteThreadView)
    requires
        w.store.thread(cmd.thread) matches Ok(Some(row)) && !(row.value.status is Running),
    ensures
        thread_completion(w, ctx, cmd) == w,
{
}

/// Handles `CompleteThread`.
pub struct CompleteThreadHandler;

impl Default for CompleteThreadHandler {
    fn default() -> (r: Self)
        ensures
            r == CompleteThreadHandler,
    {
        CompleteThreadHandler
    }
}

impl CompleteThreadHandler {
    pub fn handle(&self, p: &CompleteThread, ctx: &HandlerContext, out: &mut Collector)
        requires
            store_ok(old(out)@.store),
        ensures
            final(out)@ == thread_completion(old(out)@, *ctx, p@),
            store_ok(final(out)@.store),
    {
        let row = match out.storage().get_thread(&p.thread) {
            Ok(Some(t)) => t,
            _ => return ,
        };
        if !row.value.status.is_running() {
            return ;
        }
        emit_completing_thread(out, &row.value, &p.output);
        let pending = cancel_timers(out, &row.active_children);
        if pending == 0 {
            emit_completed_thread(out, &row.value, &p.output);
            if let Some(owner) = &row.value.meta.owner {
                if owner.kind == ObjectKind::Execution {
                    out.append_command(
                        Command::CompleteExecution(
                            CompleteExecution {
                                execution: owner.clone(),
                                output: p.output.clone(),
                            },
                        ),
                    );
                } else {
                    child_settled(ctx, out, owner, &row.value.reference());
                }
            }
        }
    }
}

} // verus!
