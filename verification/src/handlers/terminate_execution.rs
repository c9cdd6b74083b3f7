//! `TerminateExecution`: the abnormal finish of an execution.

use vstd::prelude::*;

use crate::handler::{Collector, HandlerContext, World};
use crate::handlers::continue_::{hand_up, handed_up};
use crate::handlers::lifecycle::{
    emit_terminated_execution, emit_terminating_execution, terminated_execution,
    terminating_execution,
};
use crate::handlers::terminate_thread::{scope_pending, scope_sweep, scope_swept};
use crate::id::{ulid_text, RequestId, Uid};
use crate::storage::order::store_ok;
use crate::text::{join2, join3};
use crate::types::command::{TerminateExecution, TerminateExecutionView};
use crate::types::event::{group_event_view, EventView};
use crate::types::meta::{name_text, ObjectKind, ObjectReference, ObjectReferenceView};
use crate::types::shown::status_shown;
use crate::types::reject::RejectionType;

verus! {

broadcast use group_event_view;

/// The reference by which an execution is looked up; the name alone finds it.
pub open spec fn execution_probe(cmd: TerminateExecutionView) -> ObjectReferenceView {
    ObjectReferenceView {
        kind: ObjectKind::Execution,
        name: cmd.name,
        uid: match cmd.uid {
            Some(uid) => uid,
            None => Uid(0),
        },
    }
}

/// What terminating an execution leaves. One that is gone, that is another incarnation than the one
/// asked for, or that does not run anymore refuses; one that cannot be read leaves nothing.
/// Otherwise it starts to unwind and its children are terminated; without any that must settle, it
/// has terminated at once.
pub open spec fn execution_termination(
    w: World,
    ctx: HandlerContext,
    cmd: TerminateExecutionView,
) -> World {
    let head = "terminate_execution: execution "@ + name_text(cmd.name);
    match w.store.execution(execution_probe(cmd)) {
        Err(_) => w,
        Ok(None) => w.reject(RequestId(Uid(0)), RejectionType::NotFound, head + " not found"@),
        Ok(Some(row)) => {
            let x = row.value;
            if cmd.uid is Some && cmd.uid->0 != x.meta.uid {
                w.reject(
                    RequestId(Uid(0)),
                    RejectionType::StateConflict,
                    head + (" is incarnation "@ + ulid_text(x.meta.uid.0) + (", not "@ + ulid_text(
                        (cmd.uid->0).0,
                    ))),
                )
            } else if !(x.status is Running) {
                w.reject(
                    RequestId(Uid(0)),
                    RejectionType::InvalidState,
                    head + (" is "@ + status_shown(x.status) + ", not running"@),
                )
            } else {
                let w1 = scope_swept(
                    w.event(
                        EventView::ExecutionTerminating {
                            execution: terminating_execution(x, cmd.reason, w.now),
                        },
                    ),
                    row.active_children,
                    cmd.reason,
                );
                if scope_pending(row.active_children) == 0 {
                    handed_up(
                        w1.event(
                            EventView::ExecutionTerminated {
                                execution: terminated_execution(x, cmd.reason, w1.now),
                            },
                        ),
                        ctx,
                        x.meta.owner,
                        x.reference(),
                    )
                } else {
                    w1
                }
            }
        },
    }
}

/// Terminating an execution that is not running is refused, and changes nothing that is stored.
pub proof fn law_only_a_running_execution_is_terminated(
    w: World,
    ctx: HandlerContext,
    cmd: TerminateExecutionView,
)
    requires
        !(w.store.execution(execution_probe(cmd)) matches Ok(Some(row)) && row.value.status is Running),
    ensures
        execution_termination(w, ctx, cmd).store == w.store,
{
}

/// Handles `TerminateExecution`.
pub struct TerminateExecutionHandler;

impl Default for TerminateExecutionHandler {
    fn default() -> (r: Self)
        ensures
            r == TerminateExecutionHandler,
    {
        TerminateExecutionHandler
    }
}

impl TerminateExecutionHandler {
    pub fn handle(&self, p: &TerminateExecution, ctx: &HandlerContext, out: &mut Collector)
        requires
            store_ok(old(out)@.store),
        ensures
            final(out)@ == execution_termination(old(out)@, *ctx, p@),
            store_ok(final(out)@.store),
    {
        let uid = match p.uid {
            Some(uid) => uid,
            None => Uid::nil(),
        };
        let probe = ObjectReference::new(ObjectKind::Execution, p.name.clone(), uid);
        let head = join2("terminate_execution: execution ", p.name.as_str().as_str());
        let exec = match out.storage().get_execution(&probe) {
            Ok(Some(e)) => e,
            Ok(None) => {
                out.reject(
                    RequestId::nil(),
                    RejectionType::NotFound,
                    join2(head.as_str(), " not found"),
                );
                return ;
            },
            Err(_) => return ,
        };
        let incarnation = exec.value.meta.uid;
        if let Some(want) = p.uid {
            if want != incarnation {
                let other = join2(", not ", want.text().as_str());
                let tail = join3(" is incarnation ", incarnation.text().as_str(), other.as_str());
                out.reject(
                    RequestId::nil(),
                    RejectionType::StateConflict,
                    join2(head.as_str(), tail.as_str()),
                );
                return ;
            }
        }
        if !exec.value.status.is_running() {
            let shown = exec.value.status.shown();
            let tail = join3(" is ", shown.as_str(), ", not running");
            out.reject(
                RequestId::nil(),
                RejectionType::InvalidState,
                join2(head.as_str(), tail.as_str()),
            );
            return ;
        }
        emit_terminating_execution(out, &exec.value, &p.reason);
        let pending = scope_sweep(out, &exec.active_children, &p.reason);
        if pending == 0 {
            emit_terminated_execution(out, &exec.value, &p.reason);
            hand_up(ctx, out, &exec.value.meta.owner, &exec.value.reference());
        }
    }
}

} // verus!
