//! Draining an owner: when the last child of a node that is winding down has ended, the node ends too,
//! and its own owner is told.

use vstd::prelude::*;

use crate::handlers::lifecycle::{or_null, value_or_null};
use crate::id::{node_kind, NodeId, NodeKind};
use crate::node::outbox::{Command, CommandView, Emitted, Event, EventView, Outbox};
use crate::node::storage::{InMemoryStorage, NodeStoreView, Status, StatusView};
use crate::types::status::{TerminationReason, TerminationReasonView};

verus! {

/// The recorded reason, or a cancellation when none was recorded.
pub open spec fn or_cancelled(reason: Option<TerminationReasonView>) -> TerminationReasonView {
    match reason {
        Some(reason) => reason,
        None => TerminationReasonView::Cancelled,
    }
}

/// After telling the owner of a node, if it has one, that the node has ended.
pub open spec fn notified(e: Emitted, owner: Option<NodeId>, node: NodeId) -> Emitted {
    match owner {
        Some(parent) => e.command(CommandView::ChildFinalized { parent, child: node }),
        None => e,
    }
}

/// What the end of a child leaves: an owner that is winding down and has no child left ends, with the
/// output or for the reason it has recorded. In any other state, nothing happens.
pub open spec fn drained(e: Emitted, s: NodeStoreView, parent: NodeId) -> Emitted {
    match node_kind(parent) {
        NodeKind::Execution(id) => match s.execution(id) {
            Some(x) if x.active_children.len() == 0 => match x.status {
                StatusView::Completing => notified(
                    e.event(
                        EventView::ExecutionCompleted { id, output: or_null(x.pending_output) },
                    ),
                    x.parent,
                    parent,
                ),
                StatusView::Terminating => notified(
                    e.event(
                        EventView::ExecutionTerminated {
                            id,
                            reason: or_cancelled(x.pending_reason),
                        },
                    ),
                    x.parent,
                    parent,
                ),
                _ => e,
            },
            _ => e,
        },
        NodeKind::Activity(id) => match s.activity(id) {
            Some(x) if x.active_children.len() == 0 => match x.status {
                StatusView::Completing => notified(
                    e.event(
                        EventView::StateCompleted {
                            activity: id,
                            output: or_null(x.pending_output),
                        },
                    ),
                    Some(x.parent),
                    parent,
                ),
                StatusView::Terminating => notified(
                    e.event(
                        EventView::StateTerminated {
                            activity: id,
                            reason: or_cancelled(x.pending_reason),
                        },
                    ),
                    Some(x.parent),
                    parent,
                ),
                _ => e,
            },
            _ => e,
        },
        _ => e,
    }
}

/// An owner that still has a child is left alone.
pub proof fn law_undrained_owner_waits(e: Emitted, s: NodeStoreView, parent: NodeId)
    requires
        s.children(parent).len() > 0,
    ensures
        drained(e, s, parent) == e,
{
}

/// An owner that has ended is left alone: a notice that comes twice changes nothing.
pub proof fn law_ended_owner_ignores_notices(e: Emitted, s: NodeStoreView, parent: NodeId)
    requires
        match parent {
            NodeId::Execution(id) => s.execution(id) matches Some(x) && x.status.terminal(),
            NodeId::Activity(id) => s.activity(id) matches Some(x) && x.status.terminal(),
            _ => true,
        },
    ensures
        drained(e, s, parent) == e,
{
}

/// A node that ends tells its owner: a drain goes up the tree, one level with each notice.
pub proof fn law_drain_goes_up(e: Emitted, s: NodeStoreView, id: crate::id::ActivityId)
    requires
        s.activity(id) matches Some(x) && x.active_children.len() == 0 && (x.status is Completing
            || x.status is Terminating),
    ensures
        ({
            let after = drained(e, s, NodeId::Activity(id));
            &&& after.chain.len() == e.chain.len() + 2
            &&& after.chain.last() == crate::node::outbox::PayloadView::Command(
                CommandView::ChildFinalized {
                    parent: s.activity(id)->0.parent,
                    child: NodeId::Activity(id),
                },
            )
        }),
{
}

/// Handles `ChildFinalized`.
pub struct ChildFinalizedHandler;

impl Default for ChildFinalizedHandler {
    fn default() -> (r: Self)
        ensures
            r == ChildFinalizedHandler,
    {
        ChildFinalizedHandler
    }
}

fn reason_or_cancelled(reason: &Option<TerminationReason>) -> (r: TerminationReason)
    ensures
        r@ == or_cancelled(reason.deep_view()),
{
    match reason {
        Some(reason) => reason.clone(),
        None => TerminationReason::Cancelled,
    }
}

fn notify(out: &mut Outbox, owner: Option<NodeId>, node: NodeId)
    ensures
        final(out)@ == notified(old(out)@, owner, node),
{
    if let Some(parent) = owner {
        out.emit_command(Command::ChildFinalized { parent, child: node });
    }
}

impl ChildFinalizedHandler {
    /// Which child has ended does not matter: the list of the owner tells what is left.
    pub fn handle(&self, parent: NodeId, child: NodeId, storage: &InMemoryStorage, out: &mut Outbox)
        ensures
            final(out)@ == drained(old(out)@, storage@, parent),
    {
        self.react(storage, out, parent);
    }

    /// The reaction of an owner to the end of a child.
    pub fn react(&self, storage: &InMemoryStorage, out: &mut Outbox, parent: NodeId)
        ensures
            final(out)@ == drained(old(out)@, storage@, parent),
    {
        match parent.kind() {
            NodeKind::Execution(id) => {
                let exec = match storage.get_execution(id) {
                    Some(exec) => exec,
                    None => return ,
                };
                assert(exec@.active_children.len() == exec.active_children@.len());
                if exec.active_children.len() > 0 {
                    return ;
                }
                match exec.status {
                    Status::Completing => {
                        out.emit_event(
                            Event::ExecutionCompleted {
                                id,
                                output: value_or_null(&exec.pending_output),
                            },
                        );
                        notify(out, exec.parent, parent);
                    },
                    Status::Terminating => {
                        out.emit_event(
                            Event::ExecutionTerminated {
                                id,
                                reason: reason_or_cancelled(&exec.pending_reason),
                            },
                        );
                        notify(out, exec.parent, parent);
                    },
                    _ => {},
                }
            },
            NodeKind::Activity(id) => {
                let act = match storage.get_activity(id) {
                    Some(act) => act,
                    None => return ,
                };
                assert(act@.active_children.len() == act.active_children@.len());
                if act.active_children.len() > 0 {
                    return ;
                }
                match act.status {
                    Status::Completing => {
                        out.emit_event(
                            Event::StateCompleted {
                                activity: id,
                                output: value_or_null(&act.pending_output),
                            },
                        );
                        notify(out, Some(act.parent), parent);
                    },
                    Status::Terminating => {
                        out.emit_event(
                            Event::StateTerminated {
                                activity: id,
                                reason: reason_or_cancelled(&act.pending_reason),
                            },
                        );
                        notify(out, Some(act.parent), parent);
                    },
                    _ => {},
                }
            },
            NodeKind::Timer(_) => {},
            NodeKind::Task(_) => {},
        }
    }
}

} // verus!
