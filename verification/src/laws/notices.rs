//! Scopes, and the notices that tell a node of a child that has ended.

use vstd::prelude::*;

use crate::asl::State;
use crate::handler::{HandlerContext, World};
use crate::handlers::process_child_completed::reaction;
use crate::handlers::resolve::scope_state;
use crate::handlers::state_handler::child_reaction;
use crate::laws::{changed, sent, told};
use crate::laws::lifecycle::{execution_with, thread_with};
use crate::storage::activity::ActivityRecordView;
use crate::storage::execution::ExecutionRecordView;
use crate::storage::scope::{scope_of, ScopeRecordView};
use crate::storage::store::StoreView;
use crate::storage::thread::ThreadRecordView;
use crate::types::activity::ActivityView;
use crate::types::command::CommandView;
use crate::types::entry::EntryPayloadView;
use crate::types::error::ExecutionErrorView;
use crate::types::event::EventView;
use crate::types::execution::ExecutionView;
use crate::types::meta::ObjectReferenceView;
use crate::types::status::LifecycleView;
use crate::types::thread::ThreadView;
use crate::value::Json;

verus! {

/// A scope is the execution or the thread that a reference names; whatever else it names is none.
pub proof fn law_scope_is_what_the_reference_names(
    s: StoreView,
    r: ObjectReferenceView,
    execution: ExecutionRecordView,
    thread: ThreadRecordView,
)
    ensures
        r.kind is Execution && s.execution(r) == Ok::<_, ExecutionErrorView>(Some(execution))
            ==> scope_of(s, r) == Ok::<_, ExecutionErrorView>(
            Some(ScopeRecordView::Execution(execution)),
        ),
        r.kind is Thread && s.thread(r) == Ok::<_, ExecutionErrorView>(Some(thread)) ==> scope_of(
            s,
            r,
        ) == Ok::<_, ExecutionErrorView>(Some(ScopeRecordView::Thread(thread))),
        !(r.kind is Execution) && !(r.kind is Thread) ==> (scope_of(s, r) matches Ok(None)),
        r.kind is Execution && (s.execution(r) matches Ok(None)) ==> (scope_of(s, r) matches Ok(None)),
        r.kind is Thread && (s.thread(r) matches Ok(None)) ==> (scope_of(s, r) matches Ok(None)),
{
}

/// What a scope shows is what its record holds.
pub proof fn law_scope_shows_its_record(e: ExecutionRecordView, t: ThreadRecordView)
    ensures
        ({
            let scope = ScopeRecordView::Execution(e);
            &&& scope.variables() == e.variables
            &&& scope.status() == e.value.status
            &&& scope.input() == e.value.input
            &&& scope.output() == e.value.output
            &&& scope.active_children() == e.active_children
            &&& scope.current_activity() == e.current_activity
            &&& scope.state_path() is None
        }),
        ({
            let scope = ScopeRecordView::Thread(t);
            &&& scope.variables() == t.variables
            &&& scope.status() == t.value.status
            &&& scope.input() == t.value.input
            &&& scope.output() == t.value.output
            &&& scope.active_children() == t.active_children
            &&& scope.current_activity() == t.current_activity
            &&& scope.state_path() == Some(t.value.state_path)
            &&& scope.root_execution() == t.value.execution
        }),
{
}

/// The notice to the owner of a node, if it has one.
pub open spec fn passed_up(
    owner: Option<ObjectReferenceView>,
    node: ObjectReferenceView,
) -> Seq<EntryPayloadView> {
    match owner {
        Some(owner) => seq![
            sent(CommandView::ProcessChildCompleted { owner, child: node }),
        ],
        None => Seq::empty(),
    }
}

/// The receipt of a notice.
pub open spec fn receipt(
    owner: ObjectReferenceView,
    child: ObjectReferenceView,
) -> EntryPayloadView {
    told(EventView::ProcessChildCompletedHandled { owner, child })
}

/// What a node kept, or null.
pub open spec fn kept(output: Option<Json>) -> Json {
    match output {
        Some(v) => v,
        None => Json::Null,
    }
}

/// A notice that reaches a scope without children ends it as its end was opened and goes on to its owner; a
/// scope whose end is not open leaves a receipt; one with children left does nothing.
pub proof fn law_notice_ends_a_drained_scope(
    w: World,
    ctx: HandlerContext,
    parent: ObjectReferenceView,
    child: ObjectReferenceView,
    execution: ExecutionRecordView,
    thread: ThreadRecordView,
)
    requires
        w.chain.len() == 0,
    ensures
        parent.kind is Execution && w.store.execution(parent) == Ok::<_, ExecutionErrorView>(
            Some(execution),
        ) ==> {
            let after = reaction(w, ctx, parent, child);
            let x = execution.value;
            if execution.active_children.len() > 0 {
                after == w
            } else {
                match x.status {
                    LifecycleView::Completing => after.chain == seq![
                        told(
                            EventView::ExecutionCompleted {
                                execution: execution_with(
                                    x,
                                    LifecycleView::Completed,
                                    kept(x.output),
                                    w.now,
                                ),
                            },
                        ),
                    ] + passed_up(x.meta.owner, parent),
                    LifecycleView::Terminating(reason) => after.chain == seq![
                        told(
                            EventView::ExecutionTerminated {
                                execution: ExecutionView {
                                    meta: changed(x.meta, w.now),
                                    status: LifecycleView::Terminated(reason),
                                    ..x
                                },
                            },
                        ),
                    ] + passed_up(x.meta.owner, parent),
                    _ => after.chain == seq![receipt(parent, child)],
                }
            }
        },
        parent.kind is Thread && w.store.thread(parent) == Ok::<_, ExecutionErrorView>(Some(thread))
            ==> {
            let after = reaction(w, ctx, parent, child);
            let x = thread.value;
            if thread.active_children.len() > 0 {
                after == w
            } else {
                match x.status {
                    LifecycleView::Completing => after.chain == seq![
                        told(
                            EventView::ThreadCompleted {
                                thread: thread_with(
                                    x,
                                    LifecycleView::Completed,
                                    kept(x.output),
                                    w.now,
                                ),
                            },
                        ),
                    ] + passed_up(x.meta.owner, parent),
                    LifecycleView::Terminating(reason) => after.chain == seq![
                        told(
                            EventView::ThreadTerminated {
                                thread: ThreadView {
                                    meta: changed(x.meta, w.now),
                                    status: LifecycleView::Terminated(reason),
                                    ..x
                                },
                            },
                        ),
                    ] + passed_up(x.meta.owner, parent),
                    _ => after.chain == seq![receipt(parent, child)],
                }
            }
        },
{
    let after = reaction(w, ctx, parent, child);
    if after.chain.len() == 2 {
        assert(after.chain =~= seq![after.chain[0]] + seq![after.chain[1]]);
    } else if after.chain.len() == 1 {
        assert(after.chain =~= seq![after.chain[0]]);
        assert(after.chain =~= seq![after.chain[0]] + Seq::empty());
    }
}

/// A notice that reaches an activity without children ends it as its end was opened: completed with its raw
/// output, or else its input, or terminated for its reason; and it goes on to its owner. While it runs its
/// state reacts, and the notice leaves a receipt when nothing came of it.
pub proof fn law_notice_ends_a_drained_activity(
    w: World,
    ctx: HandlerContext,
    parent: ObjectReferenceView,
    child: ObjectReferenceView,
    row: ActivityRecordView,
    owner: ObjectReferenceView,
    thread: ThreadRecordView,
    state: State,
)
    requires
        w.chain.len() == 0,
        parent.kind is Activity,
        w.store.activity(parent) == Ok::<_, ExecutionErrorView>(Some(row)),
        row.value.meta.owner == Some(owner),
    ensures
        ({
            let after = reaction(w, ctx, parent, child);
            let a = row.value;
            match a.status {
                LifecycleView::Completing => after.chain == if row.active_children.len() > 0 {
                    Seq::empty()
                } else {
                    seq![
                        told(
                            EventView::StateCompleted {
                                activity: ActivityView {
                                    status: LifecycleView::Completed,
                                    output: Some(
                                        match a.raw_output {
                                            Some(v) => v,
                                            None => kept(a.input),
                                        },
                                    ),
                                    ..a
                                },
                            },
                        ),
                    ] + passed_up(Some(owner), parent)
                },
                LifecycleView::Terminating(reason) => after.chain == if row.active_children.len()
                    > 0 {
                    Seq::empty()
                } else {
                    seq![
                        told(
                            EventView::StateTerminated {
                                activity: ActivityView {
                                    status: LifecycleView::Terminated(reason),
                                    ..a
                                },
                            },
                        ),
                    ] + passed_up(Some(owner), parent)
                },
                LifecycleView::Running => owner.kind is Thread && w.store.thread(owner) == Ok::<
                    _,
                    ExecutionErrorView,
                >(Some(thread)) && a.state_path.len() > 0 && scope_state(
                    ctx,
                    w.store,
                    ScopeRecordView::Thread(thread),
                    a.state_path[a.state_path.len() - 1],
                ) == Ok::<_, ExecutionErrorView>(state) ==> {
                    let made = child_reaction(
                        w,
                        ctx.env,
                        state,
                        parent,
                        a,
                        thread.variables,
                        child,
                    );
                    if made.chain.len() > 0 {
                        after == made
                    } else {
                        after.chain == seq![receipt(parent, child)]
                    }
                },
                _ => after.chain == seq![receipt(parent, child)],
            }
        }),
{
    let after = reaction(w, ctx, parent, child);
    if after.chain.len() == 2 {
        assert(after.chain =~= seq![after.chain[0]] + seq![after.chain[1]]);
    } else if after.chain.len() == 1 {
        assert(after.chain =~= seq![after.chain[0]]);
    } else if after.chain.len() == 0 {
        assert(after.chain =~= Seq::empty());
    }
}

} // verus!
