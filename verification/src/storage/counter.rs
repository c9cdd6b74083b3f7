//! The counter of generated names: it stands past every number that a stored name ends with, so that
//! no name which is stored is drawn again.

use vstd::prelude::*;

use crate::applier::{
    event_name, event_number, fresh_activity, fresh_execution, fresh_thread,
};
use crate::id::Timestamp;
use crate::query::QueryObjectView;
use crate::storage::store::{empty_store, row_key, RowKey, StoreView};
use crate::storage::task::TaskRecordView;
use crate::storage::timer::TimerRecordView;
use crate::types::activity::ActivityView;
use crate::types::event::EventView;
use crate::types::execution::ExecutionView;
use crate::types::flow::FlowVersionView;
use crate::types::meta::{
    generated_name, law_numbered_name_reads_back, name_text, text_number, ObjectKind,
    ObjectNameView, ObjectReferenceView,
};
use crate::types::task::TaskView;
use crate::types::thread::ThreadView;
use crate::types::timer::TimerView;
use crate::value::MemberView;

verus! {

/// Objects of this kind are named by the counter.
pub open spec fn counted(kind: ObjectKind) -> bool {
    match kind {
        ObjectKind::Thread => true,
        ObjectKind::Activity => true,
        ObjectKind::Timer => true,
        ObjectKind::Task => true,
        _ => false,
    }
}

/// Every row is stored under its own key.
pub open spec fn keyed(s: StoreView) -> bool {
    forall|k: RowKey| #[trigger] s.rows.contains_key(k) ==> row_key(s.rows[k]) == k
}

/// Every row is stored under its own key, and the counter stands past the numbers of the stored
/// names that it gives. Once it stands at its last number nothing is said of them.
pub open spec fn ahead(s: StoreView) -> bool {
    &&& keyed(s)
    &&& s.next_seq < u64::MAX ==> forall|k: RowKey| #[trigger]
        s.rows.contains_key(k) && counted(k.0) ==> (text_number(k.1) matches Some(n) ==> n
            < s.next_seq)
}

/// `after` has no keys but those of `s` and `key`, and the same counter.
spec fn grown(s: StoreView, after: StoreView, key: Option<RowKey>) -> bool {
    &&& keyed(after)
    &&& after.next_seq == s.next_seq
    &&& forall|k: RowKey| #[trigger]
        after.rows.contains_key(k) ==> s.rows.contains_key(k) || key == Some(k)
}

proof fn lemma_put_grows(s: StoreView, row: QueryObjectView)
    requires
        keyed(s),
    ensures
        grown(s, s.put(row), Some(row_key(row))),
        s.rows.contains_key(row_key(row)) ==> grown(s, s.put(row), None),
{
}

proof fn lemma_attach_grows(
    s: StoreView,
    owner: Option<ObjectReferenceView>,
    child: ObjectReferenceView,
)
    requires
        keyed(s),
    ensures
        grown(s, s.attach(owner, child), None),
{
    reveal(StoreView::attach);
    reveal(StoreView::with_child);
    if let Some(parent) = owner {
        let k = (parent.kind, name_text(parent.name));
        assert(s.rows.contains_key(k) ==> row_key(s.rows[k]) == k);
    }
}

proof fn lemma_detach_grows(
    s: StoreView,
    owner: Option<ObjectReferenceView>,
    child: ObjectReferenceView,
)
    requires
        keyed(s),
    ensures
        grown(s, s.detach(owner, child), None),
{
    reveal(StoreView::detach);
    reveal(StoreView::without_child);
    if let Some(parent) = owner {
        let k = (parent.kind, name_text(parent.name));
        assert(s.rows.contains_key(k) ==> row_key(s.rows[k]) == k);
    }
}

proof fn lemma_cursor_grows(
    s: StoreView,
    scope: Option<ObjectReferenceView>,
    to: Option<ObjectReferenceView>,
)
    requires
        keyed(s),
    ensures
        grown(s, s.cursor(scope, to), None),
{
    reveal(StoreView::cursor);
    if let Some(scope) = scope {
        let k = (scope.kind, name_text(scope.name));
        assert(s.rows.contains_key(k) ==> row_key(s.rows[k]) == k);
    }
}

proof fn lemma_slotted_grows(s: StoreView, thread: ThreadView)
    requires
        keyed(s),
    ensures
        grown(s, s.slotted(thread), None),
{
    reveal(StoreView::slotted);
    if let Some(owner) = thread.meta.owner {
        let k = (owner.kind, name_text(owner.name));
        assert(s.rows.contains_key(k) ==> row_key(s.rows[k]) == k);
    }
}

proof fn lemma_variables_grow(
    s: StoreView,
    scope: ObjectReferenceView,
    variables: Seq<MemberView>,
    at: Timestamp,
)
    requires
        keyed(s),
    ensures
        grown(s, s.assign_variables(scope, variables, at), None),
{
    reveal(StoreView::assign_variables);
    let k = (scope.kind, name_text(scope.name));
    assert(s.rows.contains_key(k) ==> row_key(s.rows[k]) == k);
}

proof fn lemma_claims_grow(s: StoreView, tasks: Seq<TaskView>, at: Timestamp)
    requires
        keyed(s),
    ensures
        grown(s, s.claim_tasks(tasks, at), None),
    decreases tasks.len(),
{
    reveal_with_fuel(StoreView::claim_tasks, 2);
    reveal(StoreView::claim_task);
    reveal(StoreView::store_task);
    if tasks.len() > 0 {
        let before = s.claim_tasks(tasks.drop_last(), at);
        lemma_claims_grow(s, tasks.drop_last(), at);
        let k = (ObjectKind::Task, name_text(tasks.last().meta.name));
        assert(before.rows.contains_key(k) ==> row_key(before.rows[k]) == k);
    }
}

proof fn lemma_version_grows(s: StoreView, x: FlowVersionView, at: Timestamp)
    requires
        keyed(s),
    ensures
        keyed(s.store_version(x, at)),
        s.store_version(x, at).next_seq == s.next_seq,
        forall|k: RowKey| #[trigger]
            s.store_version(x, at).rows.contains_key(k) ==> s.rows.contains_key(k) || !counted(k.0),
{
    reveal(StoreView::store_version);
}

proof fn lemma_stores_grow(s: StoreView, at: Timestamp)
    requires
        keyed(s),
    ensures
        forall|x: ExecutionView|
            grown(
                s,
                #[trigger] s.store_execution(x, at),
                Some((ObjectKind::Execution, name_text(x.meta.name))),
            ),
        forall|x: ThreadView|
            grown(
                s,
                #[trigger] s.store_thread(x, at),
                Some((ObjectKind::Thread, name_text(x.meta.name))),
            ),
        forall|x: ActivityView|
            grown(
                s,
                #[trigger] s.store_activity(x, at),
                Some((ObjectKind::Activity, name_text(x.meta.name))),
            ),
        forall|x: TimerView|
            grown(
                s,
                #[trigger] s.store_timer(x, at),
                Some((ObjectKind::Timer, name_text(x.meta.name))),
            ),
        forall|x: TaskView|
            grown(
                s,
                #[trigger] s.store_task(x, at),
                Some((ObjectKind::Task, name_text(x.meta.name))),
            ),
{
    reveal(StoreView::store_execution);
    reveal(StoreView::store_thread);
    reveal(StoreView::store_activity);
    reveal(StoreView::store_timer);
    reveal(StoreView::store_task);
}

/// What an event adds to the keys: at most that of what it carries, where the counter gives names.
proof fn lemma_fold_rows_grows(s: StoreView, event: EventView, at: Timestamp)
    requires
        keyed(s),
    ensures
        keyed(s.fold_rows(event, at)),
        s.fold_rows(event, at).next_seq == s.next_seq,
        forall|k: RowKey| #[trigger]
            s.fold_rows(event, at).rows.contains_key(k) && counted(k.0) ==> s.rows.contains_key(k)
                || (event_name(event) matches Some((kind, name)) && k == (kind, name_text(name))),
{
    reveal(StoreView::fold_rows);
    lemma_stores_grow(s, at);
    match event {
        EventView::FlowVersionCreated(e) => lemma_version_grows(s, e.flow_version, at),
        EventView::ExecutionCreated(e) => {
            let row = QueryObjectView::Execution(fresh_execution(e.execution, at));
            lemma_put_grows(s, row);
            lemma_attach_grows(s.put(row), e.execution.meta.owner, e.execution.reference());
        },
        EventView::ExecutionCompleted { execution } => lemma_detach_grows(
            s.store_execution(execution, at),
            execution.meta.owner,
            execution.reference(),
        ),
        EventView::ExecutionTerminated { execution } => lemma_detach_grows(
            s.store_execution(execution, at),
            execution.meta.owner,
            execution.reference(),
        ),
        EventView::ThreadCreated { thread } => {
            let stored = s.put(QueryObjectView::Thread(fresh_thread(thread, at)));
            lemma_attach_grows(stored, thread.meta.owner, thread.reference());
            lemma_slotted_grows(stored.attach(thread.meta.owner, thread.reference()), thread);
        },
        EventView::ThreadCompleted { thread } => lemma_detach_grows(
            s.store_thread(thread, at),
            thread.meta.owner,
            thread.reference(),
        ),
        EventView::ThreadTerminated { thread } => lemma_detach_grows(
            s.store_thread(thread, at),
            thread.meta.owner,
            thread.reference(),
        ),
        EventView::StateActivating { activity } => {
            let stored = s.put(QueryObjectView::Activity(fresh_activity(activity, at)));
            lemma_attach_grows(stored, activity.meta.owner, activity.reference());
            lemma_cursor_grows(
                stored.attach(activity.meta.owner, activity.reference()),
                activity.meta.owner,
                Some(activity.reference()),
            );
        },
        EventView::StateCompleted { activity } => {
            let stored = s.store_activity(activity, at);
            lemma_detach_grows(stored, activity.meta.owner, activity.reference());
            lemma_cursor_grows(
                stored.detach(activity.meta.owner, activity.reference()),
                activity.meta.owner,
                None,
            );
        },
        EventView::StateTerminated { activity } => {
            let stored = s.store_activity(activity, at);
            lemma_detach_grows(stored, activity.meta.owner, activity.reference());
            lemma_cursor_grows(
                stored.detach(activity.meta.owner, activity.reference()),
                activity.meta.owner,
                None,
            );
        },
        EventView::TimerActivated { timer } => {
            let row = TimerRecordView { value: timer, created_at: at, updated_at: at };
            let stored = s.put(QueryObjectView::Timer(row));
            lemma_attach_grows(stored, timer.meta.owner, timer.reference());
        },
        EventView::TimerTriggered { timer } => lemma_detach_grows(
            s.store_timer(timer, at),
            timer.meta.owner,
            timer.reference(),
        ),
        EventView::TimerCancelled { timer } => lemma_detach_grows(
            s.store_timer(timer, at),
            timer.meta.owner,
            timer.reference(),
        ),
        EventView::TaskActivated { task } => {
            let row = TaskRecordView { value: task, created_at: at, updated_at: at };
            let stored = s.put(QueryObjectView::Task(row));
            lemma_attach_grows(stored, task.meta.owner, task.reference());
        },
        EventView::TasksClaimed(e) => lemma_claims_grow(s, e.tasks, at),
        EventView::TaskCompleted(e) => lemma_detach_grows(
            s.store_task(e.task, at),
            e.task.meta.owner,
            e.task.reference(),
        ),
        EventView::TaskFailed(e) => lemma_detach_grows(
            s.store_task(e.task, at),
            e.task.meta.owner,
            e.task.reference(),
        ),
        EventView::TaskCancelled { task } => lemma_detach_grows(
            s.store_task(task, at),
            task.meta.owner,
            task.reference(),
        ),
        EventView::VariablesAssigned(e) => lemma_variables_grow(s, e.scope, e.variables, at),
        _ => {},
    }
}

/// Of the objects that the counter names, folding an event adds at most the one that it carries.
pub proof fn lemma_folding_adds_what_is_carried(s: StoreView, event: EventView, at: Timestamp)
    requires
        keyed(s),
    ensures
        keyed(s.apply(event, at)),
        forall|k: RowKey| #[trigger]
            s.apply(event, at).rows.contains_key(k) && counted(k.0) ==> s.rows.contains_key(k) || (
            event_name(event) matches Some((kind, name)) && k == (kind, name_text(name))),
{
    reveal(StoreView::apply);
    lemma_fold_rows_grows(s, event, at);
    let rows = s.fold_rows(event, at);
    let after = s.apply(event, at);
    assert(after.rows == rows.rows);
    assert forall|k: RowKey| #[trigger] after.rows.contains_key(k) implies rows.rows.contains_key(
        k,
    ) by {}
}

/// Folding an event keeps the counter past the numbers of the stored names.
pub proof fn law_folding_keeps_the_counter_ahead(s: StoreView, event: EventView, at: Timestamp)
    requires
        ahead(s),
    ensures
        ahead(s.apply(event, at)),
{
    reveal(StoreView::apply);
    lemma_fold_rows_grows(s, event, at);
    let rows = s.fold_rows(event, at);
    let after = s.apply(event, at);
    assert(after.rows == rows.rows);
    assert forall|k: RowKey| #[trigger] after.rows.contains_key(k) implies row_key(after.rows[k])
        == k by {
        assert(rows.rows.contains_key(k));
    }
    assert forall|k: RowKey|
        after.next_seq < u64::MAX && #[trigger] after.rows.contains_key(k) && counted(
            k.0,
        ) implies (text_number(k.1) matches Some(n) ==> n < after.next_seq) by {
        assert(rows.rows.contains_key(k));
        assert(event_name(event) matches Some((_, name)) ==> event_number(event) == text_number(
            name_text(name),
        ));
    }
}

/// An empty store has its counter ahead, and drawing a number keeps it there.
pub proof fn law_drawing_keeps_the_counter_ahead(s: StoreView)
    requires
        ahead(s),
    ensures
        ahead(s.drawn()),
        ahead(empty_store()),
{
    assert forall|k: RowKey| #[trigger] s.drawn().rows.contains_key(k) implies s.rows.contains_key(
        k,
    ) && row_key(s.rows[k]) == k by {}
    if s.drawn().next_seq < u64::MAX {
        assert forall|k: RowKey| #[trigger]
            s.drawn().rows.contains_key(k) && counted(k.0) implies (text_number(k.1) matches Some(
            n,
        ) ==> n < s.drawn().next_seq) by {
            assert(s.rows.contains_key(k));
        }
    }
}

/// The name that the counter gives next, over the base of any name, is the name of no thread, activity,
/// timer or task in the store.
pub proof fn law_no_stored_name_is_drawn_again(s: StoreView, kind: ObjectKind, name: ObjectNameView)
    requires
        ahead(s),
        s.next_seq < u64::MAX,
        counted(kind),
        name.base.len() > 0,
    ensures
        s.get(kind, generated_name(name, s.next_seq)) is None,
{
    law_numbered_name_reads_back(name, s.next_seq);
    let k = (kind, name_text(generated_name(name, s.next_seq)));
    if s.rows.contains_key(k) {
        assert(counted(k.0));
    }
}

} // verus!
