//! What holds of every row of the store, and stays true as events are folded in.

use vstd::prelude::*;

use crate::applier::{fresh_activity, fresh_execution, fresh_thread, slotted_state};
use crate::id::Timestamp;
use crate::query::QueryObjectView;
use crate::storage::store::{
    lemma_without_one_contains, row_key, with_one, without_one, RowKey, StoreView,
};
use crate::types::activity::{
    ascending, lemma_place_slot_ascending, lemma_slot_position, place_slot, slot_position,
    ActivityStateView, ActivityView,
};
use crate::types::event::EventView;
use crate::types::meta::{name_text, ObjectKind, ObjectReferenceView};
use crate::types::task::TaskView;
use crate::types::thread::ThreadView;
use crate::types::timer::TimerView;

verus! {

/// What a container carries is in order: its slots ascend, and those of a `Map` lie in its plan.
pub open spec fn state_ok(state: Option<ActivityStateView>) -> bool {
    match state {
        Some(ActivityStateView::Parallel(p)) => ascending(p.branches),
        Some(ActivityStateView::ItemMap(m)) => {
            &&& ascending(m.children)
            &&& forall|i: int|
                0 <= i < m.children.len() ==> (#[trigger] m.children[i]).index < m.total
        },
        _ => true,
    }
}

/// An activity is owned, and what it carries is in order.
pub open spec fn activity_ok(x: ActivityView) -> bool {
    x.meta.kind is Activity && x.meta.owner is Some && state_ok(x.activity_state)
}

/// A row is in order: it says of which kind it is; activities, timers and tasks are owned; and a
/// child is listed only once.
pub open spec fn row_ok(row: QueryObjectView) -> bool {
    &&& row.meta().kind == row.kind()
    &&& match row {
        QueryObjectView::Execution(x) => x.active_children.no_duplicates(),
        QueryObjectView::Thread(x) => x.active_children.no_duplicates(),
        QueryObjectView::Activity(x) => activity_ok(x.value) && x.active_children.no_duplicates(),
        QueryObjectView::Timer(x) => x.value.meta.owner is Some,
        QueryObjectView::Task(x) => x.value.meta.owner is Some,
        _ => true,
    }
}

/// The keys in the order of a store are those of its rows, each only once: no two rows of a kind
/// have names of the same text.
pub open spec fn keys_ok(s: StoreView) -> bool {
    &&& s.order.no_duplicates()
    &&& forall|i: int| 0 <= i < s.order.len() ==> s.rows.contains_key(#[trigger] s.order[i])
    &&& forall|k: RowKey| s.rows.contains_key(k) ==> #[trigger] s.order.contains(k)
}

/// Every row is in order and stored under its own key, and no two have the same.
pub open spec fn store_ok(s: StoreView) -> bool {
    &&& keys_ok(s)
    &&& forall|k: RowKey| #[trigger]
        s.rows.contains_key(k) ==> row_key(s.rows[k]) == k && row_ok(s.rows[k])
}

/// What an event must satisfy for the store to stay in order.
pub open spec fn event_ok(event: EventView) -> bool {
    match event {
        EventView::FlowCreated(e) => e.flow.meta.kind is Flow,
        EventView::FlowVersionCreated(e) => e.flow_version.meta.kind is FlowVersion,
        EventView::ExecutionCreated(e) => e.execution.meta.kind is Execution,
        EventView::ExecutionCompleting { execution } => execution.meta.kind is Execution,
        EventView::ExecutionTerminating { execution } => execution.meta.kind is Execution,
        EventView::ExecutionCompleted { execution } => execution.meta.kind is Execution,
        EventView::ExecutionTerminated { execution } => execution.meta.kind is Execution,
        EventView::ThreadCreated { thread } => thread.meta.kind is Thread,
        EventView::ThreadCompleting { thread } => thread.meta.kind is Thread,
        EventView::ThreadTerminating { thread } => thread.meta.kind is Thread,
        EventView::ThreadCompleted { thread } => thread.meta.kind is Thread,
        EventView::ThreadTerminated { thread } => thread.meta.kind is Thread,
        EventView::StateActivating { activity } => activity_ok(activity),
        EventView::StateActivated { activity } => activity_ok(activity),
        EventView::StateCompleting { activity } => activity_ok(activity),
        EventView::StateCompleted { activity } => activity_ok(activity),
        EventView::StateTerminating { activity } => activity_ok(activity),
        EventView::StateTerminated { activity } => activity_ok(activity),
        EventView::TimerActivated { timer } => timer_ok(timer),
        EventView::TimerTriggered { timer } => timer_ok(timer),
        EventView::TimerCancelled { timer } => timer_ok(timer),
        EventView::TaskActivated { task } => task_ok(task),
        EventView::TasksClaimed(e) => forall|i: int|
            0 <= i < e.tasks.len() ==> task_ok(#[trigger] e.tasks[i]),
        EventView::TaskCompleted(e) => task_ok(e.task),
        EventView::TaskFailed(e) => task_ok(e.task),
        EventView::TaskCancelled { task } => task_ok(task),
        EventView::TaskLeaseExpired { task } => task_ok(task),
        _ => true,
    }
}

/// A timer says that it is one, and is owned.
pub open spec fn timer_ok(x: TimerView) -> bool {
    x.meta.kind is Timer && x.meta.owner is Some
}

/// A task says that it is one, and is owned.
pub open spec fn task_ok(x: TaskView) -> bool {
    x.meta.kind is Task && x.meta.owner is Some
}

/// A row that is in order can be stored.
pub proof fn lemma_put_ok(s: StoreView, row: QueryObjectView)
    requires
        store_ok(s),
        row_ok(row),
    ensures
        store_ok(s.put(row)),
{
    let after = s.put(row);
    assert forall|k: RowKey| #[trigger] after.rows.contains_key(k) implies row_key(after.rows[k])
        == k && row_ok(after.rows[k]) by {
        if k != row_key(row) {
            assert(s.rows.contains_key(k));
        }
    }
    assert forall|i: int| 0 <= i < after.order.len() implies after.rows.contains_key(
        #[trigger] after.order[i],
    ) by {
        if i < s.order.len() {
            assert(after.order[i] == s.order[i]);
        }
    }
    assert forall|k: RowKey| after.rows.contains_key(k) implies #[trigger] after.order.contains(
        k,
    ) by {
        if s.rows.contains_key(k) {
            assert(s.order.contains(k));
            let i = choose|i: int| 0 <= i < s.order.len() && s.order[i] == k;
            assert(after.order[i] == k);
        } else {
            assert(after.order[s.order.len() as int] == k);
        }
    }
    if !s.rows.contains_key(row_key(row)) {
        assert forall|i: int, j: int|
            0 <= i < after.order.len() && 0 <= j < after.order.len() && i
                != j implies after.order[i] != after.order[j] by {
            if i < s.order.len() {
                assert(s.rows.contains_key(s.order[i]));
            }
            if j < s.order.len() {
                assert(s.rows.contains_key(s.order[j]));
            }
        }
    }
}

proof fn lemma_with_one_unique(children: Seq<ObjectReferenceView>, child: ObjectReferenceView)
    requires
        children.no_duplicates(),
    ensures
        with_one(children, child).no_duplicates(),
{
    if !children.contains(child) {
        let after = children.push(child);
        assert forall|i: int, j: int|
            0 <= i < after.len() && 0 <= j < after.len() && i != j implies after[i] != after[j] by {
            if i < children.len() {
                assert(children.contains(children[i]));
            }
            if j < children.len() {
                assert(children.contains(children[j]));
            }
        }
    }
}

proof fn lemma_without_one_unique(children: Seq<ObjectReferenceView>, child: ObjectReferenceView)
    requires
        children.no_duplicates(),
    ensures
        without_one(children, child).no_duplicates(),
    decreases children.len(),
{
    if children.len() > 0 {
        let init = children.drop_last();
        let last = children.last();
        assert(init.no_duplicates()) by {
            assert forall|i: int, j: int|
                0 <= i < init.len() && 0 <= j < init.len() && i != j implies init[i]
                != init[j] by {
                assert(init[i] == children[i] && init[j] == children[j]);
            }
        }
        lemma_without_one_unique(init, child);
        if last != child {
            assert(!init.contains(last)) by {
                assert forall|i: int| 0 <= i < init.len() implies init[i] != last by {
                    assert(init[i] == children[i]);
                    assert(last == children[children.len() - 1]);
                }
            }
            lemma_without_one_contains(init, child, last);
            let kept = without_one(init, child);
            let after = kept.push(last);
            assert forall|i: int, j: int|
                0 <= i < after.len() && 0 <= j < after.len() && i != j implies after[i]
                != after[j] by {
                if i < kept.len() {
                    assert(kept.contains(kept[i]));
                }
                if j < kept.len() {
                    assert(kept.contains(kept[j]));
                }
            }
        }
    }
}

proof fn lemma_attach_ok(
    s: StoreView,
    owner: Option<ObjectReferenceView>,
    child: ObjectReferenceView,
)
    requires
        store_ok(s),
    ensures
        store_ok(s.attach(owner, child)),
{
    reveal(StoreView::attach);
    reveal(StoreView::with_child);
    if let Some(owner) = owner {
        let k = (owner.kind, name_text(owner.name));
        if s.rows.contains_key(k) {
            match s.rows[k] {
                QueryObjectView::Execution(x) => {
                    lemma_with_one_unique(x.active_children, child);
                    lemma_put_ok(
                        s,
                        QueryObjectView::Execution(
                            crate::storage::execution::ExecutionRecordView {
                                active_children: with_one(x.active_children, child),
                                ..x
                            },
                        ),
                    );
                },
                QueryObjectView::Thread(x) => {
                    lemma_with_one_unique(x.active_children, child);
                    lemma_put_ok(
                        s,
                        QueryObjectView::Thread(
                            crate::storage::thread::ThreadRecordView {
                                active_children: with_one(x.active_children, child),
                                ..x
                            },
                        ),
                    );
                },
                QueryObjectView::Activity(x) => {
                    lemma_with_one_unique(x.active_children, child);
                    lemma_put_ok(
                        s,
                        QueryObjectView::Activity(
                            crate::storage::activity::ActivityRecordView {
                                active_children: with_one(x.active_children, child),
                                ..x
                            },
                        ),
                    );
                },
                _ => {},
            }
        }
    }
}

proof fn lemma_detach_ok(
    s: StoreView,
    owner: Option<ObjectReferenceView>,
    child: ObjectReferenceView,
)
    requires
        store_ok(s),
    ensures
        store_ok(s.detach(owner, child)),
{
    reveal(StoreView::detach);
    reveal(StoreView::without_child);
    if let Some(owner) = owner {
        let k = (owner.kind, name_text(owner.name));
        if s.rows.contains_key(k) {
            match s.rows[k] {
                QueryObjectView::Execution(x) => {
                    lemma_without_one_unique(x.active_children, child);
                    lemma_put_ok(
                        s,
                        QueryObjectView::Execution(
                            crate::storage::execution::ExecutionRecordView {
                                active_children: without_one(x.active_children, child),
                                ..x
                            },
                        ),
                    );
                },
                QueryObjectView::Thread(x) => {
                    lemma_without_one_unique(x.active_children, child);
                    lemma_put_ok(
                        s,
                        QueryObjectView::Thread(
                            crate::storage::thread::ThreadRecordView {
                                active_children: without_one(x.active_children, child),
                                ..x
                            },
                        ),
                    );
                },
                QueryObjectView::Activity(x) => {
                    lemma_without_one_unique(x.active_children, child);
                    lemma_put_ok(
                        s,
                        QueryObjectView::Activity(
                            crate::storage::activity::ActivityRecordView {
                                active_children: without_one(x.active_children, child),
                                ..x
                            },
                        ),
                    );
                },
                _ => {},
            }
        }
    }
}

proof fn lemma_cursor_ok(
    s: StoreView,
    scope: Option<ObjectReferenceView>,
    current_activity: Option<ObjectReferenceView>,
)
    requires
        store_ok(s),
    ensures
        store_ok(s.cursor(scope, current_activity)),
{
    reveal(StoreView::cursor);
    if let Some(scope) = scope {
        let k = (scope.kind, name_text(scope.name));
        if s.rows.contains_key(k) {
            match s.rows[k] {
                QueryObjectView::Execution(x) => {
                    lemma_put_ok(
                        s,
                        QueryObjectView::Execution(
                            crate::storage::execution::ExecutionRecordView {
                                current_activity,
                                ..x
                            },
                        ),
                    );
                },
                QueryObjectView::Thread(x) => {
                    lemma_put_ok(
                        s,
                        QueryObjectView::Thread(
                            crate::storage::thread::ThreadRecordView { current_activity, ..x },
                        ),
                    );
                },
                _ => {},
            }
        }
    }
}

proof fn lemma_store_rows_ok(s: StoreView, at: Timestamp)
    requires
        store_ok(s),
    ensures
        forall|x: crate::types::execution::ExecutionView|
            x.meta.kind is Execution ==> #[trigger] store_ok(s.store_execution(x, at)),
        forall|x: ThreadView|
            x.meta.kind is Thread ==> #[trigger] store_ok(s.store_thread(x, at)),
        forall|x: ActivityView|
            activity_ok(x) ==> #[trigger] store_ok(s.store_activity(x, at)),
        forall|x: TimerView| timer_ok(x) ==> #[trigger] store_ok(s.store_timer(x, at)),
        forall|x: TaskView| task_ok(x) ==> #[trigger] store_ok(s.store_task(x, at)),
{
    reveal(StoreView::store_execution);
    reveal(StoreView::store_thread);
    reveal(StoreView::store_activity);
    reveal(StoreView::store_timer);
    reveal(StoreView::store_task);
    assert forall|x: crate::types::execution::ExecutionView|
        x.meta.kind is Execution implies #[trigger] store_ok(s.store_execution(x, at)) by {
        let after = s.store_execution(x, at);
        let k = (ObjectKind::Execution, name_text(x.meta.name));
        assert(s.rows.contains_key(k) ==> row_ok(s.rows[k]));
        lemma_put_ok(s, after.rows[k]);
        assert(after.rows =~= s.put(after.rows[k]).rows);
    }
    assert forall|x: ThreadView| x.meta.kind is Thread implies #[trigger]
        store_ok(s.store_thread(x, at)) by {
        let after = s.store_thread(x, at);
        let k = (ObjectKind::Thread, name_text(x.meta.name));
        assert(s.rows.contains_key(k) ==> row_ok(s.rows[k]));
        lemma_put_ok(s, after.rows[k]);
        assert(after.rows =~= s.put(after.rows[k]).rows);
    }
    assert forall|x: ActivityView| activity_ok(x) implies #[trigger]
        store_ok(s.store_activity(x, at)) by {
        let after = s.store_activity(x, at);
        let k = (ObjectKind::Activity, name_text(x.meta.name));
        assert(s.rows.contains_key(k) ==> row_ok(s.rows[k]));
        lemma_put_ok(s, after.rows[k]);
        assert(after.rows =~= s.put(after.rows[k]).rows);
    }
    assert forall|x: TimerView| timer_ok(x) implies #[trigger]
        store_ok(s.store_timer(x, at)) by {
        let after = s.store_timer(x, at);
        let k = (ObjectKind::Timer, name_text(x.meta.name));
        lemma_put_ok(s, after.rows[k]);
        assert(after.rows =~= s.put(after.rows[k]).rows);
    }
    assert forall|x: TaskView| task_ok(x) implies #[trigger]
        store_ok(s.store_task(x, at)) by {
        let after = s.store_task(x, at);
        let k = (ObjectKind::Task, name_text(x.meta.name));
        lemma_put_ok(s, after.rows[k]);
        assert(after.rows =~= s.put(after.rows[k]).rows);
    }
}

proof fn lemma_claim_tasks_ok(s: StoreView, tasks: Seq<TaskView>, at: Timestamp)
    requires
        store_ok(s),
        forall|i: int| 0 <= i < tasks.len() ==> task_ok(#[trigger] tasks[i]),
    ensures
        store_ok(s.claim_tasks(tasks, at)),
    decreases tasks.len(),
{
    reveal_with_fuel(StoreView::claim_tasks, 2);
    reveal(StoreView::claim_task);
    if tasks.len() > 0 {
        let init = tasks.drop_last();
        assert forall|i: int| 0 <= i < init.len() implies task_ok(#[trigger] init[i]) by {
            assert(init[i] == tasks[i]);
        }
        lemma_claim_tasks_ok(s, init, at);
        assert(tasks[tasks.len() - 1] == tasks.last());
        let before = s.claim_tasks(init, at);
        lemma_store_rows_ok(before, at);
        assert(store_ok(before.store_task(tasks.last(), at)));
    }
}

proof fn lemma_slotted_ok(s: StoreView, thread: ThreadView)
    requires
        store_ok(s),
    ensures
        store_ok(s.slotted(thread)),
{
    reveal(StoreView::slotted);
    if let Some(owner) = thread.meta.owner {
        let k = (owner.kind, name_text(owner.name));
        if s.rows.contains_key(k) {
            if let QueryObjectView::Activity(x) = s.rows[k] {
                let state = slotted_state(
                    x.value.activity_state,
                    thread.index,
                    thread.reference(),
                );
                match x.value.activity_state {
                    Some(ActivityStateView::Parallel(p)) => {
                        lemma_place_slot_ascending(p.branches, thread.index, thread.reference());
                    },
                    Some(ActivityStateView::ItemMap(m)) if thread.index < m.total => {
                        lemma_place_slot_ascending(m.children, thread.index, thread.reference());
                        lemma_slot_position(m.children, thread.index);
                        let after = place_slot(m.children, thread.index, thread.reference());
                        let p = slot_position(m.children, thread.index);
                        assert forall|i: int| 0 <= i < after.len() implies (
                        #[trigger] after[i]).index < m.total by {
                            if p < m.children.len() && m.children[p].index == thread.index {
                                if i != p {
                                    assert(after[i] == m.children[i]);
                                }
                            } else if i < p {
                                assert(after[i] == m.children[i]);
                            } else if i > p {
                                assert(after[i] == m.children[i - 1]);
                            }
                        }
                    },
                    _ => {},
                }
                assert(state_ok(state));
                lemma_put_ok(
                    s,
                    QueryObjectView::Activity(
                        crate::storage::activity::ActivityRecordView {
                            value: ActivityView { activity_state: state, ..x.value },
                            ..x
                        },
                    ),
                );
            }
        }
    }
}

proof fn lemma_thread_created_ok(s: StoreView, thread: ThreadView, at: Timestamp)
    requires
        store_ok(s),
        thread.meta.kind is Thread,
    ensures
        store_ok(
            s.put(QueryObjectView::Thread(fresh_thread(thread, at))).attach(
                thread.meta.owner,
                thread.reference(),
            ).slotted(thread),
        ),
{
    let row = QueryObjectView::Thread(fresh_thread(thread, at));
    let born = s.put(row);
    lemma_put_ok(s, row);
    lemma_attach_ok(born, thread.meta.owner, thread.reference());
    let attached = born.attach(thread.meta.owner, thread.reference());
    lemma_slotted_ok(attached, thread);
}

proof fn lemma_store_version_ok(
    s: StoreView,
    x: crate::types::flow::FlowVersionView,
    at: Timestamp,
)
    requires
        store_ok(s),
        x.meta.kind is FlowVersion,
    ensures
        store_ok(s.store_version(x, at)),
{
    reveal(StoreView::store_version);
    lemma_put_ok(s, QueryObjectView::FlowVersion(x));
    let stored = s.put(QueryObjectView::FlowVersion(x));
    if let Some(owner) = x.meta.owner {
        if let Some(QueryObjectView::Flow(flow)) = stored.get(ObjectKind::Flow, owner.name) {
            lemma_put_ok(
                stored,
                QueryObjectView::Flow(
                    crate::types::flow::FlowView {
                        meta: flow.meta.touched(at),
                        latest_flow_version: x.meta.reference(),
                        ..flow
                    },
                ),
            );
        }
    }
}

proof fn lemma_assign_ok(
    s: StoreView,
    scope: ObjectReferenceView,
    variables: Seq<crate::value::MemberView>,
    at: Timestamp,
)
    requires
        store_ok(s),
    ensures
        store_ok(s.assign_variables(scope, variables, at)),
{
    reveal(StoreView::assign_variables);
    let k = (scope.kind, name_text(scope.name));
    if s.rows.contains_key(k) {
        match s.rows[k] {
            QueryObjectView::Execution(x) => {
                lemma_put_ok(
                    s,
                    QueryObjectView::Execution(
                        crate::storage::execution::ExecutionRecordView {
                            variables,
                            updated_at: at,
                            ..x
                        },
                    ),
                );
            },
            QueryObjectView::Thread(x) => {
                lemma_put_ok(
                    s,
                    QueryObjectView::Thread(
                        crate::storage::thread::ThreadRecordView {
                            variables,
                            updated_at: at,
                            ..x
                        },
                    ),
                );
            },
            _ => {},
        }
    }
}

/// Folding an event that is in order keeps the store in order.
pub proof fn law_apply_keeps_order(s: StoreView, event: EventView, at: Timestamp)
    requires
        store_ok(s),
        event_ok(event),
    ensures
        store_ok(s.apply(event, at)),
{
    reveal(StoreView::apply);
    lemma_fold_rows_ok(s, event, at);
    let rows = s.fold_rows(event, at);
    let after = s.apply(event, at);
    assert(after.rows == rows.rows && after.order == rows.order);
    assert forall|k: RowKey| #[trigger] after.rows.contains_key(k) implies row_key(after.rows[k])
        == k && row_ok(after.rows[k]) by {
        assert(rows.rows.contains_key(k));
    }
}

proof fn lemma_fold_rows_ok(s: StoreView, event: EventView, at: Timestamp)
    requires
        store_ok(s),
        event_ok(event),
    ensures
        store_ok(s.fold_rows(event, at)),
{
    reveal(StoreView::fold_rows);
    match event {
        EventView::FlowCreated(e) => lemma_put_ok(s, QueryObjectView::Flow(e.flow)),
        EventView::FlowVersionCreated(e) => lemma_store_version_ok(s, e.flow_version, at),
        EventView::ExecutionCreated(e) => {
            let row = QueryObjectView::Execution(fresh_execution(e.execution, at));
            lemma_put_ok(s, row);
            lemma_attach_ok(s.put(row), e.execution.meta.owner, e.execution.reference());
        },
        EventView::ThreadCreated { thread } => lemma_thread_created_ok(s, thread, at),
        EventView::StateActivating { activity } => {
            let row = QueryObjectView::Activity(fresh_activity(activity, at));
            lemma_put_ok(s, row);
            lemma_attach_ok(s.put(row), activity.meta.owner, activity.reference());
            lemma_cursor_ok(
                s.put(row).attach(activity.meta.owner, activity.reference()),
                activity.meta.owner,
                Some(activity.reference()),
            );
        },
        EventView::TimerActivated { timer } => {
            let row = QueryObjectView::Timer(
                crate::storage::timer::TimerRecordView {
                    value: timer,
                    created_at: at,
                    updated_at: at,
                },
            );
            lemma_put_ok(s, row);
            lemma_attach_ok(s.put(row), timer.meta.owner, timer.reference());
        },
        EventView::TaskActivated { task } => {
            let row = QueryObjectView::Task(
                crate::storage::task::TaskRecordView {
                    value: task,
                    created_at: at,
                    updated_at: at,
                },
            );
            lemma_put_ok(s, row);
            lemma_attach_ok(s.put(row), task.meta.owner, task.reference());
        },
        EventView::TasksClaimed(e) => lemma_claim_tasks_ok(s, e.tasks, at),
        EventView::VariablesAssigned(e) => lemma_assign_ok(s, e.scope, e.variables, at),
        EventView::ExecutionCompleting { execution } => lemma_store_rows_ok(s, at),
        EventView::ExecutionTerminating { execution } => lemma_store_rows_ok(s, at),
        EventView::ExecutionCompleted { execution } => {
            lemma_store_rows_ok(s, at);
            lemma_detach_ok(
                s.store_execution(execution, at),
                execution.meta.owner,
                execution.reference(),
            );
        },
        EventView::ExecutionTerminated { execution } => {
            lemma_store_rows_ok(s, at);
            lemma_detach_ok(
                s.store_execution(execution, at),
                execution.meta.owner,
                execution.reference(),
            );
        },
        EventView::ThreadCompleting { thread } => lemma_store_rows_ok(s, at),
        EventView::ThreadTerminating { thread } => lemma_store_rows_ok(s, at),
        EventView::ThreadCompleted { thread } => {
            lemma_store_rows_ok(s, at);
            lemma_detach_ok(s.store_thread(thread, at), thread.meta.owner, thread.reference());
        },
        EventView::ThreadTerminated { thread } => {
            lemma_store_rows_ok(s, at);
            lemma_detach_ok(s.store_thread(thread, at), thread.meta.owner, thread.reference());
        },
        EventView::StateActivated { activity } => lemma_store_rows_ok(s, at),
        EventView::StateCompleting { activity } => lemma_store_rows_ok(s, at),
        EventView::StateTerminating { activity } => lemma_store_rows_ok(s, at),
        EventView::StateCompleted { activity } => {
            lemma_store_rows_ok(s, at);
            let stored = s.store_activity(activity, at);
            lemma_detach_ok(stored, activity.meta.owner, activity.reference());
            lemma_cursor_ok(
                stored.detach(activity.meta.owner, activity.reference()),
                activity.meta.owner,
                None,
            );
        },
        EventView::StateTerminated { activity } => {
            lemma_store_rows_ok(s, at);
            let stored = s.store_activity(activity, at);
            lemma_detach_ok(stored, activity.meta.owner, activity.reference());
            lemma_cursor_ok(
                stored.detach(activity.meta.owner, activity.reference()),
                activity.meta.owner,
                None,
            );
        },
        EventView::TimerTriggered { timer } => {
            lemma_store_rows_ok(s, at);
            lemma_detach_ok(s.store_timer(timer, at), timer.meta.owner, timer.reference());
        },
        EventView::TimerCancelled { timer } => {
            lemma_store_rows_ok(s, at);
            lemma_detach_ok(s.store_timer(timer, at), timer.meta.owner, timer.reference());
        },
        EventView::TaskCompleted(e) => {
            lemma_store_rows_ok(s, at);
            lemma_detach_ok(s.store_task(e.task, at), e.task.meta.owner, e.task.reference());
        },
        EventView::TaskFailed(e) => {
            lemma_store_rows_ok(s, at);
            lemma_detach_ok(s.store_task(e.task, at), e.task.meta.owner, e.task.reference());
        },
        EventView::TaskCancelled { task } => {
            lemma_store_rows_ok(s, at);
            lemma_detach_ok(s.store_task(task, at), task.meta.owner, task.reference());
        },
        EventView::TaskLeaseExpired { task } => lemma_store_rows_ok(s, at),
        EventView::StateTransitioned(_) => {},
        EventView::ProcessChildCompletedHandled { .. } => {},
    }
}

} // verus!
