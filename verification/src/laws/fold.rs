//! The fold: what each event does to the rows, and to no other.

use vstd::prelude::*;

use crate::id::{RequestId, Timestamp};
use crate::laws::{changed, named_by};
use crate::laws::tasks::free_at;
use crate::query::QueryObjectView;
use crate::storage::activity::ActivityRecordView;
use crate::storage::counter::keyed;
use crate::storage::execution::ExecutionRecordView;
use crate::storage::store::{row_key, without_one, RowKey, StoreView};
use crate::storage::task::TaskRecordView;
use crate::storage::thread::ThreadRecordView;
use crate::storage::timer::TimerRecordView;
use crate::types::activity::{
    ascending, lemma_place_slot_ascending, lemma_slot_position, place_slot, slot_position,
    ActivityStateView, ActivityView, MapActivityStateView, ParallelActivityStateView, SlotView,
};
use crate::types::error::ExecutionErrorView;
use crate::types::event::{
    EventView, ExecutionCreatedView, FlowCreatedView, FlowVersionCreatedView, StateTransitionedView,
    TaskCompletedView, TaskFailedView, TasksClaimedView, VariablesAssignedView,
};
use crate::types::execution::ExecutionView;
use crate::types::flow::{FlowVersionView, FlowView};
use crate::types::meta::{name_text, ObjectKind, ObjectReferenceView};
use crate::types::task::TaskView;
use crate::types::thread::ThreadView;
use crate::types::timer::TimerView;
use crate::value::{Json, MemberView};

verus! {

/// Where what a reference names is stored.
pub open spec fn key_of(r: ObjectReferenceView) -> RowKey {
    (r.kind, name_text(r.name))
}

/// The children that a row lists.
pub open spec fn listed(row: QueryObjectView) -> Seq<ObjectReferenceView> {
    match row {
        QueryObjectView::Execution(x) => x.active_children,
        QueryObjectView::Thread(x) => x.active_children,
        QueryObjectView::Activity(x) => x.active_children,
        _ => Seq::empty(),
    }
}

/// The row with other children.
pub open spec fn relisted(
    row: QueryObjectView,
    children: Seq<ObjectReferenceView>,
) -> QueryObjectView {
    match row {
        QueryObjectView::Execution(x) => QueryObjectView::Execution(
            ExecutionRecordView { active_children: children, ..x },
        ),
        QueryObjectView::Thread(x) => QueryObjectView::Thread(
            ThreadRecordView { active_children: children, ..x },
        ),
        QueryObjectView::Activity(x) => QueryObjectView::Activity(
            ActivityRecordView { active_children: children, ..x },
        ),
        _ => row,
    }
}

/// The row with a child on its list, at the end unless it was there.
pub open spec fn listing(row: QueryObjectView, child: ObjectReferenceView) -> QueryObjectView {
    relisted(
        row,
        if listed(row).contains(child) {
            listed(row)
        } else {
            listed(row).push(child)
        },
    )
}

/// The children but `child`, in their order.
pub open spec fn all_but(
    children: Seq<ObjectReferenceView>,
    child: ObjectReferenceView,
) -> Seq<ObjectReferenceView> {
    children.filter(|c: ObjectReferenceView| c != child)
}

/// The row with a child off its list.
pub open spec fn unlisting(row: QueryObjectView, child: ObjectReferenceView) -> QueryObjectView {
    relisted(row, all_but(listed(row), child))
}

/// The row with another activity in flight.
pub open spec fn running(
    row: QueryObjectView,
    activity: Option<ObjectReferenceView>,
) -> QueryObjectView {
    match row {
        QueryObjectView::Execution(x) => QueryObjectView::Execution(
            ExecutionRecordView { current_activity: activity, ..x },
        ),
        QueryObjectView::Thread(x) => QueryObjectView::Thread(
            ThreadRecordView { current_activity: activity, ..x },
        ),
        _ => row,
    }
}

/// The row of a container with a thread in the slot of its index; a `Map` has slots for its items only.
pub open spec fn holding(row: QueryObjectView, thread: ThreadView) -> QueryObjectView {
    match row {
        QueryObjectView::Activity(x) => QueryObjectView::Activity(
            ActivityRecordView {
                value: ActivityView {
                    activity_state: match x.value.activity_state {
                        Some(ActivityStateView::Parallel(p)) => Some(
                            ActivityStateView::Parallel(
                                ParallelActivityStateView {
                                    branches: place_slot(
                                        p.branches,
                                        thread.index,
                                        named_by(thread.meta),
                                    ),
                                },
                            ),
                        ),
                        Some(ActivityStateView::ItemMap(m)) => Some(
                            ActivityStateView::ItemMap(
                                MapActivityStateView {
                                    items: m.items,
                                    total: m.total,
                                    max_concurrency: m.max_concurrency,
                                    children: if thread.index < m.total {
                                        place_slot(
                                            m.children,
                                            thread.index,
                                            named_by(thread.meta),
                                        )
                                    } else {
                                        m.children
                                    },
                                },
                            ),
                        ),
                        other => other,
                    },
                    ..x.value
                },
                ..x
            },
        ),
        _ => row,
    }
}

/// A placed slot holds its thread, the slots of other indices are as they were, and the order stays.
pub proof fn law_slot_holds_its_thread(
    slots: Seq<SlotView>,
    index: usize,
    thread: ObjectReferenceView,
    other: SlotView,
)
    requires
        ascending(slots),
    ensures
        ({
            let after = place_slot(slots, index, thread);
            &&& ascending(after)
            &&& after.contains(SlotView { index, thread })
            &&& other.index == index && after.contains(other) ==> other.thread == thread
            &&& other.index != index ==> (after.contains(other) <==> slots.contains(other))
        }),
{
    lemma_place_slot_ascending(slots, index, thread);
    lemma_slot_position(slots, index);
    let p = slot_position(slots, index);
    let after = place_slot(slots, index, thread);
    let placed = SlotView { index, thread };
    assert(after[p] == placed);
    if after.contains(other) {
        let i = choose|i: int| 0 <= i < after.len() && after[i] == other;
        if other.index == index {
            if i < p {
                assert(after[i].index < after[p].index);
            }
            if i > p {
                assert(after[p].index < after[i].index);
            }
        } else if p < slots.len() && slots[p].index == index {
            assert(slots[i] == other);
        } else if i < p {
            assert(slots[i] == other);
        } else {
            assert(slots[i - 1] == other);
        }
    }
    if slots.contains(other) && other.index != index {
        let i = choose|i: int| 0 <= i < slots.len() && slots[i] == other;
        if p < slots.len() && slots[p].index == index {
            assert(after[i] == other);
        } else if i < p {
            assert(after[i] == other);
        } else {
            assert(after[i + 1] == other);
        }
    }
}

proof fn lemma_without_is_filter(
    children: Seq<ObjectReferenceView>,
    child: ObjectReferenceView,
)
    ensures
        without_one(children, child) == all_but(children, child),
    decreases children.len(),
{
    reveal(Seq::filter);
    if children.len() > 0 {
        lemma_without_is_filter(children.drop_last(), child);
    }
}

/// What a step does to the row under a key: to the row of the owner, where it is stored.
pub open spec fn at_owner(
    s: StoreView,
    owner: Option<ObjectReferenceView>,
    k: RowKey,
    to: spec_fn(QueryObjectView) -> QueryObjectView,
) -> Option<QueryObjectView> {
    if owner matches Some(o) && key_of(o) == k && s.rows.contains_key(k) {
        Some(to(s.rows[k]))
    } else {
        s.row_at(k)
    }
}

proof fn lemma_attach(
    s: StoreView,
    owner: Option<ObjectReferenceView>,
    child: ObjectReferenceView,
)
    requires
        keyed(s),
    ensures
        keyed(s.attach(owner, child)),
        forall|k: RowKey| #[trigger]
            s.attach(owner, child).row_at(k) == at_owner(
                s,
                owner,
                k,
                |row: QueryObjectView| listing(row, child),
            ),
        s.attach(owner, child).order == s.order,
        s.attach(owner, child).fault == s.fault,
{
    reveal(StoreView::attach);
    reveal(StoreView::with_child);
    if let Some(o) = owner {
        let k = key_of(o);
        assert(s.rows.contains_key(k) ==> row_key(s.rows[k]) == k);
    }
}

proof fn lemma_detach(
    s: StoreView,
    owner: Option<ObjectReferenceView>,
    child: ObjectReferenceView,
)
    requires
        keyed(s),
    ensures
        keyed(s.detach(owner, child)),
        forall|k: RowKey| #[trigger]
            s.detach(owner, child).row_at(k) == at_owner(
                s,
                owner,
                k,
                |row: QueryObjectView| unlisting(row, child),
            ),
        s.detach(owner, child).order == s.order,
        s.detach(owner, child).fault == s.fault,
{
    reveal(StoreView::detach);
    reveal(StoreView::without_child);
    if let Some(o) = owner {
        let k = key_of(o);
        assert(s.rows.contains_key(k) ==> row_key(s.rows[k]) == k);
        if s.rows.contains_key(k) {
            lemma_without_is_filter(listed(s.rows[k]), child);
        }
    }
}

proof fn lemma_cursor(
    s: StoreView,
    owner: Option<ObjectReferenceView>,
    to: Option<ObjectReferenceView>,
)
    requires
        keyed(s),
    ensures
        keyed(s.cursor(owner, to)),
        forall|k: RowKey| #[trigger]
            s.cursor(owner, to).row_at(k) == at_owner(
                s,
                owner,
                k,
                |row: QueryObjectView| running(row, to),
            ),
        s.cursor(owner, to).order == s.order,
        s.cursor(owner, to).fault == s.fault,
{
    reveal(StoreView::cursor);
    if let Some(o) = owner {
        let k = key_of(o);
        assert(s.rows.contains_key(k) ==> row_key(s.rows[k]) == k);
    }
}

proof fn lemma_slotted(s: StoreView, thread: ThreadView)
    requires
        keyed(s),
    ensures
        keyed(s.slotted(thread)),
        forall|k: RowKey| #[trigger]
            s.slotted(thread).row_at(k) == at_owner(
                s,
                thread.meta.owner,
                k,
                |row: QueryObjectView| holding(row, thread),
            ),
        s.slotted(thread).order == s.order,
        s.slotted(thread).fault == s.fault,
{
    reveal(StoreView::slotted);
    if let Some(o) = thread.meta.owner {
        let k = key_of(o);
        assert(s.rows.contains_key(k) ==> row_key(s.rows[k]) == k);
    }
}

/// The order of the keys with `k` in it, at the end unless it was there.
pub open spec fn in_order(s: StoreView, k: RowKey) -> Seq<RowKey> {
    if s.rows.contains_key(k) {
        s.order
    } else {
        s.order.push(k)
    }
}

/// An execution is born without variables and children. Nothing else changes.
pub proof fn law_execution_is_born(
    s: StoreView,
    execution: ExecutionView,
    request_id: RequestId,
    at: Timestamp,
    k: RowKey,
)
    requires
        keyed(s),
        execution.meta.owner matches Some(owner) ==> key_of(owner)
            != (ObjectKind::Execution, name_text(execution.meta.name)),
    ensures
        ({
            let after = s.apply(
                EventView::ExecutionCreated(ExecutionCreatedView { request_id, execution }),
                at,
            );
            let own = (ObjectKind::Execution, name_text(execution.meta.name));
            &&& after.row_at(k) == if k == own {
                Some(QueryObjectView::Execution(ExecutionRecordView {
                    value: execution,
                    variables: Seq::empty(),
                    current_activity: None,
                    active_children: Seq::empty(),
                    created_at: at,
                    updated_at: at,
                }))
            } else {
                at_owner(
                    s,
                    execution.meta.owner,
                    k,
                    |row: QueryObjectView| listing(row, named_by(execution.meta)),
                )
            }
            &&& after.order == in_order(s, own)
            &&& after.fault == s.fault
        }),
{
    reveal(StoreView::apply);
    reveal(StoreView::fold_rows);
    let stored = s.put(QueryObjectView::Execution(ExecutionRecordView {
                    value: execution,
                    variables: Seq::empty(),
                    current_activity: None,
                    active_children: Seq::empty(),
                    created_at: at,
                    updated_at: at,
                }));
    lemma_attach(stored, execution.meta.owner, named_by(execution.meta));
    let after = s.apply(
        EventView::ExecutionCreated(ExecutionCreatedView { request_id, execution }),
        at,
    );
    let rows = s.fold_rows(
        EventView::ExecutionCreated(ExecutionCreatedView { request_id, execution }),
        at,
    );
    assert(after.row_at(k) == rows.row_at(k));
}

/// A thread is born without variables and children; its owner lists it, and holds it in the slot of
/// its index. Nothing else changes.
pub proof fn law_thread_is_born(
    s: StoreView,
    thread: ThreadView,
    at: Timestamp,
    k: RowKey,
)
    requires
        keyed(s),
        thread.meta.owner matches Some(owner) ==> key_of(owner)
            != (ObjectKind::Thread, name_text(thread.meta.name)),
    ensures
        ({
            let after = s.apply(EventView::ThreadCreated { thread }, at);
            let own = (ObjectKind::Thread, name_text(thread.meta.name));
            &&& after.row_at(k) == if k == own {
                Some(QueryObjectView::Thread(ThreadRecordView {
                    value: thread,
                    variables: Seq::empty(),
                    current_activity: None,
                    active_children: Seq::empty(),
                    created_at: at,
                    updated_at: at,
                }))
            } else {
                at_owner(
                    s,
                    thread.meta.owner,
                    k,
                    |row: QueryObjectView| holding(listing(row, named_by(thread.meta)), thread),
                )
            }
            &&& after.order == in_order(s, own)
            &&& after.fault == s.fault
        }),
{
    reveal(StoreView::apply);
    reveal(StoreView::fold_rows);
    let stored = s.put(QueryObjectView::Thread(ThreadRecordView {
                    value: thread,
                    variables: Seq::empty(),
                    current_activity: None,
                    active_children: Seq::empty(),
                    created_at: at,
                    updated_at: at,
                }));
    lemma_attach(stored, thread.meta.owner, named_by(thread.meta));
    lemma_slotted(stored.attach(thread.meta.owner, named_by(thread.meta)), thread);
    assert(stored.attach(thread.meta.owner, named_by(thread.meta)).row_at(k) == at_owner(
        stored,
        thread.meta.owner,
        k,
        |row: QueryObjectView| listing(row, named_by(thread.meta)),
    ));
    let after = s.apply(EventView::ThreadCreated { thread }, at);
    let rows = s.fold_rows(EventView::ThreadCreated { thread }, at);
    assert(after.row_at(k) == rows.row_at(k));
}

/// An activity is born without children; its owner lists it, and has it in flight. Nothing else
/// changes.
pub proof fn law_activity_is_born(
    s: StoreView,
    activity: ActivityView,
    at: Timestamp,
    k: RowKey,
)
    requires
        keyed(s),
        activity.meta.owner matches Some(owner) ==> key_of(owner)
            != (ObjectKind::Activity, name_text(activity.meta.name)),
    ensures
        ({
            let after = s.apply(EventView::StateActivating { activity }, at);
            let own = (ObjectKind::Activity, name_text(activity.meta.name));
            &&& after.row_at(k) == if k == own {
                Some(QueryObjectView::Activity(ActivityRecordView {
                    value: activity,
                    active_children: Seq::empty(),
                    created_at: at,
                    updated_at: at,
                }))
            } else {
                at_owner(
                    s,
                    activity.meta.owner,
                    k,
                    |row: QueryObjectView|
                        running(listing(row, named_by(activity.meta)), Some(named_by(activity.meta))),
                )
            }
            &&& after.order == in_order(s, own)
            &&& after.fault == s.fault
        }),
{
    reveal(StoreView::apply);
    reveal(StoreView::fold_rows);
    let stored = s.put(QueryObjectView::Activity(ActivityRecordView {
                    value: activity,
                    active_children: Seq::empty(),
                    created_at: at,
                    updated_at: at,
                }));
    lemma_attach(stored, activity.meta.owner, named_by(activity.meta));
    lemma_cursor(
        stored.attach(activity.meta.owner, named_by(activity.meta)),
        activity.meta.owner,
        Some(named_by(activity.meta)),
    );
    assert(stored.attach(activity.meta.owner, named_by(activity.meta)).row_at(k) == at_owner(
        stored,
        activity.meta.owner,
        k,
        |row: QueryObjectView| listing(row, named_by(activity.meta)),
    ));
    let after = s.apply(EventView::StateActivating { activity }, at);
    let rows = s.fold_rows(EventView::StateActivating { activity }, at);
    assert(after.row_at(k) == rows.row_at(k));
}

/// A timer is born, and its owner lists it. Nothing else changes.
pub proof fn law_timer_is_born(
    s: StoreView,
    timer: TimerView,
    at: Timestamp,
    k: RowKey,
)
    requires
        keyed(s),
        timer.meta.owner matches Some(owner) ==> key_of(owner)
            != (ObjectKind::Timer, name_text(timer.meta.name)),
    ensures
        ({
            let after = s.apply(EventView::TimerActivated { timer }, at);
            let own = (ObjectKind::Timer, name_text(timer.meta.name));
            &&& after.row_at(k) == if k == own {
                Some(
                    QueryObjectView::Timer(TimerRecordView { value: timer, created_at: at, updated_at: at }),
                )
            } else {
                at_owner(
                    s,
                    timer.meta.owner,
                    k,
                    |row: QueryObjectView| listing(row, named_by(timer.meta)),
                )
            }
            &&& after.order == in_order(s, own)
            &&& after.fault == s.fault
        }),
{
    reveal(StoreView::apply);
    reveal(StoreView::fold_rows);
    let stored = s.put(
        QueryObjectView::Timer(TimerRecordView { value: timer, created_at: at, updated_at: at }),
    );
    lemma_attach(stored, timer.meta.owner, named_by(timer.meta));
    let after = s.apply(EventView::TimerActivated { timer }, at);
    let rows = s.fold_rows(EventView::TimerActivated { timer }, at);
    assert(after.row_at(k) == rows.row_at(k));
}

/// A task is born, and its owner lists it. Nothing else changes.
pub proof fn law_task_is_born(
    s: StoreView,
    task: TaskView,
    at: Timestamp,
    k: RowKey,
)
    requires
        keyed(s),
        task.meta.owner matches Some(owner) ==> key_of(owner)
            != (ObjectKind::Task, name_text(task.meta.name)),
    ensures
        ({
            let after = s.apply(EventView::TaskActivated { task }, at);
            let own = (ObjectKind::Task, name_text(task.meta.name));
            &&& after.row_at(k) == if k == own {
                Some(
                    QueryObjectView::Task(TaskRecordView { value: task, created_at: at, updated_at: at }),
                )
            } else {
                at_owner(
                    s,
                    task.meta.owner,
                    k,
                    |row: QueryObjectView| listing(row, named_by(task.meta)),
                )
            }
            &&& after.order == in_order(s, own)
            &&& after.fault == s.fault
        }),
{
    reveal(StoreView::apply);
    reveal(StoreView::fold_rows);
    let stored = s.put(
        QueryObjectView::Task(TaskRecordView { value: task, created_at: at, updated_at: at }),
    );
    lemma_attach(stored, task.meta.owner, named_by(task.meta));
    let after = s.apply(EventView::TaskActivated { task }, at);
    let rows = s.fold_rows(EventView::TaskActivated { task }, at);
    assert(after.row_at(k) == rows.row_at(k));
}

/// The row with another execution in it, changed at `at`; what was not stored is born.
pub open spec fn execution_now(
    before: Option<QueryObjectView>,
    execution: ExecutionView,
    at: Timestamp,
) -> QueryObjectView {
    QueryObjectView::Execution(
        match before {
            Some(QueryObjectView::Execution(row)) => ExecutionRecordView {
                value: execution,
                updated_at: at,
                ..row
            },
            _ => ExecutionRecordView {
                value: execution,
                variables: Seq::empty(),
                current_activity: None,
                active_children: Seq::empty(),
                created_at: at,
                updated_at: at,
            },
        },
    )
}

/// The row with another thread in it, changed at `at`; what was not stored is born.
pub open spec fn thread_now(
    before: Option<QueryObjectView>,
    thread: ThreadView,
    at: Timestamp,
) -> QueryObjectView {
    QueryObjectView::Thread(
        match before {
            Some(QueryObjectView::Thread(row)) => ThreadRecordView {
                value: thread,
                updated_at: at,
                ..row
            },
            _ => ThreadRecordView {
                value: thread,
                variables: Seq::empty(),
                current_activity: None,
                active_children: Seq::empty(),
                created_at: at,
                updated_at: at,
            },
        },
    )
}

/// The row with another activity in it, changed at `at`; what was not stored is born.
pub open spec fn activity_now(
    before: Option<QueryObjectView>,
    activity: ActivityView,
    at: Timestamp,
) -> QueryObjectView {
    QueryObjectView::Activity(
        match before {
            Some(QueryObjectView::Activity(row)) => ActivityRecordView {
                value: activity,
                updated_at: at,
                ..row
            },
            _ => ActivityRecordView {
                value: activity,
                active_children: Seq::empty(),
                created_at: at,
                updated_at: at,
            },
        },
    )
}

/// The row with another timer in it, changed at `at`; what was not stored is born.
pub open spec fn timer_now(
    before: Option<QueryObjectView>,
    timer: TimerView,
    at: Timestamp,
) -> QueryObjectView {
    QueryObjectView::Timer(
        match before {
            Some(QueryObjectView::Timer(row)) => TimerRecordView {
                value: timer,
                updated_at: at,
                ..row
            },
            _ => TimerRecordView { value: timer, created_at: at, updated_at: at },
        },
    )
}

/// The row with another task in it, changed at `at`; what was not stored is born.
pub open spec fn task_now(
    before: Option<QueryObjectView>,
    task: TaskView,
    at: Timestamp,
) -> QueryObjectView {
    QueryObjectView::Task(
        match before {
            Some(QueryObjectView::Task(row)) => TaskRecordView { value: task, updated_at: at, ..row },
            _ => TaskRecordView { value: task, created_at: at, updated_at: at },
        },
    )
}

/// An event that changes an execution puts it into its row, and leaves the rest of the row and all
/// other rows.
pub proof fn law_execution_is_changed(s: StoreView, execution: ExecutionView, at: Timestamp, k: RowKey)
    requires
        keyed(s),
    ensures
        s.apply(EventView::ExecutionCompleting { execution }, at).row_at(k) == if k == (
            ObjectKind::Execution,
            name_text(execution.meta.name),
        ) {
            Some(execution_now(s.row_at(k), execution, at))
        } else {
            s.row_at(k)
        },
        s.apply(EventView::ExecutionCompleting { execution }, at).fault == s.fault,
        s.apply(EventView::ExecutionTerminating { execution }, at).row_at(k) == if k == (
            ObjectKind::Execution,
            name_text(execution.meta.name),
        ) {
            Some(execution_now(s.row_at(k), execution, at))
        } else {
            s.row_at(k)
        },
        s.apply(EventView::ExecutionTerminating { execution }, at).fault == s.fault,
{
    reveal(StoreView::apply);
    reveal(StoreView::fold_rows);
    reveal(StoreView::store_execution);
    assert(s.apply(EventView::ExecutionCompleting { execution }, at).row_at(k)
        == s.fold_rows(EventView::ExecutionCompleting { execution }, at).row_at(k));
    assert(s.apply(EventView::ExecutionTerminating { execution }, at).row_at(k)
        == s.fold_rows(EventView::ExecutionTerminating { execution }, at).row_at(k));
}

/// An event that changes a thread puts it into its row, and leaves the rest of the row and all
/// other rows.
pub proof fn law_thread_is_changed(s: StoreView, thread: ThreadView, at: Timestamp, k: RowKey)
    requires
        keyed(s),
    ensures
        s.apply(EventView::ThreadCompleting { thread }, at).row_at(k) == if k == (
            ObjectKind::Thread,
            name_text(thread.meta.name),
        ) {
            Some(thread_now(s.row_at(k), thread, at))
        } else {
            s.row_at(k)
        },
        s.apply(EventView::ThreadCompleting { thread }, at).fault == s.fault,
        s.apply(EventView::ThreadTerminating { thread }, at).row_at(k) == if k == (
            ObjectKind::Thread,
            name_text(thread.meta.name),
        ) {
            Some(thread_now(s.row_at(k), thread, at))
        } else {
            s.row_at(k)
        },
        s.apply(EventView::ThreadTerminating { thread }, at).fault == s.fault,
{
    reveal(StoreView::apply);
    reveal(StoreView::fold_rows);
    reveal(StoreView::store_thread);
    assert(s.apply(EventView::ThreadCompleting { thread }, at).row_at(k)
        == s.fold_rows(EventView::ThreadCompleting { thread }, at).row_at(k));
    assert(s.apply(EventView::ThreadTerminating { thread }, at).row_at(k)
        == s.fold_rows(EventView::ThreadTerminating { thread }, at).row_at(k));
}

/// An event that changes an activity puts it into its row, and leaves the rest of the row and all
/// other rows.
pub proof fn law_activity_is_changed(s: StoreView, activity: ActivityView, at: Timestamp, k: RowKey)
    requires
        keyed(s),
    ensures
        s.apply(EventView::StateActivated { activity }, at).row_at(k) == if k == (
            ObjectKind::Activity,
            name_text(activity.meta.name),
        ) {
            Some(activity_now(s.row_at(k), activity, at))
        } else {
            s.row_at(k)
        },
        s.apply(EventView::StateActivated { activity }, at).fault == s.fault,
        s.apply(EventView::StateCompleting { activity }, at).row_at(k) == if k == (
            ObjectKind::Activity,
            name_text(activity.meta.name),
        ) {
            Some(activity_now(s.row_at(k), activity, at))
        } else {
            s.row_at(k)
        },
        s.apply(EventView::StateCompleting { activity }, at).fault == s.fault,
        s.apply(EventView::StateTerminating { activity }, at).row_at(k) == if k == (
            ObjectKind::Activity,
            name_text(activity.meta.name),
        ) {
            Some(activity_now(s.row_at(k), activity, at))
        } else {
            s.row_at(k)
        },
        s.apply(EventView::StateTerminating { activity }, at).fault == s.fault,
{
    reveal(StoreView::apply);
    reveal(StoreView::fold_rows);
    reveal(StoreView::store_activity);
    assert(s.apply(EventView::StateActivated { activity }, at).row_at(k)
        == s.fold_rows(EventView::StateActivated { activity }, at).row_at(k));
    assert(s.apply(EventView::StateCompleting { activity }, at).row_at(k)
        == s.fold_rows(EventView::StateCompleting { activity }, at).row_at(k));
    assert(s.apply(EventView::StateTerminating { activity }, at).row_at(k)
        == s.fold_rows(EventView::StateTerminating { activity }, at).row_at(k));
}

/// An event that changes a task puts it into its row, and leaves the rest of the row and all other
/// rows.
pub proof fn law_task_is_changed(s: StoreView, task: TaskView, at: Timestamp, k: RowKey)
    requires
        keyed(s),
    ensures
        s.apply(EventView::TaskLeaseExpired { task }, at).row_at(k) == if k == (
            ObjectKind::Task,
            name_text(task.meta.name),
        ) {
            Some(task_now(s.row_at(k), task, at))
        } else {
            s.row_at(k)
        },
        s.apply(EventView::TaskLeaseExpired { task }, at).fault == s.fault,
{
    reveal(StoreView::apply);
    reveal(StoreView::fold_rows);
    reveal(StoreView::store_task);
    assert(s.apply(EventView::TaskLeaseExpired { task }, at).row_at(k)
        == s.fold_rows(EventView::TaskLeaseExpired { task }, at).row_at(k));
}

/// The end of an execution puts it into its row, and takes it off the list of its owner. Nothing
/// else changes.
pub proof fn law_execution_is_ended(
    s: StoreView,
    execution: ExecutionView,
    at: Timestamp,
    k: RowKey,
)
    requires
        keyed(s),
        execution.meta.owner matches Some(owner) ==> key_of(owner)
            != (ObjectKind::Execution, name_text(execution.meta.name)),
    ensures
        s.apply(EventView::ExecutionCompleted { execution }, at).row_at(k) == if k == (
            ObjectKind::Execution,
            name_text(execution.meta.name),
        ) {
            Some(execution_now(s.row_at(k), execution, at))
        } else {
            at_owner(
                s,
                execution.meta.owner,
                k,
                |row: QueryObjectView| unlisting(row, named_by(execution.meta)),
            )
        },
        s.apply(EventView::ExecutionCompleted { execution }, at).fault == s.fault,
        s.apply(EventView::ExecutionTerminated { execution }, at).row_at(k) == if k == (
            ObjectKind::Execution,
            name_text(execution.meta.name),
        ) {
            Some(execution_now(s.row_at(k), execution, at))
        } else {
            at_owner(
                s,
                execution.meta.owner,
                k,
                |row: QueryObjectView| unlisting(row, named_by(execution.meta)),
            )
        },
        s.apply(EventView::ExecutionTerminated { execution }, at).fault == s.fault,
{
    reveal(StoreView::apply);
    reveal(StoreView::fold_rows);
    reveal(StoreView::store_execution);
    let stored = s.store_execution(execution, at);
    lemma_detach(stored, execution.meta.owner, named_by(execution.meta));
    assert(s.apply(EventView::ExecutionCompleted { execution }, at).row_at(k)
        == s.fold_rows(EventView::ExecutionCompleted { execution }, at).row_at(k));
    assert(s.apply(EventView::ExecutionTerminated { execution }, at).row_at(k)
        == s.fold_rows(EventView::ExecutionTerminated { execution }, at).row_at(k));
}

/// The end of a thread puts it into its row, and takes it off the list of its owner. Nothing else
/// changes.
pub proof fn law_thread_is_ended(
    s: StoreView,
    thread: ThreadView,
    at: Timestamp,
    k: RowKey,
)
    requires
        keyed(s),
        thread.meta.owner matches Some(owner) ==> key_of(owner)
            != (ObjectKind::Thread, name_text(thread.meta.name)),
    ensures
        s.apply(EventView::ThreadCompleted { thread }, at).row_at(k) == if k == (
            ObjectKind::Thread,
            name_text(thread.meta.name),
        ) {
            Some(thread_now(s.row_at(k), thread, at))
        } else {
            at_owner(
                s,
                thread.meta.owner,
                k,
                |row: QueryObjectView| unlisting(row, named_by(thread.meta)),
            )
        },
        s.apply(EventView::ThreadCompleted { thread }, at).fault == s.fault,
        s.apply(EventView::ThreadTerminated { thread }, at).row_at(k) == if k == (
            ObjectKind::Thread,
            name_text(thread.meta.name),
        ) {
            Some(thread_now(s.row_at(k), thread, at))
        } else {
            at_owner(
                s,
                thread.meta.owner,
                k,
                |row: QueryObjectView| unlisting(row, named_by(thread.meta)),
            )
        },
        s.apply(EventView::ThreadTerminated { thread }, at).fault == s.fault,
{
    reveal(StoreView::apply);
    reveal(StoreView::fold_rows);
    reveal(StoreView::store_thread);
    let stored = s.store_thread(thread, at);
    lemma_detach(stored, thread.meta.owner, named_by(thread.meta));
    assert(s.apply(EventView::ThreadCompleted { thread }, at).row_at(k)
        == s.fold_rows(EventView::ThreadCompleted { thread }, at).row_at(k));
    assert(s.apply(EventView::ThreadTerminated { thread }, at).row_at(k)
        == s.fold_rows(EventView::ThreadTerminated { thread }, at).row_at(k));
}

/// The end of an activity puts it into its row, and takes it off the list of its owner. Nothing
/// else changes.
pub proof fn law_activity_is_ended(
    s: StoreView,
    activity: ActivityView,
    at: Timestamp,
    k: RowKey,
)
    requires
        keyed(s),
        activity.meta.owner matches Some(owner) ==> key_of(owner)
            != (ObjectKind::Activity, name_text(activity.meta.name)),
    ensures
        s.apply(EventView::StateCompleted { activity }, at).row_at(k) == if k == (
            ObjectKind::Activity,
            name_text(activity.meta.name),
        ) {
            Some(activity_now(s.row_at(k), activity, at))
        } else {
            at_owner(
                s,
                activity.meta.owner,
                k,
                |row: QueryObjectView| running(unlisting(row, named_by(activity.meta)), None),
            )
        },
        s.apply(EventView::StateCompleted { activity }, at).fault == s.fault,
        s.apply(EventView::StateTerminated { activity }, at).row_at(k) == if k == (
            ObjectKind::Activity,
            name_text(activity.meta.name),
        ) {
            Some(activity_now(s.row_at(k), activity, at))
        } else {
            at_owner(
                s,
                activity.meta.owner,
                k,
                |row: QueryObjectView| running(unlisting(row, named_by(activity.meta)), None),
            )
        },
        s.apply(EventView::StateTerminated { activity }, at).fault == s.fault,
{
    reveal(StoreView::apply);
    reveal(StoreView::fold_rows);
    reveal(StoreView::store_activity);
    let stored = s.store_activity(activity, at);
    lemma_detach(stored, activity.meta.owner, named_by(activity.meta));
    let gone = stored.detach(activity.meta.owner, named_by(activity.meta));
    lemma_cursor(gone, activity.meta.owner, None);
    assert(gone.row_at(k) == at_owner(
        stored,
        activity.meta.owner,
        k,
        |row: QueryObjectView| unlisting(row, named_by(activity.meta)),
    ));
    assert(s.apply(EventView::StateCompleted { activity }, at).row_at(k)
        == s.fold_rows(EventView::StateCompleted { activity }, at).row_at(k));
    assert(s.apply(EventView::StateTerminated { activity }, at).row_at(k)
        == s.fold_rows(EventView::StateTerminated { activity }, at).row_at(k));
}

/// The end of a timer puts it into its row, and takes it off the list of its owner. Nothing else
/// changes.
pub proof fn law_timer_is_ended(
    s: StoreView,
    timer: TimerView,
    at: Timestamp,
    k: RowKey,
)
    requires
        keyed(s),
        timer.meta.owner matches Some(owner) ==> key_of(owner)
            != (ObjectKind::Timer, name_text(timer.meta.name)),
    ensures
        s.apply(EventView::TimerTriggered { timer }, at).row_at(k) == if k == (
            ObjectKind::Timer,
            name_text(timer.meta.name),
        ) {
            Some(timer_now(s.row_at(k), timer, at))
        } else {
            at_owner(
                s,
                timer.meta.owner,
                k,
                |row: QueryObjectView| unlisting(row, named_by(timer.meta)),
            )
        },
        s.apply(EventView::TimerTriggered { timer }, at).fault == s.fault,
        s.apply(EventView::TimerCancelled { timer }, at).row_at(k) == if k == (
            ObjectKind::Timer,
            name_text(timer.meta.name),
        ) {
            Some(timer_now(s.row_at(k), timer, at))
        } else {
            at_owner(
                s,
                timer.meta.owner,
                k,
                |row: QueryObjectView| unlisting(row, named_by(timer.meta)),
            )
        },
        s.apply(EventView::TimerCancelled { timer }, at).fault == s.fault,
{
    reveal(StoreView::apply);
    reveal(StoreView::fold_rows);
    reveal(StoreView::store_timer);
    let stored = s.store_timer(timer, at);
    lemma_detach(stored, timer.meta.owner, named_by(timer.meta));
    assert(s.apply(EventView::TimerTriggered { timer }, at).row_at(k)
        == s.fold_rows(EventView::TimerTriggered { timer }, at).row_at(k));
    assert(s.apply(EventView::TimerCancelled { timer }, at).row_at(k)
        == s.fold_rows(EventView::TimerCancelled { timer }, at).row_at(k));
}

/// The end of a task puts it into its row, and takes it off the list of its owner. Nothing else
/// changes.
pub proof fn law_task_is_ended(
    s: StoreView,
    task: TaskView,
    request_id: RequestId,
    output: Json,
    error: ExecutionErrorView,
    at: Timestamp,
    k: RowKey,
)
    requires
        keyed(s),
        task.meta.owner matches Some(owner) ==> key_of(owner)
            != (ObjectKind::Task, name_text(task.meta.name)),
    ensures
        s.apply(EventView::TaskCancelled { task }, at).row_at(k) == if k == (
            ObjectKind::Task,
            name_text(task.meta.name),
        ) {
            Some(task_now(s.row_at(k), task, at))
        } else {
            at_owner(s, task.meta.owner, k, |row: QueryObjectView| unlisting(row, named_by(task.meta)))
        },
        s.apply(EventView::TaskCancelled { task }, at).fault == s.fault,
        s.apply(
            EventView::TaskCompleted(TaskCompletedView { request_id, task, output }),
            at,
        ).row_at(k) == if k == (
            ObjectKind::Task,
            name_text(task.meta.name),
        ) {
            Some(task_now(s.row_at(k), task, at))
        } else {
            at_owner(s, task.meta.owner, k, |row: QueryObjectView| unlisting(row, named_by(task.meta)))
        },
        s.apply(EventView::TaskFailed(TaskFailedView { task, error }), at).row_at(k) == if k == (
            ObjectKind::Task,
            name_text(task.meta.name),
        ) {
            Some(task_now(s.row_at(k), task, at))
        } else if task.status is Pending {
            s.row_at(k)
        } else {
            at_owner(s, task.meta.owner, k, |row: QueryObjectView| unlisting(row, named_by(task.meta)))
        },
{
    reveal(StoreView::apply);
    reveal(StoreView::fold_rows);
    reveal(StoreView::store_task);
    let stored = s.store_task(task, at);
    lemma_detach(stored, task.meta.owner, named_by(task.meta));
    assert(s.apply(EventView::TaskCancelled { task }, at).row_at(k)
        == s.fold_rows(EventView::TaskCancelled { task }, at).row_at(k));
    assert(s.apply(
        EventView::TaskCompleted(TaskCompletedView { request_id, task, output }),
        at,
    ).row_at(k)
        == s.fold_rows(
            EventView::TaskCompleted(TaskCompletedView { request_id, task, output }),
            at,
        ).row_at(k));
    assert(s.apply(EventView::TaskFailed(TaskFailedView { task, error }), at).row_at(k)
        == s.fold_rows(EventView::TaskFailed(TaskFailedView { task, error }), at).row_at(k));
}

/// The variables of a scope are replaced, and nothing else is.
pub proof fn law_variables_are_replaced(
    s: StoreView,
    scope: ObjectReferenceView,
    variables: Seq<MemberView>,
    at: Timestamp,
    k: RowKey,
)
    requires
        keyed(s),
    ensures
        s.apply(
            EventView::VariablesAssigned(VariablesAssignedView { scope, variables }),
            at,
        ).row_at(k) == at_owner(
            s,
            Some(scope),
            k,
            |row: QueryObjectView|
                match row {
                    QueryObjectView::Execution(x) => QueryObjectView::Execution(
                        ExecutionRecordView { variables, updated_at: at, ..x },
                    ),
                    QueryObjectView::Thread(x) => QueryObjectView::Thread(
                        ThreadRecordView { variables, updated_at: at, ..x },
                    ),
                    _ => row,
                },
        ),
{
    reveal(StoreView::apply);
    reveal(StoreView::fold_rows);
    reveal(StoreView::assign_variables);
    let own = key_of(scope);
    assert(s.rows.contains_key(own) ==> row_key(s.rows[own]) == own);
    let event = EventView::VariablesAssigned(VariablesAssignedView { scope, variables });
    assert(s.apply(event, at).row_at(k) == s.fold_rows(event, at).row_at(k));
}

/// A flow is stored under its name; a version is stored under its own, and the flow that owns it
/// points at
/// it from then on.
pub proof fn law_flows_are_stored(
    s: StoreView,
    request_id: RequestId,
    flow: FlowView,
    flow_version: FlowVersionView,
    at: Timestamp,
    k: RowKey,
)
    requires
        keyed(s),
    ensures
        s.apply(EventView::FlowCreated(FlowCreatedView { request_id, flow }), at).row_at(k) == if k
            == (ObjectKind::Flow, name_text(flow.meta.name)) {
            Some(QueryObjectView::Flow(flow))
        } else {
            s.row_at(k)
        },
        s.apply(
            EventView::FlowVersionCreated(FlowVersionCreatedView { request_id, flow_version }),
            at,
        ).row_at(k) == if k == (ObjectKind::FlowVersion, name_text(flow_version.meta.name)) {
            Some(QueryObjectView::FlowVersion(flow_version))
        } else if flow_version.meta.owner matches Some(owner) && k == (
            ObjectKind::Flow,
            name_text(owner.name),
        ) && s.rows.contains_key(k) && s.rows[k] is Flow {
            Some(
                QueryObjectView::Flow(
                    FlowView {
                        meta: changed(s.rows[k]->Flow_0.meta, at),
                        status: s.rows[k]->Flow_0.status,
                        latest_flow_version: named_by(flow_version.meta),
                    },
                ),
            )
        } else {
            s.row_at(k)
        },
{
    reveal(StoreView::apply);
    reveal(StoreView::fold_rows);
    reveal(StoreView::store_version);
    if let Some(owner) = flow_version.meta.owner {
        let home = (ObjectKind::Flow, name_text(owner.name));
        assert(s.rows.contains_key(home) ==> row_key(s.rows[home]) == home);
    }
    let e1 = EventView::FlowCreated(FlowCreatedView { request_id, flow });
    let e2 = EventView::FlowVersionCreated(FlowVersionCreatedView { request_id, flow_version });
    assert(s.apply(e1, at).row_at(k) == s.fold_rows(e1, at).row_at(k));
    assert(s.apply(e2, at).row_at(k) == s.fold_rows(e2, at).row_at(k));
}

/// A claim leases each of its tasks that is stored and still free at that instant, and leaves every
/// other
/// row.
pub proof fn law_claimed_tasks_are_leased(
    s: StoreView,
    request_id: RequestId,
    tasks: Seq<TaskView>,
    at: Timestamp,
    i: int,
    k: RowKey,
)
    requires
        keyed(s),
        forall|x: int, y: int|
            0 <= x < y < tasks.len() ==> name_text((#[trigger] tasks[x]).meta.name) != name_text(
                (#[trigger] tasks[y]).meta.name,
            ),
    ensures
        ({
            let after = s.apply(
                EventView::TasksClaimed(TasksClaimedView { request_id, tasks }),
                at,
            );
            &&& 0 <= i < tasks.len() && k == (ObjectKind::Task, name_text(tasks[i].meta.name))
                ==> after.row_at(k) == match s.row_at(k) {
                Some(QueryObjectView::Task(row)) => if free_at(row.value, at) {
                    Some(task_now(s.row_at(k), tasks[i], at))
                } else {
                    s.row_at(k)
                },
                other => other,
            }
            &&& (forall|j: int|
                0 <= j < tasks.len() ==> k != (
                    ObjectKind::Task,
                    name_text((#[trigger] tasks[j]).meta.name),
                )) ==> after.row_at(k) == s.row_at(k)
        }),
{
    reveal(StoreView::apply);
    reveal(StoreView::fold_rows);
    let event = EventView::TasksClaimed(TasksClaimedView { request_id, tasks });
    assert(s.apply(event, at).row_at(k) == s.fold_rows(event, at).row_at(k));
    lemma_claims(s, tasks, at, i, k);
}

proof fn lemma_claims(s: StoreView, tasks: Seq<TaskView>, at: Timestamp, i: int, k: RowKey)
    requires
        keyed(s),
        forall|x: int, y: int|
            0 <= x < y < tasks.len() ==> name_text((#[trigger] tasks[x]).meta.name) != name_text(
                (#[trigger] tasks[y]).meta.name,
            ),
    ensures
        keyed(s.claim_tasks(tasks, at)),
        0 <= i < tasks.len() && k == (ObjectKind::Task, name_text(tasks[i].meta.name))
            ==> s.claim_tasks(tasks, at).row_at(k) == match s.row_at(k) {
            Some(QueryObjectView::Task(row)) => if free_at(row.value, at) {
                Some(task_now(s.row_at(k), tasks[i], at))
            } else {
                s.row_at(k)
            },
            other => other,
        },
        (forall|j: int|
            0 <= j < tasks.len() ==> k != (
                ObjectKind::Task,
                name_text((#[trigger] tasks[j]).meta.name),
            )) ==> s.claim_tasks(tasks, at).row_at(k) == s.row_at(k),
    decreases tasks.len(),
{
    reveal_with_fuel(StoreView::claim_tasks, 2);
    reveal(StoreView::claim_task);
    reveal(StoreView::store_task);
    if tasks.len() > 0 {
        let init = tasks.drop_last();
        assert forall|x: int, y: int| 0 <= x < y < init.len() implies name_text(
            (#[trigger] init[x]).meta.name,
        ) != name_text((#[trigger] init[y]).meta.name) by {
            assert(init[x] == tasks[x] && init[y] == tasks[y]);
        }
        lemma_claims(s, init, at, i, k);
        assert(tasks.last() == tasks[tasks.len() - 1]);
        if 0 <= i < init.len() {
            assert(init[i] == tasks[i]);
            assert(name_text(tasks[i].meta.name) != name_text(tasks[tasks.len() - 1].meta.name));
        }
        if i == tasks.len() - 1 && k == (ObjectKind::Task, name_text(tasks[i].meta.name)) {
            assert forall|j: int| 0 <= j < init.len() implies k != (
                ObjectKind::Task,
                name_text((#[trigger] init[j]).meta.name),
            ) by {
                assert(init[j] == tasks[j]);
            }
        }
        if forall|j: int|
            0 <= j < tasks.len() ==> k != (
                ObjectKind::Task,
                name_text((#[trigger] tasks[j]).meta.name),
            ) {
            assert forall|j: int| 0 <= j < init.len() implies k != (
                ObjectKind::Task,
                name_text((#[trigger] init[j]).meta.name),
            ) by {
                assert(init[j] == tasks[j]);
            }
            assert(k != (ObjectKind::Task, name_text(tasks[tasks.len() - 1].meta.name)));
        }
    }
}

/// A transition and a receipt are told only: no row changes.
pub proof fn law_marks_change_no_row(
    s: StoreView,
    transition: StateTransitionedView,
    owner: ObjectReferenceView,
    child: ObjectReferenceView,
    at: Timestamp,
)
    ensures
        s.apply(EventView::StateTransitioned(transition), at) == s,
        s.apply(EventView::ProcessChildCompletedHandled { owner, child }, at) == s,
{
    reveal(StoreView::apply);
    reveal(StoreView::fold_rows);
}

} // verus!
