//! The phases that a node goes through: it runs, opens its finish, and ends as it has opened it. What
//! has ended stays so.

use vstd::prelude::*;

use crate::applier::{fresh_activity, fresh_execution, fresh_thread, slotted_state};
use crate::id::Timestamp;
use crate::query::QueryObjectView;
use crate::storage::activity::ActivityRecordView;
use crate::storage::execution::ExecutionRecordView;
use crate::storage::store::{row_key, with_one, without_one, RowKey, StoreView};
use crate::storage::task::TaskRecordView;
use crate::storage::thread::ThreadRecordView;
use crate::storage::timer::TimerRecordView;
use crate::types::activity::ActivityView;
use crate::types::event::EventView;
use crate::types::execution::ExecutionView;
use crate::types::flow::FlowVersionView;
use crate::types::meta::{name_text, ObjectKind, ObjectNameView, ObjectReferenceView};
use crate::types::status::LifecycleView;
use crate::types::task::{TaskStatus, TaskView};
use crate::types::thread::ThreadView;
use crate::types::timer::{TimerStatus, TimerView};
use crate::value::MemberView;

verus! {

/// Every row is stored under its own key, and the store can be read.
pub open spec fn sound(s: StoreView) -> bool {
    &&& s.fault is None
    &&& forall|k: RowKey| #[trigger] s.rows.contains_key(k) ==> row_key(s.rows[k]) == k
}

/// The status of the execution stored under a name.
pub open spec fn execution_status(s: StoreView, name: ObjectNameView) -> Option<LifecycleView> {
    match s.get(ObjectKind::Execution, name) {
        Some(QueryObjectView::Execution(row)) => Some(row.value.status),
        _ => None,
    }
}

/// The status of the thread stored under a name.
pub open spec fn thread_status(s: StoreView, name: ObjectNameView) -> Option<LifecycleView> {
    match s.get(ObjectKind::Thread, name) {
        Some(QueryObjectView::Thread(row)) => Some(row.value.status),
        _ => None,
    }
}

/// The status of the timer stored under a name.
pub open spec fn timer_status(s: StoreView, name: ObjectNameView) -> Option<TimerStatus> {
    match s.get(ObjectKind::Timer, name) {
        Some(QueryObjectView::Timer(row)) => Some(row.value.status),
        _ => None,
    }
}

/// The status of the task stored under a name.
pub open spec fn task_status(s: StoreView, name: ObjectNameView) -> Option<TaskStatus> {
    match s.get(ObjectKind::Task, name) {
        Some(QueryObjectView::Task(row)) => Some(row.value.status),
        _ => None,
    }
}

/// One status may follow another: a node that runs opens its finish, and a finish ends as it was
/// opened.
pub open spec fn may_follow(before: Option<LifecycleView>, after: LifecycleView) -> bool {
    match after {
        LifecycleView::Completing => before == Some(LifecycleView::Running),
        LifecycleView::Terminating(_) => before == Some(LifecycleView::Running),
        LifecycleView::Completed => before == Some(LifecycleView::Completing),
        LifecycleView::Terminated(reason) => before == Some(LifecycleView::Terminating(reason)),
        _ => false,
    }
}

/// A status leads to another in any number of steps, or in none: a finish that was opened can only
/// end as it was opened, and what has ended stays so.
pub open spec fn leads_to(before: LifecycleView, after: LifecycleView) -> bool {
    match before {
        LifecycleView::Running => true,
        LifecycleView::Completing => after is Completing || after is Completed,
        LifecycleView::Terminating(reason) => after == LifecycleView::Terminating(reason) || after
            == LifecycleView::Terminated(reason),
        _ => after == before,
    }
}

/// An event is about a phase that has an order.
pub open spec fn phased(event: EventView) -> bool {
    ||| event is ExecutionCreated
    ||| event is ExecutionCompleting
    ||| event is ExecutionTerminating
    ||| event is ExecutionCompleted
    ||| event is ExecutionTerminated
    ||| event is ThreadCompleting
    ||| event is ThreadTerminating
    ||| event is ThreadCompleted
    ||| event is ThreadTerminated
    ||| event is TimerTriggered
    ||| event is TimerCancelled
    ||| event is TaskCompleted
    ||| event is TaskLeaseExpired
    ||| event is TaskFailed
}

/// An event keeps to the phases of what it is about: an execution is born under a name that is free;
/// executions and threads go from phase to phase; only an armed timer fires or is cancelled; and a
/// task is completed or put back only while it is leased, and fails only before it has settled.
pub open spec fn orderly(s: StoreView, event: EventView) -> bool {
    match event {
        EventView::ExecutionCreated(e) => s.get(ObjectKind::Execution, e.execution.meta.name) is None,
        EventView::ExecutionCompleting { execution } => may_follow(
            execution_status(s, execution.meta.name),
            execution.status,
        ),
        EventView::ExecutionTerminating { execution } => may_follow(
            execution_status(s, execution.meta.name),
            execution.status,
        ),
        EventView::ExecutionCompleted { execution } => may_follow(
            execution_status(s, execution.meta.name),
            execution.status,
        ),
        EventView::ExecutionTerminated { execution } => may_follow(
            execution_status(s, execution.meta.name),
            execution.status,
        ),
        EventView::ThreadCompleting { thread } => may_follow(
            thread_status(s, thread.meta.name),
            thread.status,
        ),
        EventView::ThreadTerminating { thread } => may_follow(
            thread_status(s, thread.meta.name),
            thread.status,
        ),
        EventView::ThreadCompleted { thread } => may_follow(
            thread_status(s, thread.meta.name),
            thread.status,
        ),
        EventView::ThreadTerminated { thread } => may_follow(
            thread_status(s, thread.meta.name),
            thread.status,
        ),
        EventView::TimerTriggered { timer } => timer_status(s, timer.meta.name) == Some(
            TimerStatus::Active,
        ) && timer.status is Completed,
        EventView::TimerCancelled { timer } => timer_status(s, timer.meta.name) == Some(
            TimerStatus::Active,
        ) && timer.status is Cancelled,
        EventView::TaskCompleted(e) => task_status(s, e.task.meta.name) == Some(
            TaskStatus::Running,
        ) && e.task.status is Completed,
        EventView::TaskLeaseExpired { task } => task_status(s, task.meta.name) == Some(
            TaskStatus::Running,
        ) && task.status is Pending,
        EventView::TaskFailed(e) => (task_status(s, e.task.meta.name) matches Some(status)
            && !status.terminal()) && (e.task.status is Pending || e.task.status is Failed),
        _ => true,
    }
}

/// The execution that an event is about, if it is about the phase of one, and the status that it
/// gives it.
pub open spec fn execution_phase(event: EventView) -> Option<(ObjectNameView, LifecycleView)> {
    match event {
        EventView::ExecutionCreated(e) => Some((e.execution.meta.name, e.execution.status)),
        EventView::ExecutionCompleting { execution } => Some(
            (execution.meta.name, execution.status),
        ),
        EventView::ExecutionTerminating { execution } => Some(
            (execution.meta.name, execution.status),
        ),
        EventView::ExecutionCompleted { execution } => Some(
            (execution.meta.name, execution.status),
        ),
        EventView::ExecutionTerminated { execution } => Some(
            (execution.meta.name, execution.status),
        ),
        _ => None,
    }
}

/// The thread that an event is about, if it is about the phase of one, and the status that it gives
/// it.
pub open spec fn thread_phase(event: EventView) -> Option<(ObjectNameView, LifecycleView)> {
    match event {
        EventView::ThreadCreated { thread } => Some((thread.meta.name, thread.status)),
        EventView::ThreadCompleting { thread } => Some((thread.meta.name, thread.status)),
        EventView::ThreadTerminating { thread } => Some((thread.meta.name, thread.status)),
        EventView::ThreadCompleted { thread } => Some((thread.meta.name, thread.status)),
        EventView::ThreadTerminated { thread } => Some((thread.meta.name, thread.status)),
        _ => None,
    }
}

/// `after` is `s` but for the status of an execution and that of a thread.
pub open spec fn moved(
    s: StoreView,
    after: StoreView,
    execution: Option<(ObjectNameView, LifecycleView)>,
    thread: Option<(ObjectNameView, LifecycleView)>,
) -> bool {
    &&& sound(after)
    &&& forall|name: ObjectNameView| #[trigger]
        execution_status(after, name) == match execution {
            Some((moved, status)) if name_text(moved) == name_text(name) => Some(status),
            _ => execution_status(s, name),
        }
    &&& forall|name: ObjectNameView| #[trigger]
        thread_status(after, name) == match thread {
            Some((moved, status)) if name_text(moved) == name_text(name) => Some(status),
            _ => thread_status(s, name),
        }
}

proof fn lemma_put_moves(s: StoreView, row: QueryObjectView)
    requires
        sound(s),
    ensures
        moved(
            s,
            s.put(row),
            match row {
                QueryObjectView::Execution(x) => Some((x.value.meta.name, x.value.status)),
                _ => None,
            },
            match row {
                QueryObjectView::Thread(x) => Some((x.value.meta.name, x.value.status)),
                _ => None,
            },
        ),
{
}

/// Putting back a row with the status that it has moves nothing.
proof fn lemma_put_keeps(s: StoreView, row: QueryObjectView)
    requires
        sound(s),
        match row {
            QueryObjectView::Execution(x) => execution_status(s, x.value.meta.name) == Some(
                x.value.status,
            ),
            QueryObjectView::Thread(x) => thread_status(s, x.value.meta.name) == Some(
                x.value.status,
            ),
            _ => true,
        },
    ensures
        moved(s, s.put(row), None, None),
{
    lemma_put_moves(s, row);
}

proof fn lemma_detach_keeps(
    s: StoreView,
    owner: Option<ObjectReferenceView>,
    child: ObjectReferenceView,
)
    requires
        sound(s),
    ensures
        moved(s, s.detach(owner, child), None, None),
{
    reveal(StoreView::detach);
    reveal(StoreView::without_child);
    if let Some(parent) = owner {
        match s.get(parent.kind, parent.name) {
            Some(QueryObjectView::Execution(x)) => {
                let active_children = without_one(x.active_children, child);
                lemma_put_keeps(
                    s,
                    QueryObjectView::Execution(ExecutionRecordView { active_children, ..x }),
                );
            },
            Some(QueryObjectView::Thread(x)) => {
                let active_children = without_one(x.active_children, child);
                lemma_put_keeps(
                    s,
                    QueryObjectView::Thread(ThreadRecordView { active_children, ..x }),
                );
            },
            Some(QueryObjectView::Activity(x)) => {
                let active_children = without_one(x.active_children, child);
                lemma_put_keeps(
                    s,
                    QueryObjectView::Activity(ActivityRecordView { active_children, ..x }),
                );
            },
            _ => {},
        }
    }
}

proof fn lemma_attach_keeps(
    s: StoreView,
    owner: Option<ObjectReferenceView>,
    child: ObjectReferenceView,
)
    requires
        sound(s),
    ensures
        moved(s, s.attach(owner, child), None, None),
{
    reveal(StoreView::attach);
    reveal(StoreView::with_child);
    if let Some(parent) = owner {
        match s.get(parent.kind, parent.name) {
            Some(QueryObjectView::Execution(x)) => {
                let active_children = with_one(x.active_children, child);
                lemma_put_keeps(
                    s,
                    QueryObjectView::Execution(ExecutionRecordView { active_children, ..x }),
                );
            },
            Some(QueryObjectView::Thread(x)) => {
                let active_children = with_one(x.active_children, child);
                lemma_put_keeps(
                    s,
                    QueryObjectView::Thread(ThreadRecordView { active_children, ..x }),
                );
            },
            Some(QueryObjectView::Activity(x)) => {
                let active_children = with_one(x.active_children, child);
                lemma_put_keeps(
                    s,
                    QueryObjectView::Activity(ActivityRecordView { active_children, ..x }),
                );
            },
            _ => {},
        }
    }
}

proof fn lemma_cursor_keeps(
    s: StoreView,
    scope: Option<ObjectReferenceView>,
    current_activity: Option<ObjectReferenceView>,
)
    requires
        sound(s),
    ensures
        moved(s, s.cursor(scope, current_activity), None, None),
{
    reveal(StoreView::cursor);
    if let Some(scope) = scope {
        match s.get(scope.kind, scope.name) {
            Some(QueryObjectView::Execution(x)) => lemma_put_keeps(
                s,
                QueryObjectView::Execution(ExecutionRecordView { current_activity, ..x }),
            ),
            Some(QueryObjectView::Thread(x)) => lemma_put_keeps(
                s,
                QueryObjectView::Thread(ThreadRecordView { current_activity, ..x }),
            ),
            _ => {},
        }
    }
}

proof fn lemma_slotted_keeps(s: StoreView, thread: ThreadView)
    requires
        sound(s),
    ensures
        moved(s, s.slotted(thread), None, None),
{
    reveal(StoreView::slotted);
    if let Some(owner) = thread.meta.owner {
        if let Some(QueryObjectView::Activity(x)) = s.get(owner.kind, owner.name) {
            let value = ActivityView {
                activity_state: slotted_state(
                    x.value.activity_state,
                    thread.index,
                    thread.reference(),
                ),
                ..x.value
            };
            lemma_put_keeps(s, QueryObjectView::Activity(ActivityRecordView { value, ..x }));
        }
    }
}

proof fn lemma_variables_keep(
    s: StoreView,
    scope: ObjectReferenceView,
    variables: Seq<MemberView>,
    at: Timestamp,
)
    requires
        sound(s),
    ensures
        moved(s, s.assign_variables(scope, variables, at), None, None),
{
    reveal(StoreView::assign_variables);
    match s.get(scope.kind, scope.name) {
        Some(QueryObjectView::Execution(x)) => lemma_put_keeps(
            s,
            QueryObjectView::Execution(ExecutionRecordView { variables, updated_at: at, ..x }),
        ),
        Some(QueryObjectView::Thread(x)) => lemma_put_keeps(
            s,
            QueryObjectView::Thread(ThreadRecordView { variables, updated_at: at, ..x }),
        ),
        _ => {},
    }
}

proof fn lemma_claims_keep(s: StoreView, tasks: Seq<TaskView>, at: Timestamp)
    requires
        sound(s),
    ensures
        moved(s, s.claim_tasks(tasks, at), None, None),
    decreases tasks.len(),
{
    reveal_with_fuel(StoreView::claim_tasks, 2);
    reveal(StoreView::claim_task);
    if tasks.len() > 0 {
        let before = s.claim_tasks(tasks.drop_last(), at);
        lemma_claims_keep(s, tasks.drop_last(), at);
        lemma_task_keeps(before, tasks.last(), at);
    }
}

proof fn lemma_task_keeps(s: StoreView, x: TaskView, at: Timestamp)
    requires
        sound(s),
    ensures
        moved(s, s.store_task(x, at), None, None),
{
    reveal(StoreView::store_task);
    let after = s.store_task(x, at);
    lemma_put_keeps(s, after.rows[(ObjectKind::Task, name_text(x.meta.name))]);
}

proof fn lemma_timer_keeps(s: StoreView, x: TimerView, at: Timestamp)
    requires
        sound(s),
    ensures
        moved(s, s.store_timer(x, at), None, None),
{
    reveal(StoreView::store_timer);
    let after = s.store_timer(x, at);
    lemma_put_keeps(s, after.rows[(ObjectKind::Timer, name_text(x.meta.name))]);
}

proof fn lemma_activity_keeps(s: StoreView, x: ActivityView, at: Timestamp)
    requires
        sound(s),
    ensures
        moved(s, s.store_activity(x, at), None, None),
{
    reveal(StoreView::store_activity);
    let after = s.store_activity(x, at);
    lemma_put_keeps(s, after.rows[(ObjectKind::Activity, name_text(x.meta.name))]);
}

proof fn lemma_execution_moves(s: StoreView, x: ExecutionView, at: Timestamp)
    requires
        sound(s),
    ensures
        moved(s, s.store_execution(x, at), Some((x.meta.name, x.status)), None),
{
    reveal(StoreView::store_execution);
    let after = s.store_execution(x, at);
    lemma_put_moves(s, after.rows[(ObjectKind::Execution, name_text(x.meta.name))]);
}

proof fn lemma_thread_moves(s: StoreView, x: ThreadView, at: Timestamp)
    requires
        sound(s),
    ensures
        moved(s, s.store_thread(x, at), None, Some((x.meta.name, x.status))),
{
    reveal(StoreView::store_thread);
    let after = s.store_thread(x, at);
    lemma_put_moves(s, after.rows[(ObjectKind::Thread, name_text(x.meta.name))]);
}

proof fn lemma_version_keeps(s: StoreView, x: FlowVersionView, at: Timestamp)
    requires
        sound(s),
    ensures
        moved(s, s.store_version(x, at), None, None),
{
    reveal(StoreView::store_version);
    let stored = s.put(QueryObjectView::FlowVersion(x));
    lemma_put_keeps(s, QueryObjectView::FlowVersion(x));
    let after = s.store_version(x, at);
    if let Some(owner) = x.meta.owner {
        if let Some(QueryObjectView::Flow(flow)) = stored.get(ObjectKind::Flow, owner.name) {
            lemma_put_keeps(stored, after.rows[(ObjectKind::Flow, name_text(owner.name))]);
        }
    }
}

/// Of all executions and threads, an event changes the status of the one that it is about.
pub proof fn lemma_apply_phases(s: StoreView, event: EventView, at: Timestamp)
    requires
        sound(s),
    ensures
        moved(s, s.apply(event, at), execution_phase(event), thread_phase(event)),
{
    reveal(StoreView::apply);
    let rows = s.fold_rows(event, at);
    let after = s.apply(event, at);
    lemma_fold_rows_phases(s, event, at);
    assert forall|name: ObjectNameView| #[trigger]
        execution_status(after, name) == execution_status(rows, name) by {}
    assert forall|name: ObjectNameView| #[trigger]
        thread_status(after, name) == thread_status(rows, name) by {}
}

proof fn lemma_fold_rows_phases(s: StoreView, event: EventView, at: Timestamp)
    requires
        sound(s),
    ensures
        moved(s, s.fold_rows(event, at), execution_phase(event), thread_phase(event)),
{
    reveal(StoreView::fold_rows);
    match event {
        EventView::FlowCreated(e) => lemma_put_moves(s, QueryObjectView::Flow(e.flow)),
        EventView::FlowVersionCreated(e) => lemma_version_keeps(s, e.flow_version, at),
        EventView::ExecutionCreated(e) => {
            let row = QueryObjectView::Execution(fresh_execution(e.execution, at));
            lemma_put_moves(s, row);
            lemma_attach_keeps(s.put(row), e.execution.meta.owner, e.execution.reference());
        },
        EventView::ExecutionCompleting { execution } => lemma_execution_moves(s, execution, at),
        EventView::ExecutionTerminating { execution } => lemma_execution_moves(s, execution, at),
        EventView::ExecutionCompleted { execution } => {
            lemma_execution_moves(s, execution, at);
            lemma_detach_keeps(
                s.store_execution(execution, at),
                execution.meta.owner,
                execution.reference(),
            );
        },
        EventView::ExecutionTerminated { execution } => {
            lemma_execution_moves(s, execution, at);
            lemma_detach_keeps(
                s.store_execution(execution, at),
                execution.meta.owner,
                execution.reference(),
            );
        },
        EventView::ThreadCreated { thread } => {
            let row = QueryObjectView::Thread(fresh_thread(thread, at));
            let attached = s.put(row).attach(thread.meta.owner, thread.reference());
            lemma_put_moves(s, row);
            lemma_attach_keeps(s.put(row), thread.meta.owner, thread.reference());
            lemma_slotted_keeps(attached, thread);
        },
        EventView::ThreadCompleting { thread } => lemma_thread_moves(s, thread, at),
        EventView::ThreadTerminating { thread } => lemma_thread_moves(s, thread, at),
        EventView::ThreadCompleted { thread } => {
            lemma_thread_moves(s, thread, at);
            lemma_detach_keeps(
                s.store_thread(thread, at),
                thread.meta.owner,
                thread.reference(),
            );
        },
        EventView::ThreadTerminated { thread } => {
            lemma_thread_moves(s, thread, at);
            lemma_detach_keeps(
                s.store_thread(thread, at),
                thread.meta.owner,
                thread.reference(),
            );
        },
        EventView::StateActivating { activity } => {
            let row = QueryObjectView::Activity(fresh_activity(activity, at));
            let attached = s.put(row).attach(activity.meta.owner, activity.reference());
            lemma_put_moves(s, row);
            lemma_attach_keeps(s.put(row), activity.meta.owner, activity.reference());
            lemma_cursor_keeps(attached, activity.meta.owner, Some(activity.reference()));
        },
        EventView::StateActivated { activity } => lemma_activity_keeps(s, activity, at),
        EventView::StateCompleting { activity } => lemma_activity_keeps(s, activity, at),
        EventView::StateTerminating { activity } => lemma_activity_keeps(s, activity, at),
        EventView::StateCompleted { activity } => lemma_activity_end_keeps(s, activity, at),
        EventView::StateTerminated { activity } => lemma_activity_end_keeps(s, activity, at),
        EventView::TimerActivated { timer } => {
            let row = QueryObjectView::Timer(
                TimerRecordView { value: timer, created_at: at, updated_at: at },
            );
            lemma_put_moves(s, row);
            lemma_attach_keeps(s.put(row), timer.meta.owner, timer.reference());
        },
        EventView::TimerTriggered { timer } => {
            lemma_timer_keeps(s, timer, at);
            lemma_detach_keeps(s.store_timer(timer, at), timer.meta.owner, timer.reference());
        },
        EventView::TimerCancelled { timer } => {
            lemma_timer_keeps(s, timer, at);
            lemma_detach_keeps(s.store_timer(timer, at), timer.meta.owner, timer.reference());
        },
        EventView::TaskActivated { task } => {
            let row = QueryObjectView::Task(
                TaskRecordView { value: task, created_at: at, updated_at: at },
            );
            lemma_put_moves(s, row);
            lemma_attach_keeps(s.put(row), task.meta.owner, task.reference());
        },
        EventView::TasksClaimed(e) => lemma_claims_keep(s, e.tasks, at),
        EventView::TaskCompleted(e) => lemma_task_end_keeps(s, e.task, at),
        EventView::TaskFailed(e) => lemma_task_end_keeps(s, e.task, at),
        EventView::TaskCancelled { task } => lemma_task_end_keeps(s, task, at),
        EventView::TaskLeaseExpired { task } => lemma_task_keeps(s, task, at),
        EventView::VariablesAssigned(e) => lemma_variables_keep(s, e.scope, e.variables, at),
        EventView::StateTransitioned(_) => {},
        EventView::ProcessChildCompletedHandled { .. } => {},
    }
}

proof fn lemma_activity_end_keeps(s: StoreView, x: ActivityView, at: Timestamp)
    requires
        sound(s),
    ensures
        moved(
            s,
            s.store_activity(x, at).detach(x.meta.owner, x.reference()).cursor(x.meta.owner, None),
            None,
            None,
        ),
{
    let stored = s.store_activity(x, at);
    lemma_activity_keeps(s, x, at);
    lemma_detach_keeps(stored, x.meta.owner, x.reference());
    lemma_cursor_keeps(stored.detach(x.meta.owner, x.reference()), x.meta.owner, None);
}

proof fn lemma_task_end_keeps(s: StoreView, x: TaskView, at: Timestamp)
    requires
        sound(s),
    ensures
        moved(s, s.store_task(x, at), None, None),
        moved(s, s.store_task(x, at).detach(x.meta.owner, x.reference()), None, None),
{
    lemma_task_keeps(s, x, at);
    lemma_detach_keeps(s.store_task(x, at), x.meta.owner, x.reference());
}

} // verus!
