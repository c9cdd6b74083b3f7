//! The applier: folds events into the store.
//!
//! An event that carries an object stores it; a birth lists the object under its owner, and an end
//! takes it off again. Every other event changes at most the rows it names. The counter of generated
//! names is kept past the numbers of what is stored.

use vstd::prelude::*;

use crate::id::Timestamp;
use crate::query::{
    group_query_object_view, query_object_view, QueryObject, QueryObjectView,
};
use crate::storage::activity::{ActivityRecord, ActivityRecordView};
use crate::storage::execution::{ExecutionRecord, ExecutionRecordView};
use crate::storage::store::{insert_child, remove_child, with_one, without_one, Store, StoreView};
use crate::storage::task::{Task as TaskRecord, TaskRecordView};
use crate::storage::thread::{ThreadRecord, ThreadRecordView};
use crate::storage::timer::{TimerRecord, TimerRecordView};
use crate::types::activity::{
    place_child, place_slot, Activity, ActivityState, ActivityStateView, ActivityView,
};
use crate::types::event::{event_view, group_event_view, Event, EventView};
use crate::types::execution::{Execution, ExecutionView};
use crate::types::flow::{Flow, FlowVersion, FlowVersionView, FlowView};
use crate::types::meta::{
    name_text, text_number, ObjectKind, ObjectNameView, ObjectReference, ObjectReferenceView,
};
use crate::types::task::{Task, TaskStatus, TaskView};
use crate::types::thread::{Thread, ThreadView};
use crate::types::timer::{Timer, TimerView};
use crate::value::{MemberView, Variables};

verus! {

broadcast use {group_query_object_view, group_event_view};

impl StoreView {
    /// The store with `child` listed under `parent`, when `parent` is stored and can own children.
    #[verifier::opaque]
    pub open spec fn with_child(
        self,
        parent: ObjectReferenceView,
        child: ObjectReferenceView,
    ) -> StoreView {
        match self.get(parent.kind, parent.name) {
            Some(QueryObjectView::Execution(x)) => self.put(
                QueryObjectView::Execution(
                    ExecutionRecordView {
                        active_children: with_one(x.active_children, child),
                        ..x
                    },
                ),
            ),
            Some(QueryObjectView::Thread(x)) => self.put(
                QueryObjectView::Thread(
                    ThreadRecordView {
                        active_children: with_one(x.active_children, child),
                        ..x
                    },
                ),
            ),
            Some(QueryObjectView::Activity(x)) => self.put(
                QueryObjectView::Activity(
                    ActivityRecordView {
                        active_children: with_one(x.active_children, child),
                        ..x
                    },
                ),
            ),
            _ => self,
        }
    }

    /// The store with `child` off the list of `parent`.
    #[verifier::opaque]
    pub open spec fn without_child(
        self,
        parent: ObjectReferenceView,
        child: ObjectReferenceView,
    ) -> StoreView {
        match self.get(parent.kind, parent.name) {
            Some(QueryObjectView::Execution(x)) => self.put(
                QueryObjectView::Execution(
                    ExecutionRecordView {
                        active_children: without_one(x.active_children, child),
                        ..x
                    },
                ),
            ),
            Some(QueryObjectView::Thread(x)) => self.put(
                QueryObjectView::Thread(
                    ThreadRecordView {
                        active_children: without_one(x.active_children, child),
                        ..x
                    },
                ),
            ),
            Some(QueryObjectView::Activity(x)) => self.put(
                QueryObjectView::Activity(
                    ActivityRecordView {
                        active_children: without_one(x.active_children, child),
                        ..x
                    },
                ),
            ),
            _ => self,
        }
    }

    /// The store with a child listed under its owner, if it has one.
    #[verifier::opaque]
    pub open spec fn attach(
        self,
        owner: Option<ObjectReferenceView>,
        child: ObjectReferenceView,
    ) -> StoreView {
        match owner {
            Some(owner) => self.with_child(owner, child),
            None => self,
        }
    }

    /// The store with a child off the list of its owner, if it has one.
    #[verifier::opaque]
    pub open spec fn detach(
        self,
        owner: Option<ObjectReferenceView>,
        child: ObjectReferenceView,
    ) -> StoreView {
        match owner {
            Some(owner) => self.without_child(owner, child),
            None => self,
        }
    }

    /// The store with a thread in the slot of the container that owns it, if a container does.
    #[verifier::opaque]
    pub open spec fn slotted(self, thread: ThreadView) -> StoreView {
        match thread.meta.owner {
            Some(owner) => match self.get(owner.kind, owner.name) {
                Some(QueryObjectView::Activity(x)) => self.put(
                    QueryObjectView::Activity(
                        ActivityRecordView {
                            value: ActivityView {
                                activity_state: slotted_state(
                                    x.value.activity_state,
                                    thread.index,
                                    thread.reference(),
                                ),
                                ..x.value
                            },
                            ..x
                        },
                    ),
                ),
                _ => self,
            },
            None => self,
        }
    }

    /// The store with `x` as the value of its row; a row that was not there is born.
    #[verifier::opaque]
    pub open spec fn store_execution(self, x: ExecutionView, at: Timestamp) -> StoreView {
        self.put(
            QueryObjectView::Execution(
                match self.get(ObjectKind::Execution, x.meta.name) {
                    Some(QueryObjectView::Execution(row)) => ExecutionRecordView {
                        value: x,
                        updated_at: at,
                        ..row
                    },
                    _ => fresh_execution(x, at),
                },
            ),
        )
    }

    /// The store with `x` as the value of its row; a row that was not there is born.
    #[verifier::opaque]
    pub open spec fn store_thread(self, x: ThreadView, at: Timestamp) -> StoreView {
        self.put(
            QueryObjectView::Thread(
                match self.get(ObjectKind::Thread, x.meta.name) {
                    Some(QueryObjectView::Thread(row)) => ThreadRecordView {
                        value: x,
                        updated_at: at,
                        ..row
                    },
                    _ => fresh_thread(x, at),
                },
            ),
        )
    }

    /// The store with `x` as the value of its row; a row that was not there is born.
    #[verifier::opaque]
    pub open spec fn store_activity(self, x: ActivityView, at: Timestamp) -> StoreView {
        self.put(
            QueryObjectView::Activity(
                match self.get(ObjectKind::Activity, x.meta.name) {
                    Some(QueryObjectView::Activity(row)) => ActivityRecordView {
                        value: x,
                        updated_at: at,
                        ..row
                    },
                    _ => fresh_activity(x, at),
                },
            ),
        )
    }

    /// The store with `x` as the value of its row; a row that was not there is born.
    #[verifier::opaque]
    pub open spec fn store_timer(self, x: TimerView, at: Timestamp) -> StoreView {
        self.put(
            QueryObjectView::Timer(
                match self.get(ObjectKind::Timer, x.meta.name) {
                    Some(QueryObjectView::Timer(row)) => TimerRecordView {
                        value: x,
                        updated_at: at,
                        ..row
                    },
                    _ => TimerRecordView { value: x, created_at: at, updated_at: at },
                },
            ),
        )
    }

    /// The store with `x` as the value of its row; a row that was not there is born.
    #[verifier::opaque]
    pub open spec fn store_task(self, x: TaskView, at: Timestamp) -> StoreView {
        self.put(
            QueryObjectView::Task(
                match self.get(ObjectKind::Task, x.meta.name) {
                    Some(QueryObjectView::Task(row)) => TaskRecordView {
                        value: x,
                        updated_at: at,
                        ..row
                    },
                    _ => TaskRecordView { value: x, created_at: at, updated_at: at },
                },
            ),
        )
    }

    /// The store after a claim of `x`: only a task that can still be claimed at `at` is leased.
    #[verifier::opaque]
    pub open spec fn claim_task(self, x: TaskView, at: Timestamp) -> StoreView {
        match self.get(ObjectKind::Task, x.meta.name) {
            Some(QueryObjectView::Task(row)) if row.value.claimable(at) => self.store_task(x, at),
            _ => self,
        }
    }

    /// The store after the claim of each task, in order.
    #[verifier::opaque]
    pub open spec fn claim_tasks(self, tasks: Seq<TaskView>, at: Timestamp) -> StoreView
        decreases tasks.len(),
    {
        if tasks.len() == 0 {
            self
        } else {
            self.claim_tasks(tasks.drop_last(), at).claim_task(tasks.last(), at)
        }
    }

    /// The store with a version, and with the flow that owns it pointing at it.
    #[verifier::opaque]
    pub open spec fn store_version(self, x: FlowVersionView, at: Timestamp) -> StoreView {
        let stored = self.put(QueryObjectView::FlowVersion(x));
        match x.meta.owner {
            Some(owner) => match stored.get(ObjectKind::Flow, owner.name) {
                Some(QueryObjectView::Flow(flow)) => stored.put(
                    QueryObjectView::Flow(
                        FlowView {
                            meta: flow.meta.touched(at),
                            latest_flow_version: x.meta.reference(),
                            ..flow
                        },
                    ),
                ),
                _ => stored,
            },
            None => stored,
        }
    }

    /// The store with the variables of a scope replaced.
    #[verifier::opaque]
    pub open spec fn assign_variables(
        self,
        scope: ObjectReferenceView,
        variables: Seq<MemberView>,
        at: Timestamp,
    ) -> StoreView {
        match self.get(scope.kind, scope.name) {
            Some(QueryObjectView::Execution(x)) => self.put(
                QueryObjectView::Execution(ExecutionRecordView { variables, updated_at: at, ..x }),
            ),
            Some(QueryObjectView::Thread(x)) => self.put(
                QueryObjectView::Thread(ThreadRecordView { variables, updated_at: at, ..x }),
            ),
            _ => self,
        }
    }

    /// The store with the activity that a scope has in flight replaced.
    #[verifier::opaque]
    pub open spec fn cursor(
        self,
        scope: Option<ObjectReferenceView>,
        current_activity: Option<ObjectReferenceView>,
    ) -> StoreView {
        match scope {
            Some(scope) => match self.get(scope.kind, scope.name) {
                Some(QueryObjectView::Execution(x)) => self.put(
                    QueryObjectView::Execution(ExecutionRecordView { current_activity, ..x }),
                ),
                Some(QueryObjectView::Thread(x)) => self.put(
                    QueryObjectView::Thread(ThreadRecordView { current_activity, ..x }),
                ),
                _ => self,
            },
            None => self,
        }
    }

    /// The rows after `event`, recorded by an entry written at `at`.
    #[verifier::opaque]
    pub open spec fn fold_rows(self, event: EventView, at: Timestamp) -> StoreView {
        match event {
            EventView::FlowCreated(e) => self.put(QueryObjectView::Flow(e.flow)),
            EventView::FlowVersionCreated(e) => self.store_version(e.flow_version, at),
            EventView::ExecutionCreated(e) => self.put(
                QueryObjectView::Execution(fresh_execution(e.execution, at)),
            ).attach(e.execution.meta.owner, e.execution.reference()),
            EventView::ExecutionCompleting { execution } => self.store_execution(execution, at),
            EventView::ExecutionTerminating { execution } => self.store_execution(execution, at),
            EventView::ExecutionCompleted { execution } => self.store_execution(
                execution,
                at,
            ).detach(execution.meta.owner, execution.reference()),
            EventView::ExecutionTerminated { execution } => self.store_execution(
                execution,
                at,
            ).detach(execution.meta.owner, execution.reference()),
            EventView::ThreadCreated { thread } => self.put(
                QueryObjectView::Thread(fresh_thread(thread, at)),
            ).attach(thread.meta.owner, thread.reference()).slotted(thread),
            EventView::ThreadCompleting { thread } => self.store_thread(thread, at),
            EventView::ThreadTerminating { thread } => self.store_thread(thread, at),
            EventView::ThreadCompleted { thread } => self.store_thread(thread, at).detach(
                thread.meta.owner,
                thread.reference(),
            ),
            EventView::ThreadTerminated { thread } => self.store_thread(thread, at).detach(
                thread.meta.owner,
                thread.reference(),
            ),
            EventView::StateActivating { activity } => self.put(
                QueryObjectView::Activity(fresh_activity(activity, at)),
            ).attach(activity.meta.owner, activity.reference()).cursor(
                activity.meta.owner,
                Some(activity.reference()),
            ),
            EventView::StateActivated { activity } => self.store_activity(activity, at),
            EventView::StateCompleting { activity } => self.store_activity(activity, at),
            EventView::StateTerminating { activity } => self.store_activity(activity, at),
            EventView::StateCompleted { activity } => self.store_activity(activity, at).detach(
                activity.meta.owner,
                activity.reference(),
            ).cursor(activity.meta.owner, None),
            EventView::StateTerminated { activity } => self.store_activity(activity, at).detach(
                activity.meta.owner,
                activity.reference(),
            ).cursor(activity.meta.owner, None),
            EventView::TimerActivated { timer } => self.put(
                QueryObjectView::Timer(
                    TimerRecordView { value: timer, created_at: at, updated_at: at },
                ),
            ).attach(timer.meta.owner, timer.reference()),
            EventView::TimerTriggered { timer } => self.store_timer(timer, at).detach(
                timer.meta.owner,
                timer.reference(),
            ),
            EventView::TimerCancelled { timer } => self.store_timer(timer, at).detach(
                timer.meta.owner,
                timer.reference(),
            ),
            EventView::TaskActivated { task } => self.put(
                QueryObjectView::Task(
                    TaskRecordView { value: task, created_at: at, updated_at: at },
                ),
            ).attach(task.meta.owner, task.reference()),
            EventView::TasksClaimed(e) => self.claim_tasks(e.tasks, at),
            EventView::TaskCompleted(e) => self.store_task(e.task, at).detach(
                e.task.meta.owner,
                e.task.reference(),
            ),
            EventView::TaskFailed(e) => if e.task.status is Pending {
                self.store_task(e.task, at)
            } else {
                self.store_task(e.task, at).detach(e.task.meta.owner, e.task.reference())
            },
            EventView::TaskCancelled { task } => self.store_task(task, at).detach(
                task.meta.owner,
                task.reference(),
            ),
            EventView::TaskLeaseExpired { task } => self.store_task(task, at),
            EventView::VariablesAssigned(e) => self.assign_variables(e.scope, e.variables, at),
            EventView::StateTransitioned(_) => self,
            EventView::ProcessChildCompletedHandled { .. } => self,
        }
    }

    /// The store after `event`, recorded by an entry written at `at`: the rows that the event changes
    /// are stored, and the counter of generated names stands past the number in the name of what
    /// the event carries.
    #[verifier::opaque]
    pub open spec fn apply(self, event: EventView, at: Timestamp) -> StoreView {
        self.fold_rows(event, at).beyond(event_number(event))
    }
}

/// The kind and the name of the thread, activity, timer or task that an event carries: of what the
/// counter names.
pub open spec fn event_name(event: EventView) -> Option<(ObjectKind, ObjectNameView)> {
    match event {
        EventView::ThreadCreated { thread } => Some((ObjectKind::Thread, thread.meta.name)),
        EventView::ThreadCompleting { thread } => Some((ObjectKind::Thread, thread.meta.name)),
        EventView::ThreadCompleted { thread } => Some((ObjectKind::Thread, thread.meta.name)),
        EventView::ThreadTerminating { thread } => Some((ObjectKind::Thread, thread.meta.name)),
        EventView::ThreadTerminated { thread } => Some((ObjectKind::Thread, thread.meta.name)),
        EventView::StateActivating { activity } => Some((ObjectKind::Activity, activity.meta.name)),
        EventView::StateActivated { activity } => Some((ObjectKind::Activity, activity.meta.name)),
        EventView::StateCompleting { activity } => Some((ObjectKind::Activity, activity.meta.name)),
        EventView::StateCompleted { activity } => Some((ObjectKind::Activity, activity.meta.name)),
        EventView::StateTerminating { activity } => Some(
            (ObjectKind::Activity, activity.meta.name),
        ),
        EventView::StateTerminated { activity } => Some((ObjectKind::Activity, activity.meta.name)),
        EventView::TimerActivated { timer } => Some((ObjectKind::Timer, timer.meta.name)),
        EventView::TimerTriggered { timer } => Some((ObjectKind::Timer, timer.meta.name)),
        EventView::TimerCancelled { timer } => Some((ObjectKind::Timer, timer.meta.name)),
        EventView::TaskActivated { task } => Some((ObjectKind::Task, task.meta.name)),
        EventView::TaskCompleted(e) => Some((ObjectKind::Task, e.task.meta.name)),
        EventView::TaskFailed(e) => Some((ObjectKind::Task, e.task.meta.name)),
        EventView::TaskCancelled { task } => Some((ObjectKind::Task, task.meta.name)),
        EventView::TaskLeaseExpired { task } => Some((ObjectKind::Task, task.meta.name)),
        _ => None,
    }
}

/// The number in the name of what an event carries, where the counter gives such names.
pub open spec fn event_number(event: EventView) -> Option<u64> {
    match event_name(event) {
        Some((_, name)) => text_number(name_text(name)),
        None => None,
    }
}

fn number_carried(event: &Event) -> (r: Option<u64>)
    ensures
        r == event_number(event@),
{
    reveal(event_view);
    match event {
        Event::ThreadCreated { thread } => thread.meta.name.number(),
        Event::ThreadCompleting { thread } => thread.meta.name.number(),
        Event::ThreadCompleted { thread } => thread.meta.name.number(),
        Event::ThreadTerminating { thread } => thread.meta.name.number(),
        Event::ThreadTerminated { thread } => thread.meta.name.number(),
        Event::StateActivating { activity } => activity.meta.name.number(),
        Event::StateActivated { activity } => activity.meta.name.number(),
        Event::StateCompleting { activity } => activity.meta.name.number(),
        Event::StateCompleted { activity } => activity.meta.name.number(),
        Event::StateTerminating { activity } => activity.meta.name.number(),
        Event::StateTerminated { activity } => activity.meta.name.number(),
        Event::TimerActivated { timer } => timer.meta.name.number(),
        Event::TimerTriggered { timer } => timer.meta.name.number(),
        Event::TimerCancelled { timer } => timer.meta.name.number(),
        Event::TaskActivated { task } => task.meta.name.number(),
        Event::TaskCompleted(e) => e.task.meta.name.number(),
        Event::TaskFailed(e) => e.task.meta.name.number(),
        Event::TaskCancelled { task } => task.meta.name.number(),
        Event::TaskLeaseExpired { task } => task.meta.name.number(),
        _ => None,
    }
}

/// The row of an execution born at `at`.
pub open spec fn fresh_execution(x: ExecutionView, at: Timestamp) -> ExecutionRecordView {
    ExecutionRecordView {
        value: x,
        variables: Seq::empty(),
        current_activity: None,
        active_children: Seq::empty(),
        created_at: at,
        updated_at: at,
    }
}

/// The row of a thread born at `at`.
pub open spec fn fresh_thread(x: ThreadView, at: Timestamp) -> ThreadRecordView {
    ThreadRecordView {
        value: x,
        variables: Seq::empty(),
        current_activity: None,
        active_children: Seq::empty(),
        created_at: at,
        updated_at: at,
    }
}

/// The row of an activity born at `at`.
pub open spec fn fresh_activity(x: ActivityView, at: Timestamp) -> ActivityRecordView {
    ActivityRecordView { value: x, active_children: Seq::empty(), created_at: at, updated_at: at }
}

/// What a container carries with `thread` in the slot of `index`. A `Map` has slots for the items of
/// its plan only.
pub open spec fn slotted_state(
    state: Option<ActivityStateView>,
    index: usize,
    thread: ObjectReferenceView,
) -> Option<ActivityStateView> {
    match state {
        Some(ActivityStateView::Parallel(p)) => Some(
            ActivityStateView::Parallel(
                crate::types::activity::ParallelActivityStateView {
                    branches: place_slot(p.branches, index, thread),
                },
            ),
        ),
        Some(ActivityStateView::ItemMap(m)) => if index < m.total {
            Some(
                ActivityStateView::ItemMap(
                    crate::types::activity::MapActivityStateView {
                        children: place_slot(m.children, index, thread),
                        ..m
                    },
                ),
            )
        } else {
            state
        },
        _ => state,
    }
}

fn no_children() -> (r: Vec<ObjectReference>)
    ensures
        r.deep_view() == Seq::<ObjectReferenceView>::empty(),
{
    let r: Vec<ObjectReference> = Vec::new();
    assert(r.deep_view() =~= Seq::empty());
    r
}

impl Store {
    /// Lists `child` under `parent`, when `parent` is stored and can own children.
    pub fn add_child(&mut self, parent: &ObjectReference, child: &ObjectReference)
        ensures
            final(self)@ == old(self)@.with_child(parent@, child@),
    {
        reveal(StoreView::with_child);
        let changed = match self.find(parent.kind, &parent.name) {
            Some(QueryObject::Execution(x)) => {
                let mut x = x.clone();
                insert_child(&mut x.active_children, child);
                QueryObject::Execution(x)
            },
            Some(QueryObject::Thread(x)) => {
                let mut x = x.clone();
                insert_child(&mut x.active_children, child);
                QueryObject::Thread(x)
            },
            Some(QueryObject::Activity(x)) => {
                let mut x = x.clone();
                insert_child(&mut x.active_children, child);
                QueryObject::Activity(x)
            },
            Some(_) => {
                reveal(query_object_view);
                return ;
            },
            None => return ,
        };
        self.put(changed);
    }

    /// Takes `child` off the list of `parent`.
    pub fn remove_child(&mut self, parent: &ObjectReference, child: &ObjectReference)
        ensures
            final(self)@ == old(self)@.without_child(parent@, child@),
    {
        reveal(StoreView::without_child);
        let changed = match self.find(parent.kind, &parent.name) {
            Some(QueryObject::Execution(x)) => {
                let mut x = x.clone();
                x.active_children = remove_child(&x.active_children, child);
                QueryObject::Execution(x)
            },
            Some(QueryObject::Thread(x)) => {
                let mut x = x.clone();
                x.active_children = remove_child(&x.active_children, child);
                QueryObject::Thread(x)
            },
            Some(QueryObject::Activity(x)) => {
                let mut x = x.clone();
                x.active_children = remove_child(&x.active_children, child);
                QueryObject::Activity(x)
            },
            Some(_) => {
                reveal(query_object_view);
                return ;
            },
            None => return ,
        };
        self.put(changed);
    }

    fn attach(&mut self, owner: &Option<ObjectReference>, child: &ObjectReference)
        ensures
            final(self)@ == old(self)@.attach(owner.deep_view(), child@),
    {
        reveal(StoreView::attach);
        if let Some(owner) = owner {
            self.add_child(owner, child);
        }
    }

    fn detach(&mut self, owner: &Option<ObjectReference>, child: &ObjectReference)
        ensures
            final(self)@ == old(self)@.detach(owner.deep_view(), child@),
    {
        reveal(StoreView::detach);
        if let Some(owner) = owner {
            self.remove_child(owner, child);
        }
    }

    fn slot(&mut self, thread: &Thread)
        ensures
            final(self)@ == old(self)@.slotted(thread@),
    {
        reveal(StoreView::slotted);
        let owner = match &thread.meta.owner {
            Some(owner) => owner,
            None => return ,
        };
        let changed = match self.find(owner.kind, &owner.name) {
            Some(QueryObject::Activity(x)) => {
                let mut x = x.clone();
                let state = match x.value.activity_state {
                    Some(ActivityState::Parallel(p)) => {
                        let mut p = p;
                        place_child(&mut p.branches, thread.index, thread.reference());
                        Some(ActivityState::Parallel(p))
                    },
                    Some(ActivityState::ItemMap(m)) => {
                        let mut m = m;
                        if thread.index < m.total {
                            place_child(&mut m.children, thread.index, thread.reference());
                        }
                        Some(ActivityState::ItemMap(m))
                    },
                    other => other,
                };
                x.value.activity_state = state;
                QueryObject::Activity(x)
            },
            Some(_) => {
                reveal(query_object_view);
                return ;
            },
            None => return ,
        };
        self.put(changed);
    }

    fn store_execution(&mut self, x: Execution, at: Timestamp)
        ensures
            final(self)@ == old(self)@.store_execution(x@, at),
    {
        reveal(StoreView::store_execution);
        let row = match self.find(ObjectKind::Execution, &x.meta.name) {
            Some(QueryObject::Execution(row)) => {
                let mut row = row.clone();
                row.value = x;
                row.touch(at);
                row
            },
            Some(_) => {
                reveal(query_object_view);
                let mut row = ExecutionRecord::from_value(x, no_children());
                row.born(at);
                row
            },
            None => {
                let mut row = ExecutionRecord::from_value(x, no_children());
                row.born(at);
                row
            },
        };
        self.put(QueryObject::Execution(row));
    }

    fn store_thread(&mut self, x: Thread, at: Timestamp)
        ensures
            final(self)@ == old(self)@.store_thread(x@, at),
    {
        reveal(StoreView::store_thread);
        let row = match self.find(ObjectKind::Thread, &x.meta.name) {
            Some(QueryObject::Thread(row)) => {
                let mut row = row.clone();
                row.value = x;
                row.with_update_at(at);
                row
            },
            Some(_) => {
                reveal(query_object_view);
                let mut row = ThreadRecord::from_value(x, no_children());
                row.born(at);
                row
            },
            None => {
                let mut row = ThreadRecord::from_value(x, no_children());
                row.born(at);
                row
            },
        };
        self.put(QueryObject::Thread(row));
    }

    fn store_activity(&mut self, x: Activity, at: Timestamp)
        ensures
            final(self)@ == old(self)@.store_activity(x@, at),
    {
        reveal(StoreView::store_activity);
        let row = match self.find(ObjectKind::Activity, &x.meta.name) {
            Some(QueryObject::Activity(row)) => {
                let mut row = row.clone();
                row.value = x;
                row.touch(at);
                row
            },
            Some(_) => {
                reveal(query_object_view);
                let mut row = ActivityRecord::from_value(x, no_children());
                row.born(at);
                row
            },
            None => {
                let mut row = ActivityRecord::from_value(x, no_children());
                row.born(at);
                row
            },
        };
        self.put(QueryObject::Activity(row));
    }

    fn store_timer(&mut self, x: Timer, at: Timestamp)
        ensures
            final(self)@ == old(self)@.store_timer(x@, at),
    {
        reveal(StoreView::store_timer);
        let row = match self.find(ObjectKind::Timer, &x.meta.name) {
            Some(QueryObject::Timer(row)) => {
                let mut row = row.clone();
                row.value = x;
                row.touch(at);
                row
            },
            Some(_) => {
                reveal(query_object_view);
                let mut row = TimerRecord::from_value(x);
                row.born(at);
                row
            },
            None => {
                let mut row = TimerRecord::from_value(x);
                row.born(at);
                row
            },
        };
        self.put(QueryObject::Timer(row));
    }

    fn store_task(&mut self, x: Task, at: Timestamp)
        ensures
            final(self)@ == old(self)@.store_task(x@, at),
    {
        reveal(StoreView::store_task);
        let row = match self.find(ObjectKind::Task, &x.meta.name) {
            Some(QueryObject::Task(row)) => {
                let mut row = row.clone();
                row.value = x;
                row.touch(at);
                row
            },
            Some(_) => {
                reveal(query_object_view);
                let mut row = TaskRecord::from_value(x);
                row.born(at);
                row
            },
            None => {
                let mut row = TaskRecord::from_value(x);
                row.born(at);
                row
            },
        };
        self.put(QueryObject::Task(row));
    }

    fn claim_task(&mut self, x: &Task, at: Timestamp)
        ensures
            final(self)@ == old(self)@.claim_task(x@, at),
    {
        reveal(StoreView::claim_task);
        let claimable = match self.find(ObjectKind::Task, &x.meta.name) {
            Some(QueryObject::Task(row)) => row.value.is_claimable_at(at),
            Some(_) => {
                reveal(query_object_view);
                false
            },
            None => false,
        };
        if claimable {
            self.store_task(x.clone(), at);
        }
    }

    fn claim_tasks(&mut self, tasks: &Vec<Task>, at: Timestamp)
        ensures
            final(self)@ == old(self)@.claim_tasks(tasks.deep_view(), at),
    {
        reveal_with_fuel(StoreView::claim_tasks, 2);
        let ghost all = tasks.deep_view();
        let ghost before = self@;
        let mut i: usize = 0;
        assert(all.take(0) =~= Seq::empty());
        while i < tasks.len()
            invariant
                i <= tasks.len(),
                all == tasks.deep_view(),
                self@ == before.claim_tasks(all.take(i as int), at),
            decreases tasks.len() - i,
        {
            reveal_with_fuel(StoreView::claim_tasks, 2);
            let ghost next = all.take(i as int + 1);
            assert(next.drop_last() =~= all.take(i as int));
            assert(next.last() == tasks@[i as int]@);
            self.claim_task(&tasks[i], at);
            i += 1;
        }
        assert(all.take(all.len() as int) =~= all);
    }

    fn store_version(&mut self, x: FlowVersion, at: Timestamp)
        ensures
            final(self)@ == old(self)@.store_version(x@, at),
    {
        reveal(StoreView::store_version);
        let reference = x.reference();
        let owner = x.meta.owner.clone();
        self.put(QueryObject::FlowVersion(x));
        let owner = match owner {
            Some(owner) => owner,
            None => return ,
        };
        let flow = match self.find(ObjectKind::Flow, &owner.name) {
            Some(QueryObject::Flow(flow)) => {
                let mut flow = flow.clone();
                flow.meta.with_update_at(at);
                flow.latest_flow_version = reference;
                flow
            },
            Some(_) => {
                reveal(query_object_view);
                return ;
            },
            None => return ,
        };
        self.put(QueryObject::Flow(flow));
    }

    fn assign_variables(&mut self, scope: &ObjectReference, variables: Variables, at: Timestamp)
        ensures
            final(self)@ == old(self)@.assign_variables(scope@, variables@, at),
    {
        reveal(StoreView::assign_variables);
        let changed = match self.find(scope.kind, &scope.name) {
            Some(QueryObject::Execution(x)) => {
                let mut x = x.clone();
                x.variables = variables;
                x.touch(at);
                QueryObject::Execution(x)
            },
            Some(QueryObject::Thread(x)) => {
                let mut x = x.clone();
                x.variables = variables;
                x.with_update_at(at);
                QueryObject::Thread(x)
            },
            Some(_) => {
                reveal(query_object_view);
                return ;
            },
            None => return ,
        };
        self.put(changed);
    }

    fn set_cursor(
        &mut self,
        scope: &Option<ObjectReference>,
        current_activity: Option<ObjectReference>,
    )
        ensures
            final(self)@ == old(self)@.cursor(scope.deep_view(), current_activity.deep_view()),
    {
        reveal(StoreView::cursor);
        let scope = match scope {
            Some(scope) => scope,
            None => return ,
        };
        let changed = match self.find(scope.kind, &scope.name) {
            Some(QueryObject::Execution(x)) => {
                let mut x = x.clone();
                x.current_activity = current_activity;
                QueryObject::Execution(x)
            },
            Some(QueryObject::Thread(x)) => {
                let mut x = x.clone();
                x.current_activity = current_activity;
                QueryObject::Thread(x)
            },
            Some(_) => {
                reveal(query_object_view);
                return ;
            },
            None => return ,
        };
        self.put(changed);
    }

    fn end_execution(&mut self, x: &Execution, at: Timestamp)
        ensures
            final(self)@ == old(self)@.store_execution(x@, at).detach(
                x@.meta.owner,
                x@.reference(),
            ),
    {
        let reference = x.reference();
        self.store_execution(x.clone(), at);
        self.detach(&x.meta.owner, &reference);
    }

    fn end_thread(&mut self, x: &Thread, at: Timestamp)
        ensures
            final(self)@ == old(self)@.store_thread(x@, at).detach(x@.meta.owner, x@.reference()),
    {
        let reference = x.reference();
        self.store_thread(x.clone(), at);
        self.detach(&x.meta.owner, &reference);
    }

    fn end_activity(&mut self, x: &Activity, at: Timestamp)
        ensures
            final(self)@ == old(self)@.store_activity(x@, at).detach(
                x@.meta.owner,
                x@.reference(),
            ).cursor(x@.meta.owner, None),
    {
        let reference = x.reference();
        self.store_activity(x.clone(), at);
        self.detach(&x.meta.owner, &reference);
        self.set_cursor(&x.meta.owner, None);
    }

    fn end_timer(&mut self, x: &Timer, at: Timestamp)
        ensures
            final(self)@ == old(self)@.store_timer(x@, at).detach(x@.meta.owner, x@.reference()),
    {
        let reference = x.reference();
        self.store_timer(x.clone(), at);
        self.detach(&x.meta.owner, &reference);
    }

    fn end_task(&mut self, x: &Task, at: Timestamp)
        ensures
            final(self)@ == old(self)@.store_task(x@, at).detach(x@.meta.owner, x@.reference()),
    {
        let reference = x.reference();
        self.store_task(x.clone(), at);
        self.detach(&x.meta.owner, &reference);
    }

    fn create_execution(&mut self, x: &Execution, at: Timestamp)
        ensures
            final(self)@ == old(self)@.put(
                QueryObjectView::Execution(fresh_execution(x@, at)),
            ).attach(x@.meta.owner, x@.reference()),
    {
        let mut row = ExecutionRecord::from_value(x.clone(), no_children());
        row.born(at);
        self.put(QueryObject::Execution(row));
        self.attach(&x.meta.owner, &x.reference());
    }

    fn create_thread(&mut self, x: &Thread, at: Timestamp)
        ensures
            final(self)@ == old(self)@.put(
                QueryObjectView::Thread(fresh_thread(x@, at)),
            ).attach(x@.meta.owner, x@.reference()).slotted(x@),
    {
        let mut row = ThreadRecord::from_value(x.clone(), no_children());
        row.born(at);
        self.put(QueryObject::Thread(row));
        self.attach(&x.meta.owner, &x.reference());
        self.slot(x);
    }

    fn create_activity(&mut self, x: &Activity, at: Timestamp)
        ensures
            final(self)@ == old(self)@.put(
                QueryObjectView::Activity(fresh_activity(x@, at)),
            ).attach(x@.meta.owner, x@.reference()).cursor(x@.meta.owner, Some(x@.reference())),
    {
        let mut row = ActivityRecord::from_value(x.clone(), no_children());
        row.born(at);
        let reference = x.reference();
        self.put(QueryObject::Activity(row));
        self.attach(&x.meta.owner, &reference);
        self.set_cursor(&x.meta.owner, Some(reference));
    }

    fn create_timer(&mut self, x: &Timer, at: Timestamp)
        ensures
            final(self)@ == old(self)@.put(
                QueryObjectView::Timer(
                    TimerRecordView { value: x@, created_at: at, updated_at: at },
                ),
            ).attach(x@.meta.owner, x@.reference()),
    {
        let mut row = TimerRecord::from_value(x.clone());
        row.born(at);
        self.put(QueryObject::Timer(row));
        self.attach(&x.meta.owner, &x.reference());
    }

    fn create_task(&mut self, x: &Task, at: Timestamp)
        ensures
            final(self)@ == old(self)@.put(
                QueryObjectView::Task(TaskRecordView { value: x@, created_at: at, updated_at: at }),
            ).attach(x@.meta.owner, x@.reference()),
    {
        let mut row = TaskRecord::from_value(x.clone());
        row.born(at);
        self.put(QueryObject::Task(row));
        self.attach(&x.meta.owner, &x.reference());
    }

    /// Folds an event, recorded by an entry written at `at`.
    pub fn apply(&mut self, event: &Event, at: Timestamp)
        ensures
            final(self)@ == old(self)@.apply(event@, at),
    {
        reveal(StoreView::apply);
        self.fold_rows(event, at);
        self.pass_number(number_carried(event));
    }

    fn fold_rows(&mut self, event: &Event, at: Timestamp)
        ensures
            final(self)@ == old(self)@.fold_rows(event@, at),
    {
        reveal(StoreView::fold_rows);
        match event {
            Event::FlowCreated(e) => self.put(QueryObject::Flow(e.flow.clone())),
            Event::FlowVersionCreated(e) => self.store_version(e.flow_version.clone(), at),
            Event::ExecutionCreated(e) => self.create_execution(&e.execution, at),
            Event::ExecutionCompleting { execution } => self.store_execution(
                execution.clone(),
                at,
            ),
            Event::ExecutionTerminating { execution } => self.store_execution(
                execution.clone(),
                at,
            ),
            Event::ExecutionCompleted { execution } => self.end_execution(execution, at),
            Event::ExecutionTerminated { execution } => self.end_execution(execution, at),
            Event::ThreadCreated { thread } => self.create_thread(thread, at),
            Event::ThreadCompleting { thread } => self.store_thread(thread.clone(), at),
            Event::ThreadTerminating { thread } => self.store_thread(thread.clone(), at),
            Event::ThreadCompleted { thread } => self.end_thread(thread, at),
            Event::ThreadTerminated { thread } => self.end_thread(thread, at),
            Event::StateActivating { activity } => self.create_activity(activity, at),
            Event::StateActivated { activity } => self.store_activity(activity.clone(), at),
            Event::StateCompleting { activity } => self.store_activity(activity.clone(), at),
            Event::StateTerminating { activity } => self.store_activity(activity.clone(), at),
            Event::StateCompleted { activity } => self.end_activity(activity, at),
            Event::StateTerminated { activity } => self.end_activity(activity, at),
            Event::TimerActivated { timer } => self.create_timer(timer, at),
            Event::TimerTriggered { timer } => self.end_timer(timer, at),
            Event::TimerCancelled { timer } => self.end_timer(timer, at),
            Event::TaskActivated { task } => self.create_task(task, at),
            Event::TasksClaimed(e) => self.claim_tasks(&e.tasks, at),
            Event::TaskCompleted(e) => self.end_task(&e.task, at),
            Event::TaskFailed(e) => {
                if e.task.status == TaskStatus::Pending {
                    self.store_task(e.task.clone(), at)
                } else {
                    self.end_task(&e.task, at)
                }
            },
            Event::TaskCancelled { task } => self.end_task(task, at),
            Event::TaskLeaseExpired { task } => self.store_task(task.clone(), at),
            Event::VariablesAssigned(e) => self.assign_variables(
                &e.scope,
                e.variables.clone(),
                at,
            ),
            Event::StateTransitioned(e) => {},
            Event::ProcessChildCompletedHandled { owner, child } => {},
        }
    }
}

} // verus!
