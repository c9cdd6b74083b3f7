//! The nodes of a tree, and the store that holds them.

use vstd::prelude::*;

use std::collections::HashMap;

use crate::id::{ActivityId, ExecutionId, FlowVersionId, NodeId, TimerId, Timestamp};
use crate::types::state_path::StatePath;
use crate::types::status::{TerminationReason, TerminationReasonView};
use crate::types::timer::TimerStatus;
use crate::value::{Json, MemberView, Value, Variables};

verus! {

/// The lifecycle of an execution or an activity: `Running`, then `Completing` and `Completed` on success, or
/// `Terminating` and `Terminated` otherwise. A node stays in the winding-down phase for as long as it owns
/// children.
#[derive(Debug, PartialEq, Eq)]
pub enum Status {
    Running,
    /// A success is under way, and waits for the children.
    Completing,
    /// An abnormal end is under way, and waits for the children.
    Terminating,
    Completed,
    Terminated(TerminationReason),
}

/// What a [`Status`] holds.
pub enum StatusView {
    Running,
    Completing,
    Terminating,
    Completed,
    Terminated(TerminationReasonView),
}

impl View for Status {
    type V = StatusView;

    open spec fn view(&self) -> StatusView {
        match self {
            Status::Running => StatusView::Running,
            Status::Completing => StatusView::Completing,
            Status::Terminating => StatusView::Terminating,
            Status::Completed => StatusView::Completed,
            Status::Terminated(x) => StatusView::Terminated(x@),
        }
    }
}

impl DeepView for Status {
    type V = StatusView;

    open spec fn deep_view(&self) -> StatusView {
        self.view()
    }
}

impl Clone for Status {
    fn clone(&self) -> (r: Self)
        ensures
            r@ == self@,
    {
        match self {
            Status::Running => Status::Running,
            Status::Completing => Status::Completing,
            Status::Terminating => Status::Terminating,
            Status::Completed => Status::Completed,
            Status::Terminated(x) => Status::Terminated(x.clone()),
        }
    }
}

impl StatusView {
    /// Whether the node has ended.
    pub open spec fn terminal(self) -> bool {
        self is Completed || self is Terminated
    }
}

impl Status {
    /// Whether the node still works.
    pub fn is_running(&self) -> (r: bool)
        ensures
            r == (self@ is Running),
    {
        matches!(self, Status::Running)
    }

    /// Whether a success is under way.
    pub fn is_completing(&self) -> (r: bool)
        ensures
            r == (self@ is Completing),
    {
        matches!(self, Status::Completing)
    }

    /// Whether an abnormal end is under way.
    pub fn is_terminating(&self) -> (r: bool)
        ensures
            r == (self@ is Terminating),
    {
        matches!(self, Status::Terminating)
    }

    /// Whether the node has ended.
    pub fn is_terminal(&self) -> (r: bool)
        ensures
            r == self@.terminal(),
    {
        matches!(self, Status::Completed | Status::Terminated(_))
    }
}

/// What a timer is armed for.
#[derive(Clone, Copy, Debug, PartialEq, Eq, Structural)]
pub enum TimerPurpose {
    /// Resume a `Wait`.
    WaitResume,
    /// Invoke a `Task` again after the delay of a retry.
    TaskRetryDelay,
    /// Bound the work of a `Task`.
    TaskTimeout,
    /// Bound a whole execution.
    ExecutionTimeout,
}

impl View for TimerPurpose {
    type V = TimerPurpose;

    open spec fn view(&self) -> TimerPurpose {
        *self
    }
}

impl DeepView for TimerPurpose {
    type V = TimerPurpose;

    open spec fn deep_view(&self) -> TimerPurpose {
        self.view()
    }
}

/// One run of a state machine: the root of a tree, or a branch or an item within one.
#[derive(Debug, PartialEq, Eq)]
pub struct Execution {
    pub id: ExecutionId,
    /// The version that the run, and all in it, executes.
    pub flow_version_id: FlowVersionId,
    /// The root of the tree that it belongs to.
    pub root_execution: ExecutionId,
    /// The owner of a run within a tree.
    pub parent: Option<NodeId>,
    /// The `States` table that a run within a tree works in; `None` for the top-level table.
    pub state_path: Option<StatePath>,
    pub status: Status,
    /// The name of the state entered last.
    pub current_state: Option<String>,
    /// The activity in flight.
    pub current_activity: Option<ActivityId>,
    pub scope: Variables,
    pub input: Value,
    pub output: Option<Value>,
    pub reason: Option<TerminationReason>,
    /// The output of a success that waits for the children.
    pub pending_output: Option<Value>,
    /// The reason of an abnormal end that waits for the children.
    pub pending_reason: Option<TerminationReason>,
    /// The nodes that it owns and that have not ended.
    pub active_children: Vec<NodeId>,
}

/// What a [`Execution`] holds.
pub struct ExecutionView {
    pub id: ExecutionId,
    pub flow_version_id: FlowVersionId,
    pub root_execution: ExecutionId,
    pub parent: Option<NodeId>,
    pub state_path: Option<Seq<Seq<char>>>,
    pub status: StatusView,
    pub current_state: Option<Seq<char>>,
    pub current_activity: Option<ActivityId>,
    pub scope: Seq<MemberView>,
    pub input: Json,
    pub output: Option<Json>,
    pub reason: Option<TerminationReasonView>,
    pub pending_output: Option<Json>,
    pub pending_reason: Option<TerminationReasonView>,
    pub active_children: Seq<NodeId>,
}

impl View for Execution {
    type V = ExecutionView;

    open spec fn view(&self) -> ExecutionView {
        ExecutionView {
            id: self.id,
            flow_version_id: self.flow_version_id,
            root_execution: self.root_execution,
            parent: self.parent,
            state_path: self.state_path.deep_view(),
            status: self.status@,
            current_state: self.current_state.deep_view(),
            current_activity: self.current_activity,
            scope: self.scope@,
            input: self.input@,
            output: self.output.deep_view(),
            reason: self.reason.deep_view(),
            pending_output: self.pending_output.deep_view(),
            pending_reason: self.pending_reason.deep_view(),
            active_children: self.active_children.deep_view(),
        }
    }
}

impl DeepView for Execution {
    type V = ExecutionView;

    open spec fn deep_view(&self) -> ExecutionView {
        self.view()
    }
}

impl Clone for Execution {
    fn clone(&self) -> (r: Self)
        ensures
            r@ == self@,
    {
        let r = Execution {
            id: self.id,
            flow_version_id: self.flow_version_id,
            root_execution: self.root_execution,
            parent: self.parent,
            state_path: self.state_path.clone(),
            status: self.status.clone(),
            current_state: self.current_state.clone(),
            current_activity: self.current_activity,
            scope: self.scope.clone(),
            input: self.input.clone(),
            output: self.output.clone(),
            reason: self.reason.clone(),
            pending_output: self.pending_output.clone(),
            pending_reason: self.pending_reason.clone(),
            active_children: self.active_children.clone(),
        };
        assert(r.active_children.deep_view() =~= self.active_children.deep_view());
        r
    }
}

/// The work of one state within an execution.
#[derive(Debug, PartialEq, Eq)]
pub struct Activity {
    pub id: ActivityId,
    pub parent: NodeId,
    pub state_path: StatePath,
    pub status: Status,
    pub input: Value,
    /// How often its work was retried.
    pub retry_count: u32,
    pub output: Option<Value>,
    pub reason: Option<TerminationReason>,
    /// The output of a success that waits for the children.
    pub pending_output: Option<Value>,
    /// The reason of an abnormal end that waits for the children.
    pub pending_reason: Option<TerminationReason>,
    /// The nodes that it owns and that have not ended.
    pub active_children: Vec<NodeId>,
}

/// What a [`Activity`] holds.
pub struct ActivityView {
    pub id: ActivityId,
    pub parent: NodeId,
    pub state_path: Seq<Seq<char>>,
    pub status: StatusView,
    pub input: Json,
    pub retry_count: u32,
    pub output: Option<Json>,
    pub reason: Option<TerminationReasonView>,
    pub pending_output: Option<Json>,
    pub pending_reason: Option<TerminationReasonView>,
    pub active_children: Seq<NodeId>,
}

impl View for Activity {
    type V = ActivityView;

    open spec fn view(&self) -> ActivityView {
        ActivityView {
            id: self.id,
            parent: self.parent,
            state_path: self.state_path@,
            status: self.status@,
            input: self.input@,
            retry_count: self.retry_count,
            output: self.output.deep_view(),
            reason: self.reason.deep_view(),
            pending_output: self.pending_output.deep_view(),
            pending_reason: self.pending_reason.deep_view(),
            active_children: self.active_children.deep_view(),
        }
    }
}

impl DeepView for Activity {
    type V = ActivityView;

    open spec fn deep_view(&self) -> ActivityView {
        self.view()
    }
}

impl Clone for Activity {
    fn clone(&self) -> (r: Self)
        ensures
            r@ == self@,
    {
        let r = Activity {
            id: self.id,
            parent: self.parent,
            state_path: self.state_path.clone(),
            status: self.status.clone(),
            input: self.input.clone(),
            retry_count: self.retry_count,
            output: self.output.clone(),
            reason: self.reason.clone(),
            pending_output: self.pending_output.clone(),
            pending_reason: self.pending_reason.clone(),
            active_children: self.active_children.clone(),
        };
        assert(r.active_children.deep_view() =~= self.active_children.deep_view());
        r
    }
}

/// A timer. It owns nothing.
#[derive(Debug, PartialEq, Eq)]
pub struct Timer {
    pub id: TimerId,
    /// The node that armed it.
    pub parent: NodeId,
    pub purpose: TimerPurpose,
    pub status: TimerStatus,
    /// The instant at which it fires.
    pub deadline: Timestamp,
}

/// What a [`Timer`] holds.
pub struct TimerView {
    pub id: TimerId,
    pub parent: NodeId,
    pub purpose: TimerPurpose,
    pub status: TimerStatus,
    pub deadline: Timestamp,
}

impl View for Timer {
    type V = TimerView;

    open spec fn view(&self) -> TimerView {
        TimerView {
            id: self.id,
            parent: self.parent,
            purpose: self.purpose,
            status: self.status,
            deadline: self.deadline,
        }
    }
}

impl DeepView for Timer {
    type V = TimerView;

    open spec fn deep_view(&self) -> TimerView {
        self.view()
    }
}

impl Clone for Timer {
    fn clone(&self) -> (r: Self)
        ensures
            r@ == self@,
    {
        Timer {
            id: self.id,
            parent: self.parent,
            purpose: self.purpose,
            status: self.status,
            deadline: self.deadline,
        }
    }
}

impl Execution {
    /// Whether the execution has ended.
    pub fn is_terminal(&self) -> (r: bool)
        ensures
            r == self@.status.terminal(),
    {
        self.status.is_terminal()
    }
}

/// A list of children with `child` in it.
pub open spec fn joined(children: Seq<NodeId>, child: NodeId) -> Seq<NodeId> {
    if children.contains(child) {
        children
    } else {
        children.push(child)
    }
}

/// A list of children without `child`.
pub open spec fn parted(children: Seq<NodeId>, child: NodeId) -> Seq<NodeId>
    decreases children.len(),
{
    if children.len() == 0 {
        children
    } else {
        let init = parted(children.drop_last(), child);
        if children.last() == child {
            init
        } else {
            init.push(children.last())
        }
    }
}

proof fn lemma_parted(children: Seq<NodeId>, child: NodeId)
    ensures
        !parted(children, child).contains(child),
        forall|c: NodeId|
            c != child ==> (#[trigger] parted(children, child).contains(c) <==> children.contains(
                c,
            )),
        children.no_duplicates() ==> parted(children, child).no_duplicates(),
    decreases children.len(),
{
    if children.len() > 0 {
        let init = children.drop_last();
        lemma_parted(init, child);
        let rest = parted(init, child);
        let all = parted(children, child);
        assert forall|c: NodeId| c != child implies (#[trigger] all.contains(c)
            <==> children.contains(c)) by {
            if all.contains(c) {
                let i = choose|i: int| 0 <= i < all.len() && all[i] == c;
                if i < rest.len() {
                    assert(rest[i] == c);
                    assert(rest.contains(c));
                    let j = choose|j: int| 0 <= j < init.len() && init[j] == c;
                    assert(children[j] == c);
                } else {
                    assert(children[children.len() - 1] == c);
                }
            }
            if children.contains(c) {
                let j = choose|j: int| 0 <= j < children.len() && children[j] == c;
                if j < init.len() {
                    assert(init[j] == c);
                    assert(rest.contains(c));
                    let i = choose|i: int| 0 <= i < rest.len() && rest[i] == c;
                    assert(all[i] == c);
                } else {
                    assert(all[all.len() - 1] == c);
                }
            }
        }
        if all.contains(child) {
            let i = choose|i: int| 0 <= i < all.len() && all[i] == child;
            if i < rest.len() {
                assert(rest[i] == child);
            }
        }
        if children.no_duplicates() {
            assert(init.no_duplicates());
            let last = children.last();
            if init.contains(last) {
                let j = choose|j: int| 0 <= j < init.len() && init[j] == last;
                assert(children[j] == children[children.len() - 1]);
            }
            if last != child {
                assert(!rest.contains(last));
                assert forall|i: int, j: int|
                    0 <= i < all.len() && 0 <= j < all.len() && i != j implies all[i] != all[j] by {
                    if i < rest.len() {
                        assert(rest[i] == all[i]);
                    }
                    if j < rest.len() {
                        assert(rest[j] == all[j]);
                    }
                }
            }
        }
    }
}

/// A child that is put on a list is on it once, and nothing else about the list changes.
pub proof fn law_joined_lists_a_child_once(children: Seq<NodeId>, child: NodeId, other: NodeId)
    ensures
        joined(children, child).contains(child),
        other != child ==> (joined(children, child).contains(other) <==> children.contains(other)),
        children.no_duplicates() ==> joined(children, child).no_duplicates(),
        joined(joined(children, child), child) == joined(children, child),
{
    let all = joined(children, child);
    if !children.contains(child) {
        assert(all[all.len() - 1] == child);
        if other != child && children.contains(other) {
            let i = choose|i: int| 0 <= i < children.len() && children[i] == other;
            assert(all[i] == other);
        }
    }
}

/// A child that is taken off a list is off it, and nothing else about the list changes.
pub proof fn law_parted_drops_the_child(children: Seq<NodeId>, child: NodeId, other: NodeId)
    ensures
        !parted(children, child).contains(child),
        other != child ==> (parted(children, child).contains(other) <==> children.contains(other)),
        children.no_duplicates() ==> parted(children, child).no_duplicates(),
{
    lemma_parted(children, child);
}

fn join(children: &Vec<NodeId>, child: NodeId) -> (r: Vec<NodeId>)
    ensures
        r.deep_view() == joined(children.deep_view(), child),
{
    let mut out: Vec<NodeId> = Vec::new();
    let mut found = false;
    let mut i: usize = 0;
    while i < children.len()
        invariant
            i <= children.len(),
            out@ == children@.take(i as int),
            found == children@.take(i as int).contains(child),
        decreases children.len() - i,
    {
        let ghost before = children@.take(i as int);
        let ghost next = children@.take(i as int + 1);
        assert(next =~= before.push(children@[i as int]));
        if children[i] == child {
            found = true;
            assert(next[i as int] == child);
        }
        proof {
            if before.contains(child) {
                let j = choose|j: int| 0 <= j < before.len() && before[j] == child;
                assert(next[j] == child);
            }
        }
        out.push(children[i]);
        i += 1;
    }
    assert(children@.take(children@.len() as int) =~= children@);
    assert(children.deep_view() =~= children@);
    if !found {
        out.push(child);
    }
    assert(out.deep_view() =~= joined(children@, child));
    out
}

fn part(children: &Vec<NodeId>, child: NodeId) -> (r: Vec<NodeId>)
    ensures
        r.deep_view() == parted(children.deep_view(), child),
{
    let mut out: Vec<NodeId> = Vec::new();
    let mut i: usize = 0;
    while i < children.len()
        invariant
            i <= children.len(),
            out@ == parted(children@.take(i as int), child),
        decreases children.len() - i,
    {
        let ghost next = children@.take(i as int + 1);
        assert(next.drop_last() =~= children@.take(i as int));
        assert(next.last() == children@[i as int]);
        if children[i] != child {
            out.push(children[i]);
        }
        i += 1;
    }
    assert(children@.take(children@.len() as int) =~= children@);
    assert(children.deep_view() =~= children@);
    assert(out.deep_view() =~= out@);
    out
}

/// What a store of nodes holds, by the bits of their ids.
pub struct NodeStoreView {
    pub executions: Map<u128, ExecutionView>,
    pub activities: Map<u128, ActivityView>,
    pub timers: Map<u128, TimerView>,
}

impl NodeStoreView {
    /// The execution with an id.
    pub open spec fn execution(self, id: ExecutionId) -> Option<ExecutionView> {
        if self.executions.contains_key((id.0).0) {
            Some(self.executions[(id.0).0])
        } else {
            None
        }
    }

    /// The activity with an id.
    pub open spec fn activity(self, id: ActivityId) -> Option<ActivityView> {
        if self.activities.contains_key((id.0).0) {
            Some(self.activities[(id.0).0])
        } else {
            None
        }
    }

    /// The timer with an id.
    pub open spec fn timer(self, id: TimerId) -> Option<TimerView> {
        if self.timers.contains_key((id.0).0) {
            Some(self.timers[(id.0).0])
        } else {
            None
        }
    }

    /// The children of a node that have not ended. A timer and a task own nothing.
    pub open spec fn children(self, node: NodeId) -> Seq<NodeId> {
        match node {
            NodeId::Execution(id) => match self.execution(id) {
                Some(x) => x.active_children,
                None => Seq::empty(),
            },
            NodeId::Activity(id) => match self.activity(id) {
                Some(x) => x.active_children,
                None => Seq::empty(),
            },
            _ => Seq::empty(),
        }
    }

    /// The store with the children of a node replaced, when the node is stored and can own any.
    pub open spec fn with_children(self, node: NodeId, children: Seq<NodeId>) -> NodeStoreView {
        match node {
            NodeId::Execution(id) => match self.execution(id) {
                Some(x) => NodeStoreView {
                    executions: self.executions.insert(
                        (id.0).0,
                        ExecutionView { active_children: children, ..x },
                    ),
                    ..self
                },
                None => self,
            },
            NodeId::Activity(id) => match self.activity(id) {
                Some(x) => NodeStoreView {
                    activities: self.activities.insert(
                        (id.0).0,
                        ActivityView { active_children: children, ..x },
                    ),
                    ..self
                },
                None => self,
            },
            _ => self,
        }
    }
}

/// A store of nodes in memory.
#[derive(Debug)]
pub struct InMemoryStorage {
    executions: HashMap<u128, Execution>,
    activities: HashMap<u128, Activity>,
    timers: HashMap<u128, Timer>,
}

impl View for InMemoryStorage {
    type V = NodeStoreView;

    closed spec fn view(&self) -> NodeStoreView {
        NodeStoreView {
            executions: self.executions@.map_values(|x: Execution| x@),
            activities: self.activities@.map_values(|x: Activity| x@),
            timers: self.timers@.map_values(|x: Timer| x@),
        }
    }
}

impl Default for InMemoryStorage {
    fn default() -> (r: Self)
        ensures
            r@ == (NodeStoreView {
                executions: Map::empty(),
                activities: Map::empty(),
                timers: Map::empty(),
            }),
    {
        InMemoryStorage::new()
    }
}

impl InMemoryStorage {
    /// An empty store.
    pub fn new() -> (r: Self)
        ensures
            r@ == (NodeStoreView {
                executions: Map::empty(),
                activities: Map::empty(),
                timers: Map::empty(),
            }),
    {
        broadcast use vstd::std_specs::hash::group_hash_axioms;

        let r = InMemoryStorage {
            executions: HashMap::new(),
            activities: HashMap::new(),
            timers: HashMap::new(),
        };
        assert(r@.executions =~= Map::empty());
        assert(r@.activities =~= Map::empty());
        assert(r@.timers =~= Map::empty());
        r
    }

    /// The execution with an id.
    pub fn get_execution(&self, id: ExecutionId) -> (r: Option<Execution>)
        ensures
            r.deep_view() == self@.execution(id),
    {
        broadcast use vstd::std_specs::hash::group_hash_axioms;

        match self.executions.get(&(id.0).0) {
            Some(x) => Some(x.clone()),
            None => None,
        }
    }

    /// The activity with an id.
    pub fn get_activity(&self, id: ActivityId) -> (r: Option<Activity>)
        ensures
            r.deep_view() == self@.activity(id),
    {
        broadcast use vstd::std_specs::hash::group_hash_axioms;

        match self.activities.get(&(id.0).0) {
            Some(x) => Some(x.clone()),
            None => None,
        }
    }

    /// The timer with an id.
    pub fn get_timer(&self, id: TimerId) -> (r: Option<Timer>)
        ensures
            r.deep_view() == self@.timer(id),
    {
        broadcast use vstd::std_specs::hash::group_hash_axioms;

        match self.timers.get(&(id.0).0) {
            Some(x) => Some(x.clone()),
            None => None,
        }
    }

    /// The children of a node that have not ended.
    pub fn children(&self, id: NodeId) -> (r: Vec<NodeId>)
        ensures
            r.deep_view() == self@.children(id),
    {
        match id {
            NodeId::Execution(e) => match self.get_execution(e) {
                Some(x) => x.active_children,
                None => no_children(),
            },
            NodeId::Activity(a) => match self.get_activity(a) {
                Some(x) => x.active_children,
                None => no_children(),
            },
            NodeId::Timer(_) => no_children(),
            NodeId::Task(_) => no_children(),
        }
    }

    /// Stores an execution, in place of what was stored under its id.
    pub fn put_execution(&mut self, exec: Execution)
        ensures
            final(self)@ == (NodeStoreView {
                executions: old(self)@.executions.insert((exec.id.0).0, exec@),
                ..old(self)@
            }),
    {
        broadcast use vstd::std_specs::hash::group_hash_axioms;

        let ghost before = self@.executions;
        self.executions.insert((exec.id.0).0, exec);
        assert(self@.executions =~= before.insert((exec.id.0).0, exec@));
    }

    /// Stores an activity, in place of what was stored under its id.
    pub fn put_activity(&mut self, act: Activity)
        ensures
            final(self)@ == (NodeStoreView {
                activities: old(self)@.activities.insert((act.id.0).0, act@),
                ..old(self)@
            }),
    {
        broadcast use vstd::std_specs::hash::group_hash_axioms;

        let ghost before = self@.activities;
        self.activities.insert((act.id.0).0, act);
        assert(self@.activities =~= before.insert((act.id.0).0, act@));
    }

    /// Stores a timer, in place of what was stored under its id.
    pub fn put_timer(&mut self, timer: Timer)
        ensures
            final(self)@ == (NodeStoreView {
                timers: old(self)@.timers.insert((timer.id.0).0, timer@),
                ..old(self)@
            }),
    {
        broadcast use vstd::std_specs::hash::group_hash_axioms;

        let ghost before = self@.timers;
        self.timers.insert((timer.id.0).0, timer);
        assert(self@.timers =~= before.insert((timer.id.0).0, timer@));
    }

    fn set_children(&mut self, node: NodeId, children: Vec<NodeId>)
        ensures
            final(self)@ == old(self)@.with_children(node, children.deep_view()),
    {
        broadcast use vstd::std_specs::hash::group_hash_axioms;

        let ghost before = self@;
        match node {
            NodeId::Execution(id) => {
                if let Some(mut x) = self.get_execution(id) {
                    x.active_children = children;
                    self.executions.insert((id.0).0, x);
                    assert(self@.executions =~= before.executions.insert((id.0).0, x@));
                }
            },
            NodeId::Activity(id) => {
                if let Some(mut x) = self.get_activity(id) {
                    x.active_children = children;
                    self.activities.insert((id.0).0, x);
                    assert(self@.activities =~= before.activities.insert((id.0).0, x@));
                }
            },
            NodeId::Timer(_) => {},
            NodeId::Task(_) => {},
        }
    }

    /// Takes a child that has ended off the list of its owner.
    pub fn remove_child(&mut self, parent: NodeId, child: NodeId)
        ensures
            final(self)@ == old(self)@.with_children(
                parent,
                parted(old(self)@.children(parent), child),
            ),
    {
        let children = self.children(parent);
        self.set_children(parent, part(&children, child));
    }

    /// Puts a child on the list of its owner.
    pub fn add_child(&mut self, parent: NodeId, child: NodeId)
        ensures
            final(self)@ == old(self)@.with_children(
                parent,
                joined(old(self)@.children(parent), child),
            ),
    {
        let children = self.children(parent);
        self.set_children(parent, join(&children, child));
    }
}

fn no_children() -> (r: Vec<NodeId>)
    ensures
        r.deep_view() == Seq::<NodeId>::empty(),
{
    let r: Vec<NodeId> = Vec::new();
    assert(r.deep_view() =~= Seq::empty());
    r
}

} // verus!
