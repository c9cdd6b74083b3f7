//! Activities.

use vstd::prelude::*;

use crate::id::Timestamp;
use crate::types::meta::{ObjectMeta, ObjectMetaView, ObjectReference, ObjectReferenceView};
use crate::types::state_path::StatePath;
use crate::types::status::{Lifecycle, LifecycleView};
use crate::types::task::{RetryState, RetryStateView};
use crate::value::{Json, Value};

verus! {

/// One child of a container: the branch or item it runs, and the thread that runs it.
#[derive(Debug, PartialEq, Eq)]
pub struct Slot {
    pub index: usize,
    pub thread: ObjectReference,
}

/// What a [`Slot`] holds.
pub struct SlotView {
    pub index: usize,
    pub thread: ObjectReferenceView,
}

impl View for Slot {
    type V = SlotView;

    open spec fn view(&self) -> SlotView {
        SlotView {
            index: self.index,
            thread: self.thread@,
        }
    }
}

impl DeepView for Slot {
    type V = SlotView;

    open spec fn deep_view(&self) -> SlotView {
        self.view()
    }
}

impl Clone for Slot {
    fn clone(&self) -> (r: Self)
        ensures
            r@ == self@,
    {
        Slot {
            index: self.index,
            thread: self.thread.clone(),
        }
    }
}

/// What a `Wait` carries.
#[derive(Clone, Copy, Debug, PartialEq, Eq, Structural)]
pub struct WaitActivityState {
    /// The instant at which the state resumes.
    pub resume_at: Timestamp,
}

impl View for WaitActivityState {
    type V = WaitActivityState;

    open spec fn view(&self) -> WaitActivityState {
        *self
    }
}

impl DeepView for WaitActivityState {
    type V = WaitActivityState;

    open spec fn deep_view(&self) -> WaitActivityState {
        self.view()
    }
}

/// What a `Parallel` carries: its branches that have been spawned, in ascending order of index.
#[derive(Debug, PartialEq, Eq)]
pub struct ParallelActivityState {
    pub branches: Vec<Slot>,
}

/// What a [`ParallelActivityState`] holds.
pub struct ParallelActivityStateView {
    pub branches: Seq<SlotView>,
}

impl View for ParallelActivityState {
    type V = ParallelActivityStateView;

    open spec fn view(&self) -> ParallelActivityStateView {
        ParallelActivityStateView {
            branches: self.branches.deep_view(),
        }
    }
}

impl DeepView for ParallelActivityState {
    type V = ParallelActivityStateView;

    open spec fn deep_view(&self) -> ParallelActivityStateView {
        self.view()
    }
}

impl Clone for ParallelActivityState {
    fn clone(&self) -> (r: Self)
        ensures
            r@ == self@,
    {
        let r = ParallelActivityState {
            branches: self.branches.clone(),
        };
        assert(r.branches.deep_view() =~= self.branches.deep_view());
        r
    }
}

/// What a `Map` carries: the plan made from its input, and its items that have been spawned, in ascending
/// order of index.
#[derive(Debug, PartialEq, Eq)]
pub struct MapActivityState {
    pub items: Vec<Value>,
    pub total: usize,
    /// Items that may be in flight at once; zero is no limit.
    pub max_concurrency: usize,
    pub children: Vec<Slot>,
}

/// What a [`MapActivityState`] holds.
pub struct MapActivityStateView {
    pub items: Seq<Json>,
    pub total: usize,
    pub max_concurrency: usize,
    pub children: Seq<SlotView>,
}

impl View for MapActivityState {
    type V = MapActivityStateView;

    open spec fn view(&self) -> MapActivityStateView {
        MapActivityStateView {
            items: self.items.deep_view(),
            total: self.total,
            max_concurrency: self.max_concurrency,
            children: self.children.deep_view(),
        }
    }
}

impl DeepView for MapActivityState {
    type V = MapActivityStateView;

    open spec fn deep_view(&self) -> MapActivityStateView {
        self.view()
    }
}

impl Clone for MapActivityState {
    fn clone(&self) -> (r: Self)
        ensures
            r@ == self@,
    {
        let r = MapActivityState {
            items: self.items.clone(),
            total: self.total,
            max_concurrency: self.max_concurrency,
            children: self.children.clone(),
        };
        assert(r.items.deep_view() =~= self.items.deep_view());
        assert(r.children.deep_view() =~= self.children.deep_view());
        r
    }
}

/// What an activity carries beyond what all states carry.
#[derive(Debug, PartialEq, Eq)]
pub enum ActivityState {
    Wait(WaitActivityState),
    Parallel(ParallelActivityState),
    ItemMap(MapActivityState),
}

/// What a [`ActivityState`] holds.
pub enum ActivityStateView {
    Wait(WaitActivityState),
    Parallel(ParallelActivityStateView),
    ItemMap(MapActivityStateView),
}

impl View for ActivityState {
    type V = ActivityStateView;

    open spec fn view(&self) -> ActivityStateView {
        match self {
            ActivityState::Wait(x) => ActivityStateView::Wait(*x),
            ActivityState::Parallel(x) => ActivityStateView::Parallel(x@),
            ActivityState::ItemMap(x) => ActivityStateView::ItemMap(x@),
        }
    }
}

impl DeepView for ActivityState {
    type V = ActivityStateView;

    open spec fn deep_view(&self) -> ActivityStateView {
        self.view()
    }
}

impl Clone for ActivityState {
    fn clone(&self) -> (r: Self)
        ensures
            r@ == self@,
    {
        match self {
            ActivityState::Wait(x) => ActivityState::Wait(*x),
            ActivityState::Parallel(x) => ActivityState::Parallel(x.clone()),
            ActivityState::ItemMap(x) => ActivityState::ItemMap(x.clone()),
        }
    }
}

/// One activation of a state.
#[derive(Debug, PartialEq, Eq)]
pub struct Activity {
    pub meta: ObjectMeta,
    pub execution: ObjectReference,
    /// Where the state stands in the machine.
    pub state_path: StatePath,
    pub status: Lifecycle,
    /// What the state was entered with.
    pub raw_input: Value,
    /// What the state works on, once its input has been processed.
    pub input: Option<Value>,
    /// What the state produced, before any projection.
    pub raw_output: Option<Value>,
    pub activity_state: Option<ActivityState>,
    pub retry_state: Option<RetryState>,
    pub output: Option<Value>,
}

/// What a [`Activity`] holds.
pub struct ActivityView {
    pub meta: ObjectMetaView,
    pub execution: ObjectReferenceView,
    pub state_path: Seq<Seq<char>>,
    pub status: LifecycleView,
    pub raw_input: Json,
    pub input: Option<Json>,
    pub raw_output: Option<Json>,
    pub activity_state: Option<ActivityStateView>,
    pub retry_state: Option<RetryStateView>,
    pub output: Option<Json>,
}

impl View for Activity {
    type V = ActivityView;

    open spec fn view(&self) -> ActivityView {
        ActivityView {
            meta: self.meta@,
            execution: self.execution@,
            state_path: self.state_path@,
            status: self.status@,
            raw_input: self.raw_input@,
            input: self.input.deep_view(),
            raw_output: self.raw_output.deep_view(),
            activity_state: self.activity_state.deep_view(),
            retry_state: self.retry_state.deep_view(),
            output: self.output.deep_view(),
        }
    }
}

impl DeepView for Activity {
    type V = ActivityView;

    open spec fn deep_view(&self) -> ActivityView {
        self.view()
    }
}

impl Clone for Activity {
    fn clone(&self) -> (r: Self)
        ensures
            r@ == self@,
    {
        Activity {
            meta: self.meta.clone(),
            execution: self.execution.clone(),
            state_path: self.state_path.clone(),
            status: self.status.clone(),
            raw_input: self.raw_input.clone(),
            input: self.input.clone(),
            raw_output: self.raw_output.clone(),
            activity_state: self.activity_state.clone(),
            retry_state: self.retry_state.clone(),
            output: self.output.clone(),
        }
    }
}

impl ActivityView {
    /// The reference that addresses this activity.
    pub open spec fn reference(self) -> ObjectReferenceView {
        self.meta.reference()
    }
}

impl Activity {
    /// The reference that addresses this activity.
    pub fn reference(&self) -> (r: ObjectReference)
        ensures
            r@ == self@.reference(),
    {
        self.meta.reference()
    }
}

impl ActivityView {
    /// How often the work of the state was retried.
    pub open spec fn retry_count(self) -> u32 {
        match self.retry_state {
            Some(retry_state) => retry_state.attempts,
            None => 0,
        }
    }
}

impl Activity {
    /// How often the work of the state was retried.
    pub fn retry_count(&self) -> (r: u32)
        ensures
            r == self@.retry_count(),
    {
        match &self.retry_state {
            Some(retry_state) => retry_state.attempts,
            None => 0,
        }
    }
}

/// The first position of `slots` whose index is not below `index`.
pub open spec fn slot_position(slots: Seq<SlotView>, index: usize) -> int
    decreases slots.len(),
{
    if slots.len() == 0 || slots[0].index >= index {
        0
    } else {
        1 + slot_position(slots.drop_first(), index)
    }
}

/// `slots` with `thread` at `index`: in place of what stood there, or between its neighbours.
pub open spec fn place_slot(
    slots: Seq<SlotView>,
    index: usize,
    thread: ObjectReferenceView,
) -> Seq<SlotView> {
    let p = slot_position(slots, index);
    if p < slots.len() && slots[p].index == index {
        slots.update(p, SlotView { index, thread })
    } else {
        slots.insert(p, SlotView { index, thread })
    }
}

/// Whether the indices of `slots` ascend, so that none occurs twice.
pub open spec fn ascending(slots: Seq<SlotView>) -> bool {
    forall|i: int, j: int|
        0 <= i < j < slots.len() ==> (#[trigger] slots[i]).index < (#[trigger] slots[j]).index
}

/// [`slot_position`] parts the slots below the index from the others.
pub proof fn lemma_slot_position(slots: Seq<SlotView>, index: usize)
    ensures
        0 <= slot_position(slots, index) <= slots.len(),
        forall|j: int|
            0 <= j < slot_position(slots, index) ==> (#[trigger] slots[j]).index < index,
        slot_position(slots, index) < slots.len() ==> slots[slot_position(slots, index)].index
            >= index,
    decreases slots.len(),
{
    if slots.len() > 0 && slots[0].index < index {
        let rest = slots.drop_first();
        lemma_slot_position(rest, index);
        assert forall|j: int| 0 <= j < slot_position(slots, index) implies (
        #[trigger] slots[j]).index < index by {
            if j > 0 {
                assert(rest[j - 1] == slots[j]);
            }
        }
    }
}

/// A position that parts the slots below the index from the others is [`slot_position`].
pub proof fn lemma_slot_position_unique(slots: Seq<SlotView>, index: usize, p: int)
    requires
        0 <= p <= slots.len(),
        forall|j: int| 0 <= j < p ==> (#[trigger] slots[j]).index < index,
        p < slots.len() ==> slots[p].index >= index,
    ensures
        slot_position(slots, index) == p,
{
    lemma_slot_position(slots, index);
    let q = slot_position(slots, index);
    if q < p {
        assert(slots[q].index < index);
    }
    if p < q {
        assert(slots[p].index < index);
    }
}

/// Placing a slot keeps the slots in ascending order.
pub proof fn lemma_place_slot_ascending(
    slots: Seq<SlotView>,
    index: usize,
    thread: ObjectReferenceView,
)
    requires
        ascending(slots),
    ensures
        ascending(place_slot(slots, index, thread)),
{
    lemma_slot_position(slots, index);
    let p = slot_position(slots, index);
    let after = place_slot(slots, index, thread);
    assert forall|i: int, j: int| 0 <= i < j < after.len() implies (#[trigger] after[i]).index < (
    #[trigger] after[j]).index by {
        if p < slots.len() && slots[p].index == index {
            if i < p {
                assert(slots[i].index < index);
            }
        } else {
            if i < p {
                assert(after[i] == slots[i]);
            } else if i > p {
                assert(after[i] == slots[i - 1]);
            }
            if j < p {
                assert(after[j] == slots[j]);
            } else if j > p {
                assert(after[j] == slots[j - 1]);
                if p < slots.len() {
                    assert(slots[p].index <= slots[j - 1].index);
                }
            }
        }
    }
}

/// Ascending slots that all lie below `total` are at most `total`.
pub proof fn lemma_ascending_len(slots: Seq<SlotView>, total: int)
    requires
        ascending(slots),
        0 <= total,
        forall|i: int| 0 <= i < slots.len() ==> (#[trigger] slots[i]).index < total,
    ensures
        slots.len() <= total,
    decreases slots.len(),
{
    if slots.len() > 0 {
        let last = slots.last();
        let init = slots.drop_last();
        assert(slots[slots.len() - 1].index < total);
        assert forall|i: int| 0 <= i < init.len() implies (#[trigger] init[i]).index
            < last.index by {
            assert(init[i] == slots[i]);
            assert(slots[slots.len() - 1] == last);
        }
        assert(ascending(init)) by {
            assert forall|i: int, j: int| 0 <= i < j < init.len() implies (
            #[trigger] init[i]).index < (#[trigger] init[j]).index by {
                assert(init[i] == slots[i] && init[j] == slots[j]);
            }
        }
        lemma_ascending_len(init, last.index as int);
    }
}

/// Places `thread` at `index` among the children of a container.
pub fn place_child(slots: &mut Vec<Slot>, index: usize, thread: ObjectReference)
    ensures
        final(slots).deep_view() == place_slot(old(slots).deep_view(), index, thread@),
{
    let ghost before = slots.deep_view();
    let mut p: usize = 0;
    while p < slots.len() && slots[p].index < index
        invariant
            p <= slots.len(),
            slots.deep_view() == before,
            forall|j: int| 0 <= j < p ==> (#[trigger] before[j]).index < index,
        decreases slots.len() - p,
    {
        assert(before[p as int] == slots@[p as int]@);
        p += 1;
    }
    proof {
        if p < slots.len() {
            assert(before[p as int] == slots@[p as int]@);
        }
        lemma_slot_position_unique(before, index, p as int);
    }
    if p < slots.len() && slots[p].index == index {
        slots.set(p, Slot { index, thread });
    } else {
        slots.insert(p, Slot { index, thread });
    }
    assert(slots.deep_view() =~= place_slot(before, index, thread@));
}

impl Default for MapActivityState {
    fn default() -> (r: Self)
        ensures
            r@ == no_plan(),
    {
        let r = MapActivityState {
            items: Vec::new(),
            total: 0,
            max_concurrency: 0,
            children: Vec::new(),
        };
        assert(r@.items =~= Seq::empty());
        assert(r@.children =~= Seq::empty());
        r
    }
}

impl Default for ParallelActivityState {
    fn default() -> (r: Self)
        ensures
            r@ == no_branches(),
    {
        let r = ParallelActivityState { branches: Vec::new() };
        assert(r@.branches =~= Seq::empty());
        r
    }
}

/// What a `Map` carries before its plan is made.
pub open spec fn no_plan() -> MapActivityStateView {
    MapActivityStateView {
        items: Seq::empty(),
        total: 0,
        max_concurrency: 0,
        children: Seq::empty(),
    }
}

/// What a `Parallel` carries before a branch is spawned.
pub open spec fn no_branches() -> ParallelActivityStateView {
    ParallelActivityStateView { branches: Seq::empty() }
}

} // verus!
