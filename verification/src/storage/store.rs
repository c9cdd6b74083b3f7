//! The store: the rows of all objects, by kind and name.

use vstd::prelude::*;

use crate::id::Timestamp;
use crate::query::{
    group_query_object_view, query_object_view, QueryObject, QueryObjectView,
};
use crate::storage::activity::{ActivityRecord, ActivityRecordView};
use crate::storage::execution::{ExecutionRecord, ExecutionRecordView};
use crate::storage::task::{Task as TaskRecord, TaskRecordView};
use crate::storage::thread::{ThreadRecord, ThreadRecordView};
use crate::storage::timer::{TimerRecord, TimerRecordView};
use crate::text::same_text;
use crate::types::error::{ExecutionError, ExecutionErrorView};
use crate::types::flow::{Flow, FlowView};
use crate::types::meta::{
    name_text, ObjectKind, ObjectName, ObjectNameView, ObjectReference, ObjectReferenceView,
};

verus! {

broadcast use group_query_object_view;

/// What a row is stored under: its kind, and its name in text.
pub type RowKey = (ObjectKind, Seq<char>);

/// What a store holds.
pub struct StoreView {
    /// The rows, by kind and name.
    pub rows: Map<RowKey, QueryObjectView>,
    /// The keys, in the order in which they were first stored.
    pub order: Seq<RowKey>,
    /// Why the store cannot be read, when it cannot.
    pub fault: Option<ExecutionErrorView>,
    /// The next number of the counter that generated names draw on.
    pub next_seq: u64,
}

/// The number that follows `n` in the counter of generated names. The counter ends with its largest
/// number.
pub open spec fn next_number(n: u64) -> u64 {
    if n < u64::MAX {
        (n + 1) as u64
    } else {
        n
    }
}

impl StoreView {
    /// The store after drawing the number `self.next_seq`.
    pub open spec fn drawn(self) -> StoreView {
        StoreView { next_seq: next_number(self.next_seq), ..self }
    }

    /// The store with its counter past the number `n`.
    pub open spec fn beyond(self, n: Option<u64>) -> StoreView {
        match n {
            Some(n) if n >= self.next_seq => StoreView { next_seq: next_number(n), ..self },
            _ => self,
        }
    }
}

/// The key of a row.
pub open spec fn row_key(row: QueryObjectView) -> RowKey {
    (row.kind(), name_text(row.name()))
}

/// The rows of a list, by key; of two with the same key, the later one.
pub open spec fn rows_by_key(rows: Seq<QueryObjectView>) -> Map<RowKey, QueryObjectView>
    decreases rows.len(),
{
    if rows.len() == 0 {
        Map::empty()
    } else {
        rows_by_key(rows.drop_last()).insert(row_key(rows.last()), rows.last())
    }
}

/// The keys of a list of rows.
pub open spec fn keys_of(rows: Seq<QueryObjectView>) -> Seq<RowKey> {
    rows.map_values(|row: QueryObjectView| row_key(row))
}

proof fn lemma_no_row(rows: Seq<QueryObjectView>, key: RowKey)
    requires
        forall|j: int| 0 <= j < rows.len() ==> row_key(#[trigger] rows[j]) != key,
    ensures
        !rows_by_key(rows).contains_key(key),
    decreases rows.len(),
{
    if rows.len() > 0 {
        assert(rows[rows.len() - 1] == rows.last());
        assert forall|j: int| 0 <= j < rows.drop_last().len() implies row_key(
            #[trigger] rows.drop_last()[j],
        ) != key by {
            assert(rows.drop_last()[j] == rows[j]);
        }
        lemma_no_row(rows.drop_last(), key);
    }
}

proof fn lemma_row_at(rows: Seq<QueryObjectView>, i: int)
    requires
        0 <= i < rows.len(),
        forall|j: int| i < j < rows.len() ==> row_key(#[trigger] rows[j]) != row_key(rows[i]),
    ensures
        rows_by_key(rows).contains_key(row_key(rows[i])),
        rows_by_key(rows)[row_key(rows[i])] == rows[i],
    decreases rows.len(),
{
    let init = rows.drop_last();
    if i < rows.len() - 1 {
        assert(rows[rows.len() - 1] == rows.last());
        assert forall|j: int| i < j < init.len() implies row_key(#[trigger] init[j]) != row_key(
            init[i],
        ) by {
            assert(init[j] == rows[j]);
        }
        lemma_row_at(init, i);
    }
}

proof fn lemma_replace_row(rows: Seq<QueryObjectView>, i: int, row: QueryObjectView)
    requires
        0 <= i < rows.len(),
        row_key(row) == row_key(rows[i]),
        forall|j: int| i < j < rows.len() ==> row_key(#[trigger] rows[j]) != row_key(row),
    ensures
        rows_by_key(rows.update(i, row)) == rows_by_key(rows).insert(row_key(row), row),
    decreases rows.len(),
{
    let after = rows.update(i, row);
    if i == rows.len() - 1 {
        assert(after.drop_last() =~= rows.drop_last());
        assert(rows_by_key(after) =~= rows_by_key(rows).insert(row_key(row), row));
    } else {
        let init = rows.drop_last();
        assert(after.drop_last() =~= init.update(i, row));
        assert(rows[rows.len() - 1] == rows.last());
        assert forall|j: int| i < j < init.len() implies row_key(#[trigger] init[j]) != row_key(
            row,
        ) by {
            assert(init[j] == rows[j]);
        }
        lemma_replace_row(init, i, row);
        assert(rows_by_key(after) =~= rows_by_key(rows).insert(row_key(row), row));
    }
}

proof fn lemma_keyed(rows: Seq<QueryObjectView>, key: RowKey)
    ensures
        rows_by_key(rows).contains_key(key) ==> keys_of(rows).contains(key) && row_key(
            rows_by_key(rows)[key],
        ) == key,
    decreases rows.len(),
{
    if rows.len() > 0 {
        let init = rows.drop_last();
        lemma_keyed(init, key);
        let keys = keys_of(rows);
        if row_key(rows.last()) == key {
            assert(keys[rows.len() - 1] == key);
        } else if rows_by_key(rows).contains_key(key) {
            let i = choose|i: int| 0 <= i < keys_of(init).len() && keys_of(init)[i] == key;
            assert(keys[i] == key);
        }
    }
}

proof fn lemma_listed_key(rows: Seq<QueryObjectView>, i: int)
    requires
        0 <= i < rows.len(),
    ensures
        rows_by_key(rows).contains_key(keys_of(rows)[i]),
    decreases rows.len(),
{
    let init = rows.drop_last();
    if i < init.len() {
        assert(init[i] == rows[i]);
        lemma_listed_key(init, i);
    }
}

impl StoreView {
    /// The row stored under a key.
    pub open spec fn row_at(self, key: RowKey) -> Option<QueryObjectView> {
        if self.rows.contains_key(key) {
            Some(self.rows[key])
        } else {
            None
        }
    }

    /// The row stored under a kind and a name.
    pub open spec fn get(self, kind: ObjectKind, name: ObjectNameView) -> Option<QueryObjectView> {
        self.row_at((kind, name_text(name)))
    }

    /// The store with `row` in place of what was stored under its key.
    pub open spec fn put(self, row: QueryObjectView) -> StoreView {
        StoreView {
            rows: self.rows.insert(row_key(row), row),
            order: if self.rows.contains_key(row_key(row)) {
                self.order
            } else {
                self.order.push(row_key(row))
            },
            ..self
        }
    }

    /// What reading an execution gives.
    pub open spec fn execution(self, r: ObjectReferenceView) -> Result<
        Option<ExecutionRecordView>,
        ExecutionErrorView,
    > {
        match self.fault {
            Some(e) => Err(e),
            None => match self.get(ObjectKind::Execution, r.name) {
                Some(QueryObjectView::Execution(x)) => Ok(Some(x)),
                _ => Ok(None),
            },
        }
    }

    /// What reading a thread gives.
    pub open spec fn thread(self, r: ObjectReferenceView) -> Result<
        Option<ThreadRecordView>,
        ExecutionErrorView,
    > {
        match self.fault {
            Some(e) => Err(e),
            None => match self.get(ObjectKind::Thread, r.name) {
                Some(QueryObjectView::Thread(x)) => Ok(Some(x)),
                _ => Ok(None),
            },
        }
    }

    /// What reading an activity gives.
    pub open spec fn activity(self, r: ObjectReferenceView) -> Result<
        Option<ActivityRecordView>,
        ExecutionErrorView,
    > {
        match self.fault {
            Some(e) => Err(e),
            None => match self.get(ObjectKind::Activity, r.name) {
                Some(QueryObjectView::Activity(x)) => Ok(Some(x)),
                _ => Ok(None),
            },
        }
    }

    /// What reading a timer gives.
    pub open spec fn timer(self, r: ObjectReferenceView) -> Result<
        Option<TimerRecordView>,
        ExecutionErrorView,
    > {
        match self.fault {
            Some(e) => Err(e),
            None => match self.get(ObjectKind::Timer, r.name) {
                Some(QueryObjectView::Timer(x)) => Ok(Some(x)),
                _ => Ok(None),
            },
        }
    }

    /// What reading a task gives.
    pub open spec fn task(self, r: ObjectReferenceView) -> Result<
        Option<TaskRecordView>,
        ExecutionErrorView,
    > {
        match self.fault {
            Some(e) => Err(e),
            None => match self.get(ObjectKind::Task, r.name) {
                Some(QueryObjectView::Task(x)) => Ok(Some(x)),
                _ => Ok(None),
            },
        }
    }

    /// What reading a flow by its name gives.
    pub open spec fn flow(self, name: ObjectNameView) -> Result<
        Option<FlowView>,
        ExecutionErrorView,
    > {
        match self.fault {
            Some(e) => Err(e),
            None => match self.get(ObjectKind::Flow, name) {
                Some(QueryObjectView::Flow(x)) => Ok(Some(x)),
                _ => Ok(None),
            },
        }
    }

    /// The tasks of `resource` that can be claimed at `now`, among the rows under `keys`: the first
    /// `max` of them.
    pub open spec fn activatable_among(
        self,
        keys: Seq<RowKey>,
        resource: Seq<char>,
        now: Timestamp,
        max: nat,
    ) -> Seq<TaskRecordView>
        decreases keys.len(),
    {
        if keys.len() == 0 {
            Seq::empty()
        } else {
            let before = self.activatable_among(keys.drop_last(), resource, now, max);
            match self.row_at(keys.last()) {
                Some(QueryObjectView::Task(x)) if before.len() < max && x.value.resource == resource
                    && x.value.claimable(now) => before.push(x),
                _ => before,
            }
        }
    }

    /// No more than `max` tasks are found.
    pub proof fn lemma_activatable_len(
        self,
        keys: Seq<RowKey>,
        resource: Seq<char>,
        now: Timestamp,
        max: nat,
    )
        ensures
            self.activatable_among(keys, resource, now, max).len() <= max,
        decreases keys.len(),
    {
        if keys.len() > 0 {
            self.lemma_activatable_len(keys.drop_last(), resource, now, max);
        }
    }

    /// What looking for claimable tasks gives.
    pub open spec fn activatable(self, resource: Seq<char>, now: Timestamp, max: nat) -> Result<
        Seq<TaskRecordView>,
        ExecutionErrorView,
    > {
        match self.fault {
            Some(e) => Err(e),
            None => Ok(self.activatable_among(self.order, resource, now, max)),
        }
    }

    /// The children of a node still in flight; a node that is not stored, or that owns none, has
    /// none.
    pub open spec fn children(self, r: ObjectReferenceView) -> Result<
        Seq<ObjectReferenceView>,
        ExecutionErrorView,
    > {
        match self.fault {
            Some(e) => Err(e),
            None => match self.get(r.kind, r.name) {
                Some(QueryObjectView::Execution(x)) => Ok(x.active_children),
                Some(QueryObjectView::Thread(x)) => Ok(x.active_children),
                Some(QueryObjectView::Activity(x)) => Ok(x.active_children),
                _ => Ok(Seq::empty()),
            },
        }
    }
}

/// A list of children with `child` in it.
pub open spec fn with_one(
    children: Seq<ObjectReferenceView>,
    child: ObjectReferenceView,
) -> Seq<ObjectReferenceView> {
    if children.contains(child) {
        children
    } else {
        children.push(child)
    }
}

/// A list of children without `child`.
pub open spec fn without_one(
    children: Seq<ObjectReferenceView>,
    child: ObjectReferenceView,
) -> Seq<ObjectReferenceView>
    decreases children.len(),
{
    if children.len() == 0 {
        children
    } else {
        let init = without_one(children.drop_last(), child);
        if children.last() == child {
            init
        } else {
            init.push(children.last())
        }
    }
}

/// Adding a child and removing it again leaves a list that did not hold it as it was; and what is
/// removed is gone.
pub proof fn law_child_added_then_removed(
    children: Seq<ObjectReferenceView>,
    child: ObjectReferenceView,
)
    ensures
        !without_one(children, child).contains(child),
        !children.contains(child) ==> without_one(with_one(children, child), child) == children,
    decreases children.len(),
{
    if children.len() > 0 {
        let init = children.drop_last();
        law_child_added_then_removed(init, child);
        if !children.contains(child) {
            assert(!init.contains(child)) by {
                assert forall|i: int| 0 <= i < init.len() implies init[i] != child by {
                    assert(children[i] == init[i]);
                }
            }
            assert(children[children.len() - 1] == children.last());
            assert(with_one(init, child).drop_last() =~= init);
            assert(without_one(init, child) == init);
            assert(without_one(children, child) =~= children);
        }
        let gone = without_one(children, child);
        assert(!gone.contains(child)) by {
            assert forall|i: int| 0 <= i < gone.len() implies gone[i] != child by {
                if i < without_one(init, child).len() {
                    assert(gone[i] == without_one(init, child)[i]);
                }
            }
        }
    }
    if !children.contains(child) {
        assert(children.push(child).drop_last() =~= children);
        lemma_absent_child(children, child);
    }
}

/// Removing a child that is not listed changes nothing.
pub proof fn lemma_absent_child(children: Seq<ObjectReferenceView>, child: ObjectReferenceView)
    requires
        !children.contains(child),
    ensures
        without_one(children, child) == children,
    decreases children.len(),
{
    if children.len() > 0 {
        let init = children.drop_last();
        assert(!init.contains(child)) by {
            assert forall|i: int| 0 <= i < init.len() implies init[i] != child by {
                assert(children[i] == init[i]);
            }
        }
        lemma_absent_child(init, child);
        assert(children[children.len() - 1] == children.last());
        assert(without_one(children, child) =~= children);
    }
}

/// Removing a child keeps the others, and only them.
pub proof fn lemma_without_one_contains(
    children: Seq<ObjectReferenceView>,
    child: ObjectReferenceView,
    other: ObjectReferenceView,
)
    requires
        other != child,
    ensures
        without_one(children, child).contains(other) == children.contains(other),
    decreases children.len(),
{
    if children.len() > 0 {
        let init = children.drop_last();
        lemma_without_one_contains(init, child, other);
        let gone = without_one(children, child);
        if children.contains(other) {
            let i = choose|i: int| 0 <= i < children.len() && children[i] == other;
            if i < init.len() {
                assert(init[i] == other);
                assert(init.contains(other));
                let k = choose|k: int|
                    0 <= k < without_one(init, child).len() && without_one(init, child)[k]
                        == other;
                assert(gone[k] == other);
            } else {
                assert(gone[gone.len() - 1] == other);
            }
        }
        if gone.contains(other) {
            let k = choose|k: int| 0 <= k < gone.len() && gone[k] == other;
            if k < without_one(init, child).len() {
                assert(without_one(init, child)[k] == other);
                assert(init.contains(other));
                let i = choose|i: int| 0 <= i < init.len() && init[i] == other;
                assert(children[i] == other);
            } else {
                assert(children[children.len() - 1] == other);
            }
        }
    }
}

/// Whether `child` is listed.
pub fn lists(children: &Vec<ObjectReference>, child: &ObjectReference) -> (r: bool)
    ensures
        r == children.deep_view().contains(child@),
{
    let ghost all = children.deep_view();
    let mut i: usize = 0;
    while i < children.len()
        invariant
            i <= children.len(),
            all == children.deep_view(),
            forall|j: int| 0 <= j < i ==> #[trigger] all[j] != child@,
        decreases children.len() - i,
    {
        assert(all[i as int] == children@[i as int]@);
        if children[i].same(child) {
            return true;
        }
        i += 1;
    }
    false
}

/// Lists `child`, unless it is listed.
pub fn insert_child(children: &mut Vec<ObjectReference>, child: &ObjectReference)
    ensures
        final(children).deep_view() == with_one(old(children).deep_view(), child@),
{
    let ghost before = children.deep_view();
    if !lists(children, child) {
        children.push(child.clone());
        assert(children.deep_view() =~= before.push(child@));
    }
}

/// The list without `child`.
pub fn remove_child(children: &Vec<ObjectReference>, child: &ObjectReference) -> (r: Vec<
    ObjectReference,
>)
    ensures
        r.deep_view() == without_one(children.deep_view(), child@),
{
    let ghost all = children.deep_view();
    let mut r: Vec<ObjectReference> = Vec::new();
    let mut i: usize = 0;
    assert(r.deep_view() =~= without_one(all.take(0), child@));
    while i < children.len()
        invariant
            i <= children.len(),
            all == children.deep_view(),
            r.deep_view() == without_one(all.take(i as int), child@),
        decreases children.len() - i,
    {
        let ghost next = all.take(i as int + 1);
        let ghost done = r.deep_view();
        assert(next.drop_last() =~= all.take(i as int));
        assert(next.last() == children@[i as int]@);
        if !children[i].same(child) {
            r.push(children[i].clone());
            assert(r.deep_view() =~= done.push(children@[i as int]@));
        }
        i += 1;
    }
    assert(all.take(all.len() as int) =~= all);
    r
}

/// The store: the rows of all objects, and the counter that generated names draw on.
#[derive(Debug, PartialEq, Eq)]
pub struct Store {
    rows: Vec<QueryObject>,
    fault: Option<ExecutionError>,
    next_seq: u64,
}

impl View for Store {
    type V = StoreView;

    closed spec fn view(&self) -> StoreView {
        StoreView {
            rows: rows_by_key(self.rows.deep_view()),
            order: keys_of(self.rows.deep_view()),
            fault: self.fault.deep_view(),
            next_seq: self.next_seq,
        }
    }
}

impl DeepView for Store {
    type V = StoreView;

    open spec fn deep_view(&self) -> StoreView {
        self.view()
    }
}

impl Clone for Store {
    fn clone(&self) -> (r: Self)
        ensures
            r@ == self@,
    {
        let r = Store {
            rows: self.rows.clone(),
            fault: self.fault.clone(),
            next_seq: self.next_seq,
        };
        assert(r.rows.deep_view() =~= self.rows.deep_view());
        r
    }
}

/// The store that holds nothing.
pub open spec fn empty_store() -> StoreView {
    StoreView { rows: Map::empty(), order: Seq::empty(), fault: None, next_seq: 0 }
}

impl Store {
    /// The store that holds nothing.
    pub fn new() -> (r: Store)
        ensures
            r@ == empty_store(),
    {
        let r = Store { rows: Vec::new(), fault: None, next_seq: 0 };
        assert(r@.order =~= Seq::empty());
        r
    }

    /// Makes every later read fail with `error`.
    pub fn fail(&mut self, error: ExecutionError)
        ensures
            final(self)@ == (StoreView { fault: Some(error@), ..old(self)@ }),
    {
        self.fault = Some(error);
    }

    /// The next number of the counter that generated names draw on.
    pub fn next_generated_seq(&self) -> (r: u64)
        ensures
            r == self@.next_seq,
    {
        self.next_seq
    }

    /// Draws a number for a generated name.
    pub fn draw_seq(&mut self) -> (r: u64)
        ensures
            r == old(self)@.next_seq,
            final(self)@ == old(self)@.drawn(),
    {
        let r = self.next_seq;
        if r < u64::MAX {
            self.next_seq = r + 1;
        }
        r
    }

    /// Takes the counter of generated names past the number `n`.
    pub fn pass_number(&mut self, n: Option<u64>)
        ensures
            final(self)@ == old(self)@.beyond(n),
    {
        if let Some(n) = n {
            if n >= self.next_seq {
                self.next_seq = if n < u64::MAX {
                    n + 1
                } else {
                    n
                };
            }
        }
    }

    /// Where the row of a kind and a name stands, if there is one.
    fn position(&self, kind: ObjectKind, name: &ObjectName) -> (r: Option<usize>)
        ensures
            match r {
                Some(i) => {
                    &&& i < self.rows.len()
                    &&& row_key(self.rows.deep_view()[i as int]) == (kind, name_text(name@))
                    &&& forall|j: int|
                        i < j < self.rows.len() ==> row_key(#[trigger] self.rows.deep_view()[j])
                            != (kind, name_text(name@))
                },
                None => forall|j: int|
                    0 <= j < self.rows.len() ==> row_key(#[trigger] self.rows.deep_view()[j]) != (
                        kind,
                        name_text(name@),
                    ),
            },
    {
        let text = name.as_str();
        let mut i: usize = self.rows.len();
        while i > 0
            invariant
                i <= self.rows.len(),
                text@ == name_text(name@),
                forall|j: int|
                    i <= j < self.rows.len() ==> row_key(#[trigger] self.rows.deep_view()[j]) != (
                        kind,
                        name_text(name@),
                    ),
            decreases i,
        {
            i -= 1;
            assert(self.rows.deep_view()[i as int] == self.rows@[i as int]@);
            if self.rows[i].kind() == kind && same_text(
                self.rows[i].name().as_str().as_str(),
                text.as_str(),
            ) {
                return Some(i);
            }
        }
        None
    }

    /// The row stored under a kind and a name.
    pub fn find(&self, kind: ObjectKind, name: &ObjectName) -> (r: Option<&QueryObject>)
        ensures
            r.deep_view() == self@.get(kind, name@),
    {
        match self.position(kind, name) {
            Some(i) => {
                proof {
                    lemma_row_at(self.rows.deep_view(), i as int);
                    assert(self.rows.deep_view()[i as int] == self.rows@[i as int]@);
                }
                Some(&self.rows[i])
            },
            None => {
                proof {
                    lemma_no_row(self.rows.deep_view(), (kind, name_text(name@)));
                }
                None
            },
        }
    }

    /// Stores `row` in place of what was stored under its key.
    pub fn put(&mut self, row: QueryObject)
        ensures
            final(self)@ == old(self)@.put(row@),
    {
        let ghost before = self.rows.deep_view();
        let kind = row.kind();
        match self.position(kind, row.name()) {
            Some(i) => {
                proof {
                    lemma_row_at(before, i as int);
                    lemma_replace_row(before, i as int, row@);
                }
                self.rows.set(i, row);
                assert(self.rows.deep_view() =~= before.update(i as int, row@));
                assert(keys_of(before.update(i as int, row@)) =~= keys_of(before));
            },
            None => {
                proof {
                    lemma_no_row(before, row_key(row@));
                }
                self.rows.push(row);
                assert(self.rows.deep_view() =~= before.push(row@));
                assert(before.push(row@).drop_last() =~= before);
                assert(keys_of(before.push(row@)) =~= keys_of(before).push(row_key(row@)));
            },
        }
    }

    /// Every row is stored under its own key, every key is listed, and every key that is listed has a
    /// row.
    pub proof fn lemma_keys(&self)
        ensures
            forall|i: int|
                0 <= i < self@.order.len() ==> self@.rows.contains_key(#[trigger] self@.order[i]),
            forall|key: RowKey| #[trigger]
                self@.rows.contains_key(key) ==> self@.order.contains(key) && row_key(
                    self@.rows[key],
                ) == key,
    {
        assert forall|key: RowKey| #[trigger] self@.rows.contains_key(key) implies self@.order.contains(
            key,
        ) && row_key(self@.rows[key]) == key by {
            lemma_keyed(self.rows.deep_view(), key);
        }
        assert forall|i: int| 0 <= i < self@.order.len() implies self@.rows.contains_key(
            #[trigger] self@.order[i],
        ) by {
            lemma_listed_key(self.rows.deep_view(), i);
        }
    }

    /// How many rows are stored.
    pub fn len(&self) -> (r: usize)
        ensures
            r == self@.order.len(),
    {
        self.rows.len()
    }

    /// The kind and the name of the row that was stored as number `i`.
    pub fn key_at(&self, i: usize) -> (r: (ObjectKind, &ObjectName))
        requires
            i < self@.order.len(),
        ensures
            (r.0, name_text(r.1@)) == self@.order[i as int],
    {
        assert(self.rows.deep_view()[i as int] == self.rows@[i as int]@);
        (self.rows[i].kind(), self.rows[i].name())
    }

    /// Fails when the store cannot be read.
    pub fn check(&self) -> (r: Result<(), ExecutionError>)
        ensures
            match r {
                Ok(_) => self@.fault is None,
                Err(e) => self@.fault == Some(e@),
            },
    {
        match &self.fault {
            Some(e) => Err(e.clone()),
            None => Ok(()),
        }
    }

    /// The first `max` tasks of `resource` that can be claimed at `now`.
    pub fn activatable_tasks(&self, resource: &str, now: Timestamp, max: usize) -> (res: Result<
        Vec<TaskRecord>,
        ExecutionError,
    >)
        ensures
            match res {
                Ok(tasks) => self@.activatable(resource@, now, max as nat) == Ok::<
                    _,
                    ExecutionErrorView,
                >(tasks.deep_view()),
                Err(e) => self@.activatable(resource@, now, max as nat) == Err::<
                    Seq<TaskRecordView>,
                    _,
                >(e@),
            },
    {
        match self.check() {
            Ok(_) => {},
            Err(e) => return Err(e),
        }
        let ghost keys = self@.order;
        let mut tasks: Vec<TaskRecord> = Vec::new();
        let mut i: usize = 0;
        assert(keys.take(0) =~= Seq::empty());
        assert(tasks.deep_view() =~= Seq::empty());
        while i < self.rows.len()
            invariant
                i <= self.rows.len(),
                keys == keys_of(self.rows.deep_view()),
                tasks.deep_view() == self@.activatable_among(
                    keys.take(i as int),
                    resource@,
                    now,
                    max as nat,
                ),
            decreases self.rows.len() - i,
        {
            let ghost next = keys.take(i as int + 1);
            let ghost found = tasks.deep_view();
            assert(next.drop_last() =~= keys.take(i as int));
            assert(self.rows.deep_view()[i as int] == self.rows@[i as int]@);
            assert(next.last() == row_key(self.rows@[i as int]@));
            assert(found.len() == tasks@.len());
            let kind = self.rows[i].kind();
            match self.find(kind, self.rows[i].name()) {
                Some(QueryObject::Task(x)) => {
                    if tasks.len() < max && same_text(x.value.resource.as_str(), resource)
                        && x.value.is_claimable_at(now) {
                        tasks.push(x.clone());
                        assert(tasks.deep_view() =~= found.push(x@));
                    }
                },
                Some(_) => {
                    proof {
                        reveal(query_object_view);
                    }
                },
                None => {},
            }
            i += 1;
        }
        assert(keys.take(keys.len() as int) =~= keys);
        Ok(tasks)
    }

    /// Reads an execution.
    pub fn get_execution(&self, r: &ObjectReference) -> (res: Result<
        Option<ExecutionRecord>,
        ExecutionError,
    >)
        ensures
            match res {
                Ok(x) => self@.execution(r@) == Ok::<_, ExecutionErrorView>(x.deep_view()),
                Err(e) => self@.execution(r@) == Err::<Option<ExecutionRecordView>, _>(e@),
            },
    {
        match self.check() {
            Err(e) => return Err(e),
            Ok(_) => {},
        }
        match self.find(ObjectKind::Execution, &r.name) {
            Some(QueryObject::Execution(x)) => Ok(Some(x.clone())),
            Some(_) => {
                reveal(query_object_view);
                Ok(None)
            },
            None => Ok(None),
        }
    }

    /// Reads a thread.
    pub fn get_thread(&self, r: &ObjectReference) -> (res: Result<
        Option<ThreadRecord>,
        ExecutionError,
    >)
        ensures
            match res {
                Ok(x) => self@.thread(r@) == Ok::<_, ExecutionErrorView>(x.deep_view()),
                Err(e) => self@.thread(r@) == Err::<Option<ThreadRecordView>, _>(e@),
            },
    {
        match self.check() {
            Err(e) => return Err(e),
            Ok(_) => {},
        }
        match self.find(ObjectKind::Thread, &r.name) {
            Some(QueryObject::Thread(x)) => Ok(Some(x.clone())),
            Some(_) => {
                reveal(query_object_view);
                Ok(None)
            },
            None => Ok(None),
        }
    }

    /// Reads an activity.
    pub fn get_activity(&self, r: &ObjectReference) -> (res: Result<
        Option<ActivityRecord>,
        ExecutionError,
    >)
        ensures
            match res {
                Ok(x) => self@.activity(r@) == Ok::<_, ExecutionErrorView>(x.deep_view()),
                Err(e) => self@.activity(r@) == Err::<Option<ActivityRecordView>, _>(e@),
            },
    {
        match self.check() {
            Err(e) => return Err(e),
            Ok(_) => {},
        }
        match self.find(ObjectKind::Activity, &r.name) {
            Some(QueryObject::Activity(x)) => Ok(Some(x.clone())),
            Some(_) => {
                reveal(query_object_view);
                Ok(None)
            },
            None => Ok(None),
        }
    }

    /// Reads a timer.
    pub fn get_timer(&self, r: &ObjectReference) -> (res: Result<
        Option<TimerRecord>,
        ExecutionError,
    >)
        ensures
            match res {
                Ok(x) => self@.timer(r@) == Ok::<_, ExecutionErrorView>(x.deep_view()),
                Err(e) => self@.timer(r@) == Err::<Option<TimerRecordView>, _>(e@),
            },
    {
        match self.check() {
            Err(e) => return Err(e),
            Ok(_) => {},
        }
        match self.find(ObjectKind::Timer, &r.name) {
            Some(QueryObject::Timer(x)) => Ok(Some(x.clone())),
            Some(_) => {
                reveal(query_object_view);
                Ok(None)
            },
            None => Ok(None),
        }
    }

    /// Reads a task.
    pub fn get_task(&self, r: &ObjectReference) -> (res: Result<
        Option<TaskRecord>,
        ExecutionError,
    >)
        ensures
            match res {
                Ok(x) => self@.task(r@) == Ok::<_, ExecutionErrorView>(x.deep_view()),
                Err(e) => self@.task(r@) == Err::<Option<TaskRecordView>, _>(e@),
            },
    {
        match self.check() {
            Err(e) => return Err(e),
            Ok(_) => {},
        }
        match self.find(ObjectKind::Task, &r.name) {
            Some(QueryObject::Task(x)) => Ok(Some(x.clone())),
            Some(_) => {
                reveal(query_object_view);
                Ok(None)
            },
            None => Ok(None),
        }
    }

    /// Reads a flow by its name.
    pub fn get_flow_by_name(&self, name: &ObjectName) -> (res: Result<
        Option<Flow>,
        ExecutionError,
    >)
        ensures
            match res {
                Ok(x) => self@.flow(name@) == Ok::<_, ExecutionErrorView>(x.deep_view()),
                Err(e) => self@.flow(name@) == Err::<Option<FlowView>, _>(e@),
            },
    {
        match self.check() {
            Err(e) => return Err(e),
            Ok(_) => {},
        }
        match self.find(ObjectKind::Flow, name) {
            Some(QueryObject::Flow(x)) => Ok(Some(x.clone())),
            Some(_) => {
                reveal(query_object_view);
                Ok(None)
            },
            None => Ok(None),
        }
    }

    /// The children of a node still in flight.
    pub fn get_children(&self, r: &ObjectReference) -> (res: Result<
        Vec<ObjectReference>,
        ExecutionError,
    >)
        ensures
            match res {
                Ok(x) => self@.children(r@) == Ok::<_, ExecutionErrorView>(x.deep_view()),
                Err(e) => self@.children(r@) == Err::<Seq<ObjectReferenceView>, _>(e@),
            },
    {
        match self.check() {
            Err(e) => return Err(e),
            Ok(_) => {},
        }
        match self.find(r.kind, &r.name) {
            Some(QueryObject::Execution(x)) => {
                let c = x.active_children.clone();
                assert(c.deep_view() =~= x.active_children.deep_view());
                Ok(c)
            },
            Some(QueryObject::Thread(x)) => {
                let c = x.active_children.clone();
                assert(c.deep_view() =~= x.active_children.deep_view());
                Ok(c)
            },
            Some(QueryObject::Activity(x)) => {
                let c = x.active_children.clone();
                assert(c.deep_view() =~= x.active_children.deep_view());
                Ok(c)
            },
            Some(_) => {
                reveal(query_object_view);
                let c: Vec<ObjectReference> = Vec::new();
                assert(c.deep_view() =~= Seq::empty());
                Ok(c)
            },
            None => {
                let c: Vec<ObjectReference> = Vec::new();
                assert(c.deep_view() =~= Seq::empty());
                Ok(c)
            },
        }
    }
}

} // verus!
