//! Tests that rows, and whole stores, are in order.

use vstd::prelude::*;

use crate::query::{group_query_object_view, query_object_view, QueryObject};
use crate::storage::order::{row_ok, state_ok, store_ok};
use crate::storage::store::{row_key, RowKey, Store};
use crate::text::same_text;
use crate::types::activity::{ascending, ActivityState, Slot};
use crate::types::meta::ObjectReference;

verus! {

broadcast use group_query_object_view;

/// Whether a child is listed only once.
fn distinct(children: &Vec<ObjectReference>) -> (r: bool)
    ensures
        r == children.deep_view().no_duplicates(),
{
    let ghost all = children.deep_view();
    let mut i: usize = 0;
    while i < children.len()
        invariant
            i <= children@.len(),
            all == children.deep_view(),
            forall|a: int, b: int| 0 <= a < b < all.len() && a < i ==> all[a] != all[b],
        decreases children.len() - i,
    {
        let mut j: usize = i + 1;
        while j < children.len()
            invariant
                i < j <= children@.len(),
                all == children.deep_view(),
                forall|b: int| i < b < j ==> all[i as int] != all[b],
            decreases children.len() - j,
        {
            assert(all[i as int] == children@[i as int]@);
            assert(all[j as int] == children@[j as int]@);
            if children[i].same(&children[j]) {
                return false;
            }
            j += 1;
        }
        i += 1;
    }
    assert forall|a: int, b: int|
        0 <= a < all.len() && 0 <= b < all.len() && a != b implies all[a] != all[b] by {
        if b < a {
            assert(all[b] != all[a]);
        }
    }
    true
}

/// Whether the indices of some slots ascend.
fn slots_ascend(slots: &Vec<Slot>) -> (r: bool)
    ensures
        r == ascending(slots.deep_view()),
{
    let ghost all = slots.deep_view();
    let mut i: usize = 1;
    while i < slots.len()
        invariant
            1 <= i,
            i <= slots@.len() || slots@.len() == 0,
            all == slots.deep_view(),
            forall|a: int, b: int|
                0 <= a < b < i && b < all.len() ==> (#[trigger] all[a]).index < (
                #[trigger] all[b]).index,
        decreases slots.len() - i,
    {
        assert(all[i - 1] == slots@[i - 1]@);
        assert(all[i as int] == slots@[i as int]@);
        if slots[i - 1].index >= slots[i].index {
            return false;
        }
        assert forall|a: int, b: int| 0 <= a < b < i + 1 && b < all.len() implies (
        #[trigger] all[a]).index < (#[trigger] all[b]).index by {
            if b == i && a < i - 1 {
                assert(all[a].index < all[i - 1].index);
            }
        }
        i += 1;
    }
    true
}

/// Whether the indices of some slots lie below `total`.
fn slots_below(slots: &Vec<Slot>, total: usize) -> (r: bool)
    ensures
        r == (forall|i: int|
            0 <= i < slots.deep_view().len() ==> (#[trigger] slots.deep_view()[i]).index < total),
{
    let ghost all = slots.deep_view();
    let mut i: usize = 0;
    while i < slots.len()
        invariant
            i <= slots@.len(),
            all == slots.deep_view(),
            forall|a: int| 0 <= a < i ==> (#[trigger] all[a]).index < total,
        decreases slots.len() - i,
    {
        assert(all[i as int] == slots@[i as int]@);
        if slots[i].index >= total {
            return false;
        }
        i += 1;
    }
    true
}

/// Whether what a container carries is in order.
fn state_in_order(state: &Option<ActivityState>) -> (r: bool)
    ensures
        r == state_ok(state.deep_view()),
{
    match state {
        Some(ActivityState::Parallel(p)) => slots_ascend(&p.branches),
        Some(ActivityState::ItemMap(m)) => slots_ascend(&m.children) && slots_below(
            &m.children,
            m.total,
        ),
        _ => true,
    }
}

/// Whether a row is in order.
pub fn row_in_order(row: &QueryObject) -> (r: bool)
    ensures
        r == row_ok(row@),
{
    if row.meta().kind != row.kind() {
        return false;
    }
    match row {
        QueryObject::Flow(_) | QueryObject::FlowVersion(_) => {
            reveal(query_object_view);
            true
        },
        QueryObject::Execution(x) => distinct(&x.active_children),
        QueryObject::Thread(x) => distinct(&x.active_children),
        QueryObject::Activity(x) => x.value.meta.owner.is_some() && state_in_order(
            &x.value.activity_state,
        ) && distinct(&x.active_children),
        QueryObject::Timer(x) => x.value.meta.owner.is_some(),
        QueryObject::Task(x) => x.value.meta.owner.is_some(),
    }
}

impl Store {
    /// Whether no two rows have the same key.
    fn keys_are_distinct(&self) -> (r: bool)
        ensures
            r == self@.order.no_duplicates(),
    {
        let ghost keys = self@.order;
        let n: usize = self.len();
        let mut i: usize = 0;
        while i < n
            invariant
                i <= n,
                n == keys.len(),
                keys == self@.order,
                forall|a: int, b: int| 0 <= a < b < n && a < i ==> keys[a] != keys[b],
            decreases n - i,
        {
            let (kind, name) = self.key_at(i);
            let text = name.as_str();
            let mut j: usize = i + 1;
            while j < n
                invariant
                    i < j <= n,
                    n == keys.len(),
                    keys == self@.order,
                    (kind, text@) == keys[i as int],
                    forall|b: int| i < b < j ==> keys[i as int] != keys[b],
                decreases n - j,
            {
                let (other_kind, other) = self.key_at(j);
                if kind == other_kind && same_text(text.as_str(), other.as_str().as_str()) {
                    return false;
                }
                j += 1;
            }
            i += 1;
        }
        assert forall|a: int, b: int| 0 <= a < n && 0 <= b < n && a != b implies keys[a]
            != keys[b] by {
            if b < a {
                assert(keys[b] != keys[a]);
            }
        }
        true
    }

    /// Whether the store is in order.
    pub fn is_in_order(&self) -> (r: bool)
        ensures
            r == store_ok(self@),
    {
        if !self.keys_are_distinct() {
            return false;
        }
        let ghost keys = self@.order;
        let n: usize = self.len();
        let mut i: usize = 0;
        while i < n
            invariant
                i <= n,
                n == keys.len(),
                keys == self@.order,
                forall|a: int|
                    0 <= a < i ==> (self@.rows.contains_key(#[trigger] keys[a]) ==> row_ok(
                        self@.rows[keys[a]],
                    )),
            decreases n - i,
        {
            let (kind, name) = self.key_at(i);
            if let Some(row) = self.find(kind, name) {
                if !row_in_order(row) {
                    assert(self@.rows.contains_key(keys[i as int]));
                    return false;
                }
            }
            i += 1;
        }
        proof {
            self.lemma_keys();
            assert forall|k: RowKey| #[trigger] self@.rows.contains_key(k) implies row_key(
                self@.rows[k],
            ) == k && row_ok(self@.rows[k]) by {
                let a = choose|a: int| 0 <= a < keys.len() && keys[a] == k;
                assert(self@.rows.contains_key(keys[a]));
            }
        }
        true
    }
}

} // verus!
