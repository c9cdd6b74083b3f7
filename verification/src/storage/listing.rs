//! The rows of a kind in the order of their names.

use vstd::prelude::*;
use vstd::string::*;

use crate::query::{QueryObject, QueryObjectView};
use crate::storage::order::store_ok;
use crate::storage::store::{row_key, RowKey, Store, StoreView};
use crate::types::error::ExecutionError;
use crate::types::meta::{name_text, ObjectKind, ObjectName, ObjectNameView};

verus! {

/// `a` stands before `b`, compared character by character.
pub open spec fn precedes(a: Seq<char>, b: Seq<char>) -> bool
    decreases a.len(),
{
    if b.len() == 0 {
        false
    } else if a.len() == 0 {
        true
    } else if a[0] != b[0] {
        a[0] < b[0]
    } else {
        precedes(a.drop_first(), b.drop_first())
    }
}

/// No text stands before itself, of two texts one stands before the other, and the order carries
/// over.
pub proof fn law_texts_are_ordered(a: Seq<char>, b: Seq<char>, c: Seq<char>)
    ensures
        !precedes(a, a),
        a != b ==> precedes(a, b) || precedes(b, a),
        !(precedes(a, b) && precedes(b, a)),
        precedes(a, b) && precedes(b, c) ==> precedes(a, c),
    decreases a.len() + b.len() + c.len(),
{
    if a.len() > 0 && b.len() > 0 {
        let ra = a.drop_first();
        let rb = b.drop_first();
        if c.len() > 0 {
            law_texts_are_ordered(ra, rb, c.drop_first());
        } else {
            law_texts_are_ordered(ra, rb, c);
        }
        if a[0] == b[0] && ra == rb {
            assert(a =~= seq![a[0]] + ra);
            assert(b =~= seq![b[0]] + rb);
        }
    } else if a.len() > 0 {
        law_texts_are_ordered(a.drop_first(), b, c);
    } else {
        if b.len() == 0 {
            assert(a =~= b);
        }
    }
}

/// Whether one text stands before another.
pub fn text_precedes(a: &str, b: &str) -> (r: bool)
    ensures
        r == precedes(a@, b@),
{
    let n = a.unicode_len();
    let m = b.unicode_len();
    let mut i: usize = 0;
    assert(a@.skip(0) =~= a@);
    assert(b@.skip(0) =~= b@);
    loop
        invariant
            n == a@.len(),
            m == b@.len(),
            i <= n,
            i <= m,
            precedes(a@, b@) == precedes(a@.skip(i as int), b@.skip(i as int)),
        decreases n - i,
    {
        if i == m {
            return false;
        }
        if i == n {
            return true;
        }
        let x = a.get_char(i);
        let y = b.get_char(i);
        assert(a@.skip(i as int)[0] == x);
        assert(b@.skip(i as int)[0] == y);
        if x != y {
            return x < y;
        }
        assert(a@.skip(i as int).drop_first() =~= a@.skip(i as int + 1));
        assert(b@.skip(i as int).drop_first() =~= b@.skip(i as int + 1));
        i += 1;
    }
}

/// The text of the name of a row.
pub open spec fn row_text(row: QueryObjectView) -> Seq<char> {
    name_text(row.name())
}

/// Rows that are in order, with `row` at its place: behind those that it does not stand before.
pub open spec fn row_placed(rows: Seq<QueryObjectView>, row: QueryObjectView) -> Seq<QueryObjectView>
    decreases rows.len(),
{
    if rows.len() > 0 && precedes(row_text(row), row_text(rows.last())) {
        row_placed(rows.drop_last(), row).push(rows.last())
    } else {
        rows.push(row)
    }
}

/// A text stands behind the start of a listing.
pub open spec fn behind(start: Option<Seq<char>>, text: Seq<char>) -> bool {
    match start {
        Some(start) => precedes(start, text),
        None => true,
    }
}

impl StoreView {
    /// The rows of `kind` among those under `keys`, behind `start`, in the order of their names.
    pub open spec fn listed_among(
        self,
        keys: Seq<RowKey>,
        kind: ObjectKind,
        start: Option<Seq<char>>,
    ) -> Seq<QueryObjectView>
        decreases keys.len(),
    {
        if keys.len() == 0 {
            Seq::empty()
        } else {
            let before = self.listed_among(keys.drop_last(), kind, start);
            match self.row_at(keys.last()) {
                Some(row) if row.kind() == kind && behind(start, row_text(row)) => row_placed(
                    before,
                    row,
                ),
                _ => before,
            }
        }
    }

    /// The rows of `kind` behind `start`, in the order of their names.
    pub open spec fn listed(self, kind: ObjectKind, start: Option<Seq<char>>) -> Seq<
        QueryObjectView,
    > {
        self.listed_among(self.order, kind, start)
    }
}

fn place_row(rows: &mut Vec<QueryObject>, row: QueryObject)
    ensures
        final(rows).deep_view() == row_placed(old(rows).deep_view(), row@),
{
    let ghost before = rows.deep_view();
    let text = row.name().as_str();
    let mut i: usize = rows.len();
    assert(before.take(i as int) =~= before);
    assert(before.skip(i as int) =~= Seq::empty());
    assert(row_placed(before.take(i as int), row@) + before.skip(i as int) =~= row_placed(
        before,
        row@,
    ));
    while i > 0
        invariant
            i <= rows@.len(),
            before == rows.deep_view(),
            text@ == row_text(row@),
            row_placed(before.take(i as int), row@) + before.skip(i as int) == row_placed(
                before,
                row@,
            ),
        ensures
            i <= rows@.len(),
            before.take(i as int).push(row@) + before.skip(i as int) == row_placed(before, row@),
        decreases i,
    {
        let ghost front = before.take(i as int);
        assert(front.last() == rows@[i - 1]@);
        if !text_precedes(text.as_str(), rows[i - 1].name().as_str().as_str()) {
            break;
        }
        assert(front.drop_last() =~= before.take(i - 1));
        assert(row_placed(before.take(i - 1), row@).push(front.last()) + before.skip(i as int)
            =~= row_placed(before.take(i - 1), row@) + before.skip(i - 1));
        i -= 1;
    }
    rows.insert(i, row);
    assert(rows.deep_view() =~= before.take(i as int).push(row@) + before.skip(i as int));
}

impl Store {
    /// The first `limit` rows of a kind, in the order of their names, behind `start_after`.
    pub fn list_kind(&self, kind: ObjectKind, start_after: Option<&ObjectName>, limit: usize) -> (res:
        Result<Vec<QueryObject>, ExecutionError>)
        ensures
            match res {
                Ok(rows) => self@.fault is None && rows.deep_view() == first_rows(
                    self@.listed(kind, start_text(start_after.deep_view())),
                    limit as int,
                ),
                Err(e) => self@.fault == Some(e@),
            },
    {
        match self.check() {
            Ok(_) => {},
            Err(e) => return Err(e),
        }
        let ghost start = start_text(start_after.deep_view());
        let from = match start_after {
            Some(name) => Some(name.as_str()),
            None => None,
        };
        let ghost keys = self@.order;
        let mut rows: Vec<QueryObject> = Vec::new();
        let mut i: usize = 0;
        let n: usize = self.len();
        assert(keys.take(0) =~= Seq::empty());
        assert(rows.deep_view() =~= Seq::empty());
        while i < n
            invariant
                i <= n,
                n == keys.len(),
                keys == self@.order,
                start == from.deep_view(),
                rows.deep_view() == self@.listed_among(keys.take(i as int), kind, start),
            decreases n - i,
        {
            let ghost next = keys.take(i as int + 1);
            assert(next.drop_last() =~= keys.take(i as int));
            assert(next.last() == keys[i as int]);
            let (row_kind, name) = self.key_at(i);
            if let Some(row) = self.find(row_kind, name) {
                let is_behind = match &from {
                    Some(text) => text_precedes(text.as_str(), row.name().as_str().as_str()),
                    None => true,
                };
                if row.kind() == kind && is_behind {
                    place_row(&mut rows, row.clone());
                }
            }
            i += 1;
        }
        assert(keys.take(keys.len() as int) =~= keys);
        let ghost all = rows.deep_view();
        if rows.len() > limit {
            rows.truncate(limit);
        }
        assert(rows.deep_view() =~= first_rows(all, limit as int));
        Ok(rows)
    }
}

proof fn lemma_placed_len(rows: Seq<QueryObjectView>, row: QueryObjectView)
    ensures
        row_placed(rows, row).len() == rows.len() + 1,
    decreases rows.len(),
{
    if rows.len() > 0 && precedes(row_text(row), row_text(rows.last())) {
        lemma_placed_len(rows.drop_last(), row);
    }
}

/// A listing holds no more rows than are stored.
pub proof fn lemma_listed_len(
    s: StoreView,
    keys: Seq<RowKey>,
    kind: ObjectKind,
    start: Option<Seq<char>>,
)
    ensures
        s.listed_among(keys, kind, start).len() <= keys.len(),
    decreases keys.len(),
{
    if keys.len() > 0 {
        lemma_listed_len(s, keys.drop_last(), kind, start);
        if let Some(row) = s.row_at(keys.last()) {
            lemma_placed_len(s.listed_among(keys.drop_last(), kind, start), row);
        }
    }
}

/// The text that a listing starts behind.
pub open spec fn start_text(start_after: Option<ObjectNameView>) -> Option<Seq<char>> {
    match start_after {
        Some(name) => Some(name_text(name)),
        None => None,
    }
}

/// The first `limit` rows.
pub open spec fn first_rows(rows: Seq<QueryObjectView>, limit: int) -> Seq<QueryObjectView> {
    if rows.len() <= limit {
        rows
    } else {
        rows.take(limit)
    }
}

/// Every row stands before the rows behind it.
pub open spec fn in_order(rows: Seq<QueryObjectView>) -> bool {
    forall|i: int, j: int|
        0 <= i < j < rows.len() ==> !precedes(
            row_text(#[trigger] rows[j]),
            row_text(#[trigger] rows[i]),
        )
}

/// No two rows are named by the same text.
pub open spec fn told_apart(rows: Seq<QueryObjectView>) -> bool {
    forall|i: int, j: int|
        0 <= i < j < rows.len() ==> row_text(#[trigger] rows[i]) != row_text(#[trigger] rows[j])
}

/// The rows behind a text.
pub open spec fn rows_behind(rows: Seq<QueryObjectView>, text: Seq<char>) -> Seq<QueryObjectView>
    decreases rows.len(),
{
    if rows.len() == 0 {
        rows
    } else {
        let init = rows_behind(rows.drop_last(), text);
        if precedes(text, row_text(rows.last())) {
            init.push(rows.last())
        } else {
            init
        }
    }
}

proof fn lemma_placed_in_order(rows: Seq<QueryObjectView>, row: QueryObjectView)
    requires
        in_order(rows),
    ensures
        in_order(row_placed(rows, row)),
        forall|i: int|
            0 <= i < row_placed(rows, row).len() ==> (#[trigger] row_placed(rows, row)[i] == row
                || rows.contains(row_placed(rows, row)[i])),
    decreases rows.len(),
{
    let placed = row_placed(rows, row);
    if rows.len() > 0 && precedes(row_text(row), row_text(rows.last())) {
        let init = rows.drop_last();
        assert(in_order(init)) by {
            assert forall|i: int, j: int| 0 <= i < j < init.len() implies !precedes(
                row_text(#[trigger] init[j]),
                row_text(#[trigger] init[i]),
            ) by {
                assert(init[i] == rows[i] && init[j] == rows[j]);
            }
        }
        lemma_placed_in_order(init, row);
        let before = row_placed(init, row);
        assert forall|i: int| 0 <= i < placed.len() implies (#[trigger] placed[i] == row
            || rows.contains(placed[i])) by {
            if i < before.len() {
                assert(placed[i] == before[i]);
                if before[i] != row {
                    let k = choose|k: int| 0 <= k < init.len() && init[k] == before[i];
                    assert(rows[k] == placed[i]);
                }
            } else {
                assert(rows[rows.len() - 1] == placed[i]);
            }
        }
        assert forall|i: int, j: int| 0 <= i < j < placed.len() implies !precedes(
            row_text(#[trigger] placed[j]),
            row_text(#[trigger] placed[i]),
        ) by {
            if j < before.len() {
                assert(placed[i] == before[i] && placed[j] == before[j]);
            } else {
                assert(placed[j] == rows.last());
                assert(placed[i] == before[i]);
                if before[i] == row {
                    law_texts_are_ordered(row_text(row), row_text(rows.last()), row_text(row));
                } else {
                    let k = choose|k: int| 0 <= k < init.len() && init[k] == before[i];
                    assert(rows[k] == placed[i]);
                    assert(rows[rows.len() - 1] == placed[j]);
                }
            }
        }
    } else {
        assert forall|i: int| 0 <= i < placed.len() implies (#[trigger] placed[i] == row
            || rows.contains(placed[i])) by {
            if i < rows.len() {
                assert(placed[i] == rows[i]);
            }
        }
        assert forall|i: int, j: int| 0 <= i < j < placed.len() implies !precedes(
            row_text(#[trigger] placed[j]),
            row_text(#[trigger] placed[i]),
        ) by {
            if j < rows.len() {
                assert(placed[i] == rows[i] && placed[j] == rows[j]);
            } else {
                assert(placed[i] == rows[i]);
                assert(placed[j] == row);
                let last = rows[rows.len() - 1];
                if i < rows.len() - 1 {
                    assert(!precedes(row_text(last), row_text(rows[i])));
                }
                law_texts_are_ordered(row_text(row), row_text(rows[i]), row_text(last));
                if row_text(rows[i]) != row_text(last) {
                    law_texts_are_ordered(row_text(rows[i]), row_text(last), row_text(last));
                }
            }
        }
    }
}

/// A listing is in order.
pub proof fn law_listing_is_in_order(
    s: StoreView,
    keys: Seq<RowKey>,
    kind: ObjectKind,
    start: Option<Seq<char>>,
)
    ensures
        in_order(s.listed_among(keys, kind, start)),
    decreases keys.len(),
{
    if keys.len() > 0 {
        law_listing_is_in_order(s, keys.drop_last(), kind, start);
        if let Some(row) = s.row_at(keys.last()) {
            lemma_placed_in_order(s.listed_among(keys.drop_last(), kind, start), row);
        }
    }
}

proof fn lemma_none_behind(rows: Seq<QueryObjectView>, text: Seq<char>)
    requires
        forall|i: int| 0 <= i < rows.len() ==> !precedes(text, row_text(#[trigger] rows[i])),
    ensures
        rows_behind(rows, text).len() == 0,
    decreases rows.len(),
{
    if rows.len() > 0 {
        let init = rows.drop_last();
        assert forall|i: int| 0 <= i < init.len() implies !precedes(
            text,
            row_text(#[trigger] init[i]),
        ) by {
            assert(init[i] == rows[i]);
        }
        assert(rows[rows.len() - 1] == rows.last());
        lemma_none_behind(init, text);
    }
}

proof fn lemma_placed_behind(rows: Seq<QueryObjectView>, row: QueryObjectView, text: Seq<char>)
    requires
        in_order(rows),
    ensures
        rows_behind(row_placed(rows, row), text) == (if precedes(text, row_text(row)) {
            row_placed(rows_behind(rows, text), row)
        } else {
            rows_behind(rows, text)
        }),
    decreases rows.len(),
{
    let placed = row_placed(rows, row);
    if rows.len() > 0 && precedes(row_text(row), row_text(rows.last())) {
        let init = rows.drop_last();
        let last = rows.last();
        assert(in_order(init)) by {
            assert forall|i: int, j: int| 0 <= i < j < init.len() implies !precedes(
                row_text(#[trigger] init[j]),
                row_text(#[trigger] init[i]),
            ) by {
                assert(init[i] == rows[i] && init[j] == rows[j]);
            }
        }
        lemma_placed_behind(init, row, text);
        assert(placed.drop_last() =~= row_placed(init, row));
        assert(placed.last() == last);
        law_texts_are_ordered(text, row_text(row), row_text(last));
        if precedes(text, row_text(row)) {
            assert(precedes(text, row_text(last)));
            let rest = rows_behind(rows, text);
            assert(rest.drop_last() =~= rows_behind(init, text));
            assert(rest.last() == last);
        }
    } else {
        assert(placed.drop_last() =~= rows);
        assert(placed.last() == row);
        if precedes(text, row_text(row)) {
            let rest = rows_behind(rows, text);
            if rest.len() > 0 {
                lemma_behind_are_rows(rows, text);
                let k = choose|k: int| 0 <= k < rows.len() && rows[k] == rest.last();
                let last = rows[rows.len() - 1];
                if k < rows.len() - 1 {
                    assert(!precedes(row_text(last), row_text(rows[k])));
                }
                law_texts_are_ordered(row_text(row), row_text(rows[k]), row_text(last));
                if row_text(rows[k]) != row_text(last) {
                    law_texts_are_ordered(row_text(rows[k]), row_text(last), row_text(last));
                }
            }
        }
    }
}

proof fn lemma_behind_are_rows(rows: Seq<QueryObjectView>, text: Seq<char>)
    ensures
        forall|i: int|
            0 <= i < rows_behind(rows, text).len() ==> rows.contains(
                #[trigger] rows_behind(rows, text)[i],
            ),
    decreases rows.len(),
{
    if rows.len() > 0 {
        let init = rows.drop_last();
        lemma_behind_are_rows(init, text);
        let all = rows_behind(rows, text);
        let some = rows_behind(init, text);
        assert forall|i: int| 0 <= i < all.len() implies rows.contains(#[trigger] all[i]) by {
            if i < some.len() {
                assert(all[i] == some[i]);
                let k = choose|k: int| 0 <= k < init.len() && init[k] == some[i];
                assert(rows[k] == all[i]);
            } else {
                assert(rows[rows.len() - 1] == all[i]);
            }
        }
    }
}

/// A listing that starts later holds what the earlier one holds from there on.
pub proof fn law_later_start_cuts_the_listing(
    s: StoreView,
    keys: Seq<RowKey>,
    kind: ObjectKind,
    start: Option<Seq<char>>,
    later: Seq<char>,
)
    requires
        behind(start, later),
    ensures
        s.listed_among(keys, kind, Some(later)) == rows_behind(
            s.listed_among(keys, kind, start),
            later,
        ),
    decreases keys.len(),
{
    if keys.len() > 0 {
        let before = keys.drop_last();
        law_later_start_cuts_the_listing(s, before, kind, start, later);
        law_listing_is_in_order(s, before, kind, start);
        if let Some(row) = s.row_at(keys.last()) {
            lemma_placed_behind(s.listed_among(before, kind, start), row, later);
            if let Some(from) = start {
                law_texts_are_ordered(from, later, row_text(row));
            }
        }
    }
}

proof fn lemma_behind_is_rest(rows: Seq<QueryObjectView>, k: int)
    requires
        in_order(rows),
        told_apart(rows),
        0 < k <= rows.len(),
    ensures
        rows_behind(rows, row_text(rows[k - 1])) == rows.skip(k),
    decreases rows.len(),
{
    let text = row_text(rows[k - 1]);
    let init = rows.drop_last();
    if k == rows.len() {
        assert forall|i: int| 0 <= i < rows.len() implies !precedes(
            text,
            row_text(#[trigger] rows[i]),
        ) by {
            law_texts_are_ordered(text, text, text);
            if i < k - 1 {
                assert(!precedes(row_text(rows[k - 1]), row_text(rows[i])));
            }
        }
        lemma_none_behind(rows, text);
        assert(rows_behind(rows, text) =~= rows.skip(k));
    } else {
        assert forall|i: int, j: int| 0 <= i < j < init.len() implies !precedes(
            row_text(#[trigger] init[j]),
            row_text(#[trigger] init[i]),
        ) && row_text(init[i]) != row_text(init[j]) by {
            assert(init[i] == rows[i] && init[j] == rows[j]);
        }
        lemma_behind_is_rest(init, k);
        let last = rows[rows.len() - 1];
        assert(!precedes(row_text(last), text));
        assert(row_text(rows[k - 1]) != row_text(last));
        law_texts_are_ordered(text, row_text(last), text);
        assert(init.skip(k).push(last) =~= rows.skip(k));
    }
}

proof fn lemma_placed_told_apart(rows: Seq<QueryObjectView>, row: QueryObjectView)
    requires
        told_apart(rows),
        forall|i: int| 0 <= i < rows.len() ==> row_text(#[trigger] rows[i]) != row_text(row),
    ensures
        told_apart(row_placed(rows, row)),
        forall|i: int|
            0 <= i < row_placed(rows, row).len() ==> (#[trigger] row_placed(rows, row)[i] == row
                || rows.contains(row_placed(rows, row)[i])),
    decreases rows.len(),
{
    let placed = row_placed(rows, row);
    if rows.len() > 0 && precedes(row_text(row), row_text(rows.last())) {
        let init = rows.drop_last();
        let last = rows[rows.len() - 1];
        assert forall|i: int, j: int| 0 <= i < j < init.len() implies row_text(#[trigger] init[i])
            != row_text(#[trigger] init[j]) by {
            assert(init[i] == rows[i] && init[j] == rows[j]);
        }
        assert forall|i: int| 0 <= i < init.len() implies row_text(#[trigger] init[i]) != row_text(
            row,
        ) by {
            assert(init[i] == rows[i]);
        }
        lemma_placed_told_apart(init, row);
        let before = row_placed(init, row);
        assert forall|i: int| 0 <= i < placed.len() implies (#[trigger] placed[i] == row
            || rows.contains(placed[i])) && (i < before.len() ==> row_text(placed[i]) != row_text(
            last,
        )) by {
            if i < before.len() {
                assert(placed[i] == before[i]);
                if before[i] != row {
                    let k = choose|k: int| 0 <= k < init.len() && init[k] == before[i];
                    assert(rows[k] == placed[i]);
                    assert(row_text(rows[k]) != row_text(last));
                } else {
                    assert(row_text(last) != row_text(row));
                }
            } else {
                assert(placed[i] == last);
            }
        }
        assert forall|i: int, j: int| 0 <= i < j < placed.len() implies row_text(
            #[trigger] placed[i],
        ) != row_text(#[trigger] placed[j]) by {
            if j < before.len() {
                assert(placed[i] == before[i] && placed[j] == before[j]);
            } else {
                assert(placed[j] == last);
            }
        }
    } else {
        assert forall|i: int| 0 <= i < placed.len() implies (#[trigger] placed[i] == row
            || rows.contains(placed[i])) by {
            if i < rows.len() {
                assert(placed[i] == rows[i]);
            }
        }
        assert forall|i: int, j: int| 0 <= i < j < placed.len() implies row_text(
            #[trigger] placed[i],
        ) != row_text(#[trigger] placed[j]) by {
            assert(placed[i] == rows[i]);
            if j < rows.len() {
                assert(placed[j] == rows[j]);
            }
        }
    }
}

proof fn lemma_listed_keys(
    s: StoreView,
    keys: Seq<RowKey>,
    kind: ObjectKind,
    start: Option<Seq<char>>,
)
    requires
        store_ok(s),
        keys.no_duplicates(),
    ensures
        told_apart(s.listed_among(keys, kind, start)),
        forall|i: int|
            0 <= i < s.listed_among(keys, kind, start).len() ==> {
                let key = (kind, row_text(#[trigger] s.listed_among(keys, kind, start)[i]));
                keys.contains(key) && s.rows.contains_key(key)
            },
    decreases keys.len(),
{
    if keys.len() > 0 {
        let init = keys.drop_last();
        let last = keys[keys.len() - 1];
        assert forall|i: int, j: int|
            0 <= i < init.len() && 0 <= j < init.len() && i != j implies init[i] != init[j] by {
            assert(init[i] == keys[i] && init[j] == keys[j]);
        }
        lemma_listed_keys(s, init, kind, start);
        let before = s.listed_among(init, kind, start);
        let all = s.listed_among(keys, kind, start);
        assert forall|i: int| 0 <= i < before.len() implies keys.contains(
            (kind, row_text(#[trigger] before[i])),
        ) && (kind, row_text(before[i])) != last by {
            let key = (kind, row_text(before[i]));
            let k = choose|k: int| 0 <= k < init.len() && init[k] == key;
            assert(keys[k] == key);
        }
        if let Some(row) = s.row_at(last) {
            assert(row_key(row) == last);
            if row.kind() == kind && behind(start, row_text(row)) {
                lemma_placed_told_apart(before, row);
                assert forall|i: int| 0 <= i < all.len() implies ({
                    let key = (kind, row_text(#[trigger] all[i]));
                    keys.contains(key) && s.rows.contains_key(key)
                }) by {
                    if all[i] != row {
                        let k = choose|k: int| 0 <= k < before.len() && before[k] == all[i];
                        assert(before[k] == all[i]);
                    }
                }
            }
        }
    }
}

/// No two rows of a listing have names of the same text, and each is stored under the text of its
/// name.
pub proof fn law_listed_rows_are_told_apart(
    s: StoreView,
    kind: ObjectKind,
    start: Option<Seq<char>>,
)
    requires
        store_ok(s),
    ensures
        told_apart(s.listed(kind, start)),
        forall|i: int|
            0 <= i < s.listed(kind, start).len() ==> s.rows.contains_key(
                (kind, row_text(#[trigger] s.listed(kind, start)[i])),
            ),
{
    lemma_listed_keys(s, s.order, kind, start);
}

proof fn lemma_placed_holds(rows: Seq<QueryObjectView>, row: QueryObjectView, x: QueryObjectView)
    ensures
        row_placed(rows, row).contains(x) <==> x == row || rows.contains(x),
    decreases rows.len(),
{
    let placed = row_placed(rows, row);
    if rows.len() > 0 && precedes(row_text(row), row_text(rows.last())) {
        let init = rows.drop_last();
        let before = row_placed(init, row);
        lemma_placed_holds(init, row, x);
        assert(placed =~= before.push(rows.last()));
        lemma_pushed_holds(before, rows.last(), x);
        assert(rows =~= init.push(rows.last()));
        lemma_pushed_holds(init, rows.last(), x);
    } else {
        lemma_pushed_holds(rows, row, x);
    }
}

proof fn lemma_pushed_holds(rows: Seq<QueryObjectView>, last: QueryObjectView, x: QueryObjectView)
    ensures
        rows.push(last).contains(x) <==> x == last || rows.contains(x),
{
    let pushed = rows.push(last);
    if rows.contains(x) {
        let i = choose|i: int| 0 <= i < rows.len() && rows[i] == x;
        assert(pushed[i] == x);
    }
    if x == last {
        assert(pushed[rows.len() as int] == x);
    }
    if pushed.contains(x) && x != last {
        let i = choose|i: int| 0 <= i < pushed.len() && pushed[i] == x;
        assert(rows[i] == x);
    }
}

proof fn lemma_listed_holds(s: StoreView, keys: Seq<RowKey>, kind: ObjectKind, x: QueryObjectView)
    requires
        store_ok(s),
    ensures
        s.listed_among(keys, kind, None).contains(x) <==> x.kind() == kind && keys.contains(
            row_key(x),
        ) && s.row_at(row_key(x)) == Some(x),
    decreases keys.len(),
{
    if keys.len() > 0 {
        let init = keys.drop_last();
        let last = keys[keys.len() - 1];
        lemma_listed_holds(s, init, kind, x);
        assert(keys.contains(row_key(x)) <==> row_key(x) == last || init.contains(row_key(x))) by {
            if init.contains(row_key(x)) {
                let i = choose|i: int| 0 <= i < init.len() && init[i] == row_key(x);
                assert(keys[i] == row_key(x));
            }
            if keys.contains(row_key(x)) && row_key(x) != last {
                let i = choose|i: int| 0 <= i < keys.len() && keys[i] == row_key(x);
                assert(init[i] == row_key(x));
            }
        }
        if let Some(row) = s.row_at(last) {
            assert(row_key(row) == last);
            lemma_placed_holds(s.listed_among(init, kind, None), row, x);
        }
    }
}

/// A listing from the start holds the stored rows of its kind, and no others.
pub proof fn law_listing_holds_every_row(s: StoreView, kind: ObjectKind, row: QueryObjectView)
    requires
        store_ok(s),
    ensures
        s.listed(kind, None).contains(row) <==> row.kind() == kind && s.row_at(row_key(row)) == Some(
            row,
        ),
{
    lemma_listed_holds(s, s.order, kind, row);
    if s.rows.contains_key(row_key(row)) {
        assert(s.order.contains(row_key(row)));
    }
}

/// Listing on from the name of the last row of a page gives the rows behind that page, and no other:
/// the pages, one behind the other, are the whole listing.
pub proof fn law_pages_are_the_listing(
    s: StoreView,
    kind: ObjectKind,
    start: Option<Seq<char>>,
    k: int,
)
    requires
        store_ok(s),
        0 < k <= s.listed(kind, start).len(),
    ensures
        ({
            let all = s.listed(kind, start);
            all.take(k) + s.listed(kind, Some(row_text(all[k - 1]))) == all
        }),
{
    let all = s.listed(kind, start);
    law_listed_rows_are_told_apart(s, kind, start);
    law_listing_is_in_order(s, s.order, kind, start);
    lemma_listed_behind(s, s.order, kind, start);
    assert(behind(start, row_text(all[k - 1])));
    law_later_start_cuts_the_listing(s, s.order, kind, start, row_text(all[k - 1]));
    lemma_behind_is_rest(all, k);
    assert(all.take(k) + all.skip(k) =~= all);
}

proof fn lemma_placed_behind_start(
    rows: Seq<QueryObjectView>,
    row: QueryObjectView,
    start: Option<Seq<char>>,
)
    requires
        forall|i: int| 0 <= i < rows.len() ==> behind(start, row_text(#[trigger] rows[i])),
        behind(start, row_text(row)),
    ensures
        forall|i: int|
            0 <= i < row_placed(rows, row).len() ==> behind(
                start,
                row_text(#[trigger] row_placed(rows, row)[i]),
            ),
    decreases rows.len(),
{
    if rows.len() > 0 && precedes(row_text(row), row_text(rows.last())) {
        let init = rows.drop_last();
        assert forall|i: int| 0 <= i < init.len() implies behind(
            start,
            row_text(#[trigger] init[i]),
        ) by {
            assert(init[i] == rows[i]);
        }
        assert(rows[rows.len() - 1] == rows.last());
        lemma_placed_behind_start(init, row, start);
        let placed = row_placed(rows, row);
        let before = row_placed(init, row);
        assert forall|i: int| 0 <= i < placed.len() implies behind(
            start,
            row_text(#[trigger] placed[i]),
        ) by {
            if i < before.len() {
                assert(placed[i] == before[i]);
            }
        }
    }
}

proof fn lemma_listed_behind(
    s: StoreView,
    keys: Seq<RowKey>,
    kind: ObjectKind,
    start: Option<Seq<char>>,
)
    ensures
        forall|i: int|
            0 <= i < s.listed_among(keys, kind, start).len() ==> behind(
                start,
                row_text(#[trigger] s.listed_among(keys, kind, start)[i]),
            ),
    decreases keys.len(),
{
    if keys.len() > 0 {
        lemma_listed_behind(s, keys.drop_last(), kind, start);
        if let Some(row) = s.row_at(keys.last()) {
            if behind(start, row_text(row)) {
                lemma_placed_behind_start(
                    s.listed_among(keys.drop_last(), kind, start),
                    row,
                    start,
                );
            }
        }
    }
}

} // verus!
