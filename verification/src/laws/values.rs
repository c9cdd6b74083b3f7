//! Plain values: instants, delays, names, paths, numbers, pages and snapshots.

use vstd::arithmetic::power::pow;
use vstd::prelude::*;

use crate::id::{ascii_alphanumeric, valid_flow_name, Timestamp};
use crate::number::{clipped, lemma_first_of, pow10, whole, whole_value};
use crate::query::{
    decoded_rows, law_readable_rows_are_all_shown, page_of, unreadable, QueryObjectView, RowView,
};
use crate::result::snapshot_of;
use crate::storage::listing::{precedes, row_text};
use crate::text::{decimal, digits_value, law_decimal_round_trip, letter, letters, signed_decimal};
use crate::types::error::{error_name, error_output, ExecutionErrorView};
use crate::types::execution::ExecutionView;
use crate::types::meta::ObjectKind;
use crate::types::state_path::{encoded, pointer_text, sibling, state_name};
use crate::types::status::{LifecycleView, TerminationReasonView};
use crate::types::task::{RetryPolicyView, TaskStatus};
use crate::value::{Json, NumberView};

verus! {

/// An instant so many seconds later is a thousand milliseconds later for each; there is none only where it
/// cannot be represented. Delays add up.
pub proof fn law_seconds_are_a_thousand_milliseconds(at: Timestamp, a: u64, b: u64, t: Timestamp)
    ensures
        at.later(a) == Some(t) <==> t.0 == at.0 + a * 1000,
        at.later(a) is None <==> at.0 + a * 1000 > i64::MAX,
        (at.later(a) == Some(t) && a + b <= u64::MAX) ==> t.later(b) == at.later((a + b) as u64),
{
}

/// The delays of a policy are taken rung by rung; the last one stays, and without any there is no delay.
pub proof fn law_delays_are_taken_rung_by_rung(policy: RetryPolicyView, made: u32)
    ensures
        policy.ladder.len() == 0 ==> policy.backoff(made) == 0,
        made < policy.ladder.len() ==> policy.backoff(made) == policy.ladder[made as int],
        0 < policy.ladder.len() <= made ==> policy.backoff(made)
            == policy.ladder[policy.ladder.len() - 1],
{
}

/// An ASCII letter or digit, by its code.
pub open spec fn plain(c: char) -> bool {
    let code = c as int;
    48 <= code <= 57 || 65 <= code <= 90 || 97 <= code <= 122
}

/// A name of a flow grows by a letter, a digit or, unless it is the first, an underscore, up to sixty-four
/// characters; the empty text is none.
pub proof fn law_flow_names_grow_by_plain_characters(raw: Seq<char>, c: char)
    ensures
        !valid_flow_name(Seq::empty()),
        valid_flow_name(seq![c]) <==> plain(c),
        raw.len() > 0 ==> (valid_flow_name(raw.push(c)) <==> valid_flow_name(raw) && raw.len() < 64
            && (plain(c) || c == '_')),
{
    let one = seq![c];
    assert(one[0] == c);
    if raw.len() > 0 {
        let more = raw.push(c);
        assert(more[raw.len() as int] == c);
        assert(more[0] == raw[0]);
        if valid_flow_name(more) {
            assert forall|i: int| 0 <= i < raw.len() implies ascii_alphanumeric(
                #[trigger] raw[i],
            ) || raw[i] == '_' by {
                assert(more[i] == raw[i]);
            }
        }
    }
}

/// A token of a pointer is written character by character: a tilde and a slash are escaped, so that no slash
/// is left in it, and nothing else is.
pub proof fn law_tokens_are_escaped(a: Seq<char>, c: char)
    ensures
        encoded(Seq::empty()) == Seq::<char>::empty(),
        encoded(a.push(c)) == encoded(a) + if c == '~' {
            seq!['~', '0']
        } else if c == '/' {
            seq!['~', '1']
        } else {
            seq![c]
        },
        !encoded(a).contains('/'),
    decreases a.len(),
{
    assert(a.push(c).drop_last() =~= a);
    assert(encoded(a).push(c) =~= encoded(a) + seq![c]);
    if a.len() > 0 {
        let init = a.drop_last();
        law_tokens_are_escaped(init, c);
        assert(init.push(a.last()) =~= a);
        assert forall|i: int| 0 <= i < encoded(a).len() implies #[trigger] encoded(a)[i] != '/' by {
            if i < encoded(init).len() {
                assert(encoded(a)[i] == encoded(init)[i]);
                assert(encoded(init).contains(encoded(init)[i]));
            }
        }
    }
}

/// A path is written token by token, each behind a slash.
pub proof fn law_paths_are_written_token_by_token(path: Seq<Seq<char>>, token: Seq<char>)
    ensures
        pointer_text(Seq::empty()) == Seq::<char>::empty(),
        pointer_text(path.push(token)) == pointer_text(path) + seq!['/'] + encoded(token),
{
    assert(path.push(token).drop_last() =~= path);
    assert(pointer_text(path).push('/') =~= pointer_text(path) + seq!['/']);
}

/// The sibling of a state stands in the same table under its own name.
pub proof fn law_siblings_share_their_table(table: Seq<Seq<char>>, a: Seq<char>, b: Seq<char>)
    ensures
        state_name(table.push(a)) == a,
        sibling(table.push(a), b) == table.push(b),
        sibling(Seq::empty(), b) == seq![b],
{
    assert(table.push(a).drop_last() =~= table);
}

/// Some decimal digits, and nothing else.
pub open spec fn is_digits(s: Seq<char>) -> bool {
    s.len() > 0 && forall|i: int| 0 <= i < s.len() ==> '0' <= #[trigger] s[i] && s[i] <= '9'
}

proof fn lemma_digits_have_a_value(s: Seq<char>)
    requires
        is_digits(s),
    ensures
        digits_value(s) is Some,
    decreases s.len(),
{
    if s.len() > 1 {
        assert forall|i: int| 0 <= i < s.drop_last().len() implies '0' <= #[trigger] s.drop_last()[i]
            && s.drop_last()[i] <= '9' by {
            assert(s.drop_last()[i] == s[i]);
        }
        lemma_digits_have_a_value(s.drop_last());
    }
    assert('0' <= s[s.len() - 1] && s[s.len() - 1] <= '9');
}

/// Digits are read in base ten, the most significant first.
pub proof fn law_digits_are_read_in_base_ten(s: Seq<char>, c: char)
    requires
        is_digits(s),
        '0' <= c && c <= '9',
    ensures
        digits_value(seq![c]) == Some((c as int - 48) as nat),
        digits_value(s.push(c)) == Some(
            (10 * digits_value(s)->0 + (c as int - 48)) as nat,
        ),
{
    lemma_digits_have_a_value(s);
    assert(s.push(c).drop_last() =~= s);
}

/// A fraction is whole exactly when its digits behind the point are zeros, and then it is what stands before
/// the point.
pub proof fn law_fraction_is_whole_when_nothing_is_left(a: Seq<char>, b: Seq<char>)
    requires
        is_digits(a),
        is_digits(b),
    ensures
        ({
            let text = a + seq!['.'] + b;
            whole(NumberView::Fraction(text)) == if forall|i: int|
                0 <= i < b.len() ==> #[trigger] b[i] == '0' {
                Some(digits_value(a)->0 as int)
            } else {
                None
            }
        }),
{
    let t = a + seq!['.'] + b;
    assert(t[0] == a[0]);
    assert forall|i: int| 0 <= i < t.len() implies #[trigger] t[i] != 'e' && t[i] != 'E' by {
        if i < a.len() {
            assert(t[i] == a[i]);
        } else if i > a.len() {
            assert(t[i] == b[i - a.len() - 1]);
        }
    }
    lemma_first_of(t, 'e', 'E', t.len() as int);
    assert(t.take(t.len() as int) =~= t);
    assert forall|i: int| 0 <= i < a.len() implies #[trigger] t[i] != '.' by {
        assert(t[i] == a[i]);
    }
    lemma_first_of(t, '.', '.', a.len() as int);
    assert(t.take(a.len() as int) =~= a);
    assert(t.skip(a.len() as int + 1) =~= b);
    let all = a + b;
    assert forall|i: int| 0 <= i < all.len() implies '0' <= #[trigger] all[i] && all[i] <= '9' by {
        if i < a.len() {
            assert(all[i] == a[i]);
        } else {
            assert(all[i] == b[i - a.len()]);
        }
    }
    lemma_digits_have_a_value(a);
    lemma_digits_have_a_value(b);
    lemma_digits_have_a_value(all);
    assert(all.take(a.len() as int) =~= a);
    if forall|i: int| 0 <= i < b.len() ==> #[trigger] b[i] == '0' {
        assert forall|i: int| a.len() <= i < all.len() && 0 <= i implies #[trigger] all[i] == '0' by {
            assert(all[i] == b[i - a.len()]);
        }
    } else {
        let i = choose|i: int| 0 <= i < b.len() && #[trigger] b[i] != '0';
        assert(all[a.len() + i] == b[i]);
    }
}

/// An exponent moves the point to the right by so many places.
pub proof fn law_exponent_moves_the_point(a: Seq<char>, k: Seq<char>)
    requires
        is_digits(a),
        is_digits(k),
    ensures
        whole(NumberView::Fraction(a + seq!['e'] + k)) == Some(
            (digits_value(a)->0 * pow10(digits_value(k)->0)) as int,
        ),
        pow10(0) == 1,
        forall|n: nat| #[trigger] pow10(n + 1) == 10 * pow10(n),
{
    let t = a + seq!['e'] + k;
    assert(t[0] == a[0]);
    assert forall|i: int| 0 <= i < a.len() implies #[trigger] t[i] != 'e' && t[i] != 'E' by {
        assert(t[i] == a[i]);
    }
    lemma_first_of(t, 'e', 'E', a.len() as int);
    assert(t.take(a.len() as int) =~= a);
    lemma_first_of(a, '.', '.', a.len() as int);
    assert(a.take(a.len() as int) =~= a);
    assert(a + Seq::empty() =~= a);
    assert(t.skip(a.len() as int + 1) =~= k);
    lemma_digits_have_a_value(a);
    lemma_digits_have_a_value(k);
    assert('0' <= k[0]);
}

/// A negative exponent moves the point to the left: the zeros that it passes are dropped, and a number that
/// would keep a digit behind the point is not whole.
pub proof fn law_negative_exponent_drops_zeros(a: Seq<char>, b: Seq<char>, k: Seq<char>)
    requires
        is_digits(a),
        is_digits(b),
        is_digits(k),
        digits_value(k) == Some(b.len()),
    ensures
        whole(NumberView::Fraction(a + b + seq!['e', '-'] + k)) == if forall|i: int|
            0 <= i < b.len() ==> #[trigger] b[i] == '0' {
            Some(digits_value(a)->0 as int)
        } else {
            None
        },
{
    let all = a + b;
    let t = all + seq!['e', '-'] + k;
    assert forall|i: int| 0 <= i < all.len() implies '0' <= #[trigger] all[i] && all[i] <= '9' by {
        if i < a.len() {
            assert(all[i] == a[i]);
        } else {
            assert(all[i] == b[i - a.len()]);
        }
    }
    assert(t[0] == all[0]);
    assert forall|i: int| 0 <= i < all.len() implies #[trigger] t[i] != 'e' && t[i] != 'E' by {
        assert(t[i] == all[i]);
    }
    lemma_first_of(t, 'e', 'E', all.len() as int);
    assert(t.take(all.len() as int) =~= all);
    lemma_first_of(all, '.', '.', all.len() as int);
    assert(all.take(all.len() as int) =~= all);
    assert(all + Seq::empty() =~= all);
    let shift = t.skip(all.len() as int + 1);
    assert(shift =~= seq!['-'] + k);
    assert(shift.drop_first() =~= k);
    lemma_digits_have_a_value(a);
    lemma_digits_have_a_value(all);
    assert(all.take(a.len() as int) =~= a);
    if forall|i: int| 0 <= i < b.len() ==> #[trigger] b[i] == '0' {
        assert forall|i: int| a.len() <= i < all.len() && 0 <= i implies #[trigger] all[i] == '0' by {
            assert(all[i] == b[i - a.len()]);
        }
    } else {
        let i = choose|i: int| 0 <= i < b.len() && #[trigger] b[i] != '0';
        assert(all[a.len() + i] == b[i]);
    }
}

/// Texts are ordered by the codes of the first characters in which they differ; a text comes before what
/// goes on from it.
pub proof fn law_first_difference_decides_the_order(a: Seq<char>, b: Seq<char>, i: int)
    requires
        0 <= i <= a.len(),
        i <= b.len(),
        a.take(i) == b.take(i),
    ensures
        i < a.len() && i < b.len() && a[i] != b[i] ==> (precedes(a, b) <==> (a[i] as int) < (
        b[i] as int)),
        i == a.len() && i < b.len() ==> precedes(a, b),
        i == b.len() ==> !precedes(a, b),
    decreases i,
{
    if i > 0 {
        assert(a.take(i)[0] == a[0]);
        assert(b.take(i)[0] == b[0]);
        let x = a.drop_first();
        let y = b.drop_first();
        assert(x.take(i - 1) =~= a.take(i).drop_first());
        assert(y.take(i - 1) =~= b.take(i).drop_first());
        law_first_difference_decides_the_order(x, y, i - 1);
    }
}

/// An integer is whole; a sign turns a fraction around; a value that is no number is not whole.
pub proof fn law_whole_values_are_numbers(n: i128, text: Seq<char>, value: Json)
    ensures
        whole_value(Json::Number(NumberView::Integral(n))) == Some(n as int),
        text.len() > 0 && text[0] != '-' ==> (match whole(NumberView::Fraction(text)) {
            Some(m) => whole(NumberView::Fraction(seq!['-'] + text)) == Some(-m),
            None => whole(NumberView::Fraction(seq!['-'] + text)) is None,
        }),
        !(value is Number) ==> whole_value(value) is None,
{
    assert((seq!['-'] + text).drop_first() =~= text);
}

/// An integer that is out of range is moved to the nearest that is not.
pub proof fn law_integers_are_moved_into_range(n: int)
    ensures
        i128::MIN <= n <= i128::MAX ==> clipped(n) == n,
        n > i128::MAX ==> clipped(n) == i128::MAX,
        n < i128::MIN ==> clipped(n) == i128::MIN,
{
}

/// A negative integer is written with its sign before its digits, any other as its digits.
pub proof fn law_integers_are_written_with_their_sign(n: nat)
    ensures
        signed_decimal(n as int) == decimal(n),
        n > 0 ==> signed_decimal(-n) == seq!['-'] + decimal(n),
        digits_value(decimal(n)) == Some(n),
{
    law_decimal_round_trip(n);
}

/// So many letters tell numbers apart that fit into them.
pub proof fn law_letters_tell_numbers_apart(a: nat, b: nat, len: nat)
    requires
        a < pow(20, len),
        b < pow(20, len),
        letters(a, len) == letters(b, len),
    ensures
        a == b,
    decreases len,
{
    reveal(pow);
    if len > 0 {
        let n = (len - 1) as nat;
        assert(pow(20, len) == 20 * pow(20, n));
        assert(letters(a, len).drop_last() =~= letters(a / 20, n));
        assert(letters(b, len).drop_last() =~= letters(b / 20, n));
        law_letters_tell_numbers_apart(a / 20, b / 20, n);
        assert(letters(a, len).last() == letter(a % 20));
        assert(letters(b, len).last() == letter(b % 20));
        reveal_strlit("bcdfghjklmnpqrstvwxz");
        assert(a % 20 == b % 20);
    }
}

/// A page shows the first rows, no more than the limit. A token comes with it exactly when rows are left and
/// the page is not empty: it is the name of the last row shown.
pub proof fn law_page_is_cut_at_the_limit(rows: Seq<QueryObjectView>, limit: usize, i: int)
    ensures
        ({
            let page = page_of(rows, limit);
            &&& page.objects.len() == if rows.len() <= limit {
                rows.len()
            } else {
                limit as nat
            }
            &&& 0 <= i < page.objects.len() ==> page.objects[i] == rows[i]
            &&& page.continue_token is Some <==> rows.len() > limit && limit > 0
            &&& page.continue_token matches Some(token) ==> token == row_text(page.objects.last())
        }),
{
}

/// The first row that cannot be read fails the rows, and is named.
pub proof fn law_first_unreadable_row_is_named(kind: ObjectKind, rows: Seq<RowView>, k: int)
    requires
        0 <= k < rows.len(),
        forall|i: int|
            0 <= i < k ==> ((#[trigger] rows[i]).object matches Some(o) && o.kind() == kind),
        !(rows[k].object matches Some(o) && o.kind() == kind),
    ensures
        decoded_rows(kind, rows) == Err::<Seq<QueryObjectView>, _>(unreadable(kind, rows[k].name)),
    decreases rows.len(),
{
    let before = rows.drop_last();
    if k < before.len() {
        assert forall|i: int| 0 <= i < k implies ((#[trigger] before[i]).object matches Some(o)
            && o.kind() == kind) by {
            assert(before[i] == rows[i]);
        }
        law_first_unreadable_row_is_named(kind, before, k);
    } else {
        assert forall|i: int| 0 <= i < before.len() implies ((#[trigger] before[i]).object matches Some(
            o,
        ) && o.kind() == kind) by {
            assert(before[i] == rows[i]);
        }
        law_readable_rows_are_all_shown(kind, before);
    }
}

/// What has completed or has been terminated is at its end; what is terminated, or is being so, has a reason.
pub proof fn law_ends_and_reasons(status: LifecycleView, reason: TerminationReasonView)
    ensures
        status.terminal() <==> !(status is Running || status is Completing || status is Terminating),
        status.reason() == Some(reason) <==> status == LifecycleView::Terminating(reason) || status
            == LifecycleView::Terminated(reason),
        status.reason() is None <==> status is Running || status is Completing || status is Completed,
{
}

/// A task has come to its end once it is completed, failed or cancelled.
pub proof fn law_tasks_come_to_an_end(status: TaskStatus)
    ensures
        status.terminal() <==> !(status is Pending || status is Running),
{
}

/// A snapshot shows where an execution stands: its output only once it has completed, the name and the
/// output of an error only once that error has terminated it.
pub proof fn law_snapshot_shows_the_end(x: ExecutionView, error: ExecutionErrorView)
    ensures
        ({
            let shown = snapshot_of(x);
            &&& shown.status == x.status
            &&& x.status is Completed ==> shown.output == x.output && shown.error_name is None
                && shown.error_output is None
            &&& !(x.status is Completed) ==> shown.output is None
            &&& x.status == LifecycleView::Terminated(TerminationReasonView::Failed { error })
                ==> shown.error_name == Some(error_name(error)) && shown.error_output
                == error_output(error)
            &&& !(x.status matches LifecycleView::Terminated(TerminationReasonView::Failed { .. }))
                ==> shown.error_name is None && shown.error_output is None
        }),
{
}

} // verus!
