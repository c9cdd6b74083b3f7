//! The integers that JSON numbers stand for: `30`, but also `30.0` and `3e1`.

use vstd::prelude::*;
use vstd::string::*;

use crate::text::{decimal, digits_value, law_decimal_round_trip};
use crate::value::{Json, Number, NumberView, Value};

verus! {

/// Where `a` or `b` first stands in `s`; its length, when neither does.
pub open spec fn first_of(s: Seq<char>, a: char, b: char) -> int
    decreases s.len(),
{
    if s.len() == 0 || s[0] == a || s[0] == b {
        0
    } else {
        1 + first_of(s.drop_first(), a, b)
    }
}

/// Ten to the power of `n`.
pub open spec fn pow10(n: nat) -> nat
    decreases n,
{
    if n == 0 {
        1
    } else {
        10 * pow10((n - 1) as nat)
    }
}

/// The integer that an optional sign and decimal digits write.
pub open spec fn exponent(s: Seq<char>) -> Option<int> {
    if s.len() > 0 && s[0] == '-' {
        match digits_value(s.drop_first()) {
            Some(n) => Some(-n),
            None => None,
        }
    } else {
        match digits_value(if s.len() > 0 && s[0] == '+' {
            s.drop_first()
        } else {
            s
        }) {
            Some(n) => Some(n as int),
            None => None,
        }
    }
}

/// Nothing but zeros stands in `s` from `p` on.
pub open spec fn zeros_from(s: Seq<char>, p: int) -> bool {
    forall|i: int| p <= i < s.len() && 0 <= i ==> #[trigger] s[i] == '0'
}

/// The integer that decimal digits write when the point stands before place `p`, if it is one.
pub open spec fn pointed(digits: Seq<char>, p: int) -> Option<nat> {
    match digits_value(digits) {
        None => None,
        Some(n) => if p >= digits.len() {
            Some(n * pow10((p - digits.len()) as nat))
        } else if !zeros_from(digits, p) {
            None
        } else if p <= 0 {
            Some(0)
        } else {
            digits_value(digits.take(p))
        },
    }
}

/// The integer that a decimal number without a sign writes, if it is one: digits, then a point and
/// more digits, then an exponent, where the latter two may be missing.
pub open spec fn unsigned_whole(s: Seq<char>) -> Option<nat> {
    let e = first_of(s, 'e', 'E');
    let mantissa = s.take(e);
    let d = first_of(mantissa, '.', '.');
    let before = mantissa.take(d);
    let after = if d < mantissa.len() {
        mantissa.skip(d + 1)
    } else {
        Seq::empty()
    };
    let shift = if e < s.len() {
        exponent(s.skip(e + 1))
    } else {
        Some(0int)
    };
    match shift {
        Some(shift) if digits_value(before) is Some && (d == mantissa.len() || digits_value(
            after,
        ) is Some) => pointed(before + after, before.len() + shift),
        _ => None,
    }
}

/// The integer that a number stands for, if it stands for one: an evaluated `30` may come as `30.0`.
pub open spec fn whole(n: NumberView) -> Option<int> {
    match n {
        NumberView::Integral(i) => Some(i as int),
        NumberView::Fraction(text) => if text.len() > 0 && text[0] == '-' {
            match unsigned_whole(text.drop_first()) {
                Some(n) => Some(-n),
                None => None,
            }
        } else {
            match unsigned_whole(text) {
                Some(n) => Some(n as int),
                None => None,
            }
        },
    }
}

/// The integer that a value stands for, if it is a number that stands for one.
pub open spec fn whole_value(value: Json) -> Option<int> {
    match value {
        Json::Number(n) => whole(n),
        _ => None,
    }
}

/// The nearest integer that an `i128` can hold.
pub open spec fn clipped(n: int) -> i128 {
    if n > i128::MAX {
        i128::MAX
    } else if n < i128::MIN {
        i128::MIN
    } else {
        n as i128
    }
}

/// One more than the largest magnitude that an `i128` holds on both sides of zero.
const CEILING: u128 = 170141183460469231731687303715884105728;

/// `n`, or the ceiling when it is smaller.
spec fn capped(n: nat) -> u128 {
    if n >= CEILING {
        CEILING
    } else {
        n as u128
    }
}

/// `n` times ten, and `d` more, below the ceiling.
fn next_digit(n: u128, d: u128, Ghost(full): Ghost<nat>) -> (r: u128)
    requires
        n == capped(full),
        d < 10,
    ensures
        r == capped((full * 10 + d) as nat),
{
    if n >= 17014118346046923173168730371588410573 {
        CEILING
    } else if n * 10 + d >= CEILING {
        CEILING
    } else {
        n * 10 + d
    }
}

/// A prefix that is not all digits spoils the whole.
proof fn lemma_spoiled(s: Seq<char>, k: int)
    requires
        0 < k <= s.len(),
        digits_value(s.take(k)) is None,
    ensures
        digits_value(s) is None,
    decreases s.len() - k,
{
    if k == s.len() {
        assert(s.take(k) =~= s);
    } else {
        assert(s.take(k + 1).drop_last() =~= s.take(k));
        lemma_spoiled(s, k + 1);
    }
}

/// Reads decimal digits, up to the ceiling.
fn read_digits(s: &str) -> (r: Option<u128>)
    ensures
        match digits_value(s@) {
            Some(n) => r == Some(capped(n)),
            None => r is None,
        },
{
    let n = s.unicode_len();
    if n == 0 {
        return None;
    }
    let mut value: u128 = 0;
    let mut i: usize = 0;
    while i < n
        invariant
            i <= n,
            n == s@.len(),
            i == 0 ==> value == 0,
            i > 0 ==> (digits_value(s@.take(i as int)) matches Some(full) && value == capped(full)),
        decreases n - i,
    {
        let c = s.get_char(i);
        let ghost head = s@.take(i as int + 1);
        let ghost before: nat = if i == 0 {
            0
        } else {
            digits_value(s@.take(i as int))->0
        };
        assert(head.drop_last() =~= s@.take(i as int));
        assert(head.last() == c);
        if c < '0' || c > '9' {
            proof {
                assert(digits_value(head) is None);
                lemma_spoiled(s@, i as int + 1);
            }
            return None;
        }
        let d: u128 = (c as u32 - '0' as u32) as u128;
        value = next_digit(value, d, Ghost(before));
        proof {
            if i == 0 {
                assert(head.len() == 1);
            }
            assert(digits_value(head) == Some((before * 10 + d) as nat));
        }
        i += 1;
    }
    assert(s@.take(n as int) =~= s@);
    Some(value)
}

/// Where `a` or `b` first stands in `s`; its length, when neither does.
fn find_first(s: &str, a: char, b: char) -> (r: usize)
    ensures
        r == first_of(s@, a, b),
        r <= s@.len(),
{
    let n = s.unicode_len();
    let mut i: usize = 0;
    assert(s@.skip(0) =~= s@);
    while i < n
        invariant
            i <= n,
            n == s@.len(),
            first_of(s@, a, b) == i + first_of(s@.skip(i as int), a, b),
        decreases n - i,
    {
        let c = s.get_char(i);
        let ghost rest = s@.skip(i as int);
        assert(rest[0] == c);
        assert(rest.drop_first() =~= s@.skip(i as int + 1));
        if c == a || c == b {
            return i;
        }
        i += 1;
    }
    assert(s@.skip(n as int).len() == 0);
    n
}

/// Reads an exponent: whether it is negative, and its magnitude, up to the ceiling.
fn read_exponent(s: &str) -> (r: Option<(bool, u128)>)
    ensures
        match exponent(s@) {
            None => r is None,
            Some(x) => r matches Some((negative, magnitude)) && (if negative {
                x <= 0 && magnitude == capped((-x) as nat)
            } else {
                x >= 0 && magnitude == capped(x as nat)
            }),
        },
{
    let n = s.unicode_len();
    if n > 0 && (s.get_char(0) == '-' || s.get_char(0) == '+') {
        let digits = s.substring_char(1, n);
        assert(digits@ =~= s@.drop_first());
        match read_digits(digits) {
            Some(magnitude) => Some((s.get_char(0) == '-', magnitude)),
            None => None,
        }
    } else {
        match read_digits(s) {
            Some(magnitude) => Some((false, magnitude)),
            None => None,
        }
    }
}

/// Whether nothing but zeros stands in `s` from `p` on.
fn only_zeros(s: &str, p: usize) -> (r: bool)
    ensures
        r == zeros_from(s@, p as int),
{
    let n = s.unicode_len();
    let mut i: usize = p;
    while i < n
        invariant
            p <= i,
            n == s@.len(),
            forall|j: int| p <= j < i && j < s@.len() ==> #[trigger] s@[j] == '0',
        decreases n - i,
    {
        if s.get_char(i) != '0' {
            assert(s@[i as int] != '0');
            return false;
        }
        i += 1;
    }
    true
}

proof fn lemma_power_is_large(n: nat)
    requires
        n >= 39,
    ensures
        pow10(n) >= CEILING,
    decreases n,
{
    if n == 39 {
        reveal_with_fuel(pow10, 40);
    } else {
        lemma_power_is_large((n - 1) as nat);
    }
}

/// `value` with `shift` zeros behind it, up to the ceiling.
fn scale(value: u128, shift: u128, Ghost(full): Ghost<nat>, Ghost(exact): Ghost<nat>) -> (r: u128)
    requires
        value == capped(full),
        shift == exact || (shift >= 39 && exact >= 39),
    ensures
        r == capped(full * pow10(exact)),
{
    if value == 0 {
        assert(full * pow10(exact) == 0) by (nonlinear_arith)
            requires
                full == 0,
        ;
        return 0;
    }
    let mut r: u128 = value;
    let mut k: u128 = 0;
    assert(full * pow10(0) == full) by (nonlinear_arith)
        requires
            pow10(0) == 1,
    ;
    while k < shift && k < 39
        invariant
            k <= 39,
            k <= shift,
            r == capped(full * pow10(k as nat)),
        decreases 39 - k,
    {
        let ghost now = full * pow10(k as nat);
        assert(full * pow10((k + 1) as nat) == now * 10) by (nonlinear_arith)
            requires
                pow10((k + 1) as nat) == 10 * pow10(k as nat),
                now == full * pow10(k as nat),
        ;
        r = next_digit(r, 0, Ghost(now));
        k += 1;
    }
    proof {
        if k == 39 {
            lemma_power_is_large(39);
            lemma_power_is_large(exact);
            assert(full * pow10(39) >= CEILING) by (nonlinear_arith)
                requires
                    full >= 1,
                    pow10(39) >= CEILING,
            ;
            assert(full * pow10(exact) >= CEILING) by (nonlinear_arith)
                requires
                    full >= 1,
                    pow10(exact) >= CEILING,
            ;
        }
    }
    r
}

/// Reads an integer that a decimal number without a sign writes, up to the ceiling.
fn read_unsigned(s: &str) -> (r: Option<u128>)
    ensures
        match unsigned_whole(s@) {
            Some(n) => r == Some(capped(n)),
            None => r is None,
        },
{
    let n = s.unicode_len();
    let e: usize = find_first(s, 'e', 'E');
    let mantissa = s.substring_char(0, e);
    assert(mantissa@ =~= s@.take(e as int));
    let d: usize = find_first(mantissa, '.', '.');
    let before = mantissa.substring_char(0, d);
    assert(before@ =~= mantissa@.take(d as int));
    let ghost after_text = if d < mantissa@.len() {
        mantissa@.skip(d as int + 1)
    } else {
        Seq::empty()
    };
    if read_digits(before).is_none() {
        return None;
    }
    let digits = if d < e {
        let after = mantissa.substring_char(d + 1, e);
        assert(after@ =~= after_text);
        if read_digits(after).is_none() {
            return None;
        }
        before.to_owned().concat(after)
    } else {
        assert(before@ + after_text =~= before@);
        before.to_owned()
    };
    assert(digits@ =~= before@ + after_text);
    let (negative, magnitude): (bool, u128) = if e < n {
        let behind = s.substring_char(e + 1, n);
        assert(behind@ =~= s@.skip(e as int + 1));
        match read_exponent(behind) {
            Some(x) => x,
            None => return None,
        }
    } else {
        (false, 0)
    };
    let ghost shift: int = if e < n {
        exponent(s@.skip(e as int + 1))->0
    } else {
        0
    };
    let ghost p = before@.len() + shift;
    let len = digits.as_str().unicode_len();
    let value = match read_digits(digits.as_str()) {
        Some(value) => value,
        None => return None,
    };
    let places: u128 = d as u128;
    let total: u128 = len as u128;
    assert(before@.len() == d);
    if !negative && magnitude >= total - places {
        return Some(
            scale(
                value,
                magnitude - (total - places),
                Ghost(digits_value(digits@)->0),
                Ghost((p - digits@.len()) as nat),
            ),
        );
    }
    if negative && magnitude == 0 && total == places {
        let ghost full = digits_value(digits@)->0;
        assert(full * pow10(0) == full) by (nonlinear_arith)
            requires
                pow10(0) == 1,
        ;
        return Some(value);
    }
    let point: usize = if negative {
        if magnitude >= places {
            0
        } else {
            (places - magnitude) as usize
        }
    } else {
        (places + magnitude) as usize
    };
    if !only_zeros(digits.as_str(), point) {
        return None;
    }
    if point == 0 {
        return Some(0);
    }
    let front = digits.as_str().substring_char(0, point);
    assert(front@ =~= digits@.take(point as int));
    read_digits(front)
}

pub proof fn lemma_first_of(s: Seq<char>, a: char, b: char, k: int)
    requires
        0 <= k <= s.len(),
        forall|i: int| 0 <= i < k ==> #[trigger] s[i] != a && s[i] != b,
        k < s.len() ==> s[k] == a || s[k] == b,
    ensures
        first_of(s, a, b) == k,
    decreases s.len(),
{
    if k > 0 {
        let rest = s.drop_first();
        assert forall|i: int| 0 <= i < k - 1 implies #[trigger] rest[i] != a && rest[i] != b by {
            assert(rest[i] == s[i + 1]);
        }
        lemma_first_of(rest, a, b, k - 1);
    }
}

proof fn lemma_decimal_is_digits(n: nat)
    ensures
        decimal(n).len() > 0,
        forall|i: int| 0 <= i < decimal(n).len() ==> '0' <= #[trigger] decimal(n)[i] <= '9',
    decreases n,
{
    if n >= 10 {
        lemma_decimal_is_digits(n / 10);
    }
}

/// An integer stands for itself, with a fraction of zero too: an evaluated `30` may come as `30.0`.
pub proof fn law_fraction_of_zero_is_whole(n: nat)
    ensures
        whole(NumberView::Fraction(decimal(n))) == Some(n as int),
        whole(NumberView::Fraction(decimal(n) + ".0"@)) == Some(n as int),
        whole(NumberView::Fraction("-"@ + decimal(n) + ".0"@)) == Some(-n),
{
    let d = decimal(n);
    let t = d + ".0"@;
    reveal_strlit(".0");
    reveal_strlit("-");
    lemma_decimal_is_digits(n);
    law_decimal_round_trip(n);
    lemma_first_of(d, 'e', 'E', d.len() as int);
    assert(d.take(d.len() as int) =~= d);
    lemma_first_of(d, '.', '.', d.len() as int);
    assert(d + Seq::empty() =~= d);
    assert(n * pow10(0) == n) by (nonlinear_arith)
        requires
            pow10(0) == 1,
    ;
    assert forall|i: int| 0 <= i < t.len() implies #[trigger] t[i] != 'e' && t[i] != 'E' by {
        if i < d.len() {
            assert(t[i] == d[i]);
        }
    }
    lemma_first_of(t, 'e', 'E', t.len() as int);
    assert(t.take(t.len() as int) =~= t);
    assert forall|i: int| 0 <= i < d.len() implies #[trigger] t[i] != '.' by {
        assert(t[i] == d[i]);
    }
    lemma_first_of(t, '.', '.', d.len() as int);
    assert(t.take(d.len() as int) =~= d);
    let zero = t.skip(d.len() as int + 1);
    assert(zero =~= seq!['0']);
    assert(zero.drop_last() =~= Seq::empty());
    let digits = d + zero;
    assert(digits.drop_last() =~= d);
    assert(digits.last() == '0');
    assert(digits.take(d.len() as int) =~= d);
    assert(("-"@ + d + ".0"@).drop_first() =~= t);
    assert(t[0] == d[0]);
}

impl Number {
    /// The integer that the number stands for, if it stands for one; one that is out of range is
    /// moved to the nearest that is not.
    pub fn whole(&self) -> (r: Option<i128>)
        ensures
            match whole(self@) {
                Some(n) => r == Some(clipped(n)),
                None => r is None,
            },
    {
        match self {
            Number::Integral(i) => Some(*i),
            Number::Fraction(text) => {
                let s = text.as_str();
                let n = s.unicode_len();
                if n > 0 && s.get_char(0) == '-' {
                    let magnitude = s.substring_char(1, n);
                    assert(magnitude@ =~= text@.drop_first());
                    match read_unsigned(magnitude) {
                        Some(value) => Some(
                            if value == CEILING {
                                i128::MIN
                            } else {
                                -(value as i128)
                            },
                        ),
                        None => None,
                    }
                } else {
                    match read_unsigned(s) {
                        Some(value) => Some(
                            if value == CEILING {
                                i128::MAX
                            } else {
                                value as i128
                            },
                        ),
                        None => None,
                    }
                }
            },
        }
    }
}

impl Value {
    /// The integer that the value stands for, if it is a number that stands for one; one that is out
    /// of range is moved to the nearest that is not.
    pub fn whole(&self) -> (r: Option<i128>)
        ensures
            match whole_value(self@) {
                Some(n) => r == Some(clipped(n)),
                None => r is None,
            },
    {
        match self {
            Value::Number(n) => n.whole(),
            _ => None,
        }
    }
}

} // verus!
