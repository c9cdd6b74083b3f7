//! Text: building messages, writing integers in decimal and reading them back.

use vstd::prelude::*;
use vstd::string::*;

verus! {

/// Whether the two hold the same characters.
pub fn same_text(a: &str, b: &str) -> (r: bool)
    ensures
        r == (a@ == b@),
{
    a.to_owned() == b.to_owned()
}

/// `a` followed by `b`.
pub fn join2(a: &str, b: &str) -> (r: String)
    ensures
        r@ == a@ + b@,
{
    a.to_owned().concat(b)
}

/// `a`, `b` and `c`, one behind the other.
pub fn join3(a: &str, b: &str, c: &str) -> (r: String)
    ensures
        r@ == a@ + b@ + c@,
{
    a.to_owned().concat(b).concat(c)
}

/// The decimal digit of a number below ten.
pub open spec fn digit(d: nat) -> char {
    if d == 0 {
        '0'
    } else if d == 1 {
        '1'
    } else if d == 2 {
        '2'
    } else if d == 3 {
        '3'
    } else if d == 4 {
        '4'
    } else if d == 5 {
        '5'
    } else if d == 6 {
        '6'
    } else if d == 7 {
        '7'
    } else if d == 8 {
        '8'
    } else {
        '9'
    }
}

/// `n` in decimal, without leading zeros.
pub open spec fn decimal(n: nat) -> Seq<char>
    decreases n,
{
    if n < 10 {
        seq![digit(n)]
    } else {
        decimal(n / 10).push(digit(n % 10))
    }
}

/// `n` in decimal, behind a minus sign when it is negative.
pub open spec fn signed_decimal(n: int) -> Seq<char> {
    if n < 0 {
        seq!['-'] + decimal((-n) as nat)
    } else {
        decimal(n as nat)
    }
}

fn digit_text(d: u128) -> (r: &'static str)
    requires
        d < 10,
    ensures
        r@ == seq![digit(d as nat)],
{
    proof {
        reveal_strlit("0");
        reveal_strlit("1");
        reveal_strlit("2");
        reveal_strlit("3");
        reveal_strlit("4");
        reveal_strlit("5");
        reveal_strlit("6");
        reveal_strlit("7");
        reveal_strlit("8");
        reveal_strlit("9");
    }
    let r = if d == 0 {
        "0"
    } else if d == 1 {
        "1"
    } else if d == 2 {
        "2"
    } else if d == 3 {
        "3"
    } else if d == 4 {
        "4"
    } else if d == 5 {
        "5"
    } else if d == 6 {
        "6"
    } else if d == 7 {
        "7"
    } else if d == 8 {
        "8"
    } else {
        "9"
    };
    assert(r@ =~= seq![digit(d as nat)]);
    r
}

/// Writes `n` in decimal.
pub fn decimal_text(n: u128) -> (r: String)
    ensures
        r@ == decimal(n as nat),
    decreases n,
{
    if n < 10 {
        digit_text(n).to_owned()
    } else {
        let r = decimal_text(n / 10).concat(digit_text(n % 10));
        assert(r@ =~= decimal(n as nat));
        r
    }
}

/// Writes `n` in decimal, with its sign when it is negative.
pub fn integer_text(n: i128) -> (r: String)
    ensures
        r@ == signed_decimal(n as int),
{
    if n < 0 {
        proof {
            reveal_strlit("-");
        }
        let magnitude: u128 = (-(n + 1)) as u128 + 1;
        let r = join2("-", decimal_text(magnitude).as_str());
        assert(r@ =~= signed_decimal(n as int));
        r
    } else {
        decimal_text(n as u128)
    }
}

/// Writes `n` in decimal, with its sign when it is negative.
pub fn signed_decimal_text(n: i64) -> (r: String)
    ensures
        r@ == signed_decimal(n as int),
{
    integer_text(n as i128)
}

/// The letter of a number below twenty: the consonants but `y`, so that no word comes about.
pub open spec fn letter(d: nat) -> char {
    "bcdfghjklmnpqrstvwxz"@[d as int]
}

/// The lowest `len` digits of `n` to the base of twenty, in letters.
pub open spec fn letters(n: nat, len: nat) -> Seq<char>
    decreases len,
{
    if len == 0 {
        Seq::empty()
    } else {
        letters(n / 20, (len - 1) as nat).push(letter(n % 20))
    }
}

/// Writes the lowest `len` digits of `n` to the base of twenty in letters.
pub fn letters_text(n: u128, len: u32) -> (r: String)
    ensures
        r@ == letters(n as nat, len as nat),
    decreases len,
{
    if len == 0 {
        let r = String::new();
        assert(r@ =~= letters(n as nat, 0));
        r
    } else {
        proof {
            reveal_strlit("bcdfghjklmnpqrstvwxz");
        }
        let d: usize = (n % 20) as usize;
        let last = "bcdfghjklmnpqrstvwxz".substring_char(d, d + 1);
        let r = letters_text(n / 20, len - 1).concat(last);
        assert(last@ =~= seq![letter((n % 20) as nat)]);
        assert(r@ =~= letters(n as nat, len as nat));
        r
    }
}

/// As many letters are written as are asked for, and none of them is a digit or a hyphen.
pub proof fn law_letters_are_no_digits(n: nat, len: nat)
    ensures
        letters(n, len).len() == len,
        forall|i: int|
            0 <= i < len ==> {
                let c = #[trigger] letters(n, len)[i];
                digit_value(c) is None && c != '-'
            },
    decreases len,
{
    if len > 0 {
        law_letters_are_no_digits(n / 20, (len - 1) as nat);
        reveal_strlit("bcdfghjklmnpqrstvwxz");
        let d = n % 20;
        assert(digit_value(letter(d)) is None && letter(d) != '-');
        let rest = letters(n / 20, (len - 1) as nat);
        assert forall|i: int| 0 <= i < len implies {
            let c = #[trigger] letters(n, len)[i];
            digit_value(c) is None && c != '-'
        } by {
            if i < len - 1 {
                assert(letters(n, len)[i] == rest[i]);
            }
        }
    }
}

/// The number below ten that `c` is the decimal digit of.
pub open spec fn digit_value(c: char) -> Option<nat> {
    if '0' <= c && c <= '9' {
        Some((c as int - '0' as int) as nat)
    } else {
        None
    }
}

/// The number that `s` writes as decimal digits, leading zeros allowed; `None` when `s` is empty
/// or holds anything else.
pub open spec fn digits_value(s: Seq<char>) -> Option<nat>
    decreases s.len(),
{
    if s.len() == 0 {
        None
    } else if s.len() == 1 {
        digit_value(s[0])
    } else {
        match (digits_value(s.drop_last()), digit_value(s.last())) {
            (Some(n), Some(d)) => Some(n * 10 + d),
            _ => None,
        }
    }
}

/// Reads decimal digits back: `None` when `s` is empty, holds anything but digits from `from` on,
/// or writes a number above `limit`.
pub fn parse_digits(s: &str, from: usize, limit: u64) -> (r: Option<u64>)
    requires
        from <= s@.len(),
    ensures
        r == (match digits_value(s@.skip(from as int)) {
            Some(n) => if n <= limit {
                Some(n as u64)
            } else {
                None
            },
            None => None,
        }),
{
    let n = s.unicode_len();
    let ghost tail = s@.skip(from as int);
    if from == n {
        return None;
    }
    let mut acc: u64 = 0;
    let mut i: usize = from;
    while i < n
        invariant
            from <= i <= n,
            n == s@.len(),
            tail == s@.skip(from as int),
            i > from ==> digits_value(tail.take(i - from)) == Some(acc as nat),
            i == from ==> acc == 0,
            acc <= limit,
        decreases n - i,
    {
        let c = s.get_char(i);
        let ghost head = tail.take(i - from + 1);
        proof {
            assert(head.drop_last() =~= tail.take(i - from));
            assert(head.last() == c);
        }
        if c < '0' || c > '9' {
            proof {
                assert(digits_value(head) is None);
                lemma_bad_prefix(tail, i - from + 1);
            }
            return None;
        }
        let d: u64 = (c as u32 - '0' as u32) as u64;
        let wide: u128 = (acc as u128) * 10 + (d as u128);
        proof {
            if i == from {
                assert(head.len() == 1);
            }
            assert(digits_value(head) == Some(wide as nat));
        }
        if wide > limit as u128 {
            proof {
                lemma_digits_grow(tail, i - from + 1);
            }
            return None;
        }
        acc = wide as u64;
        i += 1;
    }
    assert(tail.take(n - from) =~= tail);
    Some(acc)
}

/// A prefix that is not all digits spoils the whole.
proof fn lemma_bad_prefix(s: Seq<char>, k: int)
    requires
        0 < k <= s.len(),
        digits_value(s.take(k)) is None,
    ensures
        digits_value(s) is None,
    decreases s.len() - k,
{
    if k == s.len() {
        assert(s.take(k) =~= s);
    } else {
        assert(s.take(k + 1).drop_last() =~= s.take(k));
        lemma_bad_prefix(s, k + 1);
    }
}

/// More digits never make the number smaller.
proof fn lemma_digits_grow(s: Seq<char>, k: int)
    requires
        0 < k <= s.len(),
        digits_value(s.take(k)) is Some,
    ensures
        digits_value(s) matches Some(n) ==> n >= digits_value(s.take(k))->0,
    decreases s.len() - k,
{
    if k == s.len() {
        assert(s.take(k) =~= s);
    } else {
        assert(s.take(k + 1).drop_last() =~= s.take(k));
        if digits_value(s.take(k + 1)) is Some {
            lemma_digits_grow(s, k + 1);
        } else {
            lemma_bad_prefix(s, k + 1);
        }
    }
}

proof fn lemma_digit_round_trip(d: nat)
    requires
        d < 10,
    ensures
        digit_value(digit(d)) == Some(d),
{
}

/// Writing a number in decimal and reading the digits back gives the number.
pub proof fn law_decimal_round_trip(n: nat)
    ensures
        digits_value(decimal(n)) == Some(n),
        decimal(n).len() > 0,
    decreases n,
{
    lemma_digit_round_trip(n % 10);
    if n >= 10 {
        law_decimal_round_trip(n / 10);
        assert(decimal(n).drop_last() =~= decimal(n / 10));
        assert(n == (n / 10) * 10 + n % 10);
    } else {
        lemma_digit_round_trip(n);
    }
}

} // verus!
