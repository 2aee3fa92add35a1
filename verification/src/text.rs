//! Decimal rendering of integers, used when errors describe sizes and
//! budgets in their messages.

use vstd::prelude::*;
use vstd::string::StringExecFns;

verus! {

/// The character for one decimal digit.
pub open spec fn spec_digit_char(d: u64) -> char {
    if d == 0 {
        '0'
    } else if d == 1 {
        '1'
    } else if d == 2 {
        '2'
    } else if d == 3 {
        '3'
    } else if d == 4 {
        '4'
    } else if d == 5 {
        '5'
    } else if d == 6 {
        '6'
    } else if d == 7 {
        '7'
    } else if d == 8 {
        '8'
    } else {
        '9'
    }
}

/// The decimal rendering of `n`, most significant digit first, with no
/// leading zeros (`0` renders as "0").
pub open spec fn spec_u64_dec(n: u64) -> Seq<char>
    decreases n,
{
    if n < 10 {
        seq![spec_digit_char(n)]
    } else {
        spec_u64_dec((n / 10) as u64) + seq![spec_digit_char(n % 10)]
    }
}

/// The decimal rendering of a signed value: a minus sign before the
/// rendering of the magnitude when the value is negative.
pub open spec fn spec_i64_dec(n: i64) -> Seq<char> {
    if n < 0 {
        seq!['-'] + spec_u64_dec((-(n as int)) as u64)
    } else {
        spec_u64_dec(n as u64)
    }
}

/// Appends the character of one decimal digit to `s`.
fn push_digit_char(s: &mut String, d: u64)
    requires
        d < 10,
    ensures
        final(s)@ == old(s)@ + seq![spec_digit_char(d)],
{
    proof {
        reveal_strlit("0");
        reveal_strlit("1");
        reveal_strlit("2");
        reveal_strlit("3");
        reveal_strlit("4");
        reveal_strlit("5");
        reveal_strlit("6");
        reveal_strlit("7");
        reveal_strlit("8");
        reveal_strlit("9");
    }
    let lit: &str = if d == 0 {
        "0"
    } else if d == 1 {
        "1"
    } else if d == 2 {
        "2"
    } else if d == 3 {
        "3"
    } else if d == 4 {
        "4"
    } else if d == 5 {
        "5"
    } else if d == 6 {
        "6"
    } else if d == 7 {
        "7"
    } else if d == 8 {
        "8"
    } else {
        "9"
    };
    s.append(lit);
    proof {
        assert(s@ =~= old(s)@ + seq![spec_digit_char(d)]);
    }
}

/// Appends the decimal rendering of `n` to `s`.
fn push_u64_dec(s: &mut String, n: u64)
    ensures
        final(s)@ == old(s)@ + spec_u64_dec(n),
    decreases n,
{
    if n < 10 {
        push_digit_char(s, n);
    } else {
        push_u64_dec(s, n / 10);
        push_digit_char(s, n % 10);
        proof {
            assert(s@ =~= old(s)@ + spec_u64_dec(n));
        }
    }
}

/// Renders `n` in decimal.
pub fn u64_to_dec(n: u64) -> (r: String)
    ensures
        r@ == spec_u64_dec(n),
{
    let mut s = String::new();
    push_u64_dec(&mut s, n);
    proof {
        assert(s@ =~= spec_u64_dec(n));
    }
    s
}

/// True exactly for the ten decimal digit characters.
pub open spec fn is_dec_digit(c: char) -> bool {
    48 <= c as u32 <= 57
}

/// The numeric value of one decimal digit character.
pub open spec fn digit_val(c: char) -> int {
    c as u32 - 48
}

/// True when every character of `t` is a decimal digit.
pub open spec fn all_dec_digits(t: Seq<char>) -> bool {
    forall|i: int| 0 <= i < t.len() ==> is_dec_digit(#[trigger] t[i])
}

/// The numeric value of a sequence of decimal digits, most significant
/// first; the empty sequence has value zero.
pub open spec fn dec_value(t: Seq<char>) -> int
    decreases t.len(),
{
    if t.len() == 0 {
        0
    } else {
        dec_value(t.drop_last()) * 10 + digit_val(t.last())
    }
}

/// True for the canonical decimal rendering of an integer: an optional
/// leading minus sign, then digits, with no leading zero (so `0` is the only
/// text starting with a zero digit, and `-0` is not canonical). This is the
/// shape in which the engine reports arbitrary-precision integers.
pub open spec fn is_canonical_int_text(s: Seq<char>) -> bool {
    if s.len() == 0 {
        false
    } else if s[0] == '-' {
        s.len() >= 2 && all_dec_digits(s.drop_first()) && s[1] != '0'
    } else {
        all_dec_digits(s) && (s.len() == 1 || s[0] != '0')
    }
}

/// The integer denoted by a decimal text, honouring a leading minus sign.
pub open spec fn int_text_value(s: Seq<char>) -> int {
    if s.len() > 0 && s[0] == '-' {
        -dec_value(s.drop_first())
    } else {
        dec_value(s)
    }
}

/// The 64-bit reading of a decimal text: defined exactly when the text is
/// canonical and its value fits in an `i64`.
pub open spec fn spec_parse_i64(s: Seq<char>) -> Option<i64> {
    if is_canonical_int_text(s) && i64::MIN <= int_text_value(s) <= i64::MAX {
        Some(int_text_value(s) as i64)
    } else {
        None
    }
}

/// A digit sequence has a non-negative value.
pub proof fn lemma_dec_value_nonneg(t: Seq<char>)
    requires
        all_dec_digits(t),
    ensures
        dec_value(t) >= 0,
    decreases t.len(),
{
    if t.len() > 0 {
        assert(all_dec_digits(t.drop_last()));
        lemma_dec_value_nonneg(t.drop_last());
    }
}

/// Dropping trailing digits never increases the value of a digit sequence.
pub proof fn lemma_dec_value_prefix(t: Seq<char>, k: int)
    requires
        all_dec_digits(t),
        0 <= k <= t.len(),
    ensures
        dec_value(t) >= dec_value(t.subrange(0, k)),
    decreases t.len(),
{
    if k == t.len() {
        assert(t.subrange(0, k) =~= t);
    } else {
        assert(all_dec_digits(t.drop_last()));
        lemma_dec_value_nonneg(t.drop_last());
        lemma_dec_value_prefix(t.drop_last(), k);
        assert(t.drop_last().subrange(0, k) =~= t.subrange(0, k));
    }
}

/// True exactly when `s` is the canonical decimal rendering of an integer.
#[verifier::loop_isolation(false)]
pub fn check_int_text(s: &str) -> (r: bool)
    ensures
        r == is_canonical_int_text(s@),
{
    let n = s.unicode_len();
    if n == 0 {
        return false;
    }
    let c0 = s.get_char(0);
    let start: usize = if c0 == '-' {
        if n < 2 {
            return false;
        }
        let c1 = s.get_char(1);
        if c1 as u32 == 48 {
            return false;
        }
        1
    } else {
        if n > 1 && c0 as u32 == 48 {
            return false;
        }
        0
    };
    let mut i: usize = start;
    while i < n
        invariant
            start <= i <= n,
            n == s@.len(),
            start == 0 || start == 1,
            start == 1 ==> s@[0] == '-',
            start == 0 ==> s@.len() == 0 || s@[0] != '-',
            forall|j: int| start <= j < i ==> is_dec_digit(#[trigger] s@[j]),
        decreases n - i,
    {
        let c = s.get_char(i);
        let u = c as u32;
        if u < 48 || u > 57 {
            proof {
                assert(!is_dec_digit(s@[i as int]));
                if start == 1 {
                    assert(s@.drop_first()[i as int - 1] == s@[i as int]);
                }
            }
            return false;
        }
        i = i + 1;
    }
    proof {
        if start == 1 {
            assert(forall|j: int|
                0 <= j < s@.drop_first().len() ==> is_dec_digit(#[trigger] s@.drop_first()[j]));
        }
    }
    true
}

/// Reads a canonical decimal text as an `i64`; `None` when the text is not
/// canonical or its value does not fit.
#[verifier::loop_isolation(false)]
pub fn parse_i64_text(s: &str) -> (r: Option<i64>)
    ensures
        r == spec_parse_i64(s@),
{
    if !check_int_text(s) {
        return None;
    }
    let n = s.unicode_len();
    let neg = s.get_char(0) == '-';
    let start: usize = if neg {
        1
    } else {
        0
    };
    let limit: u128 = if neg {
        9223372036854775808
    } else {
        9223372036854775807
    };
    let mut mag: u128 = 0;
    let mut i: usize = start;
    proof {
        assert(s@.subrange(start as int, start as int) =~= Seq::<char>::empty());
    }
    while i < n
        invariant
            is_canonical_int_text(s@),
            n == s@.len(),
            start <= i <= n,
            neg == (s@[0] == '-'),
            start == (if neg { 1int } else { 0int }),
            limit == (if neg { 9223372036854775808u128 } else { 9223372036854775807u128 }),
            all_dec_digits(s@.subrange(start as int, n as int)),
            mag == dec_value(s@.subrange(start as int, i as int)),
            mag <= limit,
        decreases n - i,
    {
        let c = s.get_char(i);
        proof {
            assert(s@.subrange(start as int, n as int)[i - start] == s@[i as int]);
            assert(is_dec_digit(s@[i as int]));
        }
        let d: u128 = (c as u32 - 48) as u128;
        let next: u128 = mag * 10 + d;
        proof {
            assert(s@.subrange(start as int, i as int + 1) =~= s@.subrange(
                start as int,
                i as int,
            ).push(s@[i as int]));
            assert(s@.subrange(start as int, i as int + 1).drop_last() =~= s@.subrange(
                start as int,
                i as int,
            ));
        }
        if next > limit {
            proof {
                let full = s@.subrange(start as int, n as int);
                let pre = s@.subrange(start as int, i as int + 1);
                lemma_dec_value_prefix(full, i + 1 - start);
                assert(full.subrange(0, i + 1 - start) =~= pre);
                if neg {
                    assert(s@.drop_first() =~= full);
                } else {
                    assert(s@ =~= full);
                }
            }
            return None;
        }
        mag = next;
        i = i + 1;
    }
    proof {
        let full = s@.subrange(start as int, n as int);
        assert(s@.subrange(start as int, i as int) =~= full);
        if neg {
            assert(s@.drop_first() =~= full);
        } else {
            assert(s@ =~= full);
        }
    }
    if neg {
        Some((-(mag as i128)) as i64)
    } else {
        Some(mag as i64)
    }
}

/// Renders `n` in decimal, with a leading minus sign when negative.
pub fn i64_to_dec(n: i64) -> (r: String)
    ensures
        r@ == spec_i64_dec(n),
{
    proof {
        reveal_strlit("-");
    }
    if n < 0 {
        let mut s = String::from_str("-");
        let magnitude: u64 = (-(n as i128)) as u64;
        push_u64_dec(&mut s, magnitude);
        proof {
            assert(s@ =~= spec_i64_dec(n));
        }
        s
    } else {
        u64_to_dec(n as u64)
    }
}

/// Character-for-character equality of two string slices.
pub fn str_eq(a: &str, b: &str) -> (r: bool)
    ensures
        r == (a@ == b@),
{
    let na = a.unicode_len();
    let nb = b.unicode_len();
    if na != nb {
        return false;
    }
    let mut i: usize = 0;
    while i < na
        invariant
            i <= na,
            na == a@.len(),
            na == b@.len(),
            forall|j: int| 0 <= j < i ==> a@[j] == b@[j],
        decreases na - i,
    {
        if a.get_char(i) != b.get_char(i) {
            return false;
        }
        i = i + 1;
    }
    proof {
        assert(a@ =~= b@);
    }
    true
}

} // verus!
