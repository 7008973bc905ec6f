//! Signed decimal integers written as text.
//!
//! The accepted form is an optional `+` or `-` followed by one or more ASCII
//! digits, nothing before and nothing after.

use vstd::prelude::*;

verus! {

/// Whether `c` is one of `0` to `9`.
pub open spec fn is_digit(c: char) -> bool {
    '0' <= c <= '9'
}

/// The number that the digit `c` stands for.
pub open spec fn digit_value(c: char) -> int {
    c as int - '0' as int
}

/// Whether every character of `s` is a digit.
pub open spec fn all_digits(s: Seq<char>) -> bool {
    forall|i: int| 0 <= i < s.len() ==> is_digit(#[trigger] s[i])
}

/// The number that a run of digits stands for, the empty run standing for 0.
pub open spec fn digits_value(s: Seq<char>) -> int
    decreases s.len(),
{
    if s.len() == 0 {
        0
    } else {
        10 * digits_value(s.drop_last()) + digit_value(s.last())
    }
}

/// The integer that `s` stands for, if it has the accepted form.
pub open spec fn decimal_value(s: Seq<char>) -> Option<int> {
    if s.len() == 0 {
        None
    } else if s[0] == '-' {
        let digits = s.subrange(1, s.len() as int);
        if digits.len() > 0 && all_digits(digits) {
            Some(-digits_value(digits))
        } else {
            None
        }
    } else if s[0] == '+' {
        let digits = s.subrange(1, s.len() as int);
        if digits.len() > 0 && all_digits(digits) {
            Some(digits_value(digits))
        } else {
            None
        }
    } else if all_digits(s) {
        Some(digits_value(s))
    } else {
        None
    }
}

/// The integer that `s` stands for, if it has the accepted form and the
/// integer fits in 64 bits.
pub open spec fn decimal_i64(s: Seq<char>) -> Option<i64> {
    match decimal_value(s) {
        Some(v) => if i64::MIN <= v <= i64::MAX {
            Some(v as i64)
        } else {
            None
        },
        None => None,
    }
}

/// A run of digits stands for no less than any of its prefixes.
pub proof fn lemma_prefix_value(s: Seq<char>, k: int)
    requires
        all_digits(s),
        0 <= k <= s.len(),
    ensures
        0 <= digits_value(s.subrange(0, k)) <= digits_value(s),
    decreases s.len() - k,
{
    lemma_value_nonnegative(s.subrange(0, k));
    if k < s.len() {
        lemma_prefix_value(s, k + 1);
        let longer = s.subrange(0, k + 1);
        assert(longer.drop_last() =~= s.subrange(0, k));
        assert(is_digit(longer.last()));
    } else {
        assert(s.subrange(0, k) =~= s);
    }
}

/// A run of digits stands for a number that is not negative.
pub proof fn lemma_value_nonnegative(s: Seq<char>)
    requires
        all_digits(s),
    ensures
        0 <= digits_value(s),
    decreases s.len(),
{
    if s.len() > 0 {
        lemma_value_nonnegative(s.drop_last());
        assert(is_digit(s.last()));
    }
}

/// The largest magnitude of a 64-bit signed integer, that of `i64::MIN`.
pub const MAX_MAGNITUDE: u64 = 9223372036854775808;

/// Reads the digits of an ASCII text from position `from` to its end.
///
/// Gives their value where all of them are digits and the value is at most
/// `MAX_MAGNITUDE`, and `None` otherwise.
fn parse_magnitude(s: &str, from: usize) -> (r: Option<u64>)
    requires
        s.is_ascii(),
        from <= s@.len(),
    ensures
        match r {
            Some(m) => {
                &&& all_digits(s@.subrange(from as int, s@.len() as int))
                &&& m == digits_value(s@.subrange(from as int, s@.len() as int))
                &&& m <= MAX_MAGNITUDE
            },
            None => {
                ||| !all_digits(s@.subrange(from as int, s@.len() as int))
                ||| digits_value(s@.subrange(from as int, s@.len() as int)) > MAX_MAGNITUDE
            },
        },
{
    let n = s.unicode_len();
    let ghost tail = s@.subrange(from as int, n as int);
    let mut m: u64 = 0;
    let mut i: usize = from;
    while i < n
        invariant
            s.is_ascii(),
            n == s@.len(),
            from <= i <= n,
            tail == s@.subrange(from as int, n as int),
            all_digits(tail.subrange(0, i - from)),
            m == digits_value(tail.subrange(0, i - from)),
            m <= MAX_MAGNITUDE,
        decreases n - i,
    {
        let b = s.get_ascii(i);
        let ghost c = s@[i as int];
        assert(tail[i - from] == c);
        if b < 48 || b > 57 {
            assert(!is_digit(c));
            return None;
        }
        assert(is_digit(c));
        let d: u64 = (b - 48) as u64;
        assert(d == digit_value(c));
        proof {
            let longer = tail.subrange(0, i - from + 1);
            assert(longer.drop_last() =~= tail.subrange(0, i - from));
            assert(longer.last() == c);
            assert(digits_value(longer) == 10 * m + d);
            assert forall|j: int| 0 <= j < longer.len() implies is_digit(#[trigger] longer[j]) by {
                if j < i - from {
                    assert(tail.subrange(0, i - from)[j] == longer[j]);
                }
            }
            if all_digits(tail) {
                lemma_prefix_value(tail, i - from + 1);
            }
        }
        if m > MAX_MAGNITUDE / 10 {
            return None;
        }
        let next: u64 = m * 10 + d;
        if next > MAX_MAGNITUDE {
            return None;
        }
        m = next;
        i += 1;
    }
    assert(tail.subrange(0, i - from) =~= tail);
    Some(m)
}

/// Reads a signed decimal integer of 64 bits from `s`.
///
/// The text is an optional `+` or `-` and then one or more digits; anything
/// else, and a number outside the 64-bit range, gives `None`.
pub fn parse_i64(s: &str) -> (r: Option<i64>)
    ensures
        r == decimal_i64(s@),
{
    if !s.is_ascii() {
        assert(decimal_value(s@) is None) by {
            let i = choose|i: int| 0 <= i < s@.len() && !('\0' <= #[trigger] s@[i] <= '\u{7f}');
            assert(!is_digit(s@[i]));
            if i > 0 {
                assert(s@.subrange(1, s@.len() as int)[i - 1] == s@[i]);
            }
        }
        return None;
    }
    let n = s.unicode_len();
    if n == 0 {
        return None;
    }
    let first = s.get_ascii(0);
    let signed = first == 45 || first == 43;
    let negative = first == 45;
    assert(signed <==> (s@[0] == '-' || s@[0] == '+'));
    assert(negative <==> s@[0] == '-');
    let from: usize = if signed { 1 } else { 0 };
    if from == n {
        assert(s@.subrange(1, n as int).len() == 0);
        return None;
    }
    proof {
        if !signed {
            assert(s@.subrange(0, n as int) =~= s@);
        }
    }
    match parse_magnitude(s, from) {
        None => None,
        Some(m) => {
            if negative {
                if m == MAX_MAGNITUDE {
                    Some(i64::MIN)
                } else {
                    Some(-(m as i64))
                }
            } else if m == MAX_MAGNITUDE {
                None
            } else {
                Some(m as i64)
            }
        },
    }
}

} // verus!
