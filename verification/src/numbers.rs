//! Decimal parsing of persisted numeric settings.
//!
//! Settings such as the default window width are stored as text; this
//! module gives the text a mathematical meaning and parses it, rejecting
//! anything that is not a plain run of decimal digits fitting in a `u32`.

use vstd::prelude::*;

verus! {

/// Is `c` one of the ten decimal digits?
pub open spec fn is_decimal_digit(c: char) -> bool {
    48 <= (c as u32) <= 57
}

/// Numeric value of a decimal digit.
pub open spec fn digit_value(c: char) -> int {
    (c as u32) - 48
}

/// Does the text consist of decimal digits only?
pub open spec fn all_decimal_digits(s: Seq<char>) -> bool {
    forall|i: int| 0 <= i < s.len() ==> is_decimal_digit(s[i])
}

/// The number written in base ten by `s` (most significant digit first).
pub open spec fn decimal_value(s: Seq<char>) -> int
    decreases s.len(),
{
    if s.len() == 0 {
        0
    } else {
        decimal_value(s.drop_last()) * 10 + digit_value(s.last())
    }
}

/// What parsing the text as a `u32` yields: a nonempty run of digits whose
/// value fits, and nothing else.
pub open spec fn parsed_u32(s: Seq<char>) -> Option<u32> {
    if s.len() > 0 && all_decimal_digits(s) && decimal_value(s) <= u32::MAX {
        Some(decimal_value(s) as u32)
    } else {
        None
    }
}

/// A run of digits has a nonnegative value.
pub proof fn lemma_decimal_value_nonneg(s: Seq<char>)
    requires
        all_decimal_digits(s),
    ensures
        decimal_value(s) >= 0,
    decreases s.len(),
{
    if s.len() > 0 {
        assert(all_decimal_digits(s.drop_last()));
        lemma_decimal_value_nonneg(s.drop_last());
    }
}

/// Extending a prefix by one digit multiplies its value by ten and adds
/// that digit.
pub proof fn lemma_decimal_value_take_step(s: Seq<char>, i: int)
    requires
        0 <= i < s.len(),
    ensures
        decimal_value(s.take(i + 1)) == decimal_value(s.take(i)) * 10 + digit_value(s[i]),
{
    assert(s.take(i + 1).drop_last() =~= s.take(i));
    assert(s.take(i + 1).last() == s[i]);
}

/// Within an all-digit text, a prefix is worth no more than the whole.
pub proof fn lemma_decimal_value_take_le(s: Seq<char>, i: int)
    requires
        all_decimal_digits(s),
        0 <= i <= s.len(),
    ensures
        decimal_value(s.take(i)) <= decimal_value(s),
    decreases s.len() - i,
{
    if i == s.len() {
        assert(s.take(i) =~= s);
    } else {
        lemma_decimal_value_take_step(s, i);
        assert(all_decimal_digits(s.take(i)));
        lemma_decimal_value_nonneg(s.take(i));
        lemma_decimal_value_take_le(s, i + 1);
    }
}

/// The value of a three-digit text, written out.
pub proof fn lemma_decimal_value_three(s: Seq<char>)
    requires
        s.len() == 3,
    ensures
        decimal_value(s) == (digit_value(s[0]) * 10 + digit_value(s[1])) * 10 + digit_value(s[2]),
{
    let s2 = s.drop_last();
    let s1 = s2.drop_last();
    let s0 = s1.drop_last();
    assert(s2.len() == 2 && s1.len() == 1 && s0.len() == 0);
    assert(decimal_value(s0) == 0);
    assert(s1.last() == s[0] && s2.last() == s[1] && s.last() == s[2]);
    assert(decimal_value(s1) == decimal_value(s0) * 10 + digit_value(s1.last()));
    assert(decimal_value(s2) == decimal_value(s1) * 10 + digit_value(s2.last()));
    assert(decimal_value(s) == decimal_value(s2) * 10 + digit_value(s.last()));
}

/// Parses a nonempty run of decimal digits as a `u32`; anything else,
/// including a value too large for `u32`, yields `None`.
pub fn parse_u32(s: &str) -> (r: Option<u32>)
    ensures
        r == parsed_u32(s@),
{
    let n = s.unicode_len();
    if n == 0 {
        return None;
    }
    let mut acc: u32 = 0;
    let mut i: usize = 0;
    while i < n
        invariant
            0 <= i <= n,
            n == s@.len(),
            all_decimal_digits(s@.take(i as int)),
            acc == decimal_value(s@.take(i as int)),
        decreases n - i,
    {
        let c = s.get_char(i);
        let u = c as u32;
        if u < 48 || u > 57 {
            proof {
                assert(!is_decimal_digit(s@[i as int]));
            }
            return None;
        }
        let d = u - 48;
        let wide = (acc as u64) * 10 + (d as u64);
        proof {
            lemma_decimal_value_take_step(s@, i as int);
        }
        if wide > u32::MAX as u64 {
            proof {
                if all_decimal_digits(s@) {
                    lemma_decimal_value_take_le(s@, i as int + 1);
                }
            }
            return None;
        }
        acc = wide as u32;
        i = i + 1;
    }
    proof {
        assert(s@.take(n as int) =~= s@);
    }
    Some(acc)
}

} // verus!
