//! Integer literals.
//!
//! A literal is an optional sign, `+` or `-`, followed by one or more decimal
//! digits `0` to `9`, and nothing else. It denotes an operand only where its
//! value fits in 32 bits.

use vstd::prelude::*;
use crate::arith::fits;
use crate::lexer::to_chars;

verus! {

/// Whether `c` is one of the decimal digits `0` to `9`.
pub open spec fn is_digit(c: char) -> bool {
    '0' <= c <= '9'
}

/// The number that the decimal digit `c` stands for.
pub open spec fn digit_value(c: char) -> int {
    c as int - '0' as int
}

/// Whether `s` consists of decimal digits only.
pub open spec fn all_digits(s: Seq<char>) -> bool {
    forall|i: int| 0 <= i < s.len() ==> is_digit(#[trigger] s[i])
}

/// The number that the digit string `s` denotes in base ten; the empty string
/// denotes zero.
pub open spec fn digits_value(s: Seq<char>) -> int
    decreases s.len(),
{
    if s.len() == 0 {
        0
    } else {
        10 * digits_value(s.drop_last()) + digit_value(s.last())
    }
}

/// Whether `s` starts with a sign.
pub open spec fn has_sign(s: Seq<char>) -> bool {
    s.len() > 0 && (s[0] == '-' || s[0] == '+')
}

/// What is left of `s` once its sign, if it has one, is taken off.
pub open spec fn unsigned_part(s: Seq<char>) -> Seq<char> {
    if has_sign(s) {
        s.skip(1)
    } else {
        s
    }
}

/// The number that `s` writes down, sign included, where `s` has the shape
/// of a literal.
pub open spec fn signed_value(s: Seq<char>) -> int {
    if s.len() > 0 && s[0] == '-' {
        -digits_value(unsigned_part(s))
    } else {
        digits_value(unsigned_part(s))
    }
}

/// Whether `s` has the shape of a literal: an optional sign, then at least
/// one digit, then nothing.
pub open spec fn is_literal(s: Seq<char>) -> bool {
    unsigned_part(s).len() > 0 && all_digits(unsigned_part(s))
}

/// The operand that `s` denotes: its value where `s` is a literal whose
/// value fits in 32 bits, and nothing otherwise.
pub open spec fn literal_value(s: Seq<char>) -> Option<int> {
    if is_literal(s) && fits(signed_value(s)) {
        Some(signed_value(s))
    } else {
        None
    }
}

/// A digit string denotes a number that is not negative and not less than
/// the number that any of its prefixes denotes.
pub proof fn lemma_digits_value_prefix(s: Seq<char>, k: int)
    requires
        all_digits(s),
        0 <= k <= s.len(),
    ensures
        0 <= digits_value(s.take(k)) <= digits_value(s),
    decreases s.len() - k,
{
    if k == s.len() {
        assert(s.take(k) == s);
        lemma_digits_value_nonnegative(s);
    } else {
        let t = s.drop_last();
        assert(t.take(k) == s.take(k));
        assert(is_digit(s.last()));
        assert forall|i: int| 0 <= i < t.len() implies is_digit(#[trigger] t[i]) by {
            assert(t[i] == s[i]);
        }
        lemma_digits_value_prefix(t, k);
    }
}

/// A digit string denotes a number that is not negative.
pub proof fn lemma_digits_value_nonnegative(s: Seq<char>)
    requires
        all_digits(s),
    ensures
        0 <= digits_value(s),
    decreases s.len(),
{
    if s.len() > 0 {
        let t = s.drop_last();
        assert(is_digit(s.last()));
        assert forall|i: int| 0 <= i < t.len() implies is_digit(#[trigger] t[i]) by {
            assert(t[i] == s[i]);
        }
        lemma_digits_value_nonnegative(t);
    }
}

/// Reads `text` as a literal.
pub fn parse_literal(text: &str) -> (r: Option<i32>)
    ensures
        match r {
            Some(v) => literal_value(text@) == Some(v as int),
            None => literal_value(text@) is None,
        },
{
    let chars = to_chars(text);
    let n = chars.len();
    if n == 0 {
        return None;
    }
    let negative = chars[0] == '-';
    let start: usize = if chars[0] == '-' || chars[0] == '+' {
        1
    } else {
        0
    };
    if start == n {
        return None;
    }
    let ghost digits = unsigned_part(text@);
    let mut acc: i64 = 0;
    let mut i: usize = start;
    assert(digits == text@.skip(start as int));
    assert(digits.take(0) == Seq::<char>::empty());
    while i < n
        invariant
            chars@ == text@,
            n == chars.len(),
            digits == unsigned_part(text@),
            digits == text@.skip(start as int),
            start <= i <= n,
            all_digits(digits.take(i - start)),
            acc == digits_value(digits.take(i - start)),
            0 <= acc <= 0x8000_0000,
        decreases n - i,
    {
        let c = chars[i];
        let ghost k = i - start;
        let ghost seen = digits.take(k + 1);
        assert(digits[k] == c);
        if c < '0' || c > '9' {
            assert(!is_digit(digits[k]));
            return None;
        }
        assert(seen.drop_last() == digits.take(k));
        assert(seen.last() == c);
        assert forall|j: int| 0 <= j < seen.len() implies is_digit(#[trigger] seen[j]) by {
            if j < k {
                assert(seen[j] == digits.take(k)[j]);
            }
        }
        let d: i64 = (c as u32 - '0' as u32) as i64;
        acc = acc * 10 + d;
        if acc > 0x8000_0000 {
            proof {
                if all_digits(digits) {
                    lemma_digits_value_prefix(digits, k + 1);
                }
            }
            return None;
        }
        i += 1;
    }
    assert(digits.take(n - start) == digits);
    if negative {
        Some((-acc) as i32)
    } else if acc <= 0x7FFF_FFFF {
        Some(acc as i32)
    } else {
        None
    }
}

} // verus!
