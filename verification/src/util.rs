//! Utility functions: string equality and the decimal parsing of the
//! command line's numeric options.

use vstd::prelude::*;
use vstd::string::{StringExecFns, StrSliceExecFns};
use crate::errors::Error;

verus! {

/// Relies on `str` equality: two string slices compare equal exactly when
/// they hold the same characters.
#[verifier::external_body]
pub(crate) fn str_eq(a: &str, b: &str) -> (r: bool)
    ensures
        r == (a@ == b@),
{
    a == b
}

/// Whether a character is a decimal digit.
pub open spec fn is_digit(c: char) -> bool {
    '0' as int <= c as int <= '9' as int
}

/// The numeric value of a digit sequence, most significant digit first.
pub open spec fn decimal_value(s: Seq<char>) -> int
    decreases s.len(),
{
    if s.len() == 0 {
        0
    } else {
        decimal_value(s.drop_last()) * 10 + (s.last() as int - '0' as int)
    }
}

/// The digits of a numeral: everything after one optional leading plus
/// sign.
pub open spec fn numeral_digits(s: Seq<char>) -> Seq<char> {
    if s.len() > 0 && s[0] == '+' {
        s.skip(1)
    } else {
        s
    }
}

/// Whether a text names a 64-bit unsigned value: an optional plus sign,
/// then at least one digit, and a value that fits.
pub open spec fn is_u64_numeral(s: Seq<char>) -> bool {
    let digits = numeral_digits(s);
    digits.len() > 0 && (forall|i: int| 0 <= i < digits.len() ==> is_digit(#[trigger] digits[i]))
        && decimal_value(digits) <= u64::MAX
}

/// A digit sequence names a non-negative value.
proof fn lemma_decimal_value_nonneg(s: Seq<char>)
    requires
        forall|i: int| 0 <= i < s.len() ==> is_digit(#[trigger] s[i]),
    ensures
        decimal_value(s) >= 0,
    decreases s.len(),
{
    if s.len() > 0 {
        lemma_decimal_value_nonneg(s.drop_last());
    }
}

/// Extending a digit sequence never shrinks its value, so every prefix
/// names at most the whole sequence's value.
proof fn lemma_decimal_value_prefix_le(s: Seq<char>, k: int)
    requires
        forall|i: int| 0 <= i < s.len() ==> is_digit(#[trigger] s[i]),
        0 <= k <= s.len(),
    ensures
        decimal_value(s.take(k)) <= decimal_value(s),
    decreases s.len() - k,
{
    if k == s.len() {
        assert(s.take(k) =~= s);
    } else {
        assert(s.take(k + 1).drop_last() =~= s.take(k));
        assert(s.take(k + 1).last() == s[k]);
        assert forall|i: int| 0 <= i < s.take(k).len() implies is_digit(
            #[trigger] s.take(k)[i],
        ) by {}
        lemma_decimal_value_nonneg(s.take(k));
        assert(decimal_value(s.take(k)) <= decimal_value(s.take(k + 1)));
        lemma_decimal_value_prefix_le(s, k + 1);
    }
}

/// Parse a decimal numeral as the standard library's u64 parser accepts
/// it: an optional leading plus sign, then at least one digit, rejecting
/// anything else and any value too large to fit.
pub fn parse_u64(s: &str) -> (r: Result<u64, Error>)
    ensures
        is_u64_numeral(s@) ==> (r matches Ok(v) && v == decimal_value(numeral_digits(s@))),
        !is_u64_numeral(s@) ==> (r matches Err(e) && e is ParseInt),
{
    let n = s.unicode_len();
    if n == 0 {
        return Err(
            Error::ParseInt {
                message: String::from_str("cannot parse integer from empty string"),
            },
        );
    }
    let offset: usize = if s.get_char(0) == '+' {
        1
    } else {
        0
    };
    let ghost digits = numeral_digits(s@);
    proof {
        assert(digits.len() == n - offset);
        assert(forall|j: int| 0 <= j < digits.len() ==> digits[j] == s@[j + offset]);
    }
    if n == offset {
        return Err(
            Error::ParseInt { message: String::from_str("invalid digit found in string") },
        );
    }
    let mut value: u64 = 0;
    let mut i: usize = offset;
    while i < n
        invariant
            offset <= i <= n,
            n == s@.len(),
            offset <= 1,
            digits == numeral_digits(s@),
            digits.len() == n - offset,
            forall|j: int| 0 <= j < digits.len() ==> digits[j] == s@[j + offset],
            forall|j: int| 0 <= j < i - offset ==> is_digit(#[trigger] digits[j]),
            value == decimal_value(digits.take(i - offset)),
        decreases n - i,
    {
        let c = s.get_char(i);
        let code = c as u32;
        if code < 48 || code > 57 {
            proof {
                assert(digits[i - offset] == s@[i as int]);
                assert(!is_digit(digits[i - offset]));
            }
            return Err(
                Error::ParseInt { message: String::from_str("invalid digit found in string") },
            );
        }
        let digit = (code - 48) as u64;
        proof {
            assert(digits.take(i - offset + 1).drop_last() =~= digits.take(i - offset));
            assert(digits.take(i - offset + 1).last() == digits[i - offset]);
            assert(digits[i - offset] == s@[i as int]);
            assert(is_digit(digits[i - offset]));
            assert(decimal_value(digits.take(i - offset + 1)) == decimal_value(
                digits.take(i - offset),
            ) * 10 + (s@[i as int] as int - '0' as int));
            assert(s@[i as int] as int - '0' as int == digit as int);
        }
        let grown = match value.checked_mul(10) {
            Some(v) => v.checked_add(digit),
            None => None,
        };
        match grown {
            Some(v) => {
                value = v;
            },
            None => {
                proof {
                    assert(decimal_value(digits.take(i - offset + 1)) > u64::MAX);
                    if forall|j: int| 0 <= j < digits.len() ==> is_digit(#[trigger] digits[j]) {
                        lemma_decimal_value_prefix_le(digits, i - offset + 1);
                        assert(decimal_value(digits) > u64::MAX);
                    }
                    assert(!is_u64_numeral(s@));
                }
                return Err(
                    Error::ParseInt {
                        message: String::from_str("number too large to fit in target type"),
                    },
                );
            },
        }
        i = i + 1;
    }
    proof {
        assert(digits.take(n - offset) =~= digits);
        assert(is_u64_numeral(s@));
    }
    Ok(value)
}

} // verus!
