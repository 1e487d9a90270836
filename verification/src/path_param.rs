//! The id in the path of a detail request.
//!
//! An id is written as an optional sign and one or more decimal digits, and
//! it has to fit in 32 bits. Anything else is a bad request.

use vstd::prelude::*;
use crate::error::Error;
use crate::text::chars_of;

verus! {

/// Whether `c` is one of `0` to `9`.
pub open spec fn is_digit(c: char) -> bool {
    '0' <= c && c <= '9'
}

/// The value of a digit.
pub open spec fn digit_value(c: char) -> int {
    c as u32 as int - '0' as u32 as int
}

/// Whether every character is a digit.
pub open spec fn all_digits(text: Seq<char>) -> bool {
    forall|i: int| 0 <= i < text.len() ==> is_digit(#[trigger] text[i])
}

/// The number that a sequence of digits writes in base ten.
pub open spec fn decimal_value(digits: Seq<char>) -> int
    decreases digits.len(),
{
    if digits.len() == 0 {
        0
    } else {
        10 * decimal_value(digits.drop_last()) + digit_value(digits.last())
    }
}

/// Whether the text starts with a sign.
pub open spec fn is_signed(text: Seq<char>) -> bool {
    text.len() > 0 && (text[0] == '-' || text[0] == '+')
}

/// The text without its sign.
pub open spec fn digits_of(text: Seq<char>) -> Seq<char> {
    if is_signed(text) {
        text.skip(1)
    } else {
        text
    }
}

/// The integer that the text writes, if it writes one: an optional `+` or
/// `-`, then at least one digit, and nothing else.
pub open spec fn integer_value(text: Seq<char>) -> Option<int> {
    let digits = digits_of(text);
    if digits.len() == 0 || !all_digits(digits) {
        None
    } else if text[0] == '-' {
        Some(-decimal_value(digits))
    } else {
        Some(decimal_value(digits))
    }
}

/// The id that a path segment stands for, or `BadRequest` if it writes no
/// integer or one that does not fit in 32 bits.
pub open spec fn cat_id_of(segment: Seq<char>) -> Result<int, Error> {
    match integer_value(segment) {
        Some(value) => if i32::MIN <= value <= i32::MAX {
            Ok(value)
        } else {
            Err(Error::BadRequest)
        },
        None => Err(Error::BadRequest),
    }
}

/// The view of a result that carries an id.
pub open spec fn id_outcome(outcome: Result<i32, Error>) -> Result<int, Error> {
    match outcome {
        Ok(id) => Ok(id as int),
        Err(error) => Err(error),
    }
}

/// The value of some digits is not negative and not less than the value of
/// any of their beginnings.
pub proof fn lemma_decimal_value_grows(digits: Seq<char>, k: int)
    requires
        all_digits(digits),
        0 <= k <= digits.len(),
    ensures
        0 <= decimal_value(digits.take(k)) <= decimal_value(digits),
    decreases digits.len(),
{
    if k == digits.len() {
        assert(digits.take(k) =~= digits);
        if digits.len() > 0 {
            lemma_decimal_value_grows(digits.drop_last(), k - 1);
            assert(is_digit(digits[digits.len() - 1]));
        }
    } else {
        let shorter = digits.drop_last();
        assert(shorter.take(k) =~= digits.take(k));
        lemma_decimal_value_grows(shorter, k);
        lemma_decimal_value_grows(shorter, shorter.len() as int);
        assert(shorter.take(shorter.len() as int) =~= shorter);
        assert(is_digit(digits[digits.len() - 1]));
    }
}

/// Reads the id of a cat from a path segment.
///
/// Succeeds exactly on the segments that write an integer between
/// -2147483648 and 2147483647, and gives that integer; fails with
/// `BadRequest` on every other segment.
pub fn parse_cat_id(segment: &str) -> (outcome: Result<i32, Error>)
    ensures
        id_outcome(outcome) == cat_id_of(segment@),
{
    let chars = chars_of(segment);
    let n = chars.len();
    let negative = n > 0 && chars[0] == '-';
    let start: usize = if n > 0 && (chars[0] == '-' || chars[0] == '+') {
        1
    } else {
        0
    };
    let ghost digits = digits_of(segment@);
    assert(digits =~= segment@.skip(start as int));
    if start == n {
        return Err(Error::BadRequest);
    }
    let mut value: i64 = 0;
    let mut i: usize = start;
    while i < n
        invariant
            start <= i <= n,
            n == chars.len(),
            chars@ == segment@,
            digits == segment@.skip(start as int),
            digits == digits_of(segment@),
            all_digits(digits.take(i - start)),
            value == decimal_value(digits.take(i - start)),
            0 <= value <= 0x8000_0000,
        decreases n - i,
    {
        let c = chars[i];
        if !(c >= '0' && c <= '9') {
            assert(digits[i - start] == c);
            assert(!all_digits(digits));
            return Err(Error::BadRequest);
        }
        let digit: i64 = (c as u32 - '0' as u32) as i64;
        let ghost before = digits.take(i - start);
        let ghost now = digits.take(i + 1 - start);
        assert(now.drop_last() =~= before);
        assert(now.last() == c);
        value = value * 10 + digit;
        assert(value == decimal_value(now));
        assert(all_digits(now)) by {
            assert forall|j: int| 0 <= j < now.len() implies is_digit(#[trigger] now[j]) by {
                if j < before.len() {
                    assert(now[j] == before[j]);
                }
            }
        }
        if value > 0x8000_0000 {
            proof {
                if all_digits(digits) {
                    lemma_decimal_value_grows(digits, i + 1 - start);
                }
            }
            return Err(Error::BadRequest);
        }
        i += 1;
    }
    assert(digits.take(i - start) =~= digits);
    if negative {
        Ok((-value) as i32)
    } else if value > 0x7fff_ffff {
        Err(Error::BadRequest)
    } else {
        Ok(value as i32)
    }
}

} // verus!
