//! Numbers as decimal text: reading them and writing them.

use crate::text::{from_chars, trimmed};
use vstd::prelude::*;

verus! {

/// Whether `c` is one of the ten digits `0` to `9`.
pub open spec fn is_digit(c: char) -> bool {
    '0' <= c <= '9'
}

/// The value of a digit.
pub open spec fn digit_value(c: char) -> nat {
    (c as int - '0' as int) as nat
}

/// The digit that stands for a value below 10.
pub open spec fn digit_char(value: nat) -> char {
    ('0' as int + value as int) as char
}

/// Whether the text is one or more digits and nothing else.
pub open spec fn is_digits(text: Seq<char>) -> bool {
    text.len() > 0 && forall|i: int| 0 <= i < text.len() ==> is_digit(#[trigger] text[i])
}

/// The number that a text of digits writes in base ten.
pub open spec fn decimal_value(digits: Seq<char>) -> nat
    decreases digits.len(),
{
    if digits.len() == 0 {
        0
    } else {
        decimal_value(digits.drop_last()) * 10 + digit_value(digits.last())
    }
}

/// The number that a text writes: digits, with or without a `+` in front.
/// Any other character, white space too, makes the text no number, and so
/// does a value that 64 bits cannot hold.
pub open spec fn number_written(text: Seq<char>) -> Option<u64> {
    let digits = if text.len() > 0 && text[0] == '+' {
        text.drop_first()
    } else {
        text
    };
    if is_digits(digits) && decimal_value(digits) <= u64::MAX {
        Some(decimal_value(digits) as u64)
    } else {
        None
    }
}

/// `str::parse` for `u64`: the number that the text writes in base ten, an
/// optional `+` and then digits only; `None` for the empty text, for any
/// other character, and for a number above `u64::MAX`.
#[verifier::external_body]
pub(crate) fn parse_u64(text: &str) -> (number: Option<u64>)
    ensures
        number == number_written(text@),
{
    text.parse::<u64>().ok()
}

/// The decimal digits of a number, without leading zeros; `0` for zero.
pub open spec fn decimal_text(n: nat) -> Seq<char>
    decreases n,
{
    if n < 10 {
        seq![digit_char(n)]
    } else {
        decimal_text(n / 10).push(digit_char(n % 10))
    }
}

/// Writes a number in base ten.
pub fn to_decimal(n: u64) -> (text: String)
    ensures
        text@ == decimal_text(n as nat),
{
    // the digits from the last to the first
    let mut backwards: Vec<char> = Vec::new();
    let mut rest: u64 = n;
    while rest >= 10
        invariant
            decimal_text(n as nat) == decimal_text(rest as nat) + backwards@.reverse(),
        decreases rest,
    {
        let digit = (48 + (rest % 10) as u8) as char;
        proof {
            let tail = backwards@.reverse();
            assert(backwards@.push(digit).reverse() == seq![digit] + tail);
            assert(decimal_text(rest as nat) == decimal_text((rest / 10) as nat).push(digit));
            assert(decimal_text((rest / 10) as nat).push(digit) + tail == decimal_text(
                (rest / 10) as nat,
            ) + (seq![digit] + tail));
        }
        backwards.push(digit);
        rest = rest / 10;
    }
    let first = (48 + rest as u8) as char;
    let mut digits: Vec<char> = Vec::new();
    digits.push(first);
    let mut k: usize = backwards.len();
    while k > 0
        invariant
            k <= backwards@.len(),
            digits@ == seq![first] + backwards@.subrange(k as int, backwards@.len() as int).reverse(),
        decreases k,
    {
        k = k - 1;
        digits.push(backwards[k]);
        proof {
            let tail = backwards@.subrange(k as int, backwards@.len() as int);
            let rest_of = backwards@.subrange(k as int + 1, backwards@.len() as int);
            assert(tail.reverse() == rest_of.reverse().push(backwards@[k as int]));
        }
    }
    assert(backwards@.subrange(0, backwards@.len() as int) == backwards@);
    from_chars(&digits)
}

/// Reads a number that fits in 32 bits from a text that is taken as it is,
/// white space and all.
pub fn read_u32(text: &str) -> (number: Option<u32>)
    ensures
        number == match number_written(text@) {
            Some(n) if n <= u32::MAX => Some(n as u32),
            _ => None,
        },
{
    match parse_u64(text) {
        Some(n) => if n <= u32::MAX as u64 {
            Some(n as u32)
        } else {
            None
        },
        None => None,
    }
}

/// The whole number that a text writes: digits, with or without a sign in
/// front. Any other character makes the text no number.
pub open spec fn integer_written(text: Seq<char>) -> Option<int> {
    let signed = text.len() > 0 && (text[0] == '+' || text[0] == '-');
    let digits = if signed {
        text.drop_first()
    } else {
        text
    };
    if !is_digits(digits) {
        None
    } else if text[0] == '-' {
        Some(-(decimal_value(digits) as int))
    } else {
        Some(decimal_value(digits) as int)
    }
}

/// `str::parse` for `i32`: the number that the text writes in base ten, an
/// optional sign and then digits only; `None` for any other text and for a
/// number that 32 bits with a sign cannot hold.
#[verifier::external_body]
pub(crate) fn parse_i32(text: &str) -> (number: Option<i32>)
    ensures
        number == match integer_written(text@) {
            Some(n) if i32::MIN <= n <= i32::MAX => Some(n as i32),
            _ => None,
        },
{
    text.parse::<i32>().ok()
}

/// The number that a line of input gives, white space around it dropped.
pub open spec fn number_entered(line: Seq<char>) -> Option<u64> {
    number_written(trimmed(line))
}

/// Reads a number from a line of input, white space around it dropped.
pub fn read_number(line: &str) -> (number: Option<u64>)
    ensures
        number == number_entered(line@),
{
    parse_u64(line.trim())
}

/// Reads a whole number with or without a sign from a line of input, white
/// space around it dropped.
pub fn read_integer(line: &str) -> (number: Option<i32>)
    ensures
        number == match integer_written(trimmed(line@)) {
            Some(n) if i32::MIN <= n <= i32::MAX => Some(n as i32),
            _ => None,
        },
{
    parse_i32(line.trim())
}

} // verus!
