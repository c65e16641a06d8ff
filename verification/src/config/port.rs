//! The port of the webhook server, read from its decimal text.

use crate::text::chars_of;
use vstd::prelude::*;

verus! {

/// Why a text is no port number.
#[derive(Clone, Copy, Debug, PartialEq, Eq, Structural)]
pub enum PortError {
    /// The text is empty.
    Empty,
    /// The text holds something else than decimal digits after an optional `+`.
    InvalidDigit,
    /// The number is above 65535.
    TooLarge,
}

/// Whether `c` is a decimal digit.
pub open spec fn is_digit(c: char) -> bool {
    '0' <= c <= '9'
}

/// The value of the decimal digit `c`.
pub open spec fn digit_value(c: char) -> int {
    c as int - '0' as int
}

/// Reads `digits` from left to right onto `acc`. The first character that
/// is no digit, or the first digit that takes the number above 65535, ends
/// the reading, whichever comes first.
pub open spec fn read_digits(digits: Seq<char>, acc: int) -> Result<int, PortError>
    decreases digits.len(),
{
    if digits.len() == 0 {
        Ok(acc)
    } else if !is_digit(digits[0]) {
        Err(PortError::InvalidDigit)
    } else if acc * 10 + digit_value(digits[0]) > u16::MAX {
        Err(PortError::TooLarge)
    } else {
        read_digits(digits.drop_first(), acc * 10 + digit_value(digits[0]))
    }
}

/// The number that `text` stands for: decimal digits, with leading zeros
/// and one leading `+` allowed, and nothing else.
pub open spec fn number_of(text: Seq<char>) -> Result<int, PortError> {
    if text.len() == 0 {
        Err(PortError::Empty)
    } else if text.len() == 1 && (text[0] == '+' || text[0] == '-') {
        Err(PortError::InvalidDigit)
    } else if text[0] == '+' {
        read_digits(text.drop_first(), 0)
    } else {
        read_digits(text, 0)
    }
}

/// Reads a number of sixteen bits from its decimal text.
pub fn parse_number(text: &str) -> (r: Result<u16, PortError>)
    ensures
        match r {
            Ok(n) => number_of(text@) == Ok::<int, PortError>(n as int),
            Err(e) => number_of(text@) == Err::<int, PortError>(e),
        },
{
    let v = chars_of(text);
    if v.len() == 0 {
        return Err(PortError::Empty);
    }
    if v.len() == 1 && (v[0] == '+' || v[0] == '-') {
        return Err(PortError::InvalidDigit);
    }
    let start: usize = if v[0] == '+' {
        1
    } else {
        0
    };
    let ghost digits = v@.skip(start as int);
    assert(start == 1 ==> digits =~= v@.drop_first());
    assert(start == 0 ==> digits =~= v@);
    let mut acc: u16 = 0;
    let mut i: usize = start;
    while i < v.len()
        invariant
            start <= i <= v.len(),
            number_of(text@) == read_digits(digits, 0),
            read_digits(v@.skip(i as int), acc as int) == read_digits(digits, 0),
        decreases v.len() - i,
    {
        let c = v[i];
        let ghost rest = v@.skip(i as int);
        assert(rest[0] == c);
        assert(rest.drop_first() =~= v@.skip(i + 1));
        if !(c >= '0' && c <= '9') {
            return Err(PortError::InvalidDigit);
        }
        let d: u16 = (c as u32 - '0' as u32) as u16;
        if acc > 6553 || (acc == 6553 && d > 5) {
            return Err(PortError::TooLarge);
        }
        acc = acc * 10 + d;
        i += 1;
    }
    Ok(acc)
}

} // verus!
