//! Reading numbers from text.

use vstd::prelude::*;

verus! {

/// The value of a character as a digit in the given radix: `0` to `9`, then
/// the letters from `a` on, in either case, for ten and more.
pub open spec fn digit_value(c: char, radix: int) -> Option<int> {
    let value = if '0' <= c <= '9' {
        c as int - '0' as int
    } else if 'a' <= c <= 'z' {
        c as int - 'a' as int + 10
    } else if 'A' <= c <= 'Z' {
        c as int - 'A' as int + 10
    } else {
        radix
    };
    if value < radix {
        Some(value)
    } else {
        None
    }
}

/// The number that a run of digits stands for in the given radix, the most
/// significant digit first; `None` if a character is no digit.
pub open spec fn digits_value(digits: Seq<char>, radix: int) -> Option<int>
    decreases digits.len(),
{
    if digits.len() == 0 {
        Some(0)
    } else {
        match (digits_value(digits.drop_last(), radix), digit_value(digits.last(), radix)) {
            (Some(front), Some(unit)) => Some(front * radix + unit),
            _ => None,
        }
    }
}

/// The number that a text stands for in the given radix: an optional `+`,
/// then one digit or more and nothing else, with a value that a `u32`
/// holds. `None` for every other text.
pub open spec fn number_value(text: Seq<char>, radix: int) -> Option<u32> {
    let digits = if text.len() > 0 && text[0] == '+' {
        text.drop_first()
    } else {
        text
    };
    if digits.len() == 0 {
        None
    } else {
        match digits_value(digits, radix) {
            Some(value) => if value <= u32::MAX {
                Some(value as u32)
            } else {
                None
            },
            None => None,
        }
    }
}

/// Reads a decimal number with `str::parse::<u32>`. The contract states
/// what the standard library documents: an optional `+` and then only
/// digits are expected, and an empty text, a sign alone, any other
/// character and a value beyond `u32::MAX` are refused. A refusal, whatever
/// its reason, comes back as `None`.
#[verifier::external_body]
pub(crate) fn parse_decimal(text: &str) -> (value: Option<u32>)
    ensures
        value == number_value(text@, 10),
{
    match text.parse::<u32>() {
        Ok(number) => Some(number),
        Err(_) => None,
    }
}

/// Reads a hexadecimal number with `u32::from_str_radix`. The contract
/// states what the standard library documents: an optional `+` and then
/// only digits are expected, the letters `a` to `f` counting in either
/// case, and an empty text, a sign alone, any other character and a value
/// beyond `u32::MAX` are refused. A refusal, whatever its reason, comes
/// back as `None`.
#[verifier::external_body]
pub(crate) fn parse_hex(text: &str) -> (value: Option<u32>)
    ensures
        value == number_value(text@, 16),
{
    match u32::from_str_radix(text, 16) {
        Ok(number) => Some(number),
        Err(_) => None,
    }
}

} // verus!
