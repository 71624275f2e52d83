use vstd::prelude::*;

verus! {

/// The value of a hexadecimal digit, in either case.
pub open spec fn hex_digit(c: char) -> Option<int> {
    if '0' <= c && c <= '9' {
        Some((c as int) - ('0' as int))
    } else if 'a' <= c && c <= 'f' {
        Some((c as int) - ('a' as int) + 10)
    } else if 'A' <= c && c <= 'F' {
        Some((c as int) - ('A' as int) + 10)
    } else {
        None
    }
}

/// The value of a sequence of hexadecimal digits, if every character is one.
pub open spec fn hex_digits_value(s: Seq<char>) -> Option<int>
    decreases s.len(),
{
    if s.len() == 0 {
        Some(0)
    } else {
        match (hex_digits_value(s.drop_last()), hex_digit(s.last())) {
            (Some(v), Some(d)) => Some(v * 16 + d),
            _ => None,
        }
    }
}

/// The number a string writes in base 16: an optional `+`, then at least one digit, and a
/// value that fits 16 bits.
pub open spec fn spec_parse_hex(s: Seq<char>) -> Option<u16> {
    let digits = if s.len() > 0 && s[0] == '+' { s.drop_first() } else { s };
    if digits.len() == 0 {
        None
    } else {
        match hex_digits_value(digits) {
            Some(v) => if v <= 0xFFFF { Some(v as u16) } else { None },
            None => None,
        }
    }
}

/// `u16::from_str_radix` in base 16, with the error dropped.
#[verifier::external_body]
fn u16_from_hex(value: &str) -> (r: Option<u16>)
    ensures
        r == spec_parse_hex(value@),
{
    u16::from_str_radix(value, 16).ok()
}

/// Parses a number written in base 16 (without a `0x` prefix).
pub fn parse_hex(value: &str) -> (r: Option<u16>)
    ensures
        r == spec_parse_hex(value@),
{
    u16_from_hex(value)
}

} // verus!
