pub mod bitflags;
pub mod bits;
pub mod drawer;
pub mod parse_hex;
pub mod words;

use vstd::prelude::*;
use vstd::utf8::{valid_utf8, decode_utf8};
use std::string::FromUtf8Error;

verus! {

#[verifier::external_type_specification]
#[verifier::external_body]
pub struct ExFromUtf8Error(FromUtf8Error);

/// `std::string::String::from_utf8`: the bytes as a string when they are valid UTF-8,
/// an error otherwise.
#[verifier::external_body]
fn string_from_utf8(bytes: Vec<u8>) -> (r: Result<String, FromUtf8Error>)
    ensures
        r is Ok <==> valid_utf8(bytes@),
        r matches Ok(s) ==> s@ == decode_utf8(bytes@),
{
    String::from_utf8(bytes)
}

/// `<str as PartialEq>::eq`: whether two strings hold the same characters.
#[verifier::external_body]
pub(crate) fn str_eq(a: &str, b: &str) -> (r: bool)
    ensures
        r == (a@ == b@),
{
    a == b
}

/// The bytes with every zero byte left out, in order.
pub open spec fn without_zeros(bytes: Seq<u8>) -> Seq<u8>
    decreases bytes.len(),
{
    if bytes.len() == 0 {
        seq![]
    } else if bytes.last() != 0 {
        without_zeros(bytes.drop_last()).push(bytes.last())
    } else {
        without_zeros(bytes.drop_last())
    }
}

/// The bytes with every zero byte left out, in order.
pub fn trim_zeros(bytes: &[u8]) -> (r: Vec<u8>)
    ensures
        r@ == without_zeros(bytes@),
{
    let mut r: Vec<u8> = Vec::new();
    let mut i: usize = 0;
    while i < bytes.len()
        invariant
            i <= bytes@.len(),
            r@ == without_zeros(bytes@.take(i as int)),
        decreases bytes@.len() - i,
    {
        assert(bytes@.take(i + 1).drop_last() =~= bytes@.take(i as int));
        if bytes[i] != 0 {
            r.push(bytes[i]);
        }
        i = i + 1;
    }
    assert(bytes@.take(bytes@.len() as int) =~= bytes@);
    r
}

/// Decodes the bytes as UTF-8, with the zero bytes left out.
pub fn ut8_decode_trim(buffer: Vec<u8>) -> (r: Result<String, FromUtf8Error>)
    ensures
        r is Ok <==> valid_utf8(without_zeros(buffer@)),
        r matches Ok(s) ==> s@ == decode_utf8(without_zeros(buffer@)),
{
    string_from_utf8(trim_zeros(buffer.as_slice()))
}

} // verus!
