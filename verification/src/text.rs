//! Turning values and code units into text.

use core::fmt::Debug;

use vstd::prelude::*;

verus! {

/// The `Debug` formatting of `value`, as `format!("{value:?}")` gives it.
///
/// Nothing is stated of the text: it is whatever the type's `Debug`
/// implementation writes.
#[verifier::external_body]
pub(crate) fn debug_text<T: Debug>(value: &T) -> String {
    format!("{value:?}")
}

} // verus!

verus! {

/// Whether `u` is the first half of a UTF-16 surrogate pair.
pub open spec fn is_high_surrogate(u: u16) -> bool {
    0xD800 <= u <= 0xDBFF
}

/// Whether `u` is the second half of a UTF-16 surrogate pair.
pub open spec fn is_low_surrogate(u: u16) -> bool {
    0xDC00 <= u <= 0xDFFF
}

/// The character that a surrogate pair encodes.
pub open spec fn surrogate_pair_char(high: u16, low: u16) -> char {
    (0x10000 + (high - 0xD800) * 0x400 + (low - 0xDC00)) as char
}

/// The characters that UTF-16 code units encode, or `None` if they hold an
/// unpaired surrogate.
pub open spec fn decode_utf16(units: Seq<u16>) -> Option<Seq<char>>
    decreases units.len(),
{
    if units.len() == 0 {
        Some(Seq::empty())
    } else if is_low_surrogate(units[0]) {
        None
    } else if is_high_surrogate(units[0]) {
        if units.len() >= 2 && is_low_surrogate(units[1]) {
            match decode_utf16(units.skip(2)) {
                Some(rest) => Some(seq![surrogate_pair_char(units[0], units[1])] + rest),
                None => None,
            }
        } else {
            None
        }
    } else {
        match decode_utf16(units.skip(1)) {
            Some(rest) => Some(seq![units[0] as char] + rest),
            None => None,
        }
    }
}

/// The characters of ISO 8859-1 (Latin-1) text: each byte is the code point.
pub open spec fn latin1(bytes: Seq<u8>) -> Seq<char> {
    Seq::new(bytes.len(), |i: int| bytes[i] as char)
}

/// `String::from_iter` over characters: the string of those characters.
#[verifier::external_body]
pub(crate) fn string_from_chars(chars: Vec<char>) -> (s: String)
    ensures
        s@ == chars@,
{
    String::from_iter(chars)
}

/// `String::from_utf8`: the text that the bytes encode, if they are valid
/// UTF-8; the bytes themselves otherwise.
#[verifier::external_body]
pub(crate) fn string_from_utf8(bytes: Vec<u8>) -> (r: Result<String, Vec<u8>>)
    ensures
        r is Ok <==> vstd::utf8::valid_utf8(bytes@),
        r is Ok ==> r->Ok_0@ == vstd::utf8::decode_utf8(bytes@),
        r is Err ==> r->Err_0@ == bytes@,
{
    match String::from_utf8(bytes) {
        Ok(s) => Ok(s),
        Err(e) => Err(e.into_bytes()),
    }
}

/// `String::from_utf16`: the text that the code units encode, if they hold
/// no unpaired surrogate.
#[verifier::external_body]
pub(crate) fn string_from_utf16(units: &[u16]) -> (r: Option<String>)
    ensures
        r is Some <==> decode_utf16(units@) is Some,
        r is Some ==> r->Some_0@ == decode_utf16(units@)->Some_0,
{
    match String::from_utf16(units) {
        Ok(s) => Some(s),
        Err(_) => None,
    }
}

} // verus!
