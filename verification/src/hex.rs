//! Hexadecimal text and the bytes it stands for.

use vstd::prelude::*;
use alloy_primitives::hex::FromHexError;

verus! {

/// The value of a hexadecimal digit of either case, or -1 for another character.
pub open spec fn hex_digit_value(c: char) -> int {
    let n = c as u32 as int;
    if 48 <= n <= 57 {
        n - 48
    } else if 97 <= n <= 102 {
        n - 87
    } else if 65 <= n <= 70 {
        n - 55
    } else {
        -1
    }
}

/// The text without a leading `0x` or `0X`.
pub open spec fn hex_payload(s: Seq<char>) -> Seq<char> {
    if s.len() >= 2 && s[0] == '0' && (s[1] == 'x' || s[1] == 'X') {
        s.subrange(2, s.len() as int)
    } else {
        s
    }
}

/// The text is an even number of hexadecimal digits, after an optional prefix.
pub open spec fn is_hex_text(s: Seq<char>) -> bool {
    let p = hex_payload(s);
    p.len() % 2 == 0 && forall|i: int| 0 <= i < p.len() ==> hex_digit_value(#[trigger] p[i]) >= 0
}

/// The bytes that a hexadecimal text stands for: one for each pair of digits.
pub open spec fn hex_bytes(s: Seq<char>) -> Seq<u8> {
    let p = hex_payload(s);
    Seq::new(
        p.len() / 2,
        |i: int| (16 * hex_digit_value(p[2 * i]) + hex_digit_value(p[2 * i + 1])) as u8,
    )
}

#[verifier::external_type_specification]
#[verifier::external_body]
pub struct ExFromHexError(FromHexError);

/// Calls `alloy_primitives::hex::decode`. It strips one leading `0x` or `0X`,
/// refuses a text of odd length or with a character that is no hexadecimal
/// digit, and otherwise gives one byte for each pair of digits, the first
/// digit being the high half.
#[verifier::external_body]
fn decode_outside(text: &str) -> (r: Result<Vec<u8>, FromHexError>)
    ensures
        r is Ok <==> is_hex_text(text@),
        r matches Ok(bytes) ==> bytes@ == hex_bytes(text@),
{
    alloy_primitives::hex::decode(text)
}

/// Calls `Display` of `alloy_primitives::hex::FromHexError`: the error in words.
#[verifier::external_body]
fn error_text(error: &FromHexError) -> (r: String) {
    error.to_string()
}

/// Decodes hexadecimal text, with or without a `0x` prefix, into bytes.
/// Fails, with a description, exactly on a text that is no hexadecimal text.
pub fn decode(text: &str) -> (r: Result<Vec<u8>, String>)
    ensures
        r is Ok <==> is_hex_text(text@),
        r matches Ok(bytes) ==> bytes@ == hex_bytes(text@),
{
    match decode_outside(text) {
        Ok(bytes) => Ok(bytes),
        Err(e) => Err(error_text(&e)),
    }
}

} // verus!
