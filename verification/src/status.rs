//! HTTP status codes, as the client judges and shows them.

use vstd::prelude::*;
use crate::text::{decimal_string, decimal_text};

verus! {

/// The status is one of success: 200 to 299.
pub open spec fn is_success(status: u16) -> bool {
    200 <= status <= 299
}

/// Tells a status of success from any other.
pub fn status_is_success(status: u16) -> (r: bool)
    ensures
        r == is_success(status),
{
    200 <= status && status <= 299
}

/// The phrase that is shown after a status code: the reason that goes with
/// the code, or a placeholder where none does.
pub uninterp spec fn status_reason(code: u16) -> Seq<char>;

/// A status as an error message shows it: a code of three digits in decimal
/// with its phrase, any other code in decimal alone.
pub open spec fn status_text(code: u16) -> Seq<char> {
    if 100 <= code <= 999 {
        decimal_text(code as nat) + " "@ + status_reason(code)
    } else {
        decimal_text(code as nat)
    }
}

/// Calls `reqwest::StatusCode::from_u16`, which takes the codes from 100 to
/// 999 and no other, and `Display` of the status it gives, which writes the
/// code in decimal, a space, and the code's reason phrase or a placeholder.
/// The contract states this, and names the phrase.
#[verifier::external_body]
fn status_line(code: u16) -> (r: Option<String>)
    ensures
        r is Some <==> 100 <= code <= 999,
        r matches Some(line) ==> line@ == decimal_text(code as nat) + " "@ + status_reason(code),
{
    reqwest::StatusCode::from_u16(code).ok().map(|status| status.to_string())
}

/// Shows a status as an error message is to show it.
pub fn status_string(code: u16) -> (r: String)
    ensures
        r@ == status_text(code),
{
    match status_line(code) {
        Some(line) => line,
        None => decimal_string(code),
    }
}

} // verus!
