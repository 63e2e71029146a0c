//! HTTP status codes: which of them mean success, and how one is written in
//! an error's text. The reason phrases are those that `reqwest` knows.

use crate::text::{decimal, decimal_string};
use vstd::prelude::*;
use vstd::string::*;

verus! {

/// The standard reason phrase of a status code, such as `Not Found` for 404.
/// There is none for a code without a registered meaning, nor for a number
/// that is no status code.
pub uninterp spec fn canonical_reason(status: u16) -> Option<Seq<char>>;

/// `reqwest::StatusCode::canonical_reason`, on the status code that
/// `reqwest::StatusCode::from_u16` makes of the number: the reason phrase
/// that is registered for the code, nothing where none is or where the number
/// is no status code.
#[verifier::external_body]
pub(crate) fn reason(status: u16) -> (phrase: Option<&'static str>)
    ensures
        phrase matches Some(p) ==> canonical_reason(status) == Some(p@),
        phrase is None ==> canonical_reason(status) is None,
{
    match reqwest::StatusCode::from_u16(status) {
        Ok(code) => code.canonical_reason(),
        Err(_) => None,
    }
}

/// Whether a status is in the success range.
pub open spec fn is_success(status: u16) -> bool {
    200 <= status < 300
}

/// A status as an error's text shows it: the code in decimal, a space, and
/// the reason phrase, or `<unknown status code>` in its place.
pub open spec fn status_line(status: u16) -> Seq<char> {
    decimal(status as nat) + " "@ + match canonical_reason(status) {
        Some(phrase) => phrase,
        None => "<unknown status code>"@,
    }
}

/// Whether a status is in the success range.
pub fn succeeded(status: u16) -> (yes: bool)
    ensures
        yes == is_success(status),
{
    200 <= status && status < 300
}

/// The status as an error's text shows it, `500 Internal Server Error` for
/// 500.
pub fn status_text(status: u16) -> (s: String)
    ensures
        s@ == status_line(status),
{
    let phrase = match reason(status) {
        Some(phrase) => phrase,
        None => "<unknown status code>",
    };
    decimal_string(status).concat(" ").concat(phrase)
}

} // verus!
