//! HTTP status codes.
use vstd::prelude::*;

use crate::text::{concat3, decimal, decimal_text};

verus! {

/// The standard's reason phrase for a status code, as the `http` crate has it.
pub uninterp spec fn canonical_reason(code: u16) -> Option<Seq<char>>;

/// Calls `http::StatusCode::from_u16` and `http::StatusCode::canonical_reason`.
/// The phrase is a function of the code alone; a code that is none of the
/// standard's has none.
#[verifier::external_body]
fn reason_phrase(code: u16) -> (reason: Option<&'static str>)
    ensures
        match reason {
            Some(phrase) => canonical_reason(code) == Some(phrase@),
            None => canonical_reason(code) is None,
        },
{
    http::StatusCode::from_u16(code).ok().and_then(|status| status.canonical_reason())
}

/// A code from 200 to 299.
pub open spec fn is_success(code: u16) -> bool {
    200 <= code < 300
}

/// Whether a code is from 200 to 299.
pub fn success(code: u16) -> (is: bool)
    ensures
        is == is_success(code),
{
    200 <= code && code < 300
}

/// A status code with its reason phrase.
pub open spec fn status_text(code: u16, reason: Option<Seq<char>>) -> Seq<char> {
    decimal(code as nat) + " "@ + (match reason {
        Some(phrase) => phrase,
        None => "<unknown status code>"@,
    })
}

/// A status code with its reason phrase.
pub fn status_with_reason(code: u16, reason: Option<&str>) -> (text: String)
    ensures
        text@ == status_text(
            code,
            match reason {
                Some(phrase) => Some(phrase@),
                None => None,
            },
        ),
{
    let phrase: &str = match reason {
        Some(phrase) => phrase,
        None => "<unknown status code>",
    };
    concat3(decimal_text(code as u64).as_str(), " ", phrase)
}

/// A status code with the reason phrase that the standard has for it.
pub fn describe_status(code: u16) -> (text: String)
    ensures
        text@ == status_text(code, canonical_reason(code)),
{
    status_with_reason(code, reason_phrase(code))
}

// ---------------------------------------------------------------------------
// Laws
// ---------------------------------------------------------------------------


/// A success is a code from 200 to 299 and no other.
pub proof fn successes_are_the_two_hundreds(code: u16)
    ensures
        is_success(code) <==> code / 100 == 2,
{
}

/// A status in words starts with its code and a space, and ends with its phrase;
/// one without a phrase says that it is unknown.
pub proof fn statuses_tell_code_and_phrase(code: u16, phrase: Seq<char>)
    ensures
        status_text(code, Some(phrase)) == decimal(code as nat) + seq![' '] + phrase,
        status_text(code, None) == status_text(code, Some("<unknown status code>"@)),
{
    reveal_strlit(" ");
    assert(" "@ =~= seq![' ']);
}

} // verus!
