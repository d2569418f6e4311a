//! The text of HTTP status codes.
use crate::text;
use vstd::prelude::*;

verus! {

/// The reason phrase that the `http` crate prints behind a status code.
pub uninterp spec fn status_reason(code: u16) -> Seq<char>;

/// How a status is shown: its code, a space and its reason phrase.
pub open spec fn status_line(code: u16) -> Seq<char> {
    text::decimal(code as nat) + " "@ + status_reason(code)
}

/// `http::StatusCode`'s `Display`, for the status with this code: the code in
/// decimal, a space and a phrase that the code alone decides.
/// `http::StatusCode::from_u16` makes a status of every three-digit code and of
/// no other.
#[verifier::external_body]
pub(crate) fn status_text(code: u16) -> (r: String)
    requires
        100 <= code <= 999,
    ensures
        r@ == text::decimal(code as nat) + " "@ + status_reason(code),
{
    reqwest::StatusCode::from_u16(code).unwrap().to_string()
}

} // verus!
