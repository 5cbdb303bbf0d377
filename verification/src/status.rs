//! HTTP status codes.

use vstd::prelude::*;

verus! {

/// The access token is no longer accepted.
pub const UNAUTHORIZED: u16 = 401;

/// The request is refused, whatever the token: a challenge, or missing permissions.
pub const FORBIDDEN: u16 = 403;

/// The three-digit numbers.
pub open spec fn is_status(code: u16) -> bool {
    100 <= code <= 999
}

/// The codes that report success.
pub open spec fn success(code: u16) -> bool {
    200 <= code <= 299
}

/// How `reqwest` writes a status: the number and its canonical reason.
pub uninterp spec fn status_line(code: u16) -> Seq<char>;

/// Tests for a code that reports success.
pub fn is_success(code: u16) -> (r: bool)
    ensures
        r == success(code),
{
    200 <= code && code <= 299
}

/// Calls `Display` of `reqwest::StatusCode`, which writes the number, a space and the canonical
/// reason. The contract gives the result a name; the table of reasons is not spelled out.
/// `StatusCode::from_u16` fails outside of 100 to 999.
#[verifier::external_body]
pub(crate) fn status_text(code: u16) -> (r: String)
    requires
        is_status(code),
    ensures
        r@ == status_line(code),
{
    reqwest::StatusCode::from_u16(code).unwrap().to_string()
}

/// A status code has three digits, and reports success where the first of them is a two.
pub proof fn first_digit_tells_success(code: u16)
    ensures
        is_status(code) <==> 1 <= code as int / 100 <= 9,
        success(code) <==> code as int / 100 == 2,
{
}

} // verus!
