//! HTTP status codes, as the `http` crate (re-exported by axum) validates them.

use vstd::prelude::*;

verus! {

/// Whether `code` is a status code that `http::StatusCode` accepts: three
/// digits, from 100 through 999.
pub open spec fn is_valid_status(code: u16) -> bool {
    100 <= code <= 999
}

/// Calls `axum::http::StatusCode::from_u16` and hands back the code it holds.
///
/// Trusted: the contract claims what `from_u16` in http 1.x does by its source:
/// it succeeds exactly on 100..=999, and `as_u16` of the code it builds gives
/// the input back.
#[verifier::external_body]
pub(crate) fn checked_status(code: u16) -> (r: Option<u16>)
    ensures
        r is Some <==> is_valid_status(code),
        r matches Some(c) ==> c == code,
{
    match axum::http::StatusCode::from_u16(code) {
        Ok(status) => Some(status.as_u16()),
        Err(_) => None,
    }
}

} // verus!
