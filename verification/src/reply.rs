//! What a client is told when a request fails outside of its handler.

use vstd::prelude::*;
use vstd::string::*;

verus! {

/// `408 Request Timeout`.
pub const REQUEST_TIMEOUT: u16 = 408;

/// `500 Internal Server Error`.
pub const INTERNAL_SERVER_ERROR: u16 = 500;

/// The status that answers a request whose handler did not finish in time.
pub fn timeout_reply() -> (status: u16)
    ensures
        status == REQUEST_TIMEOUT,
{
    REQUEST_TIMEOUT
}

/// The status and the body that answer a request which failed with the error that `error`
/// describes before its handler could run.
pub fn unhandled_reply(error: &str) -> (r: (u16, String))
    ensures
        r.0 == INTERNAL_SERVER_ERROR,
        r.1@ == "Unhandled error: "@ + error@,
{
    let mut body: String = "Unhandled error: ".to_owned();
    body.append(error);
    (INTERNAL_SERVER_ERROR, body)
}

} // verus!
