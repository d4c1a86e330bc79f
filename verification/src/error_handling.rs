//! Failure classes of the messaging platform, and the line written to the
//! operator log when a command endpoint fails.

use vstd::prelude::*;
use vstd::string::StringExecFns;

verus! {

/// How a request to the messaging platform can fail.
///
/// `PollAbsent` is the platform rejecting a stop-poll request because the
/// live poll object is missing or already stopped; every other failure class
/// (network, authorization, rate limiting) is `Other`.
#[derive(Clone, Copy, Debug, PartialEq, Eq, Structural)]
pub enum PlatformError {
    PollAbsent,
    Other,
}

/// The text of [`log_endpoint_err`] for each failure class.
pub open spec fn log_endpoint_err_spec(err: PlatformError) -> Seq<char> {
    match err {
        PlatformError::PollAbsent => "platform request failed: the live poll object is absent"@,
        PlatformError::Other => "platform request failed"@,
    }
}

/// The line recorded in the operator log when a command endpoint aborts with
/// a platform failure.
pub fn log_endpoint_err(err: &PlatformError) -> (r: String)
    ensures
        r@ == log_endpoint_err_spec(*err),
{
    match err {
        PlatformError::PollAbsent => String::from_str(
            "platform request failed: the live poll object is absent",
        ),
        PlatformError::Other => String::from_str("platform request failed"),
    }
}

} // verus!
