use vstd::prelude::*;
use crate::payload::{parse_json, parsed_json};

verus! {

/// The classified result of one HTTP attempt against a single URL.
#[derive(Debug)]
pub enum FetchOutcome {
    /// A success status whose body parsed as JSON.
    Success(serde_json::Value),
    /// A non-success status or a transport failure; `retryable` records
    /// whether the failure looked like upstream overload (a 503 or a
    /// network-level failure) rather than a plain rejection.
    Unavailable { retryable: bool },
    /// A success status whose body was not JSON: a dead end for that URL.
    Unparsable,
}

/// A status in the 2xx range counts as success.
pub open spec fn spec_is_success_status(status: u16) -> bool {
    200 <= status < 300
}

/// How one completed HTTP response classifies, given its status code and
/// the text of its body.
pub open spec fn spec_classify_response(status: u16, body: Seq<char>) -> FetchOutcome {
    if spec_is_success_status(status) {
        match parsed_json(body) {
            Some(v) => FetchOutcome::Success(v),
            None => FetchOutcome::Unparsable,
        }
    } else {
        FetchOutcome::Unavailable { retryable: status == 503 }
    }
}

/// Classify a completed HTTP response: a 2xx body that parses as JSON is a
/// success, a 2xx body that does not parse is a dead end, a 503 is a
/// retryable outage, and any other status is a non-retryable rejection.
pub fn classify_response(status: u16, body: &str) -> (r: FetchOutcome)
    ensures
        r == spec_classify_response(status, body@),
{
    if 200 <= status && status < 300 {
        match parse_json(body) {
            Some(v) => FetchOutcome::Success(v),
            None => FetchOutcome::Unparsable,
        }
    } else {
        FetchOutcome::Unavailable { retryable: status == 503 }
    }
}

/// Classify a request that never produced a response (connection, DNS, or
/// timeout failure): presumed upstream overload, hence retryable.
pub fn classify_transport_failure() -> (r: FetchOutcome)
    ensures
        r == (FetchOutcome::Unavailable { retryable: true }),
{
    FetchOutcome::Unavailable { retryable: true }
}

} // verus!
