//! The remote fetch client: one outbound GET with an absolute deadline,
//! every failure mode classified.
//!
//! The transport itself belongs to the host. What it did for one request is
//! handed in as a plain record, and the classification of that record into
//! a body or a `FetchError` is what this module verifies.

use vstd::prelude::*;

verus! {

/// The fixed origin the quote is fetched from; the host's transport issues
/// the GET against it.
pub const HTTP_REMOTE_REQUEST: &'static str = "https://api.coincap.io/v2/assets/polkadot";

/// Budget for one fetch, in milliseconds. The absolute deadline is the
/// submission start time plus this budget.
pub const FETCH_TIMEOUT_PERIOD: u64 = 3000;

/// Every way a fetch can fail.
#[derive(Clone, Copy, Debug, PartialEq, Eq, Structural)]
pub enum FetchError {
    /// No response became available before the absolute deadline.
    Timeout,
    /// The dispatch failed, or the transport reported an error after
    /// responding; the two layers are deliberately collapsed.
    Transport,
    /// A response arrived with a status other than 200, whatever its body.
    BadStatus(u16),
}

/// What the host's transport did for one GET request, as the wait-for-
/// completion step observed it.
pub struct RemoteCall {
    /// The request dispatch itself was accepted by the host.
    pub dispatched: bool,
    /// Absolute time, in milliseconds, at which a response became
    /// available to the waiting worker.
    pub response_at: u64,
    /// The transport completed without reporting an error of its own.
    pub transport_ok: bool,
    /// Response status code.
    pub status: u16,
    /// Response body.
    pub body: Vec<u8>,
}

/// The absolute deadline for a fetch that starts now.
pub open spec fn deadline_spec(start: u64) -> int {
    start + FETCH_TIMEOUT_PERIOD
}

/// Computes the absolute deadline from the submission start time.
pub fn deadline(start: u64) -> (d: u64)
    requires
        start + FETCH_TIMEOUT_PERIOD <= u64::MAX,
    ensures
        d == deadline_spec(start),
{
    start + FETCH_TIMEOUT_PERIOD
}

/// How one observed transport record is classified: a failed dispatch or a
/// late transport error is undifferentiated `Transport`; a response delayed
/// past the deadline is `Timeout`; a non-200 status is `BadStatus`; only a
/// timely, clean 200 response yields its body.
pub open spec fn fetch_spec(start: u64, call: RemoteCall) -> Result<Seq<u8>, FetchError> {
    if !call.dispatched {
        Err(FetchError::Transport)
    } else if call.response_at > deadline_spec(start) {
        Err(FetchError::Timeout)
    } else if !call.transport_ok {
        Err(FetchError::Transport)
    } else if call.status != 200 {
        Err(FetchError::BadStatus(call.status))
    } else {
        Ok(call.body@)
    }
}

/// Issues one GET within the absolute deadline; concretely, classifies
/// what the host's transport observably did for that request. A response
/// delayed beyond the deadline is a `Timeout`, never a value.
pub fn fetch_from_remote(start: u64, call: &RemoteCall) -> (r: Result<Vec<u8>, FetchError>)
    requires
        start + FETCH_TIMEOUT_PERIOD <= u64::MAX,
    ensures
        match fetch_spec(start, *call) {
            Ok(b) => r matches Ok(v) && v@ == b,
            Err(e) => r matches Err(e2) && e2 == e,
        },
        r is Ok ==> call.dispatched && call.response_at <= deadline_spec(start)
            && call.transport_ok && call.status == 200,
        call.dispatched && call.response_at > deadline_spec(start) ==> (r matches Err(e) && e
            == FetchError::Timeout),
{
    if !call.dispatched {
        return Err(FetchError::Transport);
    }
    let d = deadline(start);
    if call.response_at > d {
        return Err(FetchError::Timeout);
    }
    if !call.transport_ok {
        return Err(FetchError::Transport);
    }
    if call.status != 200 {
        return Err(FetchError::BadStatus(call.status));
    }
    Ok(call.body.clone())
}

} // verus!
