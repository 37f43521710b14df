//! The off-chain worker driver: once per block height, select a task, and
//! for the fetch task run fetch, decode and submit in order.
//!
//! Every failure is terminal for the cycle and is handed back to the host
//! to log; nothing here retries, carries state across cycles, or touches
//! the observation ledger. The ledger only moves when the host later
//! applies the queued request through `PriceLedger::update_price`.

use vstd::prelude::*;
use crate::decode::decode;
use crate::decode::decode_spec;
use crate::decode::DecodeError;
use crate::fetch::fetch_from_remote;
use crate::fetch::fetch_spec;
use crate::fetch::FetchError;
use crate::fetch::RemoteCall;
use crate::fetch::FETCH_TIMEOUT_PERIOD;
use crate::mux::select;
use crate::mux::select_spec;
use crate::mux::TaskId;
use crate::submit::submit_price;
use crate::submit::submit_spec;
use crate::submit::PendingRequest;
use crate::submit::SubmitError;
use crate::submit::SubmitHost;

verus! {

/// Every way one off-chain cycle can end short of a queued request.
#[derive(Clone, Copy, Debug, PartialEq, Eq, Structural)]
pub enum CycleError {
    /// The selector produced a slot with no task bound to it.
    UnknownTask,
    /// The fetch step failed.
    Fetch(FetchError),
    /// The decode step failed.
    Decode(DecodeError),
    /// The submit step failed.
    Submit(SubmitError),
}

/// What fetching and decoding yield for one cycle: the price bytes, or the
/// first step's failure.
pub open spec fn fetch_price_outcome(start: u64, call: RemoteCall) -> Result<Seq<u8>, CycleError> {
    match fetch_spec(start, call) {
        Ok(body) => match decode_spec(body) {
            Ok(p) => Ok(p),
            Err(e) => Err(CycleError::Decode(e)),
        },
        Err(e) => Err(CycleError::Fetch(e)),
    }
}

/// Fetches the remote quote and decodes the price out of it.
pub fn fetch_dot_price(start: u64, call: &RemoteCall) -> (r: Result<Vec<u8>, CycleError>)
    requires
        start + FETCH_TIMEOUT_PERIOD <= u64::MAX,
    ensures
        match fetch_price_outcome(start, *call) {
            Ok(p) => r matches Ok(v) && v@ == p,
            Err(e) => r matches Err(e2) && e2 == e,
        },
{
    let body = match fetch_from_remote(start, call) {
        Ok(b) => b,
        Err(e) => {
            return Err(CycleError::Fetch(e));
        },
    };
    match decode(body.as_slice()) {
        Ok(p) => Ok(p),
        Err(e) => Err(CycleError::Decode(e)),
    }
}

/// What one full fetch-and-submit attempt yields: the signer and price of
/// the queued request, or the first failure along the way.
pub open spec fn signed_update_outcome(start: u64, call: RemoteCall, host: SubmitHost) -> Result<
    (u64, Seq<u8>),
    CycleError,
> {
    match fetch_price_outcome(start, call) {
        Ok(p) => match submit_spec(host, p) {
            Ok(req) => Ok(req),
            Err(e) => Err(CycleError::Submit(e)),
        },
        Err(e) => Err(e),
    }
}

/// Runs one fetch-and-submit attempt: fetch the quote, decode the price,
/// sign and submit it with any matching local identity.
pub fn offchain_signed_update_price(start: u64, call: &RemoteCall, host: &SubmitHost) -> (r: Result<
    PendingRequest,
    CycleError,
>)
    requires
        start + FETCH_TIMEOUT_PERIOD <= u64::MAX,
    ensures
        match signed_update_outcome(start, *call, *host) {
            Ok((who, p)) => r matches Ok(req) && req.signer == who && req.price@ == p,
            Err(e) => r matches Err(e2) && e2 == e,
        },
{
    let price = match fetch_dot_price(start, call) {
        Ok(p) => p,
        Err(e) => {
            return Err(e);
        },
    };
    match submit_price(host, price) {
        Ok(req) => Ok(req),
        Err(e) => Err(CycleError::Submit(e)),
    }
}

/// What one whole cycle at a block height yields: an unmapped slot ends
/// the cycle at once, and slot 0 runs the fetch-and-submit attempt.
pub open spec fn cycle_outcome(
    height: u64,
    start: u64,
    call: RemoteCall,
    host: SubmitHost,
) -> Result<(u64, Seq<u8>), CycleError> {
    if select_spec(height) is UpdatePrice {
        signed_update_outcome(start, call, host)
    } else {
        Err(CycleError::UnknownTask)
    }
}

/// One invocation of the off-chain worker for a block height. Whatever the
/// outcome, the cycle ends here; the error, if any, is the host's to log,
/// and nothing on chain has moved.
pub fn offchain_worker(height: u64, start: u64, call: &RemoteCall, host: &SubmitHost) -> (r: Result<
    PendingRequest,
    CycleError,
>)
    requires
        start + FETCH_TIMEOUT_PERIOD <= u64::MAX,
    ensures
        match cycle_outcome(height, start, *call, *host) {
            Ok((who, p)) => r matches Ok(req) && req.signer == who && req.price@ == p,
            Err(e) => r matches Err(e2) && e2 == e,
        },
        select_spec(height) is UnknownMux ==> (r matches Err(e) && e == CycleError::UnknownTask),
{
    match select(height) {
        TaskId::UpdatePrice => offchain_signed_update_price(start, call, host),
        TaskId::UnknownMux => Err(CycleError::UnknownTask),
    }
}

} // verus!
