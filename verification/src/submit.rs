//! The signed resubmission client: find a local signing identity, build a
//! signed state-transition request carrying the observed value, and report
//! the local queue's acknowledgment.
//!
//! The keystore and the transaction queue belong to the host; what they
//! answer for one cycle is handed in as a plain record. Success means
//! "queued with a valid signature", not "applied on chain".

use vstd::prelude::*;

verus! {

/// Marker for the oracle's signing-key scheme; hosts tag the identities
/// the keystore may answer with.
pub struct AuthId;

/// Every way a submission can fail.
#[derive(Clone, Copy, Debug, PartialEq, Eq, Structural)]
pub enum SubmitError {
    /// No locally held identity matches the required key-type tag; an
    /// operator misconfiguration, distinct from a rejected submission.
    NoLocalIdentity,
    /// The local queue reported rejection of the signed request.
    SubmissionRejected,
}

/// What the host-side collaborators will answer for one cycle: the
/// keystore's choice of a local signing identity, if any matches, and
/// whether the local transaction queue acknowledges a submission.
#[derive(Clone, Copy, Debug)]
pub struct SubmitHost {
    pub local_identity: Option<u64>,
    pub queue_accepts: bool,
}

/// A signed state-transition request awaiting local acknowledgment; it
/// lives for the duration of one submission call.
pub struct PendingRequest {
    /// The identity that signed the request.
    pub signer: u64,
    /// The observed value the request carries.
    pub price: Vec<u8>,
}

/// What submitting a value yields: no matching identity fails before
/// anything is built; otherwise the request is signed and queued, and the
/// queue's verdict decides.
pub open spec fn submit_spec(host: SubmitHost, price: Seq<u8>) -> Result<
    (u64, Seq<u8>),
    SubmitError,
> {
    match host.local_identity {
        Option::None => Err(SubmitError::NoLocalIdentity),
        Option::Some(who) => if host.queue_accepts {
            Ok((who, price))
        } else {
            Err(SubmitError::SubmissionRejected)
        },
    }
}

/// Builds, signs and submits the state-transition request carrying
/// `price`, waiting only for the local queue's acknowledgment.
pub fn submit_price(host: &SubmitHost, price: Vec<u8>) -> (r: Result<PendingRequest, SubmitError>)
    ensures
        match submit_spec(*host, price@) {
            Ok((who, p)) => r matches Ok(req) && req.signer == who && req.price@ == p,
            Err(e) => r matches Err(e2) && e2 == e,
        },
{
    let who = match host.local_identity {
        Option::Some(who) => who,
        Option::None => {
            return Err(SubmitError::NoLocalIdentity);
        },
    };
    if host.queue_accepts {
        Ok(PendingRequest { signer: who, price })
    } else {
        Err(SubmitError::SubmissionRejected)
    }
}

} // verus!
