//! The numbered-call dispatch boundary contracts reach the runtime
//! through: each call code maps to a fixed argument shape and a fixed
//! collaborator, and every unregistered code is a checked error.
//!
//! The collaborators behind the codes (the host's randomness source, the
//! claim registry, the collectible registry) answer for themselves; what
//! this module verifies is the dispatch: which code moves what, writes
//! what back, and fails how.

use vstd::prelude::*;
use crate::poe::ClaimError;
use crate::poe::ClaimRegistry;

verus! {

/// Call code: produce a fresh random seed.
pub const FUNC_ID_RANDOM: u32 = 1101;

/// Call code: register a claim on behalf of the caller.
pub const FUNC_ID_CREATE_CLAIM: u32 = 1102;

/// Call code: create a new collectible on behalf of the caller.
pub const FUNC_ID_CREATE_KITTY: u32 = 1103;

/// Every way a numbered call can fail.
#[derive(Clone, Copy, Debug, PartialEq, Eq, Structural)]
pub enum ExtensionError {
    /// The host refused the write into the calling contract's output
    /// buffer.
    WriteFailed,
    /// The claim registry rejected the call.
    Claim(ClaimError),
    /// The collectible registry rejected the call.
    CollectibleRejected,
    /// The code maps to no registered call.
    UnimplementedFuncId,
}

/// What a completed numbered call hands back: the converging return value
/// and whatever was written into the caller's output buffer.
pub struct ExtensionOutput {
    pub ret_val: u32,
    pub written: Option<Vec<u8>>,
}

/// The host hands contract callers over as raw 32-byte account ids; this
/// reads one back as an owned id. A slice of any other length is the
/// caller's error to avoid.
pub fn to_account_id(account: &[u8]) -> (r: Vec<u8>)
    requires
        account@.len() == 32,
    ensures
        r@ == account@,
{
    vstd::slice::slice_to_vec(account)
}

/// The runtime's numbered-call surface for contracts.
pub struct FetchRandomExtension;

impl FetchRandomExtension {
    /// Dispatches one numbered call. The host environment's part (the
    /// caller's identity, the input it read, the random seed it drew,
    /// the collectible registry's verdict, and whether it accepts output
    /// writes) arrives as plain values; the claim registry is the one
    /// collaborator the dispatch drives directly.
    pub fn call(
        func_id: u32,
        caller: u64,
        input: Vec<u8>,
        random_seed: &[u8; 32],
        collectible_created: Option<u32>,
        write_ok: bool,
        claims: &mut ClaimRegistry,
        block_number: u64,
    ) -> (r: Result<ExtensionOutput, ExtensionError>)
        requires
            old(claims).wf(),
        ensures
            final(claims).wf(),
            final(claims).spec_max_claim_length() == old(claims).spec_max_claim_length(),
            final(claims).events_log() == old(claims).events_log(),
            func_id == FUNC_ID_RANDOM ==> {
                &&& final(claims)@ == old(claims)@
                &&& if write_ok {
                    r matches Ok(out) && out.ret_val == 0 && (out.written matches Some(w) && w@
                        == random_seed@)
                } else {
                    r matches Err(e) && e == ExtensionError::WriteFailed
                }
            },
            func_id == FUNC_ID_CREATE_CLAIM ==> {
                if old(claims)@.contains_key(input@) {
                    &&& (r matches Err(e) && e == ExtensionError::Claim(
                        ClaimError::ProofAlreadyExists,
                    ))
                    &&& final(claims)@ == old(claims)@
                } else if input@.len() > old(claims).spec_max_claim_length() {
                    &&& (r matches Err(e) && e == ExtensionError::Claim(ClaimError::ProofTooLong))
                    &&& final(claims)@ == old(claims)@
                } else {
                    &&& (r matches Ok(out) && out.ret_val == 0 && out.written is None)
                    &&& final(claims)@ == old(claims)@.insert(input@, (caller, block_number))
                }
            },
            func_id == FUNC_ID_CREATE_KITTY ==> {
                &&& final(claims)@ == old(claims)@
                &&& match collectible_created {
                    Option::Some(id) => if write_ok {
                        r matches Ok(out) && out.ret_val == 0 && (out.written matches Some(w) && w@
                            == vstd::bytes::spec_u32_to_le_bytes(id))
                    } else {
                        r matches Err(e) && e == ExtensionError::WriteFailed
                    },
                    Option::None => r matches Err(e) && e == ExtensionError::CollectibleRejected,
                }
            },
            func_id != FUNC_ID_RANDOM && func_id != FUNC_ID_CREATE_CLAIM && func_id
                != FUNC_ID_CREATE_KITTY ==> {
                &&& final(claims)@ == old(claims)@
                &&& (r matches Err(e) && e == ExtensionError::UnimplementedFuncId)
            },
    {
        if func_id == FUNC_ID_RANDOM {
            let seed = vstd::slice::slice_to_vec(vstd::array::array_as_slice(random_seed));
            if !write_ok {
                return Err(ExtensionError::WriteFailed);
            }
            Ok(ExtensionOutput { ret_val: 0, written: Option::Some(seed) })
        } else if func_id == FUNC_ID_CREATE_CLAIM {
            match claims.do_create_claim(caller, input, block_number) {
                Ok(()) => Ok(ExtensionOutput { ret_val: 0, written: Option::None }),
                Err(e) => Err(ExtensionError::Claim(e)),
            }
        } else if func_id == FUNC_ID_CREATE_KITTY {
            let id = match collectible_created {
                Option::Some(id) => id,
                Option::None => {
                    return Err(ExtensionError::CollectibleRejected);
                },
            };
            let encoded = vstd::bytes::u32_to_le_bytes(id);
            if !write_ok {
                return Err(ExtensionError::WriteFailed);
            }
            Ok(ExtensionOutput { ret_val: 0, written: Option::Some(encoded) })
        } else {
            Err(ExtensionError::UnimplementedFuncId)
        }
    }

    /// The surface is switched on.
    pub fn enabled() -> (r: bool)
        ensures
            r,
    {
        true
    }
}

} // verus!
