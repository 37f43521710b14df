//! A plain model of the host's system facilities that the ledger modules
//! read: the origin of a dispatched call and the current block height.

use vstd::prelude::*;

verus! {

/// The provenance of a dispatched state transition. The host verifies the
/// signature before a handler runs, so a handler sees only the verdict.
#[derive(Clone, Copy, Debug, PartialEq, Eq, Structural)]
pub enum Origin {
    /// A transaction signed by the account.
    Signed(u64),
    /// The host itself.
    Root,
    /// An unsigned transaction.
    Unsigned,
}

/// The signing account behind an origin, if there is one.
pub open spec fn signer_of(origin: Origin) -> Option<u64> {
    match origin {
        Origin::Signed(who) => Option::Some(who),
        _ => Option::None,
    }
}

/// Accepts exactly the signed origins, handing back the signer.
pub fn ensure_signed(origin: Origin) -> (r: Option<u64>)
    ensures
        r == signer_of(origin),
{
    match origin {
        Origin::Signed(who) => Option::Some(who),
        _ => Option::None,
    }
}

/// The block-height clock of the host chain, as far as the handlers here
/// read it: a height that only moves forward.
pub struct System {
    block_number: u64,
}

impl System {
    /// The height the system holds.
    pub closed spec fn spec_block_number(&self) -> u64 {
        self.block_number
    }

    /// A fresh system at height zero.
    pub fn new() -> (sys: System)
        ensures
            sys.spec_block_number() == 0,
    {
        System { block_number: 0 }
    }

    /// Reads the current block height.
    pub fn block_number(&self) -> (n: u64)
        ensures
            n == self.spec_block_number(),
    {
        self.block_number
    }

    /// Moves the chain to the given height.
    pub fn set_block_number(&mut self, n: u64)
        ensures
            final(self).spec_block_number() == n,
    {
        self.block_number = n;
    }
}

/// Advances the chain block by block until it reaches height `n`; a chain
/// already past `n` is left where it stands.
pub fn run_to_block(sys: &mut System, n: u64)
    ensures
        final(sys).spec_block_number() == if old(sys).spec_block_number() >= n {
            old(sys).spec_block_number()
        } else {
            n
        },
{
    while sys.block_number() < n
        invariant
            sys.spec_block_number() <= n || sys.spec_block_number() == old(
                sys,
            ).spec_block_number(),
            sys.spec_block_number() >= old(sys).spec_block_number(),
        decreases n - sys.spec_block_number(),
    {
        let current = sys.block_number();
        sys.set_block_number(current + 1);
    }
}

} // verus!
