//! The claim registry: a map from claim bytes to the claiming account and
//! the block height of the claim, with signed create, revoke and transfer
//! transitions.
//!
//! The registry is a collaborator of the dispatch boundary, not of the
//! oracle pipeline; it lives here because contracts reach it through the
//! numbered-call surface.

use vstd::prelude::*;
use crate::system::signer_of;
use crate::system::Origin;

verus! {

/// Every way a claim transition can fail.
#[derive(Clone, Copy, Debug, PartialEq, Eq, Structural)]
pub enum ClaimError {
    /// The caller was not an authenticated account.
    AuthorizationFailure,
    /// The claim is already registered.
    ProofAlreadyExists,
    /// The claim is not registered.
    ProofNotExists,
    /// The caller does not own the claim.
    NotClaimOwner,
    /// The claim is longer than the registry's configured bound.
    ProofTooLong,
}

/// An observable notification the registry emits.
#[derive(Debug, PartialEq, Eq)]
pub enum ClaimEvent {
    /// A claim was registered, by this account with these bytes.
    ClaimCreated(u64, Vec<u8>),
    /// A claim was revoked by its owner.
    ClaimRemoved(u64, Vec<u8>),
    /// A claim changed hands: old owner, claim, new owner.
    ClaimTransfered(u64, Vec<u8>, u64),
}

struct ClaimRecord {
    claim: Vec<u8>,
    owner: u64,
    block: u64,
}

/// The registered claims as a map from claim bytes to (owner, block).
spec fn records_map(s: Seq<ClaimRecord>) -> Map<Seq<u8>, (u64, u64)>
    decreases s.len(),
{
    if s.len() == 0 {
        Map::empty()
    } else {
        records_map(s.drop_last()).insert(
            s.last().claim@,
            (s.last().owner, s.last().block),
        )
    }
}

/// No two records carry the same claim bytes.
spec fn unique_keys(s: Seq<ClaimRecord>) -> bool {
    forall|i: int, j: int| 0 <= i < j < s.len() ==> s[i].claim@ != s[j].claim@
}

proof fn lemma_records_map_contains(s: Seq<ClaimRecord>, k: Seq<u8>)
    ensures
        records_map(s).contains_key(k) <==> exists|i: int| 0 <= i < s.len() && s[i].claim@ == k,
    decreases s.len(),
{
    if s.len() > 0 {
        let prefix = s.drop_last();
        lemma_records_map_contains(prefix, k);
        if s.last().claim@ == k {
            assert(s[s.len() - 1].claim@ == k);
        } else {
            if exists|i: int| 0 <= i < prefix.len() && prefix[i].claim@ == k {
                let i = choose|i: int| 0 <= i < prefix.len() && prefix[i].claim@ == k;
                assert(s[i].claim@ == k);
            }
            if exists|i: int| 0 <= i < s.len() && s[i].claim@ == k {
                let i = choose|i: int| 0 <= i < s.len() && s[i].claim@ == k;
                assert(i < s.len() - 1);
                assert(prefix[i].claim@ == k);
            }
        }
    }
}

proof fn lemma_unique_prefix(s: Seq<ClaimRecord>)
    requires
        unique_keys(s),
        s.len() > 0,
    ensures
        unique_keys(s.drop_last()),
{
    let prefix = s.drop_last();
    assert forall|i: int, j: int| 0 <= i < j < prefix.len() implies prefix[i].claim@
        != prefix[j].claim@ by {
        assert(prefix[i] == s[i]);
        assert(prefix[j] == s[j]);
    }
}

proof fn lemma_records_map_at(s: Seq<ClaimRecord>, i: int)
    requires
        unique_keys(s),
        0 <= i < s.len(),
    ensures
        records_map(s).contains_key(s[i].claim@),
        records_map(s)[s[i].claim@] == (s[i].owner, s[i].block),
    decreases s.len(),
{
    let prefix = s.drop_last();
    if i == s.len() - 1 {
    } else {
        lemma_unique_prefix(s);
        lemma_records_map_at(prefix, i);
        assert(prefix[i] == s[i]);
        assert(s.last().claim@ != s[i].claim@);
    }
}

proof fn lemma_records_map_push(s: Seq<ClaimRecord>, r: ClaimRecord)
    ensures
        records_map(s.push(r)) == records_map(s).insert(r.claim@, (r.owner, r.block)),
{
    assert(s.push(r).drop_last() =~= s);
    assert(s.push(r).last() == r);
}

proof fn lemma_unique_push(s: Seq<ClaimRecord>, r: ClaimRecord)
    requires
        unique_keys(s),
        !records_map(s).contains_key(r.claim@),
    ensures
        unique_keys(s.push(r)),
{
    lemma_records_map_contains(s, r.claim@);
    let t = s.push(r);
    assert forall|i: int, j: int| 0 <= i < j < t.len() implies t[i].claim@ != t[j].claim@ by {
        if j < s.len() {
            assert(t[i] == s[i]);
            assert(t[j] == s[j]);
        } else {
            assert(t[i] == s[i]);
            assert(t[j] == r);
        }
    }
}

proof fn lemma_records_map_remove(s: Seq<ClaimRecord>, i: int)
    requires
        unique_keys(s),
        0 <= i < s.len(),
    ensures
        records_map(s.remove(i)) == records_map(s).remove(s[i].claim@),
        unique_keys(s.remove(i)),
    decreases s.len(),
{
    let k = s[i].claim@;
    let prefix = s.drop_last();
    lemma_unique_prefix(s);
    assert forall|a: int, b: int| 0 <= a < b < s.remove(i).len() implies s.remove(i)[a].claim@
        != s.remove(i)[b].claim@ by {
        let a0 = if a < i {
            a
        } else {
            a + 1
        };
        let b0 = if b < i {
            b
        } else {
            b + 1
        };
        assert(s.remove(i)[a] == s[a0]);
        assert(s.remove(i)[b] == s[b0]);
    }
    if i == s.len() - 1 {
        assert(s.remove(i) =~= prefix);
        lemma_records_map_contains(prefix, k);
        assert(!records_map(prefix).contains_key(k)) by {
            if exists|a: int| 0 <= a < prefix.len() && prefix[a].claim@ == k {
                let a = choose|a: int| 0 <= a < prefix.len() && prefix[a].claim@ == k;
                assert(s[a].claim@ == s[i].claim@);
            }
        }
        assert(records_map(s).remove(k) =~= records_map(prefix));
    } else {
        lemma_records_map_remove(prefix, i);
        assert(s.remove(i).drop_last() =~= prefix.remove(i));
        assert(s.remove(i).last() == s.last());
        assert(records_map(s.remove(i)) == records_map(prefix.remove(i)).insert(
            s.last().claim@,
            (s.last().owner, s.last().block),
        ));
        assert(s.last().claim@ != k);
        assert(records_map(prefix).remove(k).insert(
            s.last().claim@,
            (s.last().owner, s.last().block),
        ) =~= records_map(s).remove(k));
    }
}

proof fn lemma_records_map_update(s: Seq<ClaimRecord>, i: int, r: ClaimRecord)
    requires
        unique_keys(s),
        0 <= i < s.len(),
        r.claim@ == s[i].claim@,
    ensures
        records_map(s.update(i, r)) == records_map(s).insert(r.claim@, (r.owner, r.block)),
        unique_keys(s.update(i, r)),
    decreases s.len(),
{
    let k = r.claim@;
    let prefix = s.drop_last();
    lemma_unique_prefix(s);
    assert forall|a: int, b: int| 0 <= a < b < s.update(i, r).len() implies s.update(
        i,
        r,
    )[a].claim@ != s.update(i, r)[b].claim@ by {
        assert(s.update(i, r)[a].claim@ == s[a].claim@);
        assert(s.update(i, r)[b].claim@ == s[b].claim@);
    }
    if i == s.len() - 1 {
        assert(s.update(i, r).drop_last() =~= prefix);
        assert(s.update(i, r).last() == r);
        assert(records_map(prefix).insert(s.last().claim@, (s.last().owner, s.last().block)).insert(
            k,
            (r.owner, r.block),
        ) =~= records_map(prefix).insert(k, (r.owner, r.block)));
    } else {
        lemma_records_map_update(prefix, i, r);
        assert(s.update(i, r).drop_last() =~= prefix.update(i, r));
        assert(s.update(i, r).last() == s.last());
        assert(s.last().claim@ != k);
        assert(records_map(prefix).insert(k, (r.owner, r.block)).insert(
            s.last().claim@,
            (s.last().owner, s.last().block),
        ) =~= records_map(s).insert(k, (r.owner, r.block)));
    }
}

/// Whether two byte strings hold the same bytes.
fn bytes_eq(a: &[u8], b: &[u8]) -> (r: bool)
    ensures
        r <==> a@ == b@,
{
    if a.len() != b.len() {
        return false;
    }
    let mut i: usize = 0;
    while i < a.len()
        invariant
            i <= a@.len(),
            a@.len() == b@.len(),
            forall|j: int| 0 <= j < i ==> a@[j] == b@[j],
        decreases a@.len() - i,
    {
        if *vstd::slice::slice_index_get(a, i) != *vstd::slice::slice_index_get(b, i) {
            return false;
        }
        i = i + 1;
    }
    proof {
        assert(a@ =~= b@);
    }
    true
}

/// The claim registry, its configured claim-length bound, and its
/// notification log.
pub struct ClaimRegistry {
    records: Vec<ClaimRecord>,
    max_claim_length: u32,
    events: Vec<ClaimEvent>,
}

impl View for ClaimRegistry {
    type V = Map<Seq<u8>, (u64, u64)>;

    closed spec fn view(&self) -> Map<Seq<u8>, (u64, u64)> {
        records_map(self.records@)
    }
}

impl ClaimRegistry {
    /// The registry's claims never collide: each claim is held once.
    pub closed spec fn wf(&self) -> bool {
        unique_keys(self.records@)
    }

    /// The configured bound on a claim's length.
    pub closed spec fn spec_max_claim_length(&self) -> u32 {
        self.max_claim_length
    }

    /// The emitted notifications, oldest first.
    pub closed spec fn events_log(&self) -> Seq<ClaimEvent> {
        self.events@
    }

    /// An empty registry with the given claim-length bound.
    pub fn new(max_claim_length: u32) -> (reg: ClaimRegistry)
        ensures
            reg.wf(),
            reg@ == Map::<Seq<u8>, (u64, u64)>::empty(),
            reg.spec_max_claim_length() == max_claim_length,
            reg.events_log() == Seq::<ClaimEvent>::empty(),
    {
        ClaimRegistry { records: Vec::new(), max_claim_length, events: Vec::new() }
    }

    /// Reads the configured bound.
    pub fn max_claim_length(&self) -> (n: u32)
        ensures
            n == self.spec_max_claim_length(),
    {
        self.max_claim_length
    }

    /// How many notifications have been emitted.
    pub fn events_len(&self) -> (n: usize)
        ensures
            n == self.events_log().len(),
    {
        self.events.len()
    }

    /// Reads one emitted notification.
    pub fn event(&self, i: usize) -> (e: &ClaimEvent)
        requires
            i < self.events_log().len(),
        ensures
            *e == self.events_log()[i as int],
    {
        &self.events[i]
    }

    /// The index of the record holding the claim, if one does.
    fn find(&self, claim: &[u8]) -> (r: Option<usize>)
        ensures
            match r {
                Option::Some(i) => i < self.records@.len() && self.records@[i as int].claim@
                    == claim@,
                Option::None => forall|i: int|
                    0 <= i < self.records@.len() ==> self.records@[i].claim@ != claim@,
            },
    {
        let mut i: usize = 0;
        while i < self.records.len()
            invariant
                i <= self.records@.len(),
                forall|j: int| 0 <= j < i ==> self.records@[j].claim@ != claim@,
            decreases self.records@.len() - i,
        {
            if bytes_eq(self.records[i].claim.as_slice(), claim) {
                return Option::Some(i);
            }
            i = i + 1;
        }
        Option::None
    }

    /// Whether the claim is registered.
    pub fn contains_claim(&self, claim: &[u8]) -> (r: bool)
        ensures
            r <==> self@.contains_key(claim@),
    {
        proof {
            lemma_records_map_contains(self.records@, claim@);
        }
        match self.find(claim) {
            Option::Some(_) => true,
            Option::None => false,
        }
    }

    /// Reads a claim's (owner, block) entry; an unregistered claim reads
    /// as the default entry, account 0 at block 0.
    pub fn proofs(&self, claim: &[u8]) -> (r: (u64, u64))
        requires
            self.wf(),
        ensures
            self@.contains_key(claim@) ==> r == self@[claim@],
            !self@.contains_key(claim@) ==> r == (0u64, 0u64),
    {
        proof {
            lemma_records_map_contains(self.records@, claim@);
        }
        match self.find(claim) {
            Option::Some(i) => {
                proof {
                    lemma_records_map_at(self.records@, i as int);
                }
                let rec = &self.records[i];
                (rec.owner, rec.block)
            },
            Option::None => (0, 0),
        }
    }

    /// Registers a claim for an already-authenticated account; the
    /// dispatch boundary reaches the registry here. A registered claim or
    /// one over the length bound is rejected; nothing moves on failure.
    pub fn do_create_claim(&mut self, who: u64, claim: Vec<u8>, block_number: u64) -> (r: Result<
        (),
        ClaimError,
    >)
        requires
            old(self).wf(),
        ensures
            final(self).wf(),
            final(self).spec_max_claim_length() == old(self).spec_max_claim_length(),
            final(self).events_log() == old(self).events_log(),
            if old(self)@.contains_key(claim@) {
                (r matches Err(e) && e == ClaimError::ProofAlreadyExists) && final(self)@ == old(
                    self,
                )@
            } else if claim@.len() > old(self).spec_max_claim_length() {
                (r matches Err(e) && e == ClaimError::ProofTooLong) && final(self)@ == old(self)@
            } else {
                r is Ok && final(self)@ == old(self)@.insert(claim@, (who, block_number))
            },
    {
        if self.contains_claim(claim.as_slice()) {
            return Err(ClaimError::ProofAlreadyExists);
        }
        if claim.len() > self.max_claim_length as usize {
            return Err(ClaimError::ProofTooLong);
        }
        let rec = ClaimRecord { claim, owner: who, block: block_number };
        proof {
            lemma_records_map_push(self.records@, rec);
            lemma_unique_push(self.records@, rec);
        }
        self.records.push(rec);
        Ok(())
    }

    /// The signed transition that registers a claim for its caller and
    /// announces it.
    pub fn create_claim(&mut self, origin: Origin, claim: Vec<u8>, block_number: u64) -> (r: Result<
        (),
        ClaimError,
    >)
        requires
            old(self).wf(),
        ensures
            final(self).wf(),
            final(self).spec_max_claim_length() == old(self).spec_max_claim_length(),
            match signer_of(origin) {
                Option::None => {
                    &&& (r matches Err(e) && e == ClaimError::AuthorizationFailure)
                    &&& final(self)@ == old(self)@
                    &&& final(self).events_log() == old(self).events_log()
                },
                Option::Some(who) => {
                    if old(self)@.contains_key(claim@) {
                        &&& (r matches Err(e) && e == ClaimError::ProofAlreadyExists)
                        &&& final(self)@ == old(self)@
                        &&& final(self).events_log() == old(self).events_log()
                    } else if claim@.len() > old(self).spec_max_claim_length() {
                        &&& (r matches Err(e) && e == ClaimError::ProofTooLong)
                        &&& final(self)@ == old(self)@
                        &&& final(self).events_log() == old(self).events_log()
                    } else {
                        &&& r is Ok
                        &&& final(self)@ == old(self)@.insert(claim@, (who, block_number))
                        &&& final(self).events_log().len() == old(self).events_log().len() + 1
                        &&& (final(self).events_log().last() matches ClaimEvent::ClaimCreated(w, c)
                            && w == who && c@ == claim@)
                        &&& final(self).events_log().drop_last() == old(self).events_log()
                    }
                },
            },
    {
        let who = match crate::system::ensure_signed(origin) {
            Option::Some(who) => who,
            Option::None => {
                return Err(ClaimError::AuthorizationFailure);
            },
        };
        let announced = claim.clone();
        match self.do_create_claim(who, claim, block_number) {
            Ok(()) => {
                self.events.push(ClaimEvent::ClaimCreated(who, announced));
                proof {
                    assert(self.events@.drop_last() =~= old(self).events@);
                }
                Ok(())
            },
            Err(e) => Err(e),
        }
    }

    /// The signed transition that removes a claim: only its owner may, and
    /// only if it is registered.
    pub fn revoke_claim(&mut self, origin: Origin, claim: Vec<u8>) -> (r: Result<(), ClaimError>)
        requires
            old(self).wf(),
        ensures
            final(self).wf(),
            final(self).spec_max_claim_length() == old(self).spec_max_claim_length(),
            match signer_of(origin) {
                Option::None => {
                    &&& (r matches Err(e) && e == ClaimError::AuthorizationFailure)
                    &&& final(self)@ == old(self)@
                    &&& final(self).events_log() == old(self).events_log()
                },
                Option::Some(who) => {
                    if !old(self)@.contains_key(claim@) {
                        &&& (r matches Err(e) && e == ClaimError::ProofNotExists)
                        &&& final(self)@ == old(self)@
                        &&& final(self).events_log() == old(self).events_log()
                    } else if old(self)@[claim@].0 != who {
                        &&& (r matches Err(e) && e == ClaimError::NotClaimOwner)
                        &&& final(self)@ == old(self)@
                        &&& final(self).events_log() == old(self).events_log()
                    } else {
                        &&& r is Ok
                        &&& final(self)@ == old(self)@.remove(claim@)
                        &&& final(self).events_log().len() == old(self).events_log().len() + 1
                        &&& (final(self).events_log().last() matches ClaimEvent::ClaimRemoved(w, c)
                            && w == who && c@ == claim@)
                        &&& final(self).events_log().drop_last() == old(self).events_log()
                    }
                },
            },
    {
        let who = match crate::system::ensure_signed(origin) {
            Option::Some(who) => who,
            Option::None => {
                return Err(ClaimError::AuthorizationFailure);
            },
        };
        proof {
            lemma_records_map_contains(self.records@, claim@);
        }
        let i = match self.find(claim.as_slice()) {
            Option::Some(i) => i,
            Option::None => {
                return Err(ClaimError::ProofNotExists);
            },
        };
        proof {
            lemma_records_map_at(self.records@, i as int);
        }
        if self.records[i].owner != who {
            return Err(ClaimError::NotClaimOwner);
        }
        proof {
            lemma_records_map_remove(self.records@, i as int);
        }
        let _ = self.records.remove(i);
        self.events.push(ClaimEvent::ClaimRemoved(who, claim));
        proof {
            assert(self.events@.drop_last() =~= old(self).events@);
        }
        Ok(())
    }

    /// The signed transition that hands a claim to another account: only
    /// the owner may, and the claim's entry is rewritten to the receiver
    /// at the given block.
    pub fn transfer_claim(
        &mut self,
        origin: Origin,
        claim: Vec<u8>,
        receiver: u64,
        block_number: u64,
    ) -> (r: Result<(), ClaimError>)
        requires
            old(self).wf(),
        ensures
            final(self).wf(),
            final(self).spec_max_claim_length() == old(self).spec_max_claim_length(),
            match signer_of(origin) {
                Option::None => {
                    &&& (r matches Err(e) && e == ClaimError::AuthorizationFailure)
                    &&& final(self)@ == old(self)@
                    &&& final(self).events_log() == old(self).events_log()
                },
                Option::Some(who) => {
                    if !old(self)@.contains_key(claim@) {
                        &&& (r matches Err(e) && e == ClaimError::ProofNotExists)
                        &&& final(self)@ == old(self)@
                        &&& final(self).events_log() == old(self).events_log()
                    } else if old(self)@[claim@].0 != who {
                        &&& (r matches Err(e) && e == ClaimError::NotClaimOwner)
                        &&& final(self)@ == old(self)@
                        &&& final(self).events_log() == old(self).events_log()
                    } else {
                        &&& r is Ok
                        &&& final(self)@ == old(self)@.insert(claim@, (receiver, block_number))
                        &&& final(self).events_log().len() == old(self).events_log().len() + 1
                        &&& (final(self).events_log().last() matches ClaimEvent::ClaimTransfered(
                            w,
                            c,
                            to,
                        ) && w == who && c@ == claim@ && to == receiver)
                        &&& final(self).events_log().drop_last() == old(self).events_log()
                    }
                },
            },
    {
        let who = match crate::system::ensure_signed(origin) {
            Option::Some(who) => who,
            Option::None => {
                return Err(ClaimError::AuthorizationFailure);
            },
        };
        proof {
            lemma_records_map_contains(self.records@, claim@);
        }
        let i = match self.find(claim.as_slice()) {
            Option::Some(i) => i,
            Option::None => {
                return Err(ClaimError::ProofNotExists);
            },
        };
        proof {
            lemma_records_map_at(self.records@, i as int);
        }
        if self.records[i].owner != who {
            return Err(ClaimError::NotClaimOwner);
        }
        let moved = claim.clone();
        let rec = ClaimRecord { claim: moved, owner: receiver, block: block_number };
        proof {
            lemma_records_map_update(self.records@, i as int, rec);
        }
        self.records[i] = rec;
        self.events.push(ClaimEvent::ClaimTransfered(who, claim, receiver));
        proof {
            assert(self.events@.drop_last() =~= old(self).events@);
        }
        Ok(())
    }
}

} // verus!
