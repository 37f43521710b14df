use dotprices::poe::ClaimError;
use dotprices::poe::ClaimEvent;
use dotprices::poe::ClaimRegistry;
use dotprices::system::Origin;

// A registry configured with a claim-length bound of 6, exercised with the
// chain standing at block 1.
fn new_test_registry() -> ClaimRegistry {
    ClaimRegistry::new(6)
}

const BLOCK: u64 = 1;

#[test]
fn create_claim_works() {
    let mut reg = new_test_registry();
    let claim = vec![0, 1];
    assert!(reg.create_claim(Origin::Signed(1), claim.clone(), BLOCK).is_ok());
    assert_eq!(reg.proofs(&claim), (1, BLOCK));
}

#[test]
fn create_claim_failed_when_claim_already_exist() {
    let mut reg = new_test_registry();
    let claim = vec![0, 1];
    let _ = reg.create_claim(Origin::Signed(1), claim.clone(), BLOCK);

    assert_eq!(
        reg.create_claim(Origin::Signed(1), claim.clone(), BLOCK),
        Err(ClaimError::ProofAlreadyExists)
    );
    assert_eq!(reg.proofs(&claim), (1, BLOCK));
}

#[test]
fn create_claim_failed_when_claim_is_too_long() {
    let mut reg = new_test_registry();
    let claim = vec![0, 1, 2, 3, 4, 5, 6];
    let _ = reg.create_claim(Origin::Signed(1), claim.clone(), BLOCK);

    assert_eq!(
        reg.create_claim(Origin::Signed(1), claim.clone(), BLOCK),
        Err(ClaimError::ProofTooLong)
    );
    assert!(!reg.contains_claim(&claim));
}

#[test]
fn revoke_claim_works() {
    let mut reg = new_test_registry();
    let claim = vec![0, 1];
    let _ = reg.create_claim(Origin::Signed(1), claim.clone(), BLOCK);

    assert!(reg.revoke_claim(Origin::Signed(1), claim.clone()).is_ok());
    assert!(!reg.contains_claim(&claim));
}

#[test]
fn revoke_claim_failed_when_claim_is_not_exist() {
    let mut reg = new_test_registry();
    let claim = vec![0, 1];

    assert_eq!(
        reg.revoke_claim(Origin::Signed(1), claim.clone()),
        Err(ClaimError::ProofNotExists)
    );
}

#[test]
fn revoke_claim_failed_with_wrong_owner() {
    let mut reg = new_test_registry();
    let claim = vec![0, 1];
    let _ = reg.create_claim(Origin::Signed(1), claim.clone(), BLOCK);

    assert_eq!(
        reg.revoke_claim(Origin::Signed(2), claim.clone()),
        Err(ClaimError::NotClaimOwner)
    );
    assert_eq!(reg.proofs(&claim), (1, BLOCK));
}

#[test]
fn transfer_claim_works() {
    let mut reg = new_test_registry();
    let claim: Vec<u8> = vec![0, 1];
    let _ = reg.create_claim(Origin::Signed(1), claim.clone(), BLOCK);
    let _ = reg.transfer_claim(Origin::Signed(1), claim.clone(), 2, BLOCK);

    let (owner, _) = reg.proofs(&claim);
    assert_eq!(owner, 2);
}

#[test]
fn transfer_claim_failed_when_not_exists() {
    let mut reg = new_test_registry();
    let claim: Vec<u8> = vec![0, 1];
    assert_eq!(
        reg.transfer_claim(Origin::Signed(1), claim.clone(), 2, BLOCK),
        Err(ClaimError::ProofNotExists)
    );
}

#[test]
fn transfer_claim_failed_when_not_owner() {
    let mut reg = new_test_registry();
    let claim: Vec<u8> = vec![0, 1];
    let _ = reg.create_claim(Origin::Signed(1), claim.clone(), BLOCK);

    assert_eq!(
        reg.transfer_claim(Origin::Signed(2), claim.clone(), 3, BLOCK),
        Err(ClaimError::NotClaimOwner)
    );
    assert_eq!(reg.proofs(&claim), (1, BLOCK));
}

#[test]
fn create_claim_rejects_unsigned_caller() {
    let mut reg = new_test_registry();
    let claim = vec![0, 1];
    assert_eq!(
        reg.create_claim(Origin::Unsigned, claim.clone(), BLOCK),
        Err(ClaimError::AuthorizationFailure)
    );
    assert!(!reg.contains_claim(&claim));
}

#[test]
fn claim_transitions_announce_themselves() {
    let mut reg = new_test_registry();
    let claim = vec![3, 4];
    let _ = reg.create_claim(Origin::Signed(1), claim.clone(), BLOCK);
    let _ = reg.transfer_claim(Origin::Signed(1), claim.clone(), 2, BLOCK);
    let _ = reg.revoke_claim(Origin::Signed(2), claim.clone());

    assert_eq!(reg.events_len(), 3);
    assert_eq!(reg.event(0), &ClaimEvent::ClaimCreated(1, claim.clone()));
    assert_eq!(reg.event(1), &ClaimEvent::ClaimTransfered(1, claim.clone(), 2));
    assert_eq!(reg.event(2), &ClaimEvent::ClaimRemoved(2, claim.clone()));
}
