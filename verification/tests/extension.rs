use dotprices::chain_extension::to_account_id;
use dotprices::chain_extension::ExtensionError;
use dotprices::chain_extension::FetchRandomExtension;
use dotprices::poe::ClaimError;
use dotprices::poe::ClaimRegistry;

const BLOCK: u64 = 1;

fn seed() -> [u8; 32] {
    let mut s = [0u8; 32];
    for i in 0..32 {
        s[i] = i as u8;
    }
    s
}

#[test]
fn random_call_writes_the_seed_back() {
    let mut claims = ClaimRegistry::new(6);
    let s = seed();
    let out = match FetchRandomExtension::call(1101, 1, vec![], &s, None, true, &mut claims, BLOCK)
    {
        Ok(out) => out,
        Err(e) => panic!("random call failed: {:?}", e),
    };
    assert_eq!(out.ret_val, 0);
    assert_eq!(out.written, Some(s.to_vec()));
}

#[test]
fn random_call_fails_when_the_write_is_refused() {
    let mut claims = ClaimRegistry::new(6);
    let s = seed();
    match FetchRandomExtension::call(1101, 1, vec![], &s, None, false, &mut claims, BLOCK) {
        Err(e) => assert_eq!(e, ExtensionError::WriteFailed),
        Ok(_) => panic!("a refused write must fail"),
    }
}

#[test]
fn claim_call_registers_for_the_caller() {
    let mut claims = ClaimRegistry::new(6);
    let s = seed();
    let input = vec![0, 1];
    let out = match FetchRandomExtension::call(
        1102,
        9,
        input.clone(),
        &s,
        None,
        true,
        &mut claims,
        BLOCK,
    ) {
        Ok(out) => out,
        Err(e) => panic!("claim call failed: {:?}", e),
    };
    assert_eq!(out.ret_val, 0);
    assert_eq!(out.written, None);
    assert_eq!(claims.proofs(&input), (9, BLOCK));

    match FetchRandomExtension::call(1102, 9, input.clone(), &s, None, true, &mut claims, BLOCK) {
        Err(e) => assert_eq!(e, ExtensionError::Claim(ClaimError::ProofAlreadyExists)),
        Ok(_) => panic!("a duplicate claim must fail"),
    }
}

#[test]
fn collectible_call_writes_the_new_id_back() {
    let mut claims = ClaimRegistry::new(6);
    let s = seed();
    let out = match FetchRandomExtension::call(1103, 1, vec![], &s, Some(7), true, &mut claims, BLOCK)
    {
        Ok(out) => out,
        Err(e) => panic!("collectible call failed: {:?}", e),
    };
    assert_eq!(out.ret_val, 0);
    assert_eq!(out.written, Some(vec![7, 0, 0, 0]));
}

#[test]
fn collectible_call_fails_when_the_write_is_refused() {
    let mut claims = ClaimRegistry::new(6);
    let s = seed();
    match FetchRandomExtension::call(1103, 1, vec![], &s, Some(7), false, &mut claims, BLOCK) {
        Err(e) => assert_eq!(e, ExtensionError::WriteFailed),
        Ok(_) => panic!("a refused write must fail"),
    }
}

#[test]
fn collectible_call_surfaces_the_registry_verdict() {
    let mut claims = ClaimRegistry::new(6);
    let s = seed();
    match FetchRandomExtension::call(1103, 1, vec![], &s, None, true, &mut claims, BLOCK) {
        Err(e) => assert_eq!(e, ExtensionError::CollectibleRejected),
        Ok(_) => panic!("a rejected collectible must fail"),
    }
}

#[test]
fn unregistered_call_code_is_a_checked_error() {
    let mut claims = ClaimRegistry::new(6);
    let s = seed();
    match FetchRandomExtension::call(1104, 1, vec![], &s, None, true, &mut claims, BLOCK) {
        Err(e) => assert_eq!(e, ExtensionError::UnimplementedFuncId),
        Ok(_) => panic!("an unregistered code must fail"),
    }
    assert_eq!(claims.events_len(), 0);
}

#[test]
fn to_account_id_keeps_all_thirty_two_bytes() {
    let raw = seed();
    assert_eq!(to_account_id(&raw), raw.to_vec());
}
