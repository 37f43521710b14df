use dotprices::ledger::LedgerError;
use dotprices::ledger::LedgerEvent;
use dotprices::ledger::PriceLedger;
use dotprices::system::Origin;

#[test]
fn update_price_works() {
    let mut ledger = PriceLedger::new();
    let price: u64 = (18.21 * 10000f64) as u64;
    assert!(ledger
        .update_price(Origin::Signed(1), price.to_le_bytes().to_vec())
        .is_ok());
}

#[test]
fn update_price_rejects_unsigned_caller() {
    let mut ledger = PriceLedger::new();
    let r = ledger.update_price(Origin::Unsigned, vec![1, 2, 3]);
    assert_eq!(r, Err(LedgerError::AuthorizationFailure));
    assert_eq!(ledger.len(), 0);
    assert_eq!(ledger.events_len(), 0);
}

#[test]
fn update_price_emits_notification() {
    let mut ledger = PriceLedger::new();
    assert!(ledger.update_price(Origin::Signed(7), vec![42]).is_ok());
    assert_eq!(ledger.events_len(), 1);
    assert_eq!(ledger.event(0), &LedgerEvent::PriceUpdated(7, vec![42]));
}

#[test]
fn ledger_never_exceeds_capacity() {
    let mut ledger = PriceLedger::new();
    for i in 0..25u8 {
        assert!(ledger.update_price(Origin::Signed(1), vec![i]).is_ok());
        assert!(ledger.len() <= 10);
    }
    assert_eq!(ledger.len(), 10);
}

#[test]
fn eleven_appends_keep_the_last_ten() {
    let mut ledger = PriceLedger::new();
    for i in 0..11u8 {
        assert!(ledger.update_price(Origin::Signed(1), vec![i]).is_ok());
    }
    assert_eq!(ledger.len(), 10);
    for i in 0..10usize {
        assert_eq!(ledger.dot_prices(i), &Some(vec![(i + 1) as u8]));
    }
}

#[test]
fn full_ledger_evicts_only_the_oldest() {
    let mut ledger = PriceLedger::new();
    for i in 0..10u8 {
        assert!(ledger.update_price(Origin::Signed(1), vec![i]).is_ok());
    }
    assert!(ledger.update_price(Origin::Signed(1), vec![99]).is_ok());
    assert_eq!(ledger.len(), 10);
    for i in 0..9usize {
        assert_eq!(ledger.dot_prices(i), &Some(vec![(i + 1) as u8]));
    }
    assert_eq!(ledger.dot_prices(9), &Some(vec![99]));
}
