use bridge::errors::BridgeError;
use bridge::ledger::AccountingLedger;
use bridge::registry::{ReplayRegistry, DEFAULT_REGISTRY_CAPACITY};

#[test]
fn registry_records_and_answers_membership() {
    let mut reg = ReplayRegistry::new(DEFAULT_REGISTRY_CAPACITY);
    assert_eq!(reg.capacity(), 100);
    assert_eq!(reg.len(), 0);
    assert!(!reg.is_processed("tx1"));
    reg.record(String::from("tx1")).unwrap();
    assert!(reg.is_processed("tx1"));
    assert!(!reg.is_processed("tx2"));
    assert_eq!(reg.len(), 1);
}

#[test]
fn registry_refuses_replay_and_overflow_of_capacity() {
    let mut reg = ReplayRegistry::new(2);
    reg.record(String::from("tx1")).unwrap();
    let dup = reg.record(String::from("tx1"));
    assert_eq!(dup.err(), Some(BridgeError::AlreadyProcessed));
    reg.record(String::from("tx2")).unwrap();
    let full = reg.record(String::from("tx3"));
    assert_eq!(full.err(), Some(BridgeError::RegistryFull));
    assert_eq!(reg.len(), 2);
    assert!(reg.is_processed("tx1"));
    assert!(reg.is_processed("tx2"));
}

#[test]
fn registry_rebuilds_only_from_valid_entries() {
    let ok = ReplayRegistry::from_entries(vec![String::from("a"), String::from("b")], 5);
    let reg = ok.unwrap();
    assert!(reg.is_processed("a"));
    assert_eq!(reg.len(), 2);

    let dup = ReplayRegistry::from_entries(vec![String::from("a"), String::from("a")], 5);
    assert!(dup.is_none());

    let overfull = ReplayRegistry::from_entries(
        vec![String::from("a"), String::from("b"), String::from("c")],
        2,
    );
    assert!(overfull.is_none());
}

#[test]
fn ledger_checked_accumulators() {
    let mut ledger = AccountingLedger::new();
    ledger.add_minted(40).unwrap();
    ledger.add_minted(2).unwrap();
    assert_eq!(ledger.total_minted, 42);
    assert_eq!(ledger.total_burned, 0);

    let too_much = ledger.add_minted(u64::MAX);
    assert_eq!(too_much.err(), Some(BridgeError::Overflow));
    assert_eq!(ledger.total_minted, 42);

    ledger.add_burned(u64::MAX).unwrap();
    let over = ledger.add_burned(1);
    assert_eq!(over.err(), Some(BridgeError::Overflow));
    assert_eq!(ledger.total_burned, u64::MAX);
    assert_eq!(ledger.total_minted, 42);
}
