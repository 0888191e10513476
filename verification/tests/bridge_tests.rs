use bridge::errors::BridgeError;
use bridge::state::{Bridge, BridgeState};

fn addr_42() -> String {
    // "0x" followed by 40 hex characters: 42 characters in all.
    let mut a = String::from("0x");
    for _ in 0..20 {
        a.push_str("ab");
    }
    a
}

#[test]
fn deposit_then_replay() {
    let mut state = BridgeState::initialize(String::from("A"), 100);
    let receipt = state
        .credit_deposit(1000, String::from("user-account"), String::from("tx1"))
        .unwrap();
    assert_eq!(receipt.amount, 1000);
    assert_eq!(receipt.destination, "user-account");
    assert_eq!(receipt.source_tx_id, "tx1");
    assert_eq!(state.total_minted(), 1000);
    assert!(state.is_processed("tx1"));

    let second = state.credit_deposit(500, String::from("user-account"), String::from("tx1"));
    assert_eq!(second.err(), Some(BridgeError::AlreadyProcessed));
    assert_eq!(state.total_minted(), 1000);
}

#[test]
fn withdrawal_emits_relayer_record() {
    let mut state = BridgeState::initialize(String::from("A"), 100);
    let addr = addr_42();
    let request = state
        .request_withdrawal(300, String::from("caller-key"), addr.clone())
        .unwrap();
    assert_eq!(state.total_burned(), 300);
    let expected = format!("WITHDRAW:caller-key:{}:300", addr);
    assert_eq!(request.render(), expected);
}

#[test]
fn withdrawal_address_too_short() {
    let mut state = BridgeState::initialize(String::from("A"), 100);
    let r = state.request_withdrawal(300, String::from("caller-key"), String::from("0xabc"));
    assert_eq!(r.err(), Some(BridgeError::InvalidAddress));
    assert_eq!(state.total_burned(), 0);
}

#[test]
fn registry_at_capacity() {
    let mut state = BridgeState::initialize(String::from("A"), 2);
    state
        .credit_deposit(10, String::from("d"), String::from("tx1"))
        .unwrap();
    state
        .credit_deposit(20, String::from("d"), String::from("tx2"))
        .unwrap();
    let full = state.credit_deposit(30, String::from("d"), String::from("tx3"));
    assert_eq!(full.err(), Some(BridgeError::RegistryFull));
    // Existing entries are intact and queryable; nothing was dropped.
    assert!(state.is_processed("tx1"));
    assert!(state.is_processed("tx2"));
    assert!(!state.is_processed("tx3"));
    assert_eq!(state.processed_count(), 2);
    assert_eq!(state.total_minted(), 30);
}

#[test]
fn minted_overflow_is_rejected_and_harmless() {
    let mut state = BridgeState::initialize(String::from("A"), 100);
    state
        .credit_deposit(u64::MAX, String::from("d"), String::from("tx1"))
        .unwrap();
    assert_eq!(state.total_minted(), u64::MAX);
    let r = state.credit_deposit(1, String::from("d"), String::from("tx2"));
    assert_eq!(r.err(), Some(BridgeError::Overflow));
    assert_eq!(state.total_minted(), u64::MAX);
    // The failed call recorded nothing: the same id can still be credited
    // once room exists.
    assert!(!state.is_processed("tx2"));
}

#[test]
fn burned_overflow_is_rejected_and_harmless() {
    let mut state = BridgeState::initialize(String::from("A"), 100);
    let addr = addr_42();
    state
        .request_withdrawal(u64::MAX, String::from("c"), addr.clone())
        .unwrap();
    let r = state.request_withdrawal(1, String::from("c"), addr);
    assert_eq!(r.err(), Some(BridgeError::Overflow));
    assert_eq!(state.total_burned(), u64::MAX);
}

#[test]
fn zero_amounts_are_rejected() {
    let mut state = BridgeState::initialize(String::from("A"), 100);
    let d = state.credit_deposit(0, String::from("d"), String::from("tx1"));
    assert_eq!(d.err(), Some(BridgeError::InvalidAmount));
    let w = state.request_withdrawal(0, String::from("c"), addr_42());
    assert_eq!(w.err(), Some(BridgeError::InvalidAmount));
    assert_eq!(state.total_minted(), 0);
    assert_eq!(state.total_burned(), 0);
    assert_eq!(state.processed_count(), 0);
}

#[test]
fn empty_tx_id_is_rejected() {
    let mut state = BridgeState::initialize(String::from("A"), 100);
    let d = state.credit_deposit(5, String::from("d"), String::new());
    assert_eq!(d.err(), Some(BridgeError::InvalidTxHash));
    assert_eq!(state.total_minted(), 0);
}

#[test]
fn wrong_prefix_address_is_rejected() {
    let mut state = BridgeState::initialize(String::from("A"), 100);
    // 42 characters, but the prefix is not `0x`.
    let mut addr = String::from("1x");
    for _ in 0..20 {
        addr.push_str("ab");
    }
    let w = state.request_withdrawal(5, String::from("c"), addr);
    assert_eq!(w.err(), Some(BridgeError::InvalidAddress));
    assert_eq!(state.total_burned(), 0);
}

#[test]
fn authority_is_immutable_across_operations() {
    let mut state = BridgeState::initialize(String::from("the-authority"), 100);
    state
        .credit_deposit(7, String::from("d"), String::from("tx1"))
        .unwrap();
    let _ = state.credit_deposit(0, String::from("d"), String::from("tx2"));
    state
        .request_withdrawal(3, String::from("c"), addr_42())
        .unwrap();
    let _ = state.request_withdrawal(3, String::from("c"), String::from("0xabc"));
    assert_eq!(state.authority(), "the-authority");
    assert_eq!(state.registry_capacity(), 100);
}

#[test]
fn conservation_over_successful_sequences() {
    let mut state = BridgeState::initialize(String::from("A"), 100);
    let amounts = [5u64, 11, 300, 1];
    for (i, amount) in amounts.iter().enumerate() {
        state
            .credit_deposit(*amount, String::from("d"), format!("tx{}", i))
            .unwrap();
    }
    assert_eq!(state.total_minted(), 5 + 11 + 300 + 1);
    assert_eq!(state.total_burned(), 0);

    let addr = addr_42();
    state
        .request_withdrawal(40, String::from("c"), addr.clone())
        .unwrap();
    state
        .request_withdrawal(2, String::from("c"), addr)
        .unwrap();
    assert_eq!(state.total_burned(), 42);
    assert_eq!(state.total_minted(), 5 + 11 + 300 + 1);
}

#[test]
fn nonce_counts_successful_transitions() {
    let mut state = BridgeState::initialize(String::from("A"), 100);
    assert_eq!(state.nonce(), 0);
    state
        .credit_deposit(7, String::from("d"), String::from("tx1"))
        .unwrap();
    assert_eq!(state.nonce(), 1);
    let _ = state.credit_deposit(0, String::from("d"), String::from("tx2"));
    assert_eq!(state.nonce(), 1);
    state
        .request_withdrawal(3, String::from("c"), addr_42())
        .unwrap();
    assert_eq!(state.nonce(), 2);
}

#[test]
fn lifecycle_initialize_once() {
    let mut b = Bridge::new();
    assert!(b.state().is_none());
    let w = b.request_withdrawal(5, String::from("c"), addr_42());
    assert_eq!(w.err(), Some(BridgeError::NotInitialized));
    let d = b.credit_deposit(5, String::from("d"), String::from("tx1"));
    assert_eq!(d.err(), Some(BridgeError::NotInitialized));

    b.initialize(String::from("A"), 100).unwrap();
    let again = b.initialize(String::from("B"), 100);
    assert_eq!(again.err(), Some(BridgeError::AlreadyInitialized));
    assert_eq!(b.state().unwrap().authority(), "A");

    b.credit_deposit(9, String::from("d"), String::from("tx1"))
        .unwrap();
    assert_eq!(b.state().unwrap().total_minted(), 9);
}

#[test]
fn from_parts_restores_valid_state() {
    let processed = vec![String::from("tx1"), String::from("tx2")];
    let state = BridgeState::from_parts(String::from("A"), 7, processed, 100, 50, 20).unwrap();
    assert_eq!(state.authority(), "A");
    assert_eq!(state.nonce(), 7);
    assert_eq!(state.total_minted(), 50);
    assert_eq!(state.total_burned(), 20);
    assert!(state.is_processed("tx1"));
    assert!(state.is_processed("tx2"));
    assert!(!state.is_processed("tx3"));
    assert_eq!(state.processed_count(), 2);
}

#[test]
fn from_parts_rejects_duplicates_and_overfull() {
    let dup = vec![String::from("tx1"), String::from("tx1")];
    assert!(BridgeState::from_parts(String::from("A"), 0, dup, 100, 0, 0).is_none());

    let three = vec![String::from("a"), String::from("b"), String::from("c")];
    assert!(BridgeState::from_parts(String::from("A"), 0, three, 2, 0, 0).is_none());
}
