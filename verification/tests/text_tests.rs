use bridge::records::WithdrawalRequest;
use bridge::text::{is_valid_withdrawal_address, str_eq, u64_to_dec};

#[test]
fn decimal_rendering_exact() {
    assert_eq!(u64_to_dec(0), "0");
    assert_eq!(u64_to_dec(7), "7");
    assert_eq!(u64_to_dec(10), "10");
    assert_eq!(u64_to_dec(300), "300");
    assert_eq!(u64_to_dec(12345), "12345");
    assert_eq!(u64_to_dec(u64::MAX), "18446744073709551615");
}

#[test]
fn string_equality() {
    assert!(str_eq("", ""));
    assert!(str_eq("tx1", "tx1"));
    assert!(!str_eq("tx1", "tx2"));
    assert!(!str_eq("tx1", "tx10"));
    assert!(!str_eq("abc", ""));
}

#[test]
fn withdrawal_address_format() {
    let good = format!("0x{}", "a".repeat(40));
    assert!(is_valid_withdrawal_address(&good));
    assert!(!is_valid_withdrawal_address("0xabc"));
    assert!(!is_valid_withdrawal_address(""));
    assert!(!is_valid_withdrawal_address(&format!("1x{}", "a".repeat(40))));
    assert!(!is_valid_withdrawal_address(&format!("0x{}", "a".repeat(41))));
}

#[test]
fn withdrawal_record_wire_format() {
    let addr = format!("0x{}", "1".repeat(40));
    let request = WithdrawalRequest {
        caller: String::from("CallerPubkey111"),
        destination: addr.clone(),
        amount: 300,
    };
    assert_eq!(
        request.render(),
        format!("WITHDRAW:CallerPubkey111:{}:300", addr)
    );
    let zero = WithdrawalRequest {
        caller: String::from("c"),
        destination: addr.clone(),
        amount: 0,
    };
    assert_eq!(zero.render(), format!("WITHDRAW:c:{}:0", addr));
}
