use payment_gateway::identity::AccountId;
use payment_gateway::transactions::{
    calculate_transaction_fee, format_transaction_amount, generate_transaction_id,
    validate_transaction_amount, AmountError,
};

fn account(name: &str) -> AccountId {
    AccountId::from_bytes(name.as_bytes().to_vec()).unwrap()
}

#[test]
fn test_generate_transaction_id() {
    let from = account("rdmx6-jaaaa-aaaah-qcaiq-cai");
    let to = account("rdmx6-jaaaa-aaaah-qcaiq-cai");

    let id1 = generate_transaction_id(&from, &to, 1000000, 1_700_000_000_000_000_001);
    let id2 = generate_transaction_id(&from, &to, 1000000, 1_700_000_000_000_000_002);

    assert!(id1.starts_with("tx_"));
    assert!(id2.starts_with("tx_"));
    assert_ne!(id1, id2);
}

#[test]
fn test_calculate_transaction_fee() {
    assert_eq!(calculate_transaction_fee(1_000_000), 10_000);
    assert_eq!(calculate_transaction_fee(10_000_000), 100_000);
    assert_eq!(calculate_transaction_fee(1000), 10_000);
}

#[test]
fn test_validate_transaction_amount() {
    assert!(validate_transaction_amount(100_000).is_ok());
    assert!(validate_transaction_amount(50_000_000_000).is_ok());
    assert!(validate_transaction_amount(99_999).is_err());
    assert!(validate_transaction_amount(0).is_err());
    assert!(validate_transaction_amount(100_000_000_001).is_err());
}

#[test]
fn test_format_transaction_amount() {
    assert_eq!(format_transaction_amount(100_000_000), "1.00000000 ICP");
    assert_eq!(format_transaction_amount(50_000_000), "0.50000000 ICP");
    assert_eq!(format_transaction_amount(12_345_678), "0.12345678 ICP");
}

#[test]
fn transaction_id_is_a_prefix_and_29_hex_characters() {
    let from = account("rdmx6-jaaaa-aaaah-qcaiq-cai");
    let to = account("payee");
    let id = generate_transaction_id(&from, &to, 5, 42);
    assert_eq!(id.len(), 32);
    assert!(id[3..].chars().all(|c| c.is_ascii_digit() || ('A'..='F').contains(&c)));
    // the same inputs give the same identifier
    assert_eq!(id, generate_transaction_id(&from, &to, 5, 42));
}

#[test]
fn fee_is_one_percent_above_the_floor() {
    assert_eq!(calculate_transaction_fee(500), 10_000);
    assert_eq!(calculate_transaction_fee(999_999), 10_000);
    assert_eq!(calculate_transaction_fee(1_000_100), 10_001);
    assert_eq!(calculate_transaction_fee(200_000_000), 2_000_000);
    assert_eq!(calculate_transaction_fee(u64::MAX), u64::MAX / 100);
}

#[test]
fn amount_errors_name_the_broken_bound() {
    assert_eq!(validate_transaction_amount(0), Err(AmountError::Zero));
    assert_eq!(validate_transaction_amount(1), Err(AmountError::TooSmall));
    assert_eq!(validate_transaction_amount(99_999), Err(AmountError::TooSmall));
    assert_eq!(validate_transaction_amount(100_000_000_000), Ok(()));
    assert_eq!(validate_transaction_amount(100_000_000_001), Err(AmountError::TooLarge));
    assert_eq!(AmountError::Zero.message(), "Transaction amount cannot be zero");
    assert_eq!(
        AmountError::TooSmall.message(),
        "Transaction amount too small. Minimum: 0.001 ICP"
    );
    assert_eq!(
        AmountError::TooLarge.message(),
        "Transaction amount too large. Maximum: 1000 ICP"
    );
}
