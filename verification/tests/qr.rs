use payment_gateway::identity::AccountId;
use payment_gateway::qr::{generate_qr_data_url, generate_qr_id, validate_qr_id_format};

fn account(name: &str) -> AccountId {
    AccountId::from_bytes(name.as_bytes().to_vec()).unwrap()
}

#[test]
fn test_generate_qr_id() {
    let caller = account("rdmx6-jaaaa-aaaah-qcaiq-cai");
    let id1 = generate_qr_id(&caller, 1_700_000_000_000_000_001);
    let id2 = generate_qr_id(&caller, 1_700_000_000_000_000_002);

    assert_eq!(id1.len(), 16);
    assert_eq!(id2.len(), 16);
    assert_ne!(id1, id2); // Should be unique
    assert!(validate_qr_id_format(&id1));
    assert!(validate_qr_id_format(&id2));
}

#[test]
fn test_validate_qr_id_format() {
    assert!(validate_qr_id_format("1234567890ABCDEF"));
    assert!(!validate_qr_id_format("1234567890abcdef")); // lowercase
    assert!(!validate_qr_id_format("1234567890ABCDEG")); // invalid hex
    assert!(!validate_qr_id_format("1234567890ABCDE")); // too short
    assert!(!validate_qr_id_format("1234567890ABCDEF1")); // too long
}

#[test]
fn test_qr_data_url() {
    let url = generate_qr_data_url("ABC123", "https://example.com");
    assert_eq!(url, "https://example.com/pay/ABC123");
}
