use payment_gateway::funding::{ClaimError, FundingError};
use payment_gateway::gateway::Gateway;
use payment_gateway::identity::AccountId;
use payment_gateway::ledger::get_current_balance;
use payment_gateway::rates::ConversionError;
use payment_gateway::topup::{
    check_payment_expiration, create_card_topup, create_qris_topup, create_web3_topup, format_balance, generate_topup_id, get_base_url, is_topup_expired,
    simulate_card_processing, validate_card_data, CardError, TopUpError,
};
use payment_gateway::types::{
    BalanceChangeType, CardDataInput, ExchangeRate, TopUpMethod, TopUpStatus,
};
use sha2::{Digest, Sha256};

const MINUTE: u64 = 60 * 1_000_000_000;
const NOW: u64 = 1_700_000_000_000_000_000;

fn owner() -> AccountId {
    AccountId::from_bytes(vec![3, 1, 4]).unwrap()
}

fn five() -> ExchangeRate {
    ExchangeRate {
        currency: String::from("USD"),
        rate: 5_000_000,
        timestamp: NOW,
        source: String::from("test"),
    }
}

fn card(number: &str) -> CardDataInput {
    CardDataInput {
        card_number: String::from(number),
        expiry_month: String::from("12"),
        expiry_year: String::from("2030"),
        cvv: String::from("123"),
        cardholder_name: String::from("Ada Lovelace"),
    }
}

fn open_gateway() -> Gateway {
    let mut gateway = Gateway::new();
    gateway.register_user(&owner(), String::from("w"), None, None, NOW).unwrap();
    gateway
}

#[test]
fn topup_identifier_is_the_beginning_of_a_sha256_digest() {
    let seed = format!("topup-{}-{}-{}", NOW, owner().to_text(), NOW % 1_000_000);
    let digest = Sha256::digest(seed.as_bytes());
    let hex: String = digest.iter().map(|b| format!("{:02X}", b)).collect();
    assert_eq!(generate_topup_id(&owner(), NOW), format!("TU_{}", &hex[..29]));
    assert_eq!(generate_topup_id(&owner(), NOW).len(), 32);
}

#[test]
fn qris_topup_waits_a_quarter_of_an_hour() {
    let topup = create_qris_topup(owner(), 50_500_000, String::from("IDR"), &five(), NOW).unwrap();
    let id = generate_topup_id(&owner(), NOW);
    assert_eq!(topup.id, id);
    assert_eq!(topup.reference_id, id);
    assert!(topup.user_id == owner());
    assert_eq!(topup.amount, 1_010_000_000);
    assert_eq!(topup.fiat_amount, 50_500_000);
    assert_eq!(topup.fiat_currency, "IDR");
    assert_eq!(topup.payment_method, TopUpMethod::QRIS);
    assert_eq!(topup.status, TopUpStatus::Pending);
    assert_eq!(topup.created_at, NOW);
    assert_eq!(topup.processed_at, None);
    assert!(topup.payment_data.card_data.is_empty());
    assert!(topup.payment_data.web3_data.is_empty());
    assert_eq!(topup.payment_data.qris_data.len(), 1);
    let qris = &topup.payment_data.qris_data[0];
    assert_eq!(qris.qr_code_url, format!("http://localhost:3000/qris/{}", id));
    assert_eq!(get_base_url(), "http://localhost:3000");
    assert_eq!(qris.merchant_id, "ICP_PAYMENT_001");
    assert_eq!(qris.expire_time, NOW + 15 * MINUTE);
    assert_eq!(
        qris.qr_code_data,
        "00020101021226580014ID.CO.QRIS.WWW0114ID.CO.QRIS.WWW02150000000000000000303ID.CO.QRIS.WWW54050.505303360540\
50.505802ID5914ICP Payment6015Jakarta Selatan61051240062070703A0163046D4F"
    );
    assert!(!check_payment_expiration(&topup, NOW + 15 * MINUTE));
    assert!(check_payment_expiration(&topup, NOW + 15 * MINUTE + 1));
    assert!(is_topup_expired(&topup, NOW + 16 * MINUTE));
}

#[test]
fn card_topup_keeps_the_masked_number_only() {
    let topup =
        create_card_topup(owner(), 10_000_000, String::from("USD"), card("4111111111111111"), true, &five(), NOW)
            .unwrap();
    assert_eq!(topup.payment_method, TopUpMethod::CreditCard);
    assert_eq!(topup.status, TopUpStatus::Processing);
    assert_eq!(topup.amount, 200_000_000);
    assert!(topup.payment_data.qris_data.is_empty());
    assert!(topup.payment_data.web3_data.is_empty());
    let kept = &topup.payment_data.card_data[0];
    assert_eq!(kept.card_number, "4111****1111");
    assert_eq!(kept.card_type, "Visa");
    assert_eq!(kept.payment_gateway, "ICP_GATEWAY");
    assert_eq!(kept.transaction_id, format!("TXN_{}", topup.id));
    let debit =
        create_card_topup(owner(), 10_000_000, String::from("USD"), card("5555555555554444"), false, &five(), NOW)
            .unwrap();
    assert_eq!(debit.payment_method, TopUpMethod::DebitCard);
    assert_eq!(debit.payment_data.card_data[0].card_type, "Mastercard");
    assert!(!check_payment_expiration(&debit, NOW + 60 * MINUTE));
    assert!(check_payment_expiration(&debit, NOW + 60 * MINUTE + 1));
    assert!(simulate_card_processing(&debit));
    let declined =
        create_card_topup(owner(), 10_000_000, String::from("USD"), card("4000000000000002"), true, &five(), NOW)
            .unwrap();
    assert_eq!(declined.payment_data.card_data[0].card_number, "4000****0002");
    assert!(!simulate_card_processing(&declined));
    let demo =
        create_card_topup(owner(), 10_000_000, String::from("USD"), card("1234567890123456"), true, &five(), NOW)
            .unwrap();
    assert_eq!(demo.payment_data.card_data[0].card_type, "Demo Card");
}

#[test]
fn card_is_checked_before_anything_else() {
    let mut wrong_cvv = card("4111111111111111");
    wrong_cvv.cvv = String::from("12");
    let mut short_name = card("4111111111111111");
    short_name.cardholder_name = String::from("Al");
    assert_eq!(validate_card_data(&card("4111111111111111")), Ok(()));
    assert_eq!(validate_card_data(&card("4111111111111112")), Err(CardError::UnknownNumber));
    assert_eq!(validate_card_data(&card("")), Err(CardError::UnknownNumber));
    assert_eq!(validate_card_data(&wrong_cvv), Err(CardError::BadCvv));
    assert_eq!(validate_card_data(&short_name), Err(CardError::NameTooShort));
    assert_eq!(
        create_card_topup(owner(), 0, String::from("USD"), card("1"), true, &five(), NOW).unwrap_err(),
        TopUpError::Card(CardError::UnknownNumber)
    );
    assert_eq!(
        create_card_topup(owner(), 0, String::from("USD"), card("4111111111111111"), true, &five(), NOW)
            .unwrap_err(),
        TopUpError::Conversion(ConversionError::AmountNotPositive)
    );
    assert_eq!(CardError::UnknownNumber.message(), "Invalid card number for MVP demo");
    assert_eq!(CardError::BadCvv.message(), "CVV must be 3 digits");
    assert_eq!(CardError::NameTooShort.message(), "Cardholder name too short");
    assert_eq!(TopUpError::Card(CardError::BadCvv).message(), "CVV must be 3 digits");
}

#[test]
fn wallet_topup_names_the_network() {
    let topup =
        create_web3_topup(owner(), 5_000_000, String::from("USD"), String::from("0xabc"), &five(), NOW).unwrap();
    assert_eq!(topup.payment_method, TopUpMethod::Web3Wallet);
    assert_eq!(topup.status, TopUpStatus::Pending);
    assert_eq!(topup.amount, 100_000_000);
    let data = &topup.payment_data.web3_data[0];
    assert_eq!(data.wallet_address, "0xabc");
    assert_eq!(data.blockchain_network, "Internet Computer");
    assert_eq!(data.transaction_hash, None);
    assert_eq!(data.confirmation_count, 0);
    assert!(!check_payment_expiration(&topup, NOW + 30 * MINUTE));
    assert!(check_payment_expiration(&topup, NOW + 30 * MINUTE + 1));
    assert_eq!(
        create_web3_topup(owner(), 1, String::from("USD"), String::new(), &five(), NOW).unwrap(),
        create_web3_topup(owner(), 1, String::from("USD"), String::new(), &five(), NOW).unwrap()
    );
}

#[test]
fn balances_are_written_as_tokens() {
    assert_eq!(format_balance(150_000_000), "1.50000000 ICP");
    assert_eq!(format_balance(0), "0.00000000 ICP");
}

#[test]
fn gateway_refuses_topups_for_each_reason() {
    let mut gateway = Gateway::new();
    let stranger = AccountId::from_bytes(vec![5]).unwrap();
    assert_eq!(
        gateway.create_qris_topup(&stranger, 1_000_000, String::from("USD"), &five(), NOW).unwrap_err(),
        FundingError::UserNotRegistered
    );
    let mut gateway = open_gateway();
    assert_eq!(
        gateway.create_qris_topup(&owner(), 0, String::from("USD"), &five(), NOW).unwrap_err(),
        FundingError::AmountNotPositive
    );
    assert_eq!(
        gateway.create_qris_topup(&owner(), 1, String::from("DOGE"), &five(), NOW).unwrap_err(),
        FundingError::UnsupportedCurrency
    );
    let mut dear = five();
    dear.rate = u64::MAX;
    assert_eq!(
        gateway.create_qris_topup(&owner(), 1, String::from("USD"), &dear, NOW).unwrap_err(),
        FundingError::Conversion(ConversionError::ConversionTooSmall)
    );
    assert_eq!(
        gateway
            .create_card_topup(&owner(), 1_000_000, String::from("USD"), card("42"), true, &five(), NOW)
            .unwrap_err(),
        FundingError::InvalidPaymentData(CardError::UnknownNumber)
    );
    assert!(gateway.topup_transactions.is_empty());
    assert!(gateway.balance_change_logs.is_empty());
    assert_eq!(FundingError::UserNotRegistered.message("USD"), "User not registered");
    assert_eq!(FundingError::AmountNotPositive.message("USD"), "Amount must be greater than 0");
    assert_eq!(FundingError::UnsupportedCurrency.message("DOGE"), "Unsupported currency: DOGE");
    assert_eq!(
        FundingError::InvalidPaymentData(CardError::BadCvv).message("USD"),
        "CVV must be 3 digits"
    );
}

#[test]
fn accepted_card_completes_the_topup_with_one_balance_change() {
    let mut gateway = open_gateway();
    let last = gateway
        .create_card_topup(&owner(), 10_000_000, String::from("USD"), card("4111111111111111"), true, &five(), NOW)
        .unwrap();
    let base = generate_topup_id(&owner(), NOW);
    assert_eq!(last.status, TopUpStatus::Completed);
    assert_eq!(last.id, format!("{}_COMPLETED_{}", base, NOW + 2));
    assert_eq!(last.created_at, NOW + 2);
    assert_eq!(last.processed_at, Some(NOW + 2));
    assert_eq!(last.reference_id, base);
    let stages: Vec<(String, TopUpStatus)> =
        gateway.topup_transactions.iter().map(|t| (t.id.clone(), t.status)).collect();
    assert_eq!(
        stages,
        vec![
            (base.clone(), TopUpStatus::Processing),
            (format!("{}_PROCESSING_{}", base, NOW), TopUpStatus::Processing),
            (format!("{}_COMPLETED_{}", base, NOW + 2), TopUpStatus::Completed),
        ]
    );
    assert_eq!(gateway.balance_change_logs.len(), 1);
    let change = &gateway.balance_change_logs[0];
    assert_eq!(change.change_type, BalanceChangeType::TopupCompleted);
    assert_eq!(change.amount, 200_000_000);
    assert_eq!((change.previous_balance, change.new_balance), (0, 200_000_000));
    assert_eq!(change.reference_id, format!("{}_PROCESSING_{}", base, NOW));
    assert_eq!(change.description, "Card topup completed: 10 USD");
    assert_eq!(get_current_balance(&gateway.balance_change_logs, &owner()), 200_000_000);
}

#[test]
fn declined_card_fails_the_topup_without_a_balance_change() {
    let mut gateway = open_gateway();
    let last = gateway
        .create_card_topup(&owner(), 10_000_000, String::from("USD"), card("4000000000000002"), false, &five(), NOW)
        .unwrap();
    let base = generate_topup_id(&owner(), NOW);
    assert_eq!(last.status, TopUpStatus::Failed);
    assert_eq!(last.id, format!("{}_FAILED_{}", base, NOW + 1));
    assert_eq!(last.processed_at, Some(NOW + 1));
    assert_eq!(gateway.topup_transactions.len(), 3);
    assert!(gateway.balance_change_logs.is_empty());
    assert_eq!(get_current_balance(&gateway.balance_change_logs, &owner()), 0);
}

#[test]
fn claimed_topup_adds_its_amount_once() {
    let mut gateway = open_gateway();
    let row = gateway.create_qris_topup(&owner(), 50_000_000, String::from("USD"), &five(), NOW).unwrap();
    assert_eq!(gateway.topup_transactions.len(), 1);
    assert_eq!(gateway.get_topup_transaction(&row.id).unwrap().status, TopUpStatus::Pending);
    assert!(gateway.get_topup_transaction("none").is_none());
    assert_eq!(gateway.claim_qris_payment(&owner(), "none", NOW).unwrap_err(), ClaimError::NotFound);

    let claimer = AccountId::from_bytes(vec![6]).unwrap();
    let then = NOW + MINUTE;
    let done = gateway.claim_qris_payment(&claimer, &row.id, then).unwrap();
    assert_eq!(done.status, TopUpStatus::Completed);
    assert_eq!(done.id, format!("{}_COMPLETED_{}", row.id, then + 2));
    assert_eq!(done.processed_at, Some(then + 2));
    assert!(done.user_id == owner());
    assert_eq!(gateway.topup_transactions.len(), 3);
    assert_eq!(gateway.topup_transactions[1].id, format!("{}_PROCESSING_{}", row.id, then));
    assert_eq!(gateway.balance_change_logs.len(), 1);
    let change = &gateway.balance_change_logs[0];
    assert!(change.user_id == owner());
    assert_eq!(change.amount, 1_000_000_000);
    assert_eq!(change.timestamp, then);
    assert_eq!(change.reference_id, format!("{}_PROCESSING_{}", row.id, then));
    assert_eq!(change.description, "QRIS topup completed: 50 USD");
    assert_eq!(change.id, format!("BAL_{}_{}", &claimer.to_text()[..8], then + then % 1_000_000));
    assert_eq!(get_current_balance(&gateway.balance_change_logs, &owner()), 1_000_000_000);

    // neither the first row nor a later row can be claimed again
    assert_eq!(
        gateway.claim_qris_payment(&claimer, &row.id, then + 10).unwrap_err(),
        ClaimError::AlreadyProcessed
    );
    assert_eq!(
        gateway.claim_qris_payment(&claimer, &done.id, then + 10).unwrap_err(),
        ClaimError::AlreadyProcessed
    );
    assert_eq!(gateway.topup_transactions.len(), 3);
    assert_eq!(get_current_balance(&gateway.balance_change_logs, &owner()), 1_000_000_000);
}

#[test]
fn late_claim_writes_the_expired_row_and_fails() {
    let mut gateway = open_gateway();
    let row = gateway.create_qris_topup(&owner(), 50_000_000, String::from("USD"), &five(), NOW).unwrap();
    let late = NOW + 15 * MINUTE + 1;
    assert_eq!(gateway.claim_qris_payment(&owner(), &row.id, late).unwrap_err(), ClaimError::Expired);
    assert_eq!(gateway.topup_transactions.len(), 2);
    let expired = &gateway.topup_transactions[1];
    assert_eq!(expired.status, TopUpStatus::Expired);
    assert_eq!(expired.id, format!("{}_EXPIRED_{}", row.id, late));
    assert_eq!(expired.processed_at, Some(late));
    assert!(gateway.balance_change_logs.is_empty());
    assert_eq!(
        gateway.claim_qris_payment(&owner(), &row.id, NOW + 1).unwrap_err(),
        ClaimError::AlreadyProcessed
    );
    assert_eq!(ClaimError::NotFound.message(), "Top-up not found");
    assert_eq!(ClaimError::AlreadyProcessed.message(), "Top-up already processed");
    assert_eq!(ClaimError::Expired.message(), "Top-up expired");
}

#[test]
fn topup_history_is_latest_first_and_of_the_caller() {
    let mut gateway = open_gateway();
    let other = AccountId::from_bytes(vec![8]).unwrap();
    gateway.register_user(&other, String::from("w"), None, None, NOW).unwrap();
    let a = gateway.create_qris_topup(&owner(), 1_000_000, String::from("USD"), &five(), NOW + 5).unwrap();
    let b = gateway.create_qris_topup(&other, 1_000_000, String::from("USD"), &five(), NOW + 6).unwrap();
    let c = gateway.create_qris_topup(&owner(), 1_000_000, String::from("USD"), &five(), NOW + 7).unwrap();
    let mine: Vec<String> = gateway.get_user_topup_history(&owner()).into_iter().map(|t| t.id).collect();
    assert_eq!(mine, vec![c.id, a.id]);
    let theirs: Vec<String> = gateway.get_user_topup_history(&other).into_iter().map(|t| t.id).collect();
    assert_eq!(theirs, vec![b.id]);
}

#[test]
fn topup_is_checked_before_a_rate_is_asked_for() {
    let gateway = open_gateway();
    let stranger = AccountId::from_bytes(vec![5]).unwrap();
    assert_eq!(gateway.check_funding(&stranger, 1, "USD"), Err(FundingError::UserNotRegistered));
    assert_eq!(gateway.check_funding(&owner(), 0, "USD"), Err(FundingError::AmountNotPositive));
    assert_eq!(gateway.check_funding(&owner(), 1, "DOGE"), Err(FundingError::UnsupportedCurrency));
    assert_eq!(gateway.check_funding(&owner(), 1, "idr"), Ok(()));
}

#[test]
fn rows_of_topups_get_identifiers_that_no_row_has() {
    let mut gateway = open_gateway();
    let first = gateway.create_qris_topup(&owner(), 1_000_000, String::from("USD"), &five(), NOW).unwrap();
    let second = gateway.create_qris_topup(&owner(), 2_000_000, String::from("USD"), &five(), NOW).unwrap();
    assert_eq!(first.id, generate_topup_id(&owner(), NOW));
    assert_eq!(second.id, format!("{}_", first.id));
    // each top-up has its own identifier for the reference of its rows
    assert_eq!(first.reference_id, first.id);
    assert_eq!(second.reference_id, second.id);
    assert_eq!(gateway.get_topup_transaction(&second.id).unwrap().fiat_amount, 2_000_000);
    assert_eq!(gateway.get_topup_transaction(&first.id).unwrap().fiat_amount, 1_000_000);
    let last = gateway
        .create_card_topup(&owner(), 10_000_000, String::from("USD"), card("4111111111111111"), true, &five(), NOW)
        .unwrap();
    assert_eq!(last.status, TopUpStatus::Completed);
    let ids: Vec<String> = gateway.topup_transactions.iter().map(|t| t.id.clone()).collect();
    assert_eq!(
        ids,
        vec![
            first.id.clone(),
            format!("{}_", first.id),
            format!("{}__", first.id),
            format!("{}___PROCESSING_{}", first.id, NOW),
            format!("{}___COMPLETED_{}", first.id, NOW + 2),
        ]
    );
    assert_eq!(last.id, ids[4]);
    assert_eq!(gateway.balance_change_logs[0].reference_id, ids[3]);
    // the second top-up is claimed under its own identifier
    let claimed = gateway.claim_qris_payment(&owner(), &second.id, NOW + 5).unwrap();
    assert_eq!(claimed.fiat_amount, 2_000_000);
    assert_eq!(claimed.id, format!("{}__COMPLETED_{}", first.id, NOW + 7));
    assert_eq!(claimed.reference_id, second.id);
    assert_eq!(
        gateway.claim_qris_payment(&owner(), &second.id, NOW + 8).unwrap_err(),
        ClaimError::AlreadyProcessed
    );
    // and the first one is still to be claimed
    assert!(gateway.claim_qris_payment(&owner(), &first.id, NOW + 9).is_ok());
}
