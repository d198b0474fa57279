use payment_gateway::gateway::Gateway;
use payment_gateway::identity::AccountId;
use payment_gateway::ledger::get_current_balance;
use payment_gateway::settlement::PaymentError;
use payment_gateway::transactions::AmountError;
use payment_gateway::types::{
    BalanceChangeLog, BalanceChangeType, ExchangeRate, QRCode, QRUsageType, TransactionStatus,
};

const MINUTE: u64 = 60 * 1_000_000_000;
const START: u64 = 1_700_000_000_000_000_000;

fn party(n: u8) -> AccountId {
    AccountId::from_bytes(vec![n, n, n]).unwrap()
}

fn five_dollars() -> ExchangeRate {
    ExchangeRate {
        currency: String::from("USD"),
        rate: 5_000_000,
        timestamp: START,
        source: String::from("test"),
    }
}

fn registered(gateway: &mut Gateway, id: &AccountId, at: u64) {
    gateway
        .register_user(id, String::from("wallet"), None, None, at)
        .expect("registration");
}

/// Tops `id` up by `tokens` whole tokens through a claimed QRIS top-up.
fn funded(gateway: &mut Gateway, id: &AccountId, tokens: u64, at: u64) {
    let row = gateway
        .create_qris_topup(id, tokens * 5_000_000, String::from("USD"), &five_dollars(), at)
        .expect("top-up");
    gateway.claim_qris_payment(id, &row.id, at + 1).expect("claim");
}

fn balance(gateway: &Gateway, id: &AccountId) -> u64 {
    get_current_balance(&gateway.balance_change_logs, id)
}

fn code_of(amount: u64, owner: &AccountId, id: &str) -> QRCode {
    QRCode {
        id: String::from(id),
        user_id: owner.clone(),
        fiat_amount: 1_000_000,
        fiat_currency: String::from("USD"),
        icp_amount: amount,
        expire_time: START + 30 * MINUTE,
        created_at: START,
        is_used: false,
        description: None,
    }
}

#[test]
fn payment_from_top_up_to_second_attempt() {
    let a = party(1);
    let b = party(2);
    let mut gateway = Gateway::new();
    registered(&mut gateway, &a, START);
    registered(&mut gateway, &b, START);
    assert_eq!(balance(&gateway, &a), 0);

    // a top-up of 1,000,000,000 units for A
    funded(&mut gateway, &a, 10, START + 10);
    assert_eq!(balance(&gateway, &a), 1_000_000_000);

    // A asks for 10 USD at a rate of 5.0
    let qr = gateway
        .generate_qr(&a, 10_000_000, String::from("USD"), None, &five_dollars(), START + 20)
        .expect("request");
    assert_eq!(qr.icp_amount, 200_000_000);

    // B cannot pay before its balance covers amount and fee
    assert_eq!(
        gateway.process_payment(&b, &qr.id, None, START + 30).unwrap_err(),
        PaymentError::InsufficientBalance
    );
    funded(&mut gateway, &b, 10, START + 40);
    let a_before = balance(&gateway, &a);
    let b_before = balance(&gateway, &b);
    assert!(b_before >= 202_000_000);

    let paid = gateway.process_payment(&b, &qr.id, None, START + 50).expect("payment");
    assert_eq!(paid.status, TransactionStatus::Completed);
    assert_eq!(paid.amount, 200_000_000);
    assert_eq!(paid.fee, 2_000_000);
    assert_eq!(balance(&gateway, &a), a_before + 200_000_000);
    assert_eq!(balance(&gateway, &b), b_before - 202_000_000);

    // the second attempt fails, whoever tries and whatever the balances are
    assert_eq!(
        gateway.process_payment(&b, &qr.id, None, START + 60).unwrap_err(),
        PaymentError::AlreadyUsed
    );
    funded(&mut gateway, &b, 100, START + 70);
    assert_eq!(
        gateway.process_payment(&b, &qr.id, None, START + 80).unwrap_err(),
        PaymentError::AlreadyUsed
    );
    let c = party(3);
    assert_eq!(
        gateway.process_payment(&c, &qr.id, None, START + 90).unwrap_err(),
        PaymentError::AlreadyUsed
    );
}

#[test]
fn payment_leaves_its_rows_changes_and_usage_entry() {
    let a = party(1);
    let b = party(2);
    let mut gateway = Gateway::new();
    registered(&mut gateway, &a, START);
    registered(&mut gateway, &b, START);
    funded(&mut gateway, &b, 10, START + 1);
    let qr = gateway
        .generate_qr(&a, 10_500_000, String::from("usd"), Some(String::from("lunch")), &five_dollars(), START + 5)
        .unwrap();
    let rows_before = gateway.transactions.len();
    let changes_before = gateway.balance_change_logs.len();
    let now = START + 100;
    let paid = gateway
        .process_payment(&b, &qr.id, Some(String::from("0xabc")), now)
        .unwrap();

    let rows = &gateway.transactions[rows_before..];
    assert_eq!(rows.len(), 3);
    let base = &rows[0].id[..32];
    assert!(base.starts_with("tx_"));
    assert_eq!(rows[0].id, format!("{}_PENDING_{}", base, now));
    assert_eq!(rows[1].id, format!("{}_PROCESSING_{}", base, now + 1));
    assert_eq!(rows[2].id, format!("{}_COMPLETED_{}", base, now + 2));
    assert_eq!(rows[0].status, TransactionStatus::Pending);
    assert_eq!(rows[1].status, TransactionStatus::Processing);
    assert_eq!(rows[2].status, TransactionStatus::Completed);
    assert_eq!((rows[0].timestamp, rows[1].timestamp, rows[2].timestamp), (now, now + 1, now + 2));
    for row in rows {
        assert!(row.from == b);
        assert!(row.to == a);
        assert_eq!(row.amount, 210_000_000);
        assert_eq!(row.icp_amount, 210_000_000);
        assert_eq!(row.fee, 2_100_000);
        assert_eq!(row.fiat_amount, 10_500_000);
        assert_eq!(row.fiat_currency, "USD");
        assert_eq!(row.qr_id, qr.id);
        assert_eq!(row.transaction_hash.as_deref(), Some("0xabc"));
    }
    assert_eq!(paid.id, rows[2].id);

    let changes: &[BalanceChangeLog] = &gateway.balance_change_logs[changes_before..];
    assert_eq!(changes.len(), 3);
    let reference = &rows[1].id;
    assert_eq!(changes[0].change_type, BalanceChangeType::PaymentSent);
    assert_eq!(changes[1].change_type, BalanceChangeType::FeeDeducted);
    assert_eq!(changes[2].change_type, BalanceChangeType::PaymentReceived);
    assert!(changes[0].user_id == b && changes[1].user_id == b && changes[2].user_id == a);
    assert_eq!(changes[0].id, format!("BAL_PAYMENT_{}_{}", reference, now));
    assert_eq!(changes[1].id, format!("BAL_FEE_{}_{}", reference, now + 1));
    assert_eq!(changes[2].id, format!("BAL_RECEIVED_{}_{}", reference, now + 2));
    for change in changes {
        assert_eq!(&change.reference_id, reference);
    }
    assert_eq!((changes[0].amount, changes[1].amount, changes[2].amount), (210_000_000, 2_100_000, 210_000_000));
    assert_eq!(changes[0].previous_balance, 1_000_000_000);
    assert_eq!(changes[0].new_balance, 790_000_000);
    assert_eq!(changes[1].previous_balance, 790_000_000);
    assert_eq!(changes[1].new_balance, 787_900_000);
    assert_eq!(changes[2].previous_balance, 0);
    assert_eq!(changes[2].new_balance, 210_000_000);
    assert_eq!((changes[0].timestamp, changes[1].timestamp, changes[2].timestamp), (now, now + 1, now + 2));
    assert_eq!(changes[0].description, "Payment sent: 10.5 USD");
    assert_eq!(changes[1].description, "Transaction fee: 0.02100000 ICP");
    assert_eq!(changes[2].description, "Payment received: 10.5 USD");

    assert_eq!(gateway.qr_usage_logs.len(), 1);
    let usage = &gateway.qr_usage_logs[0];
    assert_eq!(usage.qr_id, qr.id);
    assert_eq!(usage.usage_type, QRUsageType::PaymentCompleted);
    assert_eq!(usage.transaction_id, paid.id);
    assert!(usage.user_id == a && usage.used_by == b);
    assert_eq!(usage.timestamp, now);
    assert_eq!(usage.id, format!("QRU_{}_{}", &b.to_text()[..8], now));
}

#[test]
fn refused_payment_changes_nothing() {
    let a = party(1);
    let b = party(2);
    let mut gateway = Gateway::new();
    registered(&mut gateway, &a, START);
    registered(&mut gateway, &b, START);
    funded(&mut gateway, &b, 10, START + 1);
    let qr = gateway
        .generate_qr(&a, 10_000_000, String::from("USD"), None, &five_dollars(), START + 5)
        .unwrap();
    let rows = gateway.transactions.len();
    let changes = gateway.balance_change_logs.len();
    let uses = gateway.qr_usage_logs.len();

    assert_eq!(
        gateway.process_payment(&AccountId::anonymous(), &qr.id, None, START + 10).unwrap_err(),
        PaymentError::Anonymous
    );
    assert_eq!(
        gateway.process_payment(&b, "0000000000000000", None, START + 10).unwrap_err(),
        PaymentError::NotFound
    );
    assert_eq!(
        gateway.process_payment(&a, &qr.id, None, START + 10).unwrap_err(),
        PaymentError::SelfPaymentNotAllowed
    );
    assert_eq!(
        gateway.process_payment(&b, &qr.id, None, START + 5 + 30 * MINUTE + 1).unwrap_err(),
        PaymentError::Expired
    );
    assert_eq!(
        gateway.process_payment(&party(9), &qr.id, None, START + 10).unwrap_err(),
        PaymentError::InsufficientBalance
    );
    assert_eq!(gateway.transactions.len(), rows);
    assert_eq!(gateway.balance_change_logs.len(), changes);
    assert_eq!(gateway.qr_usage_logs.len(), uses);
    // at the very end of its time the request can still be paid
    assert!(gateway.process_payment(&b, &qr.id, None, START + 5 + 30 * MINUTE).is_ok());
}

#[test]
fn payment_to_an_unregistered_maker_is_refused() {
    let a = party(1);
    let b = party(2);
    let mut gateway = Gateway::new();
    funded_without_registration(&mut gateway, &b);
    gateway.qr_codes.push(code_of(1_000_000, &a, "AAAAAAAAAAAAAAAA"));
    assert_eq!(
        gateway.process_payment(&b, "AAAAAAAAAAAAAAAA", None, START + 10).unwrap_err(),
        PaymentError::RecipientNotRegistered
    );
    registered(&mut gateway, &a, START + 11);
    assert!(gateway.process_payment(&b, "AAAAAAAAAAAAAAAA", None, START + 12).is_ok());
}

fn funded_without_registration(gateway: &mut Gateway, id: &AccountId) {
    gateway.balance_change_logs.push(BalanceChangeLog {
        id: String::from("seed"),
        user_id: id.clone(),
        change_type: BalanceChangeType::TopupCompleted,
        amount: 500_000_000_000,
        previous_balance: 0,
        new_balance: 500_000_000_000,
        timestamp: START,
        reference_id: String::from("seed"),
        description: String::new(),
    });
}

#[test]
fn request_outside_the_bounds_is_never_paid() {
    let a = party(1);
    let b = party(2);
    let mut gateway = Gateway::new();
    registered(&mut gateway, &a, START);
    funded_without_registration(&mut gateway, &b);
    gateway.qr_codes.push(code_of(99_999, &a, "0000000000000001"));
    gateway.qr_codes.push(code_of(100_000_000_001, &a, "0000000000000002"));
    gateway.qr_codes.push(code_of(0, &a, "0000000000000003"));
    gateway.qr_codes.push(code_of(100_000, &a, "0000000000000004"));
    gateway.qr_codes.push(code_of(100_000_000_000, &a, "0000000000000005"));
    assert_eq!(
        gateway.process_payment(&b, "0000000000000001", None, START + 1).unwrap_err(),
        PaymentError::AmountOutOfBounds(AmountError::TooSmall)
    );
    assert_eq!(
        gateway.process_payment(&b, "0000000000000002", None, START + 1).unwrap_err(),
        PaymentError::AmountOutOfBounds(AmountError::TooLarge)
    );
    assert_eq!(
        gateway.process_payment(&b, "0000000000000003", None, START + 1).unwrap_err(),
        PaymentError::AmountOutOfBounds(AmountError::Zero)
    );
    assert_eq!(gateway.transactions.len(), 0);
    // the bounds themselves are within
    let small = gateway.process_payment(&b, "0000000000000004", None, START + 2).unwrap();
    assert_eq!((small.amount, small.fee), (100_000, 10_000));
    let large = gateway.process_payment(&b, "0000000000000005", None, START + 10).unwrap();
    assert_eq!((large.amount, large.fee), (100_000_000_000, 1_000_000_000));
    assert_eq!(balance(&gateway, &b), 500_000_000_000 - 100_000 - 10_000 - 101_000_000_000);
}

#[test]
fn balance_must_cover_amount_and_fee_exactly() {
    let a = party(1);
    let b = party(2);
    let mut gateway = Gateway::new();
    registered(&mut gateway, &a, START);
    gateway.qr_codes.push(code_of(1_000_000, &a, "00000000000000AA"));
    gateway.balance_change_logs.push(BalanceChangeLog {
        id: String::from("seed"),
        user_id: b.clone(),
        change_type: BalanceChangeType::Adjustment,
        amount: 1_009_999,
        previous_balance: 0,
        new_balance: 1_009_999,
        timestamp: START,
        reference_id: String::from("seed"),
        description: String::new(),
    });
    assert_eq!(
        gateway.process_payment(&b, "00000000000000AA", None, START + 1).unwrap_err(),
        PaymentError::InsufficientBalance
    );
    gateway.balance_change_logs[0].amount = 1_010_000;
    assert!(gateway.process_payment(&b, "00000000000000AA", None, START + 1).is_ok());
    assert_eq!(balance(&gateway, &b), 0);
    assert_eq!(balance(&gateway, &a), 1_000_000);
}

#[test]
fn set_flag_with_an_empty_usage_log_does_not_stop_a_payment() {
    let a = party(1);
    let b = party(2);
    let mut gateway = Gateway::new();
    registered(&mut gateway, &a, START);
    funded_without_registration(&mut gateway, &b);
    let mut code = code_of(1_000_000, &a, "00000000000000BB");
    code.is_used = true;
    gateway.qr_codes.push(code);
    assert!(gateway.qr_usage_logs.is_empty());
    let before = balance(&gateway, &b);
    let paid = gateway.process_payment(&b, "00000000000000BB", None, START + 1).unwrap();
    assert_eq!(paid.status, TransactionStatus::Completed);
    assert_eq!(paid.amount, 1_000_000);
    assert_eq!(balance(&gateway, &a), 1_000_000);
    assert_eq!(balance(&gateway, &b), before - 1_000_000 - paid.fee);
    assert_eq!(gateway.qr_usage_logs.len(), 1);
    // now the usage log holds the payment, and that decides
    assert_eq!(
        gateway.process_payment(&b, "00000000000000BB", None, START + 2).unwrap_err(),
        PaymentError::AlreadyUsed
    );
    // a used request is reported as used even after its time is over
    assert_eq!(
        gateway.process_payment(&b, "00000000000000BB", None, START + 31 * MINUTE).unwrap_err(),
        PaymentError::AlreadyUsed
    );
    // with the flag set, no entry and the time over, the request is expired
    let mut late = code_of(1_000_000, &a, "00000000000000BC");
    late.is_used = true;
    gateway.qr_codes.push(late);
    assert_eq!(
        gateway.process_payment(&b, "00000000000000BC", None, START + 31 * MINUTE).unwrap_err(),
        PaymentError::Expired
    );
}

#[test]
fn rows_of_a_payment_get_identifiers_that_no_row_has() {
    let a = party(1);
    let b = party(2);
    let mut gateway = Gateway::new();
    registered(&mut gateway, &a, START);
    funded_without_registration(&mut gateway, &b);
    gateway.qr_codes.push(code_of(1_000_000, &a, "00000000000000D1"));
    gateway.qr_codes.push(code_of(1_000_000, &a, "00000000000000D2"));
    let now = START + 7;
    let first = gateway.process_payment(&b, "00000000000000D1", None, now).unwrap();
    // the same payer, payee, amount and time ask for the same identifiers again;
    // each is lengthened until it is longer than every identifier taken
    let second = gateway.process_payment(&b, "00000000000000D2", None, now).unwrap();
    let rows: Vec<String> = gateway.transactions.iter().map(|t| t.id.clone()).collect();
    assert_eq!(rows.len(), 6);
    assert_eq!((rows[0].len(), rows[1].len(), rows[2].len()), (60, 63, 62));
    assert_eq!(rows[3], format!("{}____", rows[0]));
    assert_eq!(rows[4], format!("{}__", rows[1]));
    assert_eq!(rows[5], format!("{}____", rows[2]));
    assert_eq!(first.id, rows[2]);
    assert_eq!(second.id, rows[5]);
    let mut changes: Vec<&str> = gateway.balance_change_logs.iter().map(|c| c.id.as_str()).collect();
    assert_eq!(changes.len(), 7);
    changes.sort();
    changes.dedup();
    assert_eq!(changes.len(), 7);
    assert_ne!(gateway.qr_usage_logs[0].id, gateway.qr_usage_logs[1].id);
    // the balance changes and the usage entry of the second payment refer to its own rows
    for change in &gateway.balance_change_logs[4..] {
        assert_eq!(change.reference_id, rows[4]);
    }
    assert_eq!(gateway.qr_usage_logs[1].transaction_id, second.id);
    assert_eq!(gateway.get_transaction(&second.id).unwrap().qr_id, "00000000000000D2");
    assert_eq!(gateway.get_transaction(&first.id).unwrap().qr_id, "00000000000000D1");
    assert_eq!(balance(&gateway, &a), 2_000_000);
}

#[test]
fn check_alone_changes_nothing_and_agrees_with_the_payment() {
    let a = party(1);
    let b = party(2);
    let mut gateway = Gateway::new();
    registered(&mut gateway, &a, START);
    funded_without_registration(&mut gateway, &b);
    gateway.qr_codes.push(code_of(1_000_000, &a, "00000000000000CC"));
    let found = gateway.check_payment(&b, "00000000000000CC", START + 1).unwrap();
    assert_eq!(found.id, "00000000000000CC");
    assert_eq!(gateway.transactions.len(), 0);
    assert_eq!(
        gateway.check_payment(&a, "00000000000000CC", START + 1).unwrap_err(),
        PaymentError::SelfPaymentNotAllowed
    );
}

#[test]
fn payment_errors_have_their_words() {
    assert_eq!(PaymentError::Anonymous.message(), "Anonymous users cannot make payments");
    assert_eq!(PaymentError::NotFound.message(), "QR code not found");
    assert_eq!(PaymentError::AlreadyUsed.message(), "QR code has already been used");
    assert_eq!(PaymentError::Expired.message(), "QR code has expired");
    assert_eq!(PaymentError::SelfPaymentNotAllowed.message(), "Cannot pay to yourself");
    assert_eq!(PaymentError::RecipientNotRegistered.message(), "Recipient not registered");
    assert_eq!(PaymentError::InsufficientBalance.message(), "Insufficient balance");
    assert_eq!(
        PaymentError::AmountOutOfBounds(AmountError::TooLarge).message(),
        "Transaction amount too large. Maximum: 1000 ICP"
    );
}
