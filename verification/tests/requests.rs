use payment_gateway::gateway::Gateway;
use payment_gateway::identity::AccountId;
use payment_gateway::qr::{
    create_qr_code, create_qr_usage_log, generate_qr_usage_log_id, get_all_qr_usage_logs,
    get_qr_display_info, get_qr_usage_history, is_qr_already_used, is_qr_code_valid,
    is_qr_expired, mark_qr_as_used, generate_qr_id, QRCreateError, QRError,
};
use payment_gateway::rates::ConversionError;
use payment_gateway::requests::{LookupError, RequestError};
use payment_gateway::types::{ExchangeRate, QRCode, QRUsageLog, QRUsageType};
use sha2::{Digest, Sha256};

const MINUTE: u64 = 60 * 1_000_000_000;
const NOW: u64 = 1_700_000_000_000_000_000;

fn maker() -> AccountId {
    AccountId::from_bytes(vec![7, 7]).unwrap()
}

fn rate_of(rate: u64) -> ExchangeRate {
    ExchangeRate {
        currency: String::from("USD"),
        rate,
        timestamp: NOW,
        source: String::from("test"),
    }
}

fn request() -> QRCode {
    create_qr_code(
        maker(),
        10_000_000,
        String::from("usd"),
        Some(String::from("coffee")),
        &rate_of(5_000_000),
        NOW,
    )
    .unwrap()
}

#[test]
fn request_identifier_is_the_beginning_of_a_sha256_digest() {
    let seed = format!("{}-{}", NOW, maker().to_text());
    let digest = Sha256::digest(seed.as_bytes());
    let expected: String = digest[..8].iter().map(|b| format!("{:02X}", b)).collect();
    assert_eq!(generate_qr_id(&maker(), NOW), expected);
}

#[test]
fn new_request_freezes_the_amount_and_lives_half_an_hour() {
    let qr = request();
    assert_eq!(qr.id, generate_qr_id(&maker(), NOW));
    assert!(qr.user_id == maker());
    assert_eq!(qr.fiat_amount, 10_000_000);
    assert_eq!(qr.fiat_currency, "USD");
    assert_eq!(qr.icp_amount, 200_000_000);
    assert_eq!(qr.created_at, NOW);
    assert_eq!(qr.expire_time, NOW + 30 * MINUTE);
    assert!(!qr.is_used);
    assert_eq!(qr.description.as_deref(), Some("coffee"));
}

#[test]
fn request_near_the_end_of_time_never_expires() {
    let qr = create_qr_code(maker(), 1_000_000, String::from("USD"), None, &rate_of(1_000_000), u64::MAX - 5)
        .unwrap();
    assert_eq!(qr.expire_time, u64::MAX);
    assert!(!is_qr_expired(&qr, u64::MAX));
}

#[test]
fn request_is_refused_for_each_of_its_reasons() {
    let refused = |amount: u64, currency: &str, rate: u64| {
        create_qr_code(maker(), amount, String::from(currency), None, &rate_of(rate), NOW).unwrap_err()
    };
    assert_eq!(refused(0, "USD", 5_000_000), QRCreateError::AmountNotPositive);
    assert_eq!(refused(0, "XXX", 0), QRCreateError::AmountNotPositive);
    assert_eq!(refused(1, "XXX", 5_000_000), QRCreateError::UnsupportedCurrency);
    assert_eq!(
        refused(1, "USD", 0),
        QRCreateError::Conversion(ConversionError::RateNotPositive)
    );
    assert_eq!(
        refused(1, "USD", 1_000_000_000),
        QRCreateError::Conversion(ConversionError::ConversionTooSmall)
    );
    assert_eq!(QRCreateError::AmountNotPositive.message("USD"), "Amount must be greater than 0");
    assert_eq!(QRCreateError::UnsupportedCurrency.message("Xyz"), "Unsupported currency: Xyz");
    assert_eq!(
        QRCreateError::Conversion(ConversionError::ConversionTooSmall).message("USD"),
        "Amount too small, results in 0 e8s"
    );
}

#[test]
fn request_is_valid_until_expired_whatever_its_flag_says() {
    let mut qr = request();
    let nothing: Vec<QRUsageLog> = Vec::new();
    assert_eq!(is_qr_code_valid(&qr, &nothing, NOW), Ok(()));
    assert_eq!(is_qr_code_valid(&qr, &nothing, qr.expire_time), Ok(()));
    assert_eq!(is_qr_code_valid(&qr, &nothing, qr.expire_time + 1), Err(QRError::Expired));
    assert!(!is_qr_expired(&qr, qr.expire_time));
    assert!(is_qr_expired(&qr, qr.expire_time + 1));
    // the flag is a hint for display: with an empty usage log it decides nothing
    mark_qr_as_used(&mut qr);
    assert!(qr.is_used);
    assert_eq!(is_qr_code_valid(&qr, &nothing, NOW), Ok(()));
    assert_eq!(is_qr_code_valid(&qr, &nothing, qr.expire_time + 1), Err(QRError::Expired));
    assert!(get_qr_display_info(&qr, NOW).is_used);
    assert_eq!(QRError::AlreadyUsed.message(), "QR code has already been used");
    assert_eq!(QRError::Expired.message(), "QR code has expired");
}

fn used(qr_id: &str, usage_type: QRUsageType, timestamp: u64) -> QRUsageLog {
    QRUsageLog {
        id: format!("U{}", timestamp),
        qr_id: String::from(qr_id),
        user_id: maker(),
        used_by: AccountId::from_bytes(vec![8]).unwrap(),
        transaction_id: String::from("T"),
        timestamp,
        usage_type,
    }
}

#[test]
fn usage_log_decides_whether_a_request_was_used() {
    let qr = request();
    let mut log: Vec<QRUsageLog> = Vec::new();
    assert!(!is_qr_already_used(&log, &qr.id));
    assert_eq!(is_qr_code_valid(&qr, &log, NOW), Ok(()));
    log.push(used(&qr.id, QRUsageType::PaymentFailed, 1));
    log.push(used(&qr.id, QRUsageType::PaymentExpired, 2));
    log.push(used("FFFFFFFFFFFFFFFF", QRUsageType::PaymentCompleted, 3));
    assert!(!is_qr_already_used(&log, &qr.id));
    assert_eq!(is_qr_code_valid(&qr, &log, NOW), Ok(()));
    assert_eq!(is_qr_code_valid(&qr, &log, qr.expire_time + 1), Err(QRError::Expired));
    log.push(used(&qr.id, QRUsageType::PaymentCompleted, 4));
    assert!(is_qr_already_used(&log, &qr.id));
    // the flag of the request is still unset: the log alone decides
    assert!(!qr.is_used);
    assert_eq!(is_qr_code_valid(&qr, &log, NOW), Err(QRError::AlreadyUsed));
    assert_eq!(is_qr_code_valid(&qr, &log, qr.expire_time + 1), Err(QRError::AlreadyUsed));
}

#[test]
fn usage_entries_are_added_and_listed_latest_first() {
    let caller = AccountId::anonymous();
    let mut log = vec![used("A", QRUsageType::PaymentFailed, 50)];
    let entry = create_qr_usage_log(
        &mut log,
        &caller,
        String::from("B"),
        maker(),
        caller.clone(),
        String::from("tx"),
        QRUsageType::PaymentCompleted,
        70,
    );
    assert_eq!(entry.id, "QRU_2vxsx-fa_70");
    assert_eq!(generate_qr_usage_log_id(&caller, 70), "QRU_2vxsx-fa_70");
    assert_eq!(log.len(), 2);
    assert_eq!(log[1].qr_id, "B");
    assert_eq!(log[1].transaction_id, "tx");
    log.push(used("A", QRUsageType::PaymentCompleted, 60));
    let all: Vec<u64> = get_all_qr_usage_logs(&log).iter().map(|e| e.timestamp).collect();
    assert_eq!(all, vec![70, 60, 50]);
    let of_a: Vec<u64> = get_qr_usage_history(&log, "A").iter().map(|e| e.timestamp).collect();
    assert_eq!(of_a, vec![60, 50]);
    assert!(get_qr_usage_history(&log, "C").is_empty());
}

#[test]
fn request_is_shown_with_its_amounts_and_the_time_left() {
    let qr = request();
    let info = get_qr_display_info(&qr, NOW + 90 * 1_000_000_000 + 1);
    assert_eq!(info.id, qr.id);
    assert_eq!(info.fiat_amount, 10_000_000);
    assert_eq!(info.fiat_currency, "USD");
    assert_eq!(info.icp_amount, 200_000_000);
    assert_eq!(info.formatted_fiat, "10.00");
    assert_eq!(info.formatted_icp, "2.00000000 ICP");
    assert_eq!(info.time_remaining_seconds, Some(30 * 60 - 91));
    assert!(!info.is_expired);
    assert!(!info.is_used);
    assert_eq!(info.description.as_deref(), Some("coffee"));
    let at_end = get_qr_display_info(&qr, qr.expire_time);
    assert_eq!(at_end.time_remaining_seconds, None);
    assert!(!at_end.is_expired);
    let over = get_qr_display_info(&qr, qr.expire_time + 1);
    assert_eq!(over.time_remaining_seconds, None);
    assert!(over.is_expired);
}

#[test]
fn gateway_makes_requests_for_registered_callers_only() {
    let mut gateway = Gateway::new();
    let rate = rate_of(5_000_000);
    assert_eq!(
        gateway
            .generate_qr(&AccountId::anonymous(), 1_000_000, String::from("USD"), None, &rate, NOW)
            .unwrap_err(),
        RequestError::Anonymous
    );
    assert_eq!(
        gateway.generate_qr(&maker(), 1_000_000, String::from("USD"), None, &rate, NOW).unwrap_err(),
        RequestError::UserNotRegistered
    );
    gateway.register_user(&maker(), String::from("w"), None, None, NOW).unwrap();
    assert_eq!(
        gateway.generate_qr(&maker(), 0, String::from("USD"), None, &rate, NOW).unwrap_err(),
        RequestError::Refused(QRCreateError::AmountNotPositive)
    );
    assert_eq!(
        gateway.generate_qr(&maker(), 1, String::from("ABC"), None, &rate, NOW).unwrap_err(),
        RequestError::Refused(QRCreateError::UnsupportedCurrency)
    );
    assert!(gateway.qr_codes.is_empty());
    let qr = gateway.generate_qr(&maker(), 1_000_000, String::from("USD"), None, &rate, NOW).unwrap();
    assert_eq!(gateway.qr_codes.len(), 1);
    assert_eq!(gateway.qr_codes[0].id, qr.id);
    assert_eq!(gateway.get_qr(&qr.id).unwrap().icp_amount, 20_000_000);
    assert!(gateway.get_qr("nothing").is_none());
    assert_eq!(RequestError::Anonymous.message("USD"), "Anonymous users cannot generate QR codes");
    assert_eq!(
        RequestError::UserNotRegistered.message("USD"),
        "User not registered. Please register first"
    );
    assert_eq!(
        RequestError::Refused(QRCreateError::UnsupportedCurrency).message("abc"),
        "Unsupported currency: abc"
    );
}

#[test]
fn gateway_shows_requests() {
    let mut gateway = Gateway::new();
    let other = AccountId::from_bytes(vec![9]).unwrap();
    gateway.register_user(&maker(), String::from("w"), None, None, NOW).unwrap();
    gateway.register_user(&other, String::from("w"), None, None, NOW).unwrap();
    let rate = rate_of(5_000_000);
    let first = gateway.generate_qr(&maker(), 1_000_000, String::from("USD"), None, &rate, NOW).unwrap();
    let second = gateway.generate_qr(&other, 2_000_000, String::from("EUR"), None, &rate, NOW + 1).unwrap();
    let third = gateway.generate_qr(&maker(), 3_000_000, String::from("JPY"), None, &rate, NOW + 2).unwrap();
    let mine: Vec<String> = gateway.get_user_qr_codes(&maker()).into_iter().map(|q| q.id).collect();
    assert_eq!(mine, vec![first.id.clone(), third.id.clone()]);
    assert!(gateway.get_user_qr_codes(&AccountId::anonymous()).is_empty());

    let info = gateway.get_qr_display_info_by_id(&second.id, NOW + 10).unwrap();
    assert_eq!(info.formatted_fiat, "2.00");
    assert!(gateway.get_qr_display_info_by_id("none", NOW).is_none());
    let whole = gateway.validate_qr_code(&third.id, NOW + 10).unwrap();
    assert_eq!(whole.formatted_fiat, "3");
    assert_eq!(gateway.validate_qr_code("none", NOW).unwrap_err(), LookupError::NotFound);
    // a request with a completed payment in the usage log is no longer valid
    gateway.qr_usage_logs.push(used(&second.id, QRUsageType::PaymentCompleted, NOW + 3));
    assert_eq!(
        gateway.validate_qr_code(&second.id, NOW + 10).unwrap_err(),
        LookupError::Invalid(QRError::AlreadyUsed)
    );
    assert_eq!(
        gateway.validate_qr_code(&first.id, NOW + 31 * MINUTE).unwrap_err(),
        LookupError::Invalid(QRError::Expired)
    );
    // shown even when expired, where validity is not asked for
    assert!(gateway.get_qr_display_info_by_id(&first.id, NOW + 31 * MINUTE).unwrap().is_expired);
    assert_eq!(LookupError::NotFound.message(), "QR code not found");
    assert_eq!(LookupError::Invalid(QRError::Expired).message(), "QR code has expired");
}

#[test]
fn request_is_checked_before_a_rate_is_asked_for() {
    let mut gateway = Gateway::new();
    assert_eq!(
        gateway.check_qr_request(&AccountId::anonymous(), 1, "USD"),
        Err(RequestError::Anonymous)
    );
    assert_eq!(gateway.check_qr_request(&maker(), 1, "USD"), Err(RequestError::UserNotRegistered));
    gateway.register_user(&maker(), String::from("w"), None, None, NOW).unwrap();
    assert_eq!(
        gateway.check_qr_request(&maker(), 0, "USD"),
        Err(RequestError::Refused(QRCreateError::AmountNotPositive))
    );
    assert_eq!(
        gateway.check_qr_request(&maker(), 1, "ZZZ"),
        Err(RequestError::Refused(QRCreateError::UnsupportedCurrency))
    );
    assert_eq!(gateway.check_qr_request(&maker(), 1, "usd"), Ok(()));
    assert!(gateway.qr_codes.is_empty());
}

#[test]
fn of_two_requests_with_one_identifier_the_later_is_found() {
    let mut gateway = Gateway::new();
    gateway.register_user(&maker(), String::from("w"), None, None, NOW).unwrap();
    let rate = rate_of(5_000_000);
    let first = gateway.generate_qr(&maker(), 1_000_000, String::from("USD"), None, &rate, NOW).unwrap();
    let second = gateway.generate_qr(&maker(), 2_000_000, String::from("USD"), None, &rate, NOW).unwrap();
    assert_eq!(first.id, second.id);
    assert_eq!(gateway.qr_codes.len(), 2);
    assert_eq!(gateway.get_qr(&first.id).unwrap().fiat_amount, 2_000_000);
    assert_eq!(gateway.get_user_qr_codes(&maker()).len(), 2);
}

#[test]
fn currency_of_a_request_is_kept_in_upper_case() {
    let qr = create_qr_code(maker(), 1_000_000, String::from("Idr"), None, &rate_of(5_000_000), NOW)
        .unwrap();
    assert_eq!(qr.fiat_currency, "IDR");
    // the dotless i is a small letter already, and no accepted code has it
    let odd = create_qr_code(maker(), 1_000_000, String::from("\u{131}dr"), None, &rate_of(5_000_000), NOW);
    assert_eq!(odd.unwrap_err(), QRCreateError::UnsupportedCurrency);
}

#[test]
fn usage_entries_get_identifiers_that_no_entry_has() {
    let caller = AccountId::from_bytes(vec![8]).unwrap();
    let mut log: Vec<QRUsageLog> = Vec::new();
    let mut ids: Vec<String> = Vec::new();
    for _ in 0..3 {
        let entry = create_qr_usage_log(
            &mut log,
            &caller,
            String::from("C"),
            maker(),
            caller.clone(),
            String::from("tx"),
            QRUsageType::PaymentFailed,
            70,
        );
        ids.push(entry.id);
    }
    let wanted = generate_qr_usage_log_id(&caller, 70);
    assert_eq!(ids, vec![wanted.clone(), format!("{}_", wanted), format!("{}__", wanted)]);
    assert_eq!(log.len(), 3);
    assert_eq!(log[2].id, ids[2]);
}
