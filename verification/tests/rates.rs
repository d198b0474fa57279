use payment_gateway::rates::{
    calculate_icp_amount, format_currency_amount, get_cache_age_minutes, is_supported_currency,
};
use payment_gateway::types::ExchangeRate;

/// A fiat amount or a rate in millionths.
fn millionths(amount: f64) -> u64 {
    (amount * 1_000_000.0).round() as u64
}

#[test]
fn test_currency_support() {
    assert!(is_supported_currency("USD"));
    assert!(is_supported_currency("usd"));
    assert!(is_supported_currency("EUR"));
    assert!(!is_supported_currency("INVALID"));
}

#[test]
fn test_icp_amount_calculation() {
    let result = calculate_icp_amount(millionths(100.0), millionths(5.0));
    assert!(result.is_ok());
    assert_eq!(result.unwrap(), 2_000_000_000);
}

#[test]
fn test_currency_formatting() {
    assert_eq!(format_currency_amount(millionths(100.5), "USD"), "100.50");
    assert_eq!(format_currency_amount(millionths(100.5), "JPY"), "101");
    assert_eq!(format_currency_amount(millionths(100000.0), "IDR"), "100000");
}

#[test]
fn test_cache_age_calculation() {
    let now: u64 = 1_700_000_000_000_000_000;
    let exchange_rate = ExchangeRate {
        currency: "USD".to_string(),
        rate: millionths(5.0),
        timestamp: now - (10 * 60 * 1_000_000_000),
        source: "coingecko".to_string(),
    };

    let age = get_cache_age_minutes(&exchange_rate, now);
    assert_eq!(age, 10);
}
