use payment_gateway::decimal::read_millionths;
use payment_gateway::quote::{parse_coingecko_response, rate_from_text, QuoteError};
use payment_gateway::rates::{
    calculate_icp_amount, format_amount_for_code, format_currency_amount, format_token_amount,
    get_supported_currencies, get_supported_currencies_list, is_listed_currency,
    is_rate_cache_valid, is_supported_currency, push_plain_amount, push_two_places,
    ConversionError,
};
use payment_gateway::types::ExchangeRate;

fn rate_at(timestamp: u64) -> ExchangeRate {
    ExchangeRate {
        currency: String::from("USD"),
        rate: 5_000_000,
        timestamp,
        source: String::from("coingecko"),
    }
}

#[test]
fn rate_fetched_ten_minutes_ago_is_stale_and_three_minutes_ago_is_fresh() {
    let now: u64 = 1_700_000_000_000_000_000;
    let minute: u64 = 60 * 1_000_000_000;
    assert!(!is_rate_cache_valid(&rate_at(now - 10 * minute), now));
    assert!(is_rate_cache_valid(&rate_at(now - 3 * minute), now));
    // the window is five minutes, its end not included
    assert!(is_rate_cache_valid(&rate_at(now - 5 * minute + 1), now));
    assert!(!is_rate_cache_valid(&rate_at(now - 5 * minute), now));
    assert!(is_rate_cache_valid(&rate_at(now), now));
    // a stamp from the future has the age zero
    assert!(is_rate_cache_valid(&rate_at(now + minute), now));
}

#[test]
fn supported_currencies_are_the_ten_of_the_list() {
    let list = get_supported_currencies();
    assert_eq!(list, vec!["usd", "eur", "gbp", "jpy", "idr", "sgd", "myr", "php", "thb", "vnd"]);
    assert_eq!(get_supported_currencies_list(), list);
    for code in &list {
        assert!(is_supported_currency(code));
        assert!(is_supported_currency(&code.to_uppercase()));
    }
    assert!(is_supported_currency("Usd"));
    assert!(!is_supported_currency(""));
    assert!(!is_supported_currency("us"));
    assert!(!is_supported_currency("usdx"));
    assert!(!is_supported_currency("btc"));
}

#[test]
fn conversion_divides_by_the_rate_and_rounds_down() {
    // 10 at 5.0 buys two tokens
    assert_eq!(calculate_icp_amount(10_000_000, 5_000_000), Ok(200_000_000));
    // 50 at 5.0 buys ten tokens
    assert_eq!(calculate_icp_amount(50_000_000, 5_000_000), Ok(1_000_000_000));
    // 1 at 3.0 buys 0.33333333 tokens
    assert_eq!(calculate_icp_amount(1_000_000, 3_000_000), Ok(33_333_333));
    // a millionth at 1.0 buys a hundred minor units
    assert_eq!(calculate_icp_amount(1, 1_000_000), Ok(100));
}

#[test]
fn conversion_refuses_what_cannot_be_converted() {
    assert_eq!(calculate_icp_amount(0, 5_000_000), Err(ConversionError::AmountNotPositive));
    assert_eq!(calculate_icp_amount(0, 0), Err(ConversionError::AmountNotPositive));
    assert_eq!(calculate_icp_amount(1, 0), Err(ConversionError::RateNotPositive));
    // a millionth at a rate of 100.000001 and more is worth less than a minor unit
    assert_eq!(calculate_icp_amount(1, 100_000_001), Err(ConversionError::ConversionTooSmall));
    assert_eq!(calculate_icp_amount(1, 100_000_000), Ok(1));
    assert_eq!(
        ConversionError::ConversionTooSmall.message(),
        "Amount too small, results in 0 e8s"
    );
    assert_eq!(
        ConversionError::AmountNotPositive.message(),
        "Fiat amount must be greater than 0"
    );
    assert_eq!(
        ConversionError::RateNotPositive.message(),
        "Exchange rate must be greater than 0"
    );
}

#[test]
fn conversion_is_held_at_the_largest_amount() {
    assert_eq!(calculate_icp_amount(u64::MAX, 1), Ok(u64::MAX));
    assert_eq!(calculate_icp_amount(u64::MAX, 100_000_000), Ok(u64::MAX));
    assert_eq!(calculate_icp_amount(u64::MAX, 100_000_001), Ok(18446743889242112722));
}

#[test]
fn amounts_are_written_as_their_currency_wants() {
    assert_eq!(format_currency_amount(100_500_000, "usd"), "100.50");
    assert_eq!(format_currency_amount(100_504_999, "EUR"), "100.50");
    assert_eq!(format_currency_amount(100_505_000, "GBP"), "100.51");
    assert_eq!(format_currency_amount(999_995_000, "SGD"), "1000.00");
    assert_eq!(format_currency_amount(0, "USD"), "0.00");
    assert_eq!(format_currency_amount(100_499_999, "jpy"), "100");
    assert_eq!(format_currency_amount(100_500_000, "vnd"), "101");
    assert_eq!(format_currency_amount(12_340_000, "XYZ"), "12.34");
    assert_eq!(format_currency_amount(u64::MAX, "USD"), "18446744073709.55");
    assert_eq!(format_currency_amount(u64::MAX, "IDR"), "18446744073710");
}

#[test]
fn token_amounts_have_eight_decimal_places() {
    assert_eq!(format_token_amount(0), "0.00000000 ICP");
    assert_eq!(format_token_amount(1), "0.00000001 ICP");
    assert_eq!(format_token_amount(202_000_000), "2.02000000 ICP");
    assert_eq!(format_token_amount(u64::MAX), "184467440737.09551615 ICP");
}

#[test]
fn plain_amounts_drop_the_zeros_at_their_end() {
    let mut a = String::new();
    push_plain_amount(&mut a, 10_000_000);
    assert_eq!(a, "10");
    let mut b = String::new();
    push_plain_amount(&mut b, 10_500_000);
    assert_eq!(b, "10.5");
    let mut c = String::new();
    push_plain_amount(&mut c, 1);
    assert_eq!(c, "0.000001");
    let mut d = String::new();
    push_plain_amount(&mut d, 120_030_400);
    assert_eq!(d, "120.0304");
    let mut e = String::from("x");
    push_two_places(&mut e, 5_000);
    assert_eq!(e, "x0.01");
}

#[test]
fn decimal_numerals_are_read_as_millionths() {
    assert_eq!(read_millionths("5"), Some(5_000_000));
    assert_eq!(read_millionths("4.87"), Some(4_870_000));
    assert_eq!(read_millionths("0.000001"), Some(1));
    assert_eq!(read_millionths("0.0000019"), Some(1));
    assert_eq!(read_millionths("0.0000009"), Some(0));
    assert_eq!(read_millionths("12."), Some(12_000_000));
    assert_eq!(read_millionths("007.5"), Some(7_500_000));
    assert_eq!(read_millionths("123456.123456789"), Some(123_456_123_456));
    assert_eq!(read_millionths("18446744073709.551615"), Some(u64::MAX));
    assert_eq!(read_millionths("18446744073709.551616"), Some(u64::MAX));
    assert_eq!(read_millionths("18446744073710"), Some(u64::MAX));
    assert_eq!(read_millionths("1000000000000000000000"), Some(u64::MAX));
}

#[test]
fn what_is_no_decimal_numeral_is_not_read() {
    assert_eq!(read_millionths(""), None);
    assert_eq!(read_millionths("."), None);
    assert_eq!(read_millionths(".5"), None);
    assert_eq!(read_millionths("-1"), None);
    assert_eq!(read_millionths("1e5"), None);
    assert_eq!(read_millionths("1.2.3"), None);
    assert_eq!(read_millionths("1 "), None);
    assert_eq!(read_millionths("NaN"), None);
    assert_eq!(read_millionths("1.x"), None);
    assert_eq!(read_millionths("١"), None);
}

#[test]
fn price_text_becomes_a_rate_above_zero() {
    assert_eq!(rate_from_text("4.87"), Ok(4_870_000));
    assert_eq!(rate_from_text("0"), Err(QuoteError::InvalidRate));
    assert_eq!(rate_from_text("0.0000001"), Err(QuoteError::InvalidRate));
    assert_eq!(rate_from_text("-4.87"), Err(QuoteError::InvalidRate));
    assert_eq!(rate_from_text("inf"), Err(QuoteError::NotANumber));
    assert_eq!(rate_from_text(""), Err(QuoteError::NotANumber));
}

#[test]
fn price_is_read_from_the_answer_of_the_service() {
    let body = r#"{"internet-computer":{"usd":4.87,"usd_24h_change":-1.5,"idr":78000}}"#;
    assert_eq!(parse_coingecko_response(body, "usd"), Ok(4_870_000));
    assert_eq!(parse_coingecko_response(body, "idr"), Ok(78_000_000_000));
    assert_eq!(parse_coingecko_response(body, "eur"), Err(QuoteError::CurrencyMissing));
    assert_eq!(parse_coingecko_response(body, "usd_24h_change"), Err(QuoteError::InvalidRate));
    assert_eq!(parse_coingecko_response("{}", "usd"), Err(QuoteError::AssetMissing));
    assert_eq!(parse_coingecko_response(r#"{"bitcoin":{"usd":1}}"#, "usd"), Err(QuoteError::AssetMissing));
    assert_eq!(parse_coingecko_response("not json", "usd"), Err(QuoteError::Malformed));
    assert_eq!(parse_coingecko_response("", "usd"), Err(QuoteError::Malformed));
    assert_eq!(
        parse_coingecko_response(r#"{"internet-computer":{"usd":"4.87"}}"#, "usd"),
        Err(QuoteError::NotANumber)
    );
    assert_eq!(
        parse_coingecko_response(r#"{"internet-computer":{"usd":0}}"#, "usd"),
        Err(QuoteError::InvalidRate)
    );
    assert_eq!(
        parse_coingecko_response(r#"{"internet-computer":{"usd":null}}"#, "usd"),
        Err(QuoteError::NotANumber)
    );
    assert_eq!(
        parse_coingecko_response(r#"{"internet-computer":5}"#, "usd"),
        Err(QuoteError::CurrencyMissing)
    );
}

#[test]
fn quote_errors_have_their_words() {
    assert_eq!(
        QuoteError::AssetMissing.message("usd", "{}"),
        "internet-computer key not found in response"
    );
    assert_eq!(QuoteError::CurrencyMissing.message("usd", "{}"), "Currency usd not found in response");
    assert_eq!(QuoteError::NotANumber.message("usd", "{}"), "Rate is not a valid number");
    assert_eq!(QuoteError::InvalidRate.message("usd", "{}"), "Invalid rate: must be greater than 0");
}

#[test]
fn listed_codes_are_taken_as_they_are() {
    assert!(is_listed_currency("usd"));
    assert!(is_listed_currency("vnd"));
    assert!(!is_listed_currency("USD"));
    assert!(!is_listed_currency(""));
    assert!(is_supported_currency("USD"));
    assert!(is_supported_currency("Idr"));
    // the dotless i is a small letter already, and no code has it
    assert!(!is_supported_currency("\u{131}dr"));
}

#[test]
fn amounts_are_written_for_an_upper_case_code() {
    assert_eq!(format_amount_for_code(100_500_000, "JPY"), "101");
    assert_eq!(format_amount_for_code(100_500_000, "jpy"), "100.50");
    assert_eq!(format_amount_for_code(100_500_000, "USD"), "100.50");
    assert_eq!(format_currency_amount(100_500_000, "jpy"), "101");
    assert_eq!(format_currency_amount(100_500_000, "\u{131}dr"), "101");
}
