use payment_gateway::fetch::{
    classify_transport_failure, exchange_rate_url, fetch_exchange_rate_with_retry,
    fetch_exchange_rate_with_retry_internal, read_rate_response, status_code, FetchError,
    RateError, RetryStep,
};
use payment_gateway::quote::QuoteError;
use payment_gateway::types::ExchangeRate;

const MINUTE: u64 = 60 * 1_000_000_000;
const NOW: u64 = 1_700_000_000_000_000_000;

fn fetched() -> ExchangeRate {
    ExchangeRate {
        currency: String::from("USD"),
        rate: 5_000_000,
        timestamp: NOW,
        source: String::from("coingecko"),
    }
}

fn cached(age_minutes: u64) -> ExchangeRate {
    ExchangeRate {
        currency: String::from("USD"),
        rate: 4_000_000,
        timestamp: NOW - age_minutes * MINUTE,
        source: String::from("coingecko"),
    }
}

fn done(step: RetryStep) -> ExchangeRate {
    match step {
        RetryStep::Done(rate) => rate,
        other => panic!("expected a rate, got {:?}", other),
    }
}

fn failed(step: RetryStep) -> RateError {
    match step {
        RetryStep::Failed(error) => error,
        other => panic!("expected a failure, got {:?}", other),
    }
}

fn retry(step: RetryStep) -> (u32, u64) {
    match step {
        RetryStep::Retry { attempt, delay_seconds } => (attempt, delay_seconds),
        other => panic!("expected a retry, got {:?}", other),
    }
}

#[test]
fn url_asks_for_the_currency_in_lower_case() {
    assert_eq!(
        exchange_rate_url("USD"),
        "https://api.coingecko.com/api/v3/simple/price?ids=internet-computer&vs_currencies=usd&include_24hr_change=true"
    );
}

#[test]
fn status_is_the_single_digit_or_999() {
    assert_eq!(status_code(&vec![200]), 200);
    assert_eq!(status_code(&vec![429]), 429);
    assert_eq!(status_code(&vec![]), 999);
    assert_eq!(status_code(&vec![200, 1]), 999);
    assert_eq!(status_code(&vec![65536 + 404]), 404);
}

#[test]
fn transport_failures_are_told_apart_by_their_words() {
    assert_eq!(classify_transport_failure("status 429 from boundary"), FetchError::RateLimited);
    assert_eq!(classify_transport_failure("request timeout"), FetchError::TimedOut);
    assert_eq!(classify_transport_failure("429 timeout"), FetchError::RateLimited);
    assert_eq!(classify_transport_failure("Timeout expired"), FetchError::Transport);
    assert_eq!(classify_transport_failure("connection refused"), FetchError::Transport);
    assert_eq!(classify_transport_failure(""), FetchError::Transport);
}

#[test]
fn answer_with_status_200_gives_the_rate_of_its_body() {
    let body = br#"{"internet-computer":{"usd":5.0}}"#.to_vec();
    let rate = read_rate_response("usd", 200, body, NOW).unwrap();
    assert_eq!(rate.currency, "USD");
    assert_eq!(rate.rate, 5_000_000);
    assert_eq!(rate.timestamp, NOW);
    assert_eq!(rate.source, "coingecko");
}

#[test]
fn answer_that_is_no_rate_gives_its_failure() {
    let body = br#"{"internet-computer":{"usd":5.0}}"#.to_vec();
    assert_eq!(read_rate_response("usd", 429, body.clone(), NOW).unwrap_err(), FetchError::RateLimited);
    assert_eq!(read_rate_response("usd", 500, body.clone(), NOW).unwrap_err(), FetchError::ServerError(500));
    assert_eq!(read_rate_response("usd", 599, body.clone(), NOW).unwrap_err(), FetchError::ServerError(599));
    assert_eq!(read_rate_response("usd", 600, body.clone(), NOW).unwrap_err(), FetchError::HttpStatus(600));
    assert_eq!(read_rate_response("usd", 404, body.clone(), NOW).unwrap_err(), FetchError::HttpStatus(404));
    assert_eq!(read_rate_response("usd", 999, body.clone(), NOW).unwrap_err(), FetchError::HttpStatus(999));
    assert_eq!(
        read_rate_response("usd", 200, vec![0xff, 0xfe], NOW).unwrap_err(),
        FetchError::InvalidUtf8
    );
    assert_eq!(
        read_rate_response("usd", 200, b"{}".to_vec(), NOW).unwrap_err(),
        FetchError::Quote(QuoteError::AssetMissing)
    );
    assert_eq!(
        read_rate_response("eur", 200, body, NOW).unwrap_err(),
        FetchError::Quote(QuoteError::CurrencyMissing)
    );
}

#[test]
fn fetch_begins_only_for_accepted_currencies() {
    assert_eq!(fetch_exchange_rate_with_retry("usd"), Ok(1));
    assert_eq!(fetch_exchange_rate_with_retry("IDR"), Ok(1));
    assert_eq!(fetch_exchange_rate_with_retry("xyz"), Err(RateError::UnsupportedCurrency));
}

#[test]
fn fetched_rate_ends_the_fetch() {
    let rate = done(fetch_exchange_rate_with_retry_internal(1, Ok(fetched()), None, NOW));
    assert_eq!(rate.rate, 5_000_000);
    assert_eq!(rate.source, "coingecko");
    let again = done(fetch_exchange_rate_with_retry_internal(3, Ok(fetched()), Some(cached(1)), NOW));
    assert_eq!(again.rate, 5_000_000);
}

#[test]
fn rate_limit_with_a_fresh_cache_gives_the_cache_at_once() {
    let step = fetch_exchange_rate_with_retry_internal(
        1,
        Err(FetchError::RateLimited),
        Some(cached(3)),
        NOW,
    );
    let rate = done(step);
    assert_eq!(rate.rate, 4_000_000);
    assert_eq!(rate.timestamp, NOW - 3 * MINUTE);
    assert_eq!(rate.source, "coingecko_recent");
}

#[test]
fn retries_wait_longer_each_time() {
    let limited = || Err(FetchError::RateLimited);
    assert_eq!(retry(fetch_exchange_rate_with_retry_internal(1, limited(), None, NOW)), (2, 2));
    assert_eq!(retry(fetch_exchange_rate_with_retry_internal(2, limited(), None, NOW)), (3, 4));
    assert_eq!(
        retry(fetch_exchange_rate_with_retry_internal(1, Err(FetchError::TimedOut), Some(cached(3)), NOW)),
        (2, 2)
    );
    // a stale cache does not end the retries after a rate limit
    assert_eq!(
        retry(fetch_exchange_rate_with_retry_internal(2, limited(), Some(cached(10)), NOW)),
        (3, 4)
    );
}

#[test]
fn last_attempt_falls_back_to_the_cache_of_any_age() {
    let stale = done(fetch_exchange_rate_with_retry_internal(
        3,
        Err(FetchError::RateLimited),
        Some(cached(10)),
        NOW,
    ));
    assert_eq!(stale.rate, 4_000_000);
    assert_eq!(stale.source, "coingecko_stale_10min");
    let older = done(fetch_exchange_rate_with_retry_internal(
        3,
        Err(FetchError::TimedOut),
        Some(cached(600)),
        NOW,
    ));
    assert_eq!(older.source, "coingecko_stale_600min");
    let young = done(fetch_exchange_rate_with_retry_internal(
        3,
        Err(FetchError::TimedOut),
        Some(cached(2)),
        NOW,
    ));
    assert_eq!(young.source, "coingecko_stale_2min");
}

#[test]
fn last_attempt_without_a_cache_fails() {
    assert_eq!(
        failed(fetch_exchange_rate_with_retry_internal(3, Err(FetchError::RateLimited), None, NOW)),
        RateError::Exhausted
    );
    assert_eq!(
        failed(fetch_exchange_rate_with_retry_internal(7, Err(FetchError::TimedOut), None, NOW)),
        RateError::Exhausted
    );
}

#[test]
fn failure_that_a_retry_would_not_mend_ends_the_fetch() {
    let errors = [
        FetchError::ServerError(503),
        FetchError::HttpStatus(404),
        FetchError::Transport,
        FetchError::InvalidUtf8,
        FetchError::Quote(QuoteError::Malformed),
    ];
    for error in errors {
        assert!(!error.is_retryable());
        assert_eq!(
            failed(fetch_exchange_rate_with_retry_internal(1, Err(error), None, NOW)),
            RateError::Api(error)
        );
        assert_eq!(
            failed(fetch_exchange_rate_with_retry_internal(1, Err(error), Some(cached(1)), NOW)),
            RateError::Api(error)
        );
    }
    assert!(FetchError::RateLimited.is_retryable());
    assert!(FetchError::TimedOut.is_retryable());
}

#[test]
fn fetch_errors_have_their_words() {
    let body = "{}";
    assert_eq!(FetchError::RateLimited.message("usd", body), "HTTP request failed with status: 429");
    assert_eq!(FetchError::ServerError(503).message("usd", body), "Server error: 503");
    assert_eq!(FetchError::HttpStatus(404).message("usd", body), "HTTP request failed with status: 404");
    assert_eq!(
        FetchError::TimedOut.message("usd", "request timeout"),
        "HTTP request failed: request timeout"
    );
    assert_eq!(
        FetchError::Transport.message("usd", "connection refused"),
        "HTTP request failed: connection refused"
    );
    assert_eq!(
        RateError::Api(FetchError::Transport).message("usd", "connection refused"),
        "API error: HTTP request failed: connection refused"
    );
    assert_eq!(FetchError::InvalidUtf8.message("usd", body), "Invalid UTF-8 response");
    assert_eq!(
        FetchError::Quote(QuoteError::NotANumber).message("usd", body),
        "Rate is not a valid number"
    );
    assert_eq!(
        FetchError::Quote(QuoteError::CurrencyMissing).message("USD", body),
        "Currency usd not found in response"
    );
    assert_eq!(RateError::UnsupportedCurrency.message("xyz", body), "Unsupported currency: XYZ");
    assert_eq!(
        RateError::Api(FetchError::ServerError(500)).message("usd", body),
        "API error: Server error: 500"
    );
    assert_eq!(
        RateError::Api(FetchError::Quote(QuoteError::CurrencyMissing)).message("Usd", body),
        "API error: Currency usd not found in response"
    );
    assert_eq!(
        RateError::Exhausted.message("usd", body),
        "Failed to fetch USD rate after 3 attempts and no cached rate available"
    );
}

#[test]
fn malformed_answer_is_told_with_the_words_of_the_parser() {
    let words = serde_json::from_str::<serde_json::Value>("not json").unwrap_err().to_string();
    assert!(!words.is_empty());
    assert_eq!(
        QuoteError::Malformed.message("usd", "not json"),
        format!("JSON parse error: {}", words)
    );
    assert_eq!(
        RateError::Api(FetchError::Quote(QuoteError::Malformed)).message("usd", "not json"),
        format!("API error: JSON parse error: {}", words)
    );
}

#[test]
fn currency_codes_are_taken_in_whatever_letter_case() {
    assert!(fetch_exchange_rate_with_retry("Usd").is_ok());
    assert_eq!(fetch_exchange_rate_with_retry("Usd"), fetch_exchange_rate_with_retry("USD"));
    // the dotless i and the long s have I and S as their capitals
    assert!(fetch_exchange_rate_with_retry("\u{131}dr").is_ok());
    assert!(fetch_exchange_rate_with_retry("u\u{17f}d").is_ok());
    assert_eq!(
        fetch_exchange_rate_with_retry("\u{e9}ur").unwrap_err(),
        RateError::UnsupportedCurrency
    );
    assert_eq!(
        exchange_rate_url("\u{c9}UR"),
        "https://api.coingecko.com/api/v3/simple/price?ids=internet-computer&vs_currencies=\u{e9}ur&include_24hr_change=true"
    );
    // the answer is read under the lower-case form, which the long s is already
    let body = br#"{"internet-computer":{"usd":5.0}}"#.to_vec();
    assert_eq!(
        read_rate_response("u\u{17f}d", 200, body.clone(), NOW).unwrap_err(),
        FetchError::Quote(QuoteError::CurrencyMissing)
    );
    assert_eq!(read_rate_response("USD", 200, body, NOW).unwrap().rate, 5_000_000);
}
