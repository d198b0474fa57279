//! Fetching a rate from the price service: what to ask, how to read the
//! answer, and what to do after each attempt. The request itself is made by
//! the caller; the decisions are made here.

use crate::quote::{parse_coingecko_response, quote_reading, quote_words, QuoteError};
use crate::rates::{
    age_minutes, get_cache_age_minutes, is_fresh, is_rate_cache_valid, is_supported,
    is_supported_currency, MAX_RETRIES, RETRY_DELAY_SECONDS,
};
use crate::text::{
    contains_text, decimal, has_substring, push_decimal, string_from_utf8, to_unicode_lower,
    to_unicode_upper, unicode_lower, unicode_upper,
};
use crate::types::{ExchangeRate, ExchangeRateView};
use vstd::prelude::*;
use vstd::string::StringExecFns;
use vstd::utf8::{decode_utf8, valid_utf8};

verus! {

/// Why one attempt to fetch a rate failed.
#[derive(Clone, Copy, Debug, PartialEq, Eq, Structural)]
pub enum FetchError {
    /// The service answered with status 429: too many requests.
    RateLimited,
    /// The service answered with a status from 500 to 599.
    ServerError(u16),
    /// The service answered with another status that is not 200.
    HttpStatus(u16),
    /// The request ran out of time.
    TimedOut,
    /// The request could not be made.
    Transport,
    /// The answer is no UTF-8 text.
    InvalidUtf8,
    /// The answer holds no usable price.
    Quote(QuoteError),
}

/// Why no rate could be given.
#[derive(Clone, Copy, Debug, PartialEq, Eq, Structural)]
pub enum RateError {
    /// The currency code is not accepted.
    UnsupportedCurrency,
    /// An attempt failed in a way that another attempt would not mend.
    Api(FetchError),
    /// Every attempt failed and no earlier rate is at hand.
    Exhausted,
}

/// What to do after an attempt to fetch a rate.
#[derive(Debug)]
pub enum RetryStep {
    /// Give this rate to the caller.
    Done(ExchangeRate),
    /// Give up.
    Failed(RateError),
    /// Wait `delay_seconds`, then make the attempt with the number `attempt`.
    Retry { attempt: u32, delay_seconds: u64 },
}

/// What a `RetryStep` holds.
pub enum RetryStepView {
    Done(ExchangeRateView),
    Failed(RateError),
    Retry { attempt: u32, delay_seconds: u64 },
}

impl View for RetryStep {
    type V = RetryStepView;

    open spec fn view(&self) -> RetryStepView {
        match *self {
            RetryStep::Done(rate) => RetryStepView::Done(rate@),
            RetryStep::Failed(error) => RetryStepView::Failed(error),
            RetryStep::Retry { attempt, delay_seconds } => RetryStepView::Retry {
                attempt,
                delay_seconds,
            },
        }
    }
}

/// What an attempt came to, with the rate as its view.
pub open spec fn attempt_view(outcome: Result<ExchangeRate, FetchError>) -> Result<
    ExchangeRateView,
    FetchError,
> {
    match outcome {
        Ok(rate) => Ok(rate@),
        Err(error) => Err(error),
    }
}

/// An optional rate as its view.
pub open spec fn rate_view(rate: Option<ExchangeRate>) -> Option<ExchangeRateView> {
    match rate {
        Some(rate) => Some(rate@),
        None => None,
    }
}

/// Whether another attempt may mend the failure: the service limits the
/// requests, or the request ran out of time.
pub open spec fn may_retry(error: FetchError) -> bool {
    error == FetchError::RateLimited || error == FetchError::TimedOut
}

/// `rate` with another word on where it comes from.
pub open spec fn tagged(rate: ExchangeRateView, source: Seq<char>) -> ExchangeRateView {
    ExchangeRateView { source, ..rate }
}

/// The word on a rate that is given although it could not be renewed.
pub open spec fn stale_source(minutes: u64) -> Seq<char> {
    "coingecko_stale_"@ + decimal(minutes as nat) + "min"@
}

/// What to do after the attempt with the number `attempt` came to `outcome`,
/// with the earlier rate `cached` at hand, at the time `now`:
/// a fetched rate is given; after a rate limit a fresh earlier rate is given
/// at once; a failure that another attempt would not mend ends the fetch;
/// before the last attempt the next one follows after a wait that grows with
/// the attempts; after the last one the earlier rate is given as stale,
/// whatever its age, and without one the fetch fails.
pub open spec fn fetch_step(
    attempt: u32,
    outcome: Result<ExchangeRateView, FetchError>,
    cached: Option<ExchangeRateView>,
    now: u64,
) -> RetryStepView {
    match outcome {
        Ok(rate) => RetryStepView::Done(rate),
        Err(error) => {
            if error == FetchError::RateLimited && cached is Some && is_fresh(
                cached->0.timestamp,
                now,
            ) {
                RetryStepView::Done(tagged(cached->0, "coingecko_recent"@))
            } else if !may_retry(error) {
                RetryStepView::Failed(RateError::Api(error))
            } else if attempt < MAX_RETRIES {
                RetryStepView::Retry {
                    attempt: (attempt + 1) as u32,
                    delay_seconds: (RETRY_DELAY_SECONDS * attempt) as u64,
                }
            } else {
                match cached {
                    Some(rate) => RetryStepView::Done(
                        tagged(rate, stale_source(age_minutes(rate.timestamp, now))),
                    ),
                    None => RetryStepView::Failed(RateError::Exhausted),
                }
            }
        },
    }
}

/// The address at which the price of the token in `currency` is asked.
pub open spec fn rate_url(currency: Seq<char>) -> Seq<char> {
    "https://api.coingecko.com/api/v3/simple/price?ids=internet-computer&vs_currencies="@ + unicode_lower(
        currency,
    ) + "&include_24hr_change=true"@
}

/// The status that the digits of an answer's status number stand for: the
/// one digit, cut to sixteen bits, or 999 where there is not exactly one.
pub open spec fn status_of(digits: Seq<u64>) -> u16 {
    if digits.len() == 1 {
        (digits[0] % 65536) as u16
    } else {
        999
    }
}

/// What a failure to make the request counts as, by the words that came
/// with it.
pub open spec fn transport_failure(message: Seq<char>) -> FetchError {
    if has_substring(message, "429"@) {
        FetchError::RateLimited
    } else if has_substring(message, "timeout"@) {
        FetchError::TimedOut
    } else {
        FetchError::Transport
    }
}

/// What an answer with the given status and body gives for `currency` at
/// `now`: with status 200 the rate read from the body, stamped `now`; else
/// the failure that the status stands for.
pub open spec fn response_reading(currency: Seq<char>, status: u16, body: Seq<u8>, now: u64) -> Result<
    ExchangeRateView,
    FetchError,
> {
    if status == 200 {
        if !valid_utf8(body) {
            Err(FetchError::InvalidUtf8)
        } else {
            match quote_reading(decode_utf8(body), unicode_lower(currency)) {
                Ok(rate) => Ok(
                    ExchangeRateView {
                        currency: unicode_upper(currency),
                        rate,
                        timestamp: now,
                        source: "coingecko"@,
                    },
                ),
                Err(error) => Err(FetchError::Quote(error)),
            }
        }
    } else if status == 429 {
        Err(FetchError::RateLimited)
    } else if 500 <= status <= 599 {
        Err(FetchError::ServerError(status))
    } else {
        Err(FetchError::HttpStatus(status))
    }
}

/// No more than three attempts are made: after the third, and after any
/// later one, no further attempt is asked for; and each attempt that is
/// asked for follows the one before it after a wait that has grown with it.
pub proof fn lemma_attempts_are_bounded(
    attempt: u32,
    outcome: Result<ExchangeRateView, FetchError>,
    cached: Option<ExchangeRateView>,
    now: u64,
)
    ensures
        attempt >= MAX_RETRIES ==> !(fetch_step(attempt, outcome, cached, now) is Retry),
        fetch_step(attempt, outcome, cached, now) matches RetryStepView::Retry {
            attempt: next,
            delay_seconds,
        } ==> next == attempt + 1 && next <= MAX_RETRIES && delay_seconds == RETRY_DELAY_SECONDS
            * attempt,
{
}

/// What to tell the caller of a failed attempt to fetch the rate of
/// `currency`. `body` is what came back: the body of the answer or, where
/// the request itself failed, the words that came with the failure.
pub open spec fn fetch_words(error: FetchError, currency: Seq<char>, body: Seq<char>) -> Seq<char> {
    match error {
        FetchError::RateLimited => "HTTP request failed with status: 429"@,
        FetchError::ServerError(status) => "Server error: "@ + decimal(status as nat),
        FetchError::HttpStatus(status) => "HTTP request failed with status: "@ + decimal(
            status as nat,
        ),
        FetchError::TimedOut => "HTTP request failed: "@ + body,
        FetchError::Transport => "HTTP request failed: "@ + body,
        FetchError::InvalidUtf8 => "Invalid UTF-8 response"@,
        FetchError::Quote(inner) => quote_words(inner, unicode_lower(currency), body),
    }
}

/// What to tell the caller to whom no rate of `currency` could be given;
/// `body` is what came back from the last attempt, as for `fetch_words`.
pub open spec fn rate_words(error: RateError, currency: Seq<char>, body: Seq<char>) -> Seq<char> {
    match error {
        RateError::UnsupportedCurrency => "Unsupported currency: "@ + unicode_upper(currency),
        RateError::Api(inner) => "API error: "@ + fetch_words(
            inner,
            unicode_upper(currency),
            body,
        ),
        RateError::Exhausted => "Failed to fetch "@ + unicode_upper(currency)
            + " rate after 3 attempts and no cached rate available"@,
    }
}

impl FetchError {
    /// What to tell the caller of a failed attempt to fetch the rate of
    /// `currency`. `body` is what came back: the body of the answer or,
    /// where the request itself failed, the words that came with the
    /// failure.
    pub fn message(&self, currency: &str, body: &str) -> (text: String)
        ensures
            text@ == fetch_words(*self, currency@, body@),
    {
        match self {
            FetchError::RateLimited => String::from_str("HTTP request failed with status: 429"),
            FetchError::ServerError(status) => {
                let mut text = String::from_str("Server error: ");
                push_decimal(&mut text, *status as u64);
                text
            },
            FetchError::HttpStatus(status) => {
                let mut text = String::from_str("HTTP request failed with status: ");
                push_decimal(&mut text, *status as u64);
                text
            },
            FetchError::TimedOut | FetchError::Transport => {
                let mut text = String::from_str("HTTP request failed: ");
                text.append(body);
                text
            },
            FetchError::InvalidUtf8 => String::from_str("Invalid UTF-8 response"),
            FetchError::Quote(error) => {
                let lowered = to_unicode_lower(currency);
                error.message(lowered.as_str(), body)
            },
        }
    }

    /// Whether another attempt may mend the failure.
    pub fn is_retryable(&self) -> (r: bool)
        ensures
            r == may_retry(*self),
    {
        match self {
            FetchError::RateLimited => true,
            FetchError::TimedOut => true,
            _ => false,
        }
    }
}

impl RateError {
    /// What to tell the caller to whom no rate of `currency` could be given;
    /// `body` is what came back from the last attempt: the body of the
    /// answer or the words of the failure to make the request.
    pub fn message(&self, currency: &str, body: &str) -> (text: String)
        ensures
            text@ == rate_words(*self, currency@, body@),
    {
        let code = to_unicode_upper(currency);
        match self {
            RateError::UnsupportedCurrency => {
                let mut text = String::from_str("Unsupported currency: ");
                text.append(code.as_str());
                text
            },
            RateError::Api(error) => {
                let mut text = String::from_str("API error: ");
                let inner = error.message(code.as_str(), body);
                text.append(inner.as_str());
                text
            },
            RateError::Exhausted => {
                let mut text = String::from_str("Failed to fetch ");
                text.append(code.as_str());
                text.append(" rate after 3 attempts and no cached rate available");
                text
            },
        }
    }
}

/// The address at which the price of the token in `currency` is asked.
pub fn exchange_rate_url(currency: &str) -> (url: String)
    ensures
        url@ == rate_url(currency@),
{
    let lowered = to_unicode_lower(currency);
    let mut url = String::from_str(
        "https://api.coingecko.com/api/v3/simple/price?ids=internet-computer&vs_currencies=",
    );
    url.append(lowered.as_str());
    url.append("&include_24hr_change=true");
    url
}

/// The status of an answer, from the digits of its status number.
pub fn status_code(digits: &Vec<u64>) -> (status: u16)
    ensures
        status == status_of(digits@),
{
    if digits.len() == 1 {
        (digits[0] % 65536) as u16
    } else {
        999
    }
}

/// What a failure to make the request counts as, by the words that came
/// with it: a rate limit where they name 429, a timeout where they say so.
pub fn classify_transport_failure(message: &str) -> (error: FetchError)
    ensures
        error == transport_failure(message@),
{
    if contains_text(message, "429") {
        FetchError::RateLimited
    } else if contains_text(message, "timeout") {
        FetchError::TimedOut
    } else {
        FetchError::Transport
    }
}

/// Reads the answer of the price service to a request for `currency`: with
/// status 200 the rate in the body, stamped `now`; else the failure that the
/// status stands for.
pub fn read_rate_response(currency: &str, status: u16, body: Vec<u8>, now: u64) -> (r: Result<
    ExchangeRate,
    FetchError,
>)
    ensures
        attempt_view(r) == response_reading(currency@, status, body@, now),
{
    if status == 200 {
        let text = match string_from_utf8(body) {
            Some(text) => text,
            None => {
                return Err(FetchError::InvalidUtf8);
            },
        };
        let lowered = to_unicode_lower(currency);
        match parse_coingecko_response(text.as_str(), lowered.as_str()) {
            Ok(rate) => Ok(
                ExchangeRate {
                    currency: to_unicode_upper(currency),
                    rate,
                    timestamp: now,
                    source: String::from_str("coingecko"),
                },
            ),
            Err(error) => Err(FetchError::Quote(error)),
        }
    } else if status == 429 {
        Err(FetchError::RateLimited)
    } else if 500 <= status && status <= 599 {
        Err(FetchError::ServerError(status))
    } else {
        Err(FetchError::HttpStatus(status))
    }
}

/// Begins a fetch of the rate of `currency`, in whatever letter case the
/// code is given: an accepted currency gets its first attempt, another one
/// is refused before any request is made.
pub fn fetch_exchange_rate_with_retry(currency: &str) -> (r: Result<u32, RateError>)
    ensures
        is_supported(unicode_upper(currency@)) ==> r == Ok::<u32, RateError>(1),
        !is_supported(unicode_upper(currency@)) ==> r == Err::<u32, RateError>(
            RateError::UnsupportedCurrency,
        ),
{
    let code = to_unicode_upper(currency);
    if is_supported_currency(code.as_str()) {
        Ok(1)
    } else {
        Err(RateError::UnsupportedCurrency)
    }
}

/// Decides what follows the attempt with the number `attempt`, which came to
/// `outcome`, with the earlier rate `cached_rate` at hand, at the time
/// `now`.
pub fn fetch_exchange_rate_with_retry_internal(
    attempt: u32,
    outcome: Result<ExchangeRate, FetchError>,
    cached_rate: Option<ExchangeRate>,
    now: u64,
) -> (step: RetryStep)
    ensures
        step@ == fetch_step(attempt, attempt_view(outcome), rate_view(cached_rate), now),
{
    let error = match outcome {
        Ok(rate) => {
            return RetryStep::Done(rate);
        },
        Err(error) => error,
    };
    let rate_limited = match error {
        FetchError::RateLimited => true,
        _ => false,
    };
    match cached_rate {
        Some(cached) => {
            if rate_limited && is_rate_cache_valid(&cached, now) {
                let recent = ExchangeRate {
                    currency: cached.currency,
                    rate: cached.rate,
                    timestamp: cached.timestamp,
                    source: String::from_str("coingecko_recent"),
                };
                return RetryStep::Done(recent);
            }
            if !error.is_retryable() {
                return RetryStep::Failed(RateError::Api(error));
            }
            if attempt < MAX_RETRIES {
                return RetryStep::Retry {
                    attempt: attempt + 1,
                    delay_seconds: RETRY_DELAY_SECONDS * (attempt as u64),
                };
            }
            let minutes = get_cache_age_minutes(&cached, now);
            let mut source = String::from_str("coingecko_stale_");
            push_decimal(&mut source, minutes);
            source.append("min");
            let stale = ExchangeRate {
                currency: cached.currency,
                rate: cached.rate,
                timestamp: cached.timestamp,
                source,
            };
            RetryStep::Done(stale)
        },
        None => {
            if !error.is_retryable() {
                return RetryStep::Failed(RateError::Api(error));
            }
            if attempt < MAX_RETRIES {
                return RetryStep::Retry {
                    attempt: attempt + 1,
                    delay_seconds: RETRY_DELAY_SECONDS * (attempt as u64),
                };
            }
            RetryStep::Failed(RateError::Exhausted)
        },
    }
}

} // verus!
