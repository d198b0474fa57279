//! Exchange rates: the currencies that are accepted, the age of a cached
//! rate, and the conversion of a fiat amount into tokens.
//!
//! Fiat amounts and rates are fixed-point numbers: a `u64` that counts
//! millionths of the currency unit.

use crate::ledger::floored_difference;
use crate::text::{
    decimal, padded_decimal, push_decimal, push_padded_decimal, same_text, to_unicode_lower,
    to_unicode_upper, unicode_lower, unicode_upper,
};
use crate::rows::views_of;
use crate::types::ExchangeRate;
use vstd::prelude::*;
use vstd::string::StringExecFns;

verus! {

/// Attempts made to fetch a rate before giving up.
pub const MAX_RETRIES: u32 = 3;

/// Seconds to wait after the first failed attempt; the wait grows by as much
/// with each further attempt.
pub const RETRY_DELAY_SECONDS: u64 = 2;

/// Seconds for which a fetched rate counts as fresh.
pub const RATE_CACHE_DURATION_SECONDS: u64 = 300;

/// Nanoseconds in a second.
pub const NANOS_PER_SECOND: u64 = 1_000_000_000;

/// Minor units in one token.
pub const MINOR_UNITS_PER_TOKEN: u64 = 100_000_000;

/// Millionths in one currency unit.
pub const FIAT_SCALE: u64 = 1_000_000;

/// The currency codes that are accepted, in lower case.
pub open spec fn supported_currencies() -> Seq<Seq<char>> {
    seq![
        "usd"@,
        "eur"@,
        "gbp"@,
        "jpy"@,
        "idr"@,
        "sgd"@,
        "myr"@,
        "php"@,
        "thb"@,
        "vnd"@,
    ]
}

/// Whether `code` stands in the list of accepted currency codes as it is.
pub open spec fn is_listed(code: Seq<char>) -> bool {
    supported_currencies().contains(code)
}

/// Whether `currency`, in whatever letter case, is an accepted currency
/// code: its lower-case form stands in the list.
pub open spec fn is_supported(currency: Seq<char>) -> bool {
    is_listed(unicode_lower(currency))
}

/// The age of something stamped `timestamp` at the time `now`, in
/// nanoseconds; zero where the stamp lies in the future.
pub open spec fn age_at(timestamp: u64, now: u64) -> u64 {
    floored_difference(now, timestamp)
}

/// Whether a rate stamped `timestamp` is fresh at `now`: younger than five
/// minutes.
pub open spec fn is_fresh(timestamp: u64, now: u64) -> bool {
    age_at(timestamp, now) < RATE_CACHE_DURATION_SECONDS * NANOS_PER_SECOND
}

/// The age of a rate stamped `timestamp` at `now`, in whole minutes.
pub open spec fn age_minutes(timestamp: u64, now: u64) -> u64 {
    age_at(timestamp, now) / ((60 * NANOS_PER_SECOND) as u64)
}

/// The minor units of token that `fiat_amount` buys at `rate`, both in
/// millionths, rounded down.
pub open spec fn token_amount(fiat_amount: u64, rate: u64) -> nat
    recommends
        rate > 0,
{
    ((fiat_amount as nat) * (MINOR_UNITS_PER_TOKEN as nat) / (rate as nat)) as nat
}

/// What converting `fiat_amount` at `rate` gives: an amount of zero, a rate
/// of zero and an amount worth less than one minor unit are refused, in
/// this order; a result beyond the largest amount is held at the largest
/// amount.
pub open spec fn conversion(fiat_amount: u64, rate: u64) -> Result<u64, ConversionError> {
    if fiat_amount == 0 {
        Err(ConversionError::AmountNotPositive)
    } else if rate == 0 {
        Err(ConversionError::RateNotPositive)
    } else if token_amount(fiat_amount, rate) == 0 {
        Err(ConversionError::ConversionTooSmall)
    } else if token_amount(fiat_amount, rate) > u64::MAX {
        Ok(u64::MAX)
    } else {
        Ok(token_amount(fiat_amount, rate) as u64)
    }
}

/// `amount` millionths rounded to hundredths, halves upwards.
pub open spec fn rounded_hundredths(amount: u64) -> nat {
    if amount % 10_000 >= 5_000 {
        (amount / 10_000 + 1) as nat
    } else {
        (amount / 10_000) as nat
    }
}

/// `amount` millionths rounded to whole units, halves upwards.
pub open spec fn rounded_units(amount: u64) -> nat {
    if amount % 1_000_000 >= 500_000 {
        (amount / 1_000_000 + 1) as nat
    } else {
        (amount / 1_000_000) as nat
    }
}

/// `amount` millionths written with two decimal places.
pub open spec fn two_places(amount: u64) -> Seq<char> {
    decimal(rounded_hundredths(amount) / 100) + "."@ + padded_decimal(
        rounded_hundredths(amount) % 100,
        2,
    )
}

/// Whether amounts in the currency with the upper-case code `code` are
/// written without decimal places.
pub open spec fn written_whole(code: Seq<char>) -> bool {
    code == "JPY"@ || code == "IDR"@ || code == "VND"@
}

/// `amount` millionths as it is shown in the currency with the upper-case
/// code `code`: whole units for the yen, the rupiah and the dong, two
/// decimal places otherwise.
pub open spec fn text_for_code(amount: u64, code: Seq<char>) -> Seq<char> {
    if written_whole(code) {
        decimal(rounded_units(amount))
    } else {
        two_places(amount)
    }
}

/// `amount` millionths as it is shown in `currency`, in whatever letter case
/// the code is given.
pub open spec fn currency_text(amount: u64, currency: Seq<char>) -> Seq<char> {
    text_for_code(amount, unicode_upper(currency))
}

/// `amount` minor units written as tokens with eight decimal places and the
/// token's name.
pub open spec fn token_text(amount: u64) -> Seq<char> {
    decimal((amount / MINOR_UNITS_PER_TOKEN) as nat) + "."@ + padded_decimal(
        (amount % MINOR_UNITS_PER_TOKEN) as nat,
        8,
    ) + " ICP"@
}

/// The last `width` decimal digits of `fraction` without the zeros at their
/// end; at least one digit is kept.
pub open spec fn trimmed(fraction: nat, width: nat) -> Seq<char>
    decreases width,
{
    if width > 1 && fraction % 10 == 0 {
        trimmed(fraction / 10, (width - 1) as nat)
    } else {
        padded_decimal(fraction, width)
    }
}

/// `amount` millionths written plainly: the whole units and, where there is
/// a fraction, a point and its digits up to the last that is not zero.
pub open spec fn plain_text(amount: u64) -> Seq<char> {
    if amount % FIAT_SCALE == 0 {
        decimal((amount / FIAT_SCALE) as nat)
    } else {
        decimal((amount / FIAT_SCALE) as nat) + "."@ + trimmed((amount % FIAT_SCALE) as nat, 6)
    }
}

/// Why a fiat amount could not be converted into tokens.
#[derive(Clone, Copy, Debug, PartialEq, Eq, Structural)]
pub enum ConversionError {
    /// The fiat amount is zero.
    AmountNotPositive,
    /// The rate is zero.
    RateNotPositive,
    /// The amount is worth less than one minor unit.
    ConversionTooSmall,
}

impl ConversionError {
    /// What to tell the caller.
    pub fn message(&self) -> (text: String)
        ensures
            text@ == match *self {
                ConversionError::AmountNotPositive => "Fiat amount must be greater than 0"@,
                ConversionError::RateNotPositive => "Exchange rate must be greater than 0"@,
                ConversionError::ConversionTooSmall => "Amount too small, results in 0 e8s"@,
            },
    {
        match self {
            ConversionError::AmountNotPositive => String::from_str(
                "Fiat amount must be greater than 0",
            ),
            ConversionError::RateNotPositive => String::from_str(
                "Exchange rate must be greater than 0",
            ),
            ConversionError::ConversionTooSmall => String::from_str(
                "Amount too small, results in 0 e8s",
            ),
        }
    }
}

/// The currency codes that are accepted, in lower case.
pub fn get_supported_currencies() -> (list: Vec<String>)
    ensures
        views_of(list@) == supported_currencies(),
{
    let mut list: Vec<String> = Vec::new();
    list.push(String::from_str("usd"));
    list.push(String::from_str("eur"));
    list.push(String::from_str("gbp"));
    list.push(String::from_str("jpy"));
    list.push(String::from_str("idr"));
    list.push(String::from_str("sgd"));
    list.push(String::from_str("myr"));
    list.push(String::from_str("php"));
    list.push(String::from_str("thb"));
    list.push(String::from_str("vnd"));
    assert(views_of(list@) =~= supported_currencies());
    list
}

/// The currency codes that are accepted, for callers that list them.
pub fn get_supported_currencies_list() -> (list: Vec<String>)
    ensures
        views_of(list@) == supported_currencies(),
{
    get_supported_currencies()
}

/// Whether `code` stands in the list of accepted currency codes as it is.
pub fn is_listed_currency(code: &str) -> (r: bool)
    ensures
        r == is_listed(code@),
{
    let list = get_supported_currencies();
    let mut i: usize = 0;
    while i < list.len()
        invariant
            i <= list.len(),
            views_of(list@) == supported_currencies(),
            forall|k: int| 0 <= k < i ==> supported_currencies()[k] != code@,
        decreases list.len() - i,
    {
        assert(views_of(list@)[i as int] == list@[i as int]@);
        if same_text(list[i].as_str(), code) {
            return true;
        }
        i += 1;
    }
    false
}

/// Whether `currency`, in whatever letter case, is an accepted currency code.
pub fn is_supported_currency(currency: &str) -> (r: bool)
    ensures
        r == is_supported(currency@),
{
    let lowered = to_unicode_lower(currency);
    is_listed_currency(lowered.as_str())
}

/// Whether the rate is fresh at `now`: fetched less than five minutes ago.
pub fn is_rate_cache_valid(exchange_rate: &ExchangeRate, now: u64) -> (r: bool)
    ensures
        r == is_fresh(exchange_rate.timestamp, now),
{
    let rate_age = now.saturating_sub(exchange_rate.timestamp);
    let max_age = RATE_CACHE_DURATION_SECONDS * NANOS_PER_SECOND;
    rate_age < max_age
}

/// The age of the rate at `now`, in whole minutes.
pub fn get_cache_age_minutes(exchange_rate: &ExchangeRate, now: u64) -> (r: u64)
    ensures
        r == age_minutes(exchange_rate.timestamp, now),
{
    let rate_age = now.saturating_sub(exchange_rate.timestamp);
    rate_age / (60 * NANOS_PER_SECOND)
}

/// Converts a fiat amount into minor units of token at the given rate, both
/// in millionths, rounding down. An amount of zero, a rate of zero and an
/// amount worth less than one minor unit are refused. A result beyond the
/// largest amount is held at the largest amount.
pub fn calculate_icp_amount(fiat_amount: u64, exchange_rate: u64) -> (r: Result<
    u64,
    ConversionError,
>)
    ensures
        r == conversion(fiat_amount, exchange_rate),
{
    if fiat_amount == 0 {
        return Err(ConversionError::AmountNotPositive);
    }
    if exchange_rate == 0 {
        return Err(ConversionError::RateNotPositive);
    }
    let product: u128 = (fiat_amount as u128) * 100_000_000u128;
    let quotient: u128 = product / (exchange_rate as u128);
    if quotient == 0 {
        return Err(ConversionError::ConversionTooSmall);
    }
    if quotient > u64::MAX as u128 {
        Ok(u64::MAX)
    } else {
        Ok(quotient as u64)
    }
}

/// Writes a fiat amount, given in millionths, as it is shown in the
/// currency with the upper-case code `code`.
pub fn format_amount_for_code(amount: u64, code: &str) -> (text: String)
    ensures
        text@ == text_for_code(amount, code@),
{
    let mut text = String::new();
    if same_text(code, "JPY") || same_text(code, "IDR") || same_text(code, "VND") {
        let units: u64 = if amount % 1_000_000 >= 500_000 {
            amount / 1_000_000 + 1
        } else {
            amount / 1_000_000
        };
        push_decimal(&mut text, units);
    } else {
        push_two_places(&mut text, amount);
    }
    text
}

/// Writes a fiat amount, given in millionths, as it is shown in `currency`,
/// in whatever letter case the code is given.
pub fn format_currency_amount(amount: u64, currency: &str) -> (text: String)
    ensures
        text@ == currency_text(amount, currency@),
{
    let code = to_unicode_upper(currency);
    format_amount_for_code(amount, code.as_str())
}

/// Writes `amount` minor units as tokens with eight decimal places and the
/// token's name.
pub fn format_token_amount(amount: u64) -> (text: String)
    ensures
        text@ == token_text(amount),
{
    let mut text = String::new();
    push_decimal(&mut text, amount / MINOR_UNITS_PER_TOKEN);
    text.append(".");
    push_padded_decimal(&mut text, amount % MINOR_UNITS_PER_TOKEN, 8);
    text.append(" ICP");
    text
}

/// Appends `amount` millionths, written plainly, to `text`.
pub fn push_plain_amount(text: &mut String, amount: u64)
    ensures
        final(text)@ == old(text)@ + plain_text(amount),
{
    push_decimal(text, amount / FIAT_SCALE);
    let mut fraction: u64 = amount % FIAT_SCALE;
    if fraction != 0 {
        text.append(".");
        let mut width: u32 = 6;
        while width > 1 && fraction % 10 == 0
            invariant
                1 <= width <= 6,
                trimmed(fraction as nat, width as nat) == trimmed((amount % FIAT_SCALE) as nat, 6),
            decreases width,
        {
            fraction = fraction / 10;
            width -= 1;
        }
        push_padded_decimal(text, fraction, width);
    }
}

/// Appends `amount` millionths, written with two decimal places, to `text`.
pub fn push_two_places(text: &mut String, amount: u64)
    ensures
        final(text)@ == old(text)@ + two_places(amount),
{
    let hundredths: u64 = if amount % 10_000 >= 5_000 {
        amount / 10_000 + 1
    } else {
        amount / 10_000
    };
    push_decimal(text, hundredths / 100);
    text.append(".");
    push_padded_decimal(text, hundredths % 100, 2);
}

} // verus!
