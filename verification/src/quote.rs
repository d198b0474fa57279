//! Reading the answer of the price service: a JSON document that holds the
//! price of the token under `internet-computer` and the currency code.

use crate::decimal::{decimal_reading, read_millionths};
use vstd::prelude::*;
use vstd::string::StringExecFns;

verus! {

/// A parsed JSON value of `serde_json`.
#[verifier::external_type_specification]
#[verifier::external_body]
pub struct ExJsonValue(serde_json::Value);

/// The value that `serde_json::from_str` reads from `text`, or the words of
/// its error.
pub uninterp spec fn json_document(text: Seq<char>) -> Result<serde_json::Value, Seq<char>>;

/// What `serde_json::Value::get` finds in `value` under the name `key`.
pub uninterp spec fn json_member(value: serde_json::Value, key: Seq<char>) -> Option<
    serde_json::Value,
>;

/// The number that `serde_json::Value::as_f64` finds in `value`, written as
/// text by the standard library's `to_string` for floats.
pub uninterp spec fn json_number(value: serde_json::Value) -> Option<Seq<char>>;

/// A parse result with the words of its error as characters.
pub open spec fn parsed(r: Result<serde_json::Value, String>) -> Result<
    serde_json::Value,
    Seq<char>,
> {
    match r {
        Ok(value) => Ok(value),
        Err(error) => Err(error@),
    }
}

/// The value that a lookup result refers to.
pub open spec fn found(r: Option<&serde_json::Value>) -> Option<serde_json::Value> {
    match r {
        Some(value) => Some(*value),
        None => None,
    }
}

/// Calls `serde_json::from_str` for a `Value`. An error comes back as its
/// words. The contract only names the result.
#[verifier::external_body]
fn json_from_str(text: &str) -> (r: Result<serde_json::Value, String>)
    ensures
        parsed(r) == json_document(text@),
{
    match serde_json::from_str::<serde_json::Value>(text) {
        Ok(value) => Ok(value),
        Err(error) => Err(error.to_string()),
    }
}

/// Calls `serde_json::Value::get` with a name. The contract only names the
/// result.
#[verifier::external_body]
fn json_get<'a>(value: &'a serde_json::Value, key: &str) -> (r: Option<&'a serde_json::Value>)
    ensures
        found(r) == json_member(*value, key@),
{
    value.get(key)
}

/// Calls `serde_json::Value::as_f64` and, since no float can be held here,
/// writes the float as text with the standard library's `to_string`. The
/// contract only names the result; nothing is claimed of the text's form.
#[verifier::external_body]
fn json_as_f64(value: &serde_json::Value) -> (r: Option<String>)
    ensures
        crate::types::text_of(r) == json_number(*value),
{
    match value.as_f64() {
        Some(number) => Some(number.to_string()),
        None => None,
    }
}

/// Why the answer of the price service gave no rate.
#[derive(Clone, Copy, Debug, PartialEq, Eq, Structural)]
pub enum QuoteError {
    /// The answer is no JSON document.
    Malformed,
    /// The document says nothing of the token.
    AssetMissing,
    /// The document has no price in the currency asked for.
    CurrencyMissing,
    /// The price is no number.
    NotANumber,
    /// The price is not above zero.
    InvalidRate,
}

/// What a price written as `text` gives: a rate in millionths, where the
/// text is a decimal numeral above zero.
pub open spec fn rate_reading(text: Seq<char>) -> Result<u64, QuoteError> {
    match decimal_reading(text) {
        Some(rate) => if rate > 0 {
            Ok(rate)
        } else {
            Err(QuoteError::InvalidRate)
        },
        None => if text.len() > 0 && text[0] == '-' {
            Err(QuoteError::InvalidRate)
        } else {
            Err(QuoteError::NotANumber)
        },
    }
}

/// What the price found in a document gives.
pub open spec fn price_reading(price: serde_json::Value) -> Result<u64, QuoteError> {
    match json_number(price) {
        Some(text) => rate_reading(text),
        None => Err(QuoteError::NotANumber),
    }
}

/// What the answer `body` gives for `currency`: the price found under
/// `internet-computer` and then under the currency code, in millionths.
pub open spec fn quote_reading(body: Seq<char>, currency: Seq<char>) -> Result<u64, QuoteError> {
    match json_document(body) {
        Err(_) => Err(QuoteError::Malformed),
        Ok(document) => match json_member(document, "internet-computer"@) {
            None => Err(QuoteError::AssetMissing),
            Some(asset) => match json_member(asset, currency) {
                None => Err(QuoteError::CurrencyMissing),
                Some(price) => price_reading(price),
            },
        },
    }
}

/// The words of the parser on an answer that is no JSON document; none for
/// one that is.
pub open spec fn parser_words(body: Seq<char>) -> Seq<char> {
    match json_document(body) {
        Err(words) => words,
        Ok(_) => Seq::empty(),
    }
}

/// What to tell the caller of a failure to read the price in `currency`
/// from the answer `body`.
pub open spec fn quote_words(error: QuoteError, currency: Seq<char>, body: Seq<char>) -> Seq<char> {
    match error {
        QuoteError::Malformed => "JSON parse error: "@ + parser_words(body),
        QuoteError::AssetMissing => "internet-computer key not found in response"@,
        QuoteError::CurrencyMissing => "Currency "@ + currency + " not found in response"@,
        QuoteError::NotANumber => "Rate is not a valid number"@,
        QuoteError::InvalidRate => "Invalid rate: must be greater than 0"@,
    }
}

impl QuoteError {
    /// What to tell the caller of a failure to read the price in `currency`
    /// from the answer `body`: the words name the currency and, for an
    /// answer that is no JSON document, say what the parser said.
    pub fn message(&self, currency: &str, body: &str) -> (text: String)
        ensures
            text@ == quote_words(*self, currency@, body@),
    {
        match self {
            QuoteError::Malformed => {
                let mut text = String::from_str("JSON parse error: ");
                match json_from_str(body) {
                    Err(words) => {
                        text.append(words.as_str());
                    },
                    Ok(_) => {
                        assert(text@ + Seq::<char>::empty() =~= text@);
                    },
                }
                text
            },
            QuoteError::AssetMissing => String::from_str(
                "internet-computer key not found in response",
            ),
            QuoteError::CurrencyMissing => {
                let mut text = String::from_str("Currency ");
                text.append(currency);
                text.append(" not found in response");
                text
            },
            QuoteError::NotANumber => String::from_str("Rate is not a valid number"),
            QuoteError::InvalidRate => String::from_str("Invalid rate: must be greater than 0"),
        }
    }
}

/// Turns a price written as a decimal numeral into a rate in millionths. A
/// price of zero, below a millionth or below zero is refused as invalid; any
/// other text is refused as no number.
pub fn rate_from_text(text: &str) -> (r: Result<u64, QuoteError>)
    ensures
        r == rate_reading(text@),
{
    match read_millionths(text) {
        Some(rate) => {
            if rate > 0 {
                Ok(rate)
            } else {
                Err(QuoteError::InvalidRate)
            }
        },
        None => {
            let chars = crate::text::chars_of(text);
            if chars.len() > 0 && chars[0] == '-' {
                Err(QuoteError::InvalidRate)
            } else {
                Err(QuoteError::NotANumber)
            }
        },
    }
}

/// Reads the price of the token in `currency`, a lower-case code, from the
/// answer of the price service.
pub fn parse_coingecko_response(body: &str, currency: &str) -> (r: Result<u64, QuoteError>)
    ensures
        r == quote_reading(body@, currency@),
{
    let document = match json_from_str(body) {
        Ok(document) => document,
        Err(_) => {
            return Err(QuoteError::Malformed);
        },
    };
    let asset = match json_get(&document, "internet-computer") {
        Some(asset) => asset,
        None => {
            return Err(QuoteError::AssetMissing);
        },
    };
    let price = match json_get(asset, currency) {
        Some(price) => price,
        None => {
            return Err(QuoteError::CurrencyMissing);
        },
    };
    match json_as_f64(price) {
        Some(text) => rate_from_text(text.as_str()),
        None => Err(QuoteError::NotANumber),
    }
}

} // verus!
