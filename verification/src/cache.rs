//! The rate cache of the gateway: one rate per currency, given while it is
//! fresh, renewed when it is not, and given as stale when it cannot be
//! renewed.

use crate::fetch::{rate_view, stale_source, tagged, RateError};
use crate::gateway::{extends, find_rate, lemma_rate_position, rate_position, Gateway, GatewayView};
use crate::rates::{
    age_minutes, get_cache_age_minutes, is_fresh, is_rate_cache_valid, is_supported,
    is_supported_currency, plain_text, push_plain_amount, NANOS_PER_SECOND,
};
use crate::rows::{chosen, pick_marked, views_of};
use crate::text::{decimal, push_decimal, same_text, to_unicode_upper, unicode_upper};
use crate::types::{ExchangeRate, ExchangeRateView};
use vstd::prelude::*;
use vstd::string::StringExecFns;

verus! {

/// What a request for a rate finds before anything is fetched.
#[derive(Debug)]
pub enum RateLookup {
    /// The currency is not accepted; nothing is to be fetched.
    Refused(RateError),
    /// A fresh rate is kept; it is the answer.
    Ready(ExchangeRate),
    /// A rate is to be fetched; the rate that is kept, should all attempts
    /// fail, comes with it.
    Fetch { cached: Option<ExchangeRate> },
}

/// What a `RateLookup` holds.
pub enum RateLookupView {
    Refused(RateError),
    Ready(ExchangeRateView),
    Fetch { cached: Option<ExchangeRateView> },
}

impl View for RateLookup {
    type V = RateLookupView;

    open spec fn view(&self) -> RateLookupView {
        match *self {
            RateLookup::Refused(error) => RateLookupView::Refused(error),
            RateLookup::Ready(rate) => RateLookupView::Ready(rate@),
            RateLookup::Fetch { cached } => RateLookupView::Fetch { cached: rate_view(cached) },
        }
    }
}

/// The cache with `rate` kept for its currency, in the place of the rate
/// that was kept for it, if any.
pub open spec fn with_rate(rates: Seq<ExchangeRateView>, rate: ExchangeRateView) -> Seq<
    ExchangeRateView,
> {
    match rate_position(rates, rate.currency) {
        Some(i) => rates.update(i, rate),
        None => rates.push(rate),
    }
}

/// What a request for the rate of `currency` finds at `now`: a currency that
/// is not accepted is refused; a kept rate younger than five minutes is the
/// answer; else a rate is to be fetched.
pub open spec fn lookup(rates: Seq<ExchangeRateView>, currency: Seq<char>, now: u64) -> RateLookupView {
    if !is_supported(unicode_upper(currency)) {
        RateLookupView::Refused(RateError::UnsupportedCurrency)
    } else {
        match find_rate(rates, unicode_upper(currency)) {
            Some(rate) => if is_fresh(rate.timestamp, now) {
                RateLookupView::Ready(rate)
            } else {
                RateLookupView::Fetch { cached: Some(rate) }
            },
            None => RateLookupView::Fetch { cached: None },
        }
    }
}

/// The rate that is given when the fetch came to `outcome`: the fetched
/// rate; after a failure the kept rate, marked as stale with its age in
/// minutes; and without a kept rate the failure.
pub open spec fn fetch_answer(
    rates: Seq<ExchangeRateView>,
    currency: Seq<char>,
    outcome: Result<ExchangeRateView, RateError>,
    now: u64,
) -> Result<ExchangeRateView, RateError> {
    match outcome {
        Ok(rate) => Ok(rate),
        Err(error) => match find_rate(rates, unicode_upper(currency)) {
            Some(kept) => Ok(tagged(kept, stale_source(age_minutes(kept.timestamp, now)))),
            None => Err(error),
        },
    }
}

/// The outcome of a fetch with the rate as its view.
pub open spec fn outcome_view(outcome: Result<ExchangeRate, RateError>) -> Result<
    ExchangeRateView,
    RateError,
> {
    match outcome {
        Ok(rate) => Ok(rate@),
        Err(error) => Err(error),
    }
}

/// The cache after a rate was given as `answer`: the rate is kept for its
/// currency; after a failure nothing is changed.
pub open spec fn after_answer(
    rates: Seq<ExchangeRateView>,
    answer: Result<ExchangeRateView, RateError>,
) -> Seq<ExchangeRateView> {
    match answer {
        Ok(rate) => with_rate(rates, rate),
        Err(_) => rates,
    }
}

/// The time that lies `minutes` minutes before `now`; zero where that is
/// before the beginning of time.
pub open spec fn minutes_before(now: u64, minutes: u64) -> u64 {
    if minutes * 60 * NANOS_PER_SECOND > now {
        0
    } else {
        (now - minutes * 60 * NANOS_PER_SECOND) as u64
    }
}

/// `true` or `false` as a word.
pub open spec fn truth_text(b: bool) -> Seq<char> {
    if b {
        "true"@
    } else {
        "false"@
    }
}

/// The words that say how the rate `rate` stands at `now`.
pub open spec fn status_line(rate: ExchangeRateView, now: u64) -> Seq<char> {
    "Cache: rate="@ + plain_text(rate.rate) + ", age="@ + decimal(
        age_minutes(rate.timestamp, now) as nat,
    ) + "min, valid="@ + truth_text(is_fresh(rate.timestamp, now)) + ", source='"@ + rate.source
        + "', timestamp="@ + decimal(rate.timestamp as nat)
}

/// A rate made up for trying out the cache: of `currency`, worth `rate`,
/// `minutes` minutes old at `now`.
pub open spec fn made_up_rate(
    currency: Seq<char>,
    rate: u64,
    minutes: u64,
    source: Seq<char>,
    now: u64,
) -> ExchangeRateView {
    ExchangeRateView {
        currency: unicode_upper(currency),
        rate,
        timestamp: minutes_before(now, minutes),
        source,
    }
}

/// The time that lies `minutes` minutes before `now`.
pub fn time_before(now: u64, minutes: u64) -> (r: u64)
    ensures
        r == minutes_before(now, minutes),
{
    match minutes.checked_mul(60 * NANOS_PER_SECOND) {
        Some(span) => now.saturating_sub(span),
        None => 0,
    }
}

impl Gateway {
    /// The position of the rate kept for `currency`, a code in upper case.
    fn position_of_rate(&self, currency: &str) -> (r: Option<usize>)
        ensures
            r is Some == rate_position(self@.exchange_rates, currency@) is Some,
            r matches Some(i) ==> i < self.exchange_rates@.len() && rate_position(
                self@.exchange_rates,
                currency@,
            ) == Some(i as int),
    {
        let ghost all = self@.exchange_rates;
        let mut i: usize = 0;
        while i < self.exchange_rates.len()
            invariant
                i <= self.exchange_rates.len(),
                all == views_of(self.exchange_rates@),
                forall|k: int| 0 <= k < i ==> (#[trigger] all[k]).currency != currency@,
            decreases self.exchange_rates.len() - i,
        {
            assert(all[i as int] == self.exchange_rates@[i as int]@);
            if same_text(self.exchange_rates[i].currency.as_str(), currency) {
                proof {
                    lemma_rate_position(all, currency@);
                    assert(all[i as int].currency == currency@);
                }
                return Some(i);
            }
            i += 1;
        }
        proof {
            lemma_rate_position(all, currency@);
        }
        None
    }

    /// Keeps `rate` for its currency, in the place of the rate that was kept
    /// for it, if any.
    pub fn store_rate(&mut self, rate: ExchangeRate)
        ensures
            extends(old(self)@, final(self)@),
            final(self)@ == (GatewayView {
                exchange_rates: with_rate(old(self)@.exchange_rates, rate@),
                ..old(self)@
            }),
    {
        match self.position_of_rate(rate.currency.as_str()) {
            Some(i) => {
                self.exchange_rates.set(i, rate);
                assert(self@.exchange_rates =~= old(self)@.exchange_rates.update(i as int, rate@));
            },
            None => {
                self.exchange_rates.push(rate);
                assert(self@.exchange_rates =~= old(self)@.exchange_rates.push(rate@));
            },
        }
    }

    /// The rate kept under `code`, the code of a currency as rates are kept
    /// under it: in upper case.
    pub fn rate_for_code(&self, code: &str) -> (r: Option<ExchangeRate>)
        ensures
            rate_view(r) == find_rate(self@.exchange_rates, code@),
    {
        match self.position_of_rate(code) {
            Some(i) => Some(self.exchange_rates[i].clone()),
            None => None,
        }
    }

    /// The rate kept for `currency`, in whatever letter case the code is
    /// given.
    pub fn get_cached_exchange_rate(&self, currency: &str) -> (r: Option<ExchangeRate>)
        ensures
            rate_view(r) == find_rate(self@.exchange_rates, unicode_upper(currency@)),
    {
        let code = to_unicode_upper(currency);
        self.rate_for_code(code.as_str())
    }

    /// The rate kept for `currency`, and whether it is fresh at `now`.
    pub fn get_cached_exchange_rate_with_validity(&self, currency: &str, now: u64) -> (r: Option<
        (ExchangeRate, bool),
    >)
        ensures
            match find_rate(self@.exchange_rates, unicode_upper(currency@)) {
                Some(rate) => r matches Some(pair) && pair.0@ == rate && pair.1 == is_fresh(
                    rate.timestamp,
                    now,
                ),
                None => r is None,
            },
    {
        match self.get_cached_exchange_rate(currency) {
            Some(rate) => {
                let fresh = is_rate_cache_valid(&rate, now);
                Some((rate, fresh))
            },
            None => None,
        }
    }

    /// Begins a request for the rate of `currency` at `now`: says whether
    /// the currency is refused, a fresh rate is at hand, or a rate is to be
    /// fetched. Nothing is changed.
    pub fn fetch_exchange_rate(&self, currency: &str, now: u64) -> (r: RateLookup)
        ensures
            r@ == lookup(self@.exchange_rates, currency@, now),
    {
        let code = to_unicode_upper(currency);
        if !is_supported_currency(code.as_str()) {
            return RateLookup::Refused(RateError::UnsupportedCurrency);
        }
        match self.get_cached_exchange_rate(currency) {
            Some(rate) => {
                if is_rate_cache_valid(&rate, now) {
                    RateLookup::Ready(rate)
                } else {
                    RateLookup::Fetch { cached: Some(rate) }
                }
            },
            None => RateLookup::Fetch { cached: None },
        }
    }

    /// Ends a request for the rate of `currency` whose fetch came to
    /// `outcome`. A fetched rate is kept and given. After a failure the rate
    /// that is kept, of whatever age, is marked as stale, kept so and given;
    /// only where no rate is kept, the request fails.
    pub fn complete_exchange_rate_fetch(
        &mut self,
        currency: &str,
        outcome: Result<ExchangeRate, RateError>,
        now: u64,
    ) -> (r: Result<ExchangeRate, RateError>)
        ensures
            extends(old(self)@, final(self)@),
            outcome_view(r) == fetch_answer(
                old(self)@.exchange_rates,
                currency@,
                outcome_view(outcome),
                now,
            ),
            final(self)@ == (GatewayView {
                exchange_rates: after_answer(old(self)@.exchange_rates, outcome_view(r)),
                ..old(self)@
            }),
    {
        match outcome {
            Ok(rate) => {
                let copy = rate.clone();
                self.store_rate(rate);
                Ok(copy)
            },
            Err(error) => {
                match self.get_cached_exchange_rate(currency) {
                    Some(kept) => {
                        let minutes = get_cache_age_minutes(&kept, now);
                        let mut source = String::from_str("coingecko_stale_");
                        push_decimal(&mut source, minutes);
                        source.append("min");
                        let stale = ExchangeRate {
                            currency: kept.currency,
                            rate: kept.rate,
                            timestamp: kept.timestamp,
                            source,
                        };
                        let copy = stale.clone();
                        self.store_rate(stale);
                        Ok(copy)
                    },
                    None => Err(error),
                }
            },
        }
    }

    /// Ends a forced renewal of a rate whose attempts, made without regard
    /// to any kept rate, came to `outcome`: a fetched rate is kept and given;
    /// a failure is handed on, and no kept rate stands in for it.
    pub fn force_refresh_exchange_rate(&mut self, outcome: Result<ExchangeRate, RateError>) -> (r: Result<
        ExchangeRate,
        RateError,
    >)
        ensures
            extends(old(self)@, final(self)@),
            outcome_view(r) == outcome_view(outcome),
            final(self)@ == (GatewayView {
                exchange_rates: after_answer(old(self)@.exchange_rates, outcome_view(outcome)),
                ..old(self)@
            }),
    {
        match outcome {
            Ok(rate) => {
                let copy = rate.clone();
                self.store_rate(rate);
                Ok(copy)
            },
            Err(error) => Err(error),
        }
    }

    /// Makes the rate kept for `currency` `age_minutes` minutes old at `now`
    /// and marks it as aged. For trying out the cache.
    pub fn age_cache(&mut self, currency: &str, age_minutes: u64, now: u64) -> (r: Option<
        ExchangeRate,
    >)
        ensures
            extends(old(self)@, final(self)@),
            match find_rate(old(self)@.exchange_rates, unicode_upper(currency@)) {
                None => r is None && final(self)@ == old(self)@,
                Some(kept) => r is Some && r->0@ == (ExchangeRateView {
                    timestamp: minutes_before(now, age_minutes),
                    source: "test_aged_"@ + decimal(age_minutes as nat) + "min"@,
                    ..kept
                }) && final(self)@ == (GatewayView {
                    exchange_rates: with_rate(old(self)@.exchange_rates, r->0@),
                    ..old(self)@
                }),
            },
    {
        match self.get_cached_exchange_rate(currency) {
            None => None,
            Some(kept) => {
                let mut source = String::from_str("test_aged_");
                push_decimal(&mut source, age_minutes);
                source.append("min");
                let aged = ExchangeRate {
                    currency: kept.currency,
                    rate: kept.rate,
                    timestamp: time_before(now, age_minutes),
                    source,
                };
                let copy = aged.clone();
                self.store_rate(aged);
                Some(copy)
            },
        }
    }

    /// The words that say how the rate kept for `currency` stands at `now`.
    pub fn get_cache_status(&self, currency: &str, now: u64) -> (text: String)
        ensures
            text@ == match find_rate(self@.exchange_rates, unicode_upper(currency@)) {
                Some(rate) => status_line(rate, now),
                None => "No cache found"@,
            },
    {
        match self.get_cached_exchange_rate(currency) {
            None => String::from_str("No cache found"),
            Some(rate) => {
                let mut text = String::from_str("Cache: rate=");
                push_plain_amount(&mut text, rate.rate);
                text.append(", age=");
                push_decimal(&mut text, get_cache_age_minutes(&rate, now));
                text.append("min, valid=");
                if is_rate_cache_valid(&rate, now) {
                    text.append("true");
                } else {
                    text.append("false");
                }
                text.append(", source='");
                text.append(rate.source.as_str());
                text.append("', timestamp=");
                push_decimal(&mut text, rate.timestamp);
                text
            },
        }
    }

    /// Keeps a made-up rate of `currency` that is ten minutes old at `now`,
    /// and so not fresh. For trying out the cache.
    pub fn create_test_stale_cache(&mut self, currency: &str, rate_value: u64, now: u64) -> (r: Result<
        ExchangeRate,
        RateError,
    >)
        ensures
            extends(old(self)@, final(self)@),
            !is_supported(unicode_upper(currency@)) ==> r is Err && r->Err_0
                == RateError::UnsupportedCurrency && final(self)@ == old(self)@,
            is_supported(unicode_upper(currency@)) ==> r is Ok && r->Ok_0@ == made_up_rate(
                currency@,
                rate_value,
                10,
                "test_stale"@,
                now,
            ) && final(self)@ == (GatewayView {
                exchange_rates: with_rate(old(self)@.exchange_rates, r->Ok_0@),
                ..old(self)@
            }),
    {
        let code = to_unicode_upper(currency);
        if !is_supported_currency(code.as_str()) {
            return Err(RateError::UnsupportedCurrency);
        }
        let rate = ExchangeRate {
            currency: code,
            rate: rate_value,
            timestamp: time_before(now, 10),
            source: String::from_str("test_stale"),
        };
        let copy = rate.clone();
        self.store_rate(rate);
        Ok(copy)
    }

    /// Keeps a made-up rate of `currency` that is three minutes old at
    /// `now`, and so fresh. For trying out the cache.
    pub fn create_test_recent_cache(&mut self, currency: &str, rate_value: u64, now: u64) -> (r: Result<
        ExchangeRate,
        RateError,
    >)
        ensures
            extends(old(self)@, final(self)@),
            !is_supported(unicode_upper(currency@)) ==> r is Err && r->Err_0
                == RateError::UnsupportedCurrency && final(self)@ == old(self)@,
            is_supported(unicode_upper(currency@)) ==> r is Ok && r->Ok_0@ == made_up_rate(
                currency@,
                rate_value,
                3,
                "test_recent"@,
                now,
            ) && final(self)@ == (GatewayView {
                exchange_rates: with_rate(old(self)@.exchange_rates, r->Ok_0@),
                ..old(self)@
            }),
    {
        let code = to_unicode_upper(currency);
        if !is_supported_currency(code.as_str()) {
            return Err(RateError::UnsupportedCurrency);
        }
        let rate = ExchangeRate {
            currency: code,
            rate: rate_value,
            timestamp: time_before(now, 3),
            source: String::from_str("test_recent"),
        };
        let copy = rate.clone();
        self.store_rate(rate);
        Ok(copy)
    }

    /// Drops the rate kept for `currency`.
    pub fn clear_cache(&mut self, currency: &str)
        ensures
            extends(old(self)@, final(self)@),
            final(self)@ == (GatewayView {
                exchange_rates: match rate_position(old(self)@.exchange_rates, unicode_upper(currency@)) {
                    Some(i) => old(self)@.exchange_rates.remove(i),
                    None => old(self)@.exchange_rates,
                },
                ..old(self)@
            }),
    {
        let code = to_unicode_upper(currency);
        match self.position_of_rate(code.as_str()) {
            Some(i) => {
                self.exchange_rates.remove(i);
                assert(self@.exchange_rates =~= old(self)@.exchange_rates.remove(i as int));
            },
            None => {},
        }
    }

    /// Drops all rates.
    pub fn clear_all_cache(&mut self)
        ensures
            extends(old(self)@, final(self)@),
            final(self)@ == (GatewayView { exchange_rates: Seq::empty(), ..old(self)@ }),
    {
        self.exchange_rates.clear();
        assert(self@.exchange_rates =~= Seq::<ExchangeRateView>::empty());
    }

    /// Drops the rates that are not fresh at `now` and says how many they
    /// were.
    pub fn cleanup_expired_rates(&mut self, now: u64) -> (dropped: u64)
        ensures
            extends(old(self)@, final(self)@),
            final(self)@ == (GatewayView {
                exchange_rates: chosen(
                    old(self)@.exchange_rates,
                    |r: ExchangeRateView| is_fresh(r.timestamp, now),
                ),
                ..old(self)@
            }),
            dropped == old(self)@.exchange_rates.len() - final(self)@.exchange_rates.len(),
    {
        let mut marks: Vec<bool> = Vec::new();
        let mut i: usize = 0;
        while i < self.exchange_rates.len()
            invariant
                i <= self.exchange_rates.len(),
                marks@.len() == i,
                forall|k: int|
                    0 <= k < i ==> marks@[k] == is_fresh(self@.exchange_rates[k].timestamp, now),
            decreases self.exchange_rates.len() - i,
        {
            marks.push(is_rate_cache_valid(&self.exchange_rates[i], now));
            i += 1;
        }
        assert(marks@ =~= Seq::new(
            self@.exchange_rates.len(),
            |i: int| (|r: ExchangeRateView| is_fresh(r.timestamp, now))(self@.exchange_rates[i]),
        ));
        let kept = pick_marked(&self.exchange_rates, &marks);
        proof {
            crate::rows::lemma_chosen_members(
                old(self)@.exchange_rates,
                |r: ExchangeRateView| is_fresh(r.timestamp, now),
            );
        }
        let dropped = self.exchange_rates.len() - kept.len();
        self.exchange_rates = kept;
        dropped as u64
    }
}

} // verus!
