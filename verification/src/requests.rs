//! Payment requests in the gateway: making one, finding it and showing it.

use crate::gateway::{extends, find_qr, is_registered, Gateway, GatewayView};
use crate::identity::{anonymous_bytes, AccountId};
use crate::qr::{
    create_qr_code, create_words, display_of, get_qr_display_info, is_qr_code_valid, new_qr_code, redeemable,
    QRCreateError, QRDisplayInfo, QRDisplayInfoView, QRError,
};
use crate::rates::{is_supported, is_supported_currency};
use crate::rows::{chosen, pick_marked, views_of};
use crate::types::{text_of, ExchangeRate, QRCode, QRCodeView};
use vstd::prelude::*;
use vstd::string::StringExecFns;

verus! {

/// Why a payment request was not made.
#[derive(Clone, Copy, Debug, PartialEq, Eq, Structural)]
pub enum RequestError {
    /// The caller is not authenticated.
    Anonymous,
    /// The caller is no registered account.
    UserNotRegistered,
    /// The request itself is refused.
    Refused(QRCreateError),
}

/// Why a payment request is not shown as payable.
#[derive(Clone, Copy, Debug, PartialEq, Eq, Structural)]
pub enum LookupError {
    /// There is no payment request with this identifier.
    NotFound,
    /// The request cannot be paid.
    Invalid(QRError),
}

/// The checks before a payment request is made, which need no rate, in
/// their order: the caller must be authenticated and registered, the amount
/// above zero and the currency accepted.
pub open spec fn request_check(
    state: GatewayView,
    caller: Seq<u8>,
    fiat_amount: u64,
    fiat_currency: Seq<char>,
) -> Result<(), RequestError> {
    if caller == anonymous_bytes() {
        Err(RequestError::Anonymous)
    } else if !is_registered(state.users, caller) {
        Err(RequestError::UserNotRegistered)
    } else if fiat_amount == 0 {
        Err(RequestError::Refused(QRCreateError::AmountNotPositive))
    } else if !is_supported(fiat_currency) {
        Err(RequestError::Refused(QRCreateError::UnsupportedCurrency))
    } else {
        Ok(())
    }
}

/// A request that passes the checks that need no rate is refused only where
/// its amount cannot be converted; and one that fails them is refused for
/// the same reason when it is made.
pub proof fn lemma_request_check(
    state: GatewayView,
    caller: Seq<u8>,
    fiat_amount: u64,
    fiat_currency: Seq<char>,
    description: Option<Seq<char>>,
    rate: u64,
    now: u64,
)
    ensures
        match request_check(state, caller, fiat_amount, fiat_currency) {
            Err(error) => request_outcome(
                state,
                caller,
                fiat_amount,
                fiat_currency,
                description,
                rate,
                now,
            ) == Err::<QRCodeView, RequestError>(error),
            Ok(_) => match request_outcome(
                state,
                caller,
                fiat_amount,
                fiat_currency,
                description,
                rate,
                now,
            ) {
                Ok(_) => true,
                Err(error) => error is Refused && error->Refused_0 is Conversion,
            },
        },
{
}

/// What asking for a payment request gives: an unauthenticated caller and a
/// caller that is not registered are refused, in this order; else the
/// request is made as `new_qr_code` says.
pub open spec fn request_outcome(
    state: GatewayView,
    caller: Seq<u8>,
    fiat_amount: u64,
    fiat_currency: Seq<char>,
    description: Option<Seq<char>>,
    rate: u64,
    now: u64,
) -> Result<QRCodeView, RequestError> {
    if caller == anonymous_bytes() {
        Err(RequestError::Anonymous)
    } else if !is_registered(state.users, caller) {
        Err(RequestError::UserNotRegistered)
    } else {
        match new_qr_code(caller, fiat_amount, fiat_currency, description, rate, now) {
            Ok(qr) => Ok(qr),
            Err(error) => Err(RequestError::Refused(error)),
        }
    }
}

/// What showing the request `qr_id` as payable gives at `now`: it must
/// exist, must not have been paid and must not be expired.
pub open spec fn shown(state: GatewayView, qr_id: Seq<char>, now: u64) -> Result<
    QRDisplayInfoView,
    LookupError,
> {
    match find_qr(state.qr_codes, qr_id) {
        None => Err(LookupError::NotFound),
        Some(qr) => match redeemable(qr, state.qr_usage_logs, now) {
            Err(error) => Err(LookupError::Invalid(error)),
            Ok(_) => Ok(display_of(qr, now)),
        },
    }
}

impl RequestError {
    /// What to tell the caller whose request in `currency` was not made.
    pub fn message(&self, currency: &str) -> (text: String)
        ensures
            text@ == match *self {
                RequestError::Anonymous => "Anonymous users cannot generate QR codes"@,
                RequestError::UserNotRegistered => "User not registered. Please register first"@,
                RequestError::Refused(error) => create_words(error, currency@),
            },
    {
        match self {
            RequestError::Anonymous => String::from_str("Anonymous users cannot generate QR codes"),
            RequestError::UserNotRegistered => String::from_str(
                "User not registered. Please register first",
            ),
            RequestError::Refused(error) => error.message(currency),
        }
    }
}

impl LookupError {
    /// What to tell the caller.
    pub fn message(&self) -> (text: String)
        ensures
            text@ == match *self {
                LookupError::NotFound => "QR code not found"@,
                LookupError::Invalid(QRError::AlreadyUsed) => "QR code has already been used"@,
                LookupError::Invalid(QRError::Expired) => "QR code has expired"@,
            },
    {
        match self {
            LookupError::NotFound => String::from_str("QR code not found"),
            LookupError::Invalid(error) => error.message(),
        }
    }
}

/// A request that was just kept is the one that is found under its
/// identifier, whatever older request has the same.
pub proof fn lemma_latest_request_is_found(codes: Seq<QRCodeView>, qr: QRCodeView)
    ensures
        find_qr(codes.push(qr), qr.id) == Some(qr),
{
    assert(codes.push(qr).last() == qr);
}

impl Gateway {
    /// Carries out the checks before a payment request is made, which need
    /// no rate. Nothing is changed.
    pub fn check_qr_request(&self, caller: &AccountId, fiat_amount: u64, fiat_currency: &str) -> (r: Result<
        (),
        RequestError,
    >)
        ensures
            r == request_check(self@, caller@, fiat_amount, fiat_currency@),
    {
        if caller.is_anonymous() {
            return Err(RequestError::Anonymous);
        }
        if !self.is_user_registered(caller) {
            return Err(RequestError::UserNotRegistered);
        }
        if fiat_amount == 0 {
            return Err(RequestError::Refused(QRCreateError::AmountNotPositive));
        }
        if !is_supported_currency(fiat_currency) {
            return Err(RequestError::Refused(QRCreateError::UnsupportedCurrency));
        }
        Ok(())
    }

    /// Makes a payment request of the registered account `caller` at the
    /// given rate and keeps it. Where the request is refused, nothing is
    /// changed.
    ///
    /// The identifier of a request has a fixed form and cannot be
    /// lengthened. Should an older request have the same identifier, both
    /// are kept: the new one is the one that is found under the identifier
    /// from then on, the lists and totals show both, and a payment of
    /// either counts for both, as the usage log goes by the identifier.
    pub fn generate_qr(
        &mut self,
        caller: &AccountId,
        fiat_amount: u64,
        fiat_currency: String,
        description: Option<String>,
        exchange_rate: &ExchangeRate,
        now: u64,
    ) -> (r: Result<QRCode, RequestError>)
        ensures
            extends(old(self)@, final(self)@),
            match request_outcome(
                old(self)@,
                caller@,
                fiat_amount,
                fiat_currency@,
                text_of(description),
                exchange_rate.rate,
                now,
            ) {
                Err(error) => r is Err && r->Err_0 == error && final(self)@ == old(self)@,
                Ok(qr) => r is Ok && r->Ok_0@ == qr && final(self)@ == (GatewayView {
                    qr_codes: old(self)@.qr_codes.push(qr),
                    ..old(self)@
                }),
            },
            r is Ok ==> find_qr(final(self)@.qr_codes, r->Ok_0.id@) == Some(r->Ok_0@),
    {
        if caller.is_anonymous() {
            return Err(RequestError::Anonymous);
        }
        if !self.is_user_registered(caller) {
            return Err(RequestError::UserNotRegistered);
        }
        let qr_code = match create_qr_code(
            caller.clone(),
            fiat_amount,
            fiat_currency,
            description,
            exchange_rate,
            now,
        ) {
            Ok(qr_code) => qr_code,
            Err(error) => {
                return Err(RequestError::Refused(error));
            },
        };
        let copy = qr_code.clone();
        self.qr_codes.push(qr_code);
        assert(self@.qr_codes =~= old(self)@.qr_codes.push(copy@));
        proof {
            lemma_latest_request_is_found(old(self)@.qr_codes, copy@);
        }
        Ok(copy)
    }

    /// The request `qr_id` as it is shown at `now`, payable or not.
    pub fn get_qr_display_info_by_id(&self, qr_id: &str, now: u64) -> (r: Option<QRDisplayInfo>)
        ensures
            match find_qr(self@.qr_codes, qr_id@) {
                Some(qr) => r is Some && r->0@ == display_of(qr, now),
                None => r is None,
            },
    {
        match self.get_qr(qr_id) {
            Some(qr_code) => Some(get_qr_display_info(&qr_code, now)),
            None => None,
        }
    }

    /// The requests that `caller` made, in the order in which they were
    /// made.
    pub fn get_user_qr_codes(&self, caller: &AccountId) -> (r: Vec<QRCode>)
        ensures
            views_of(r@) == chosen(self@.qr_codes, |q: QRCodeView| q.user_id == caller@),
    {
        let mut marks: Vec<bool> = Vec::new();
        let mut i: usize = 0;
        while i < self.qr_codes.len()
            invariant
                i <= self.qr_codes.len(),
                marks@.len() == i,
                forall|k: int| 0 <= k < i ==> marks@[k] == (self@.qr_codes[k].user_id == caller@),
            decreases self.qr_codes.len() - i,
        {
            marks.push(self.qr_codes[i].user_id.same(caller));
            i += 1;
        }
        assert(marks@ =~= Seq::new(
            self@.qr_codes.len(),
            |i: int| (|q: QRCodeView| q.user_id == caller@)(self@.qr_codes[i]),
        ));
        pick_marked(&self.qr_codes, &marks)
    }

    /// Shows the request `qr_id` at `now`, if it exists and can be paid.
    pub fn validate_qr_code(&self, qr_id: &str, now: u64) -> (r: Result<QRDisplayInfo, LookupError>)
        ensures
            match shown(self@, qr_id@, now) {
                Ok(info) => r is Ok && r->Ok_0@ == info,
                Err(error) => r is Err && r->Err_0 == error,
            },
    {
        let qr_code = match self.get_qr(qr_id) {
            Some(qr_code) => qr_code,
            None => {
                return Err(LookupError::NotFound);
            },
        };
        match is_qr_code_valid(&qr_code, &self.qr_usage_logs, now) {
            Err(error) => {
                return Err(LookupError::Invalid(error));
            },
            Ok(_) => {},
        }
        Ok(get_qr_display_info(&qr_code, now))
    }
}

} // verus!
