//! Payment requests: a fiat amount frozen into a token amount, payable once
//! within half an hour, and the log of their uses.

use crate::digest::{sha256, sha256_digest};
use crate::identity::{principal_text, AccountId};
use crate::ledger::capped_sum;
use crate::rates::{
    calculate_icp_amount, conversion, currency_text, format_currency_amount, format_token_amount,
    is_supported, is_supported_currency, token_text, ConversionError, NANOS_PER_SECOND,
};
use crate::rows::{
    chosen, latest_first, pick_marked, record_row, recorded_row, sort_latest_first, views_of,
};
use crate::text::{
    chars_of, decimal, hex_upper, push_decimal, push_hex_prefix, to_unicode_upper, unicode_upper,
};
use crate::types::{
    clone_text, text_of, ExchangeRate, QRCode, QRCodeView, QRUsageLog, QRUsageType, QRUsageView,
};
use vstd::prelude::*;
use vstd::string::StringExecFns;
use vstd::utf8::encode_utf8;

verus! {

/// Nanoseconds for which a payment request can be paid.
pub const QR_LIFETIME: u64 = 30 * 60 * 1_000_000_000;

/// Characters in the identifier of a payment request.
pub const QR_ID_LENGTH: usize = 16;

/// Why a payment request cannot be paid.
#[derive(Clone, Copy, Debug, PartialEq, Eq, Structural)]
pub enum QRError {
    /// The request was paid before.
    AlreadyUsed,
    /// The time to pay the request is over.
    Expired,
}

/// Why a payment request was not made.
#[derive(Clone, Copy, Debug, PartialEq, Eq, Structural)]
pub enum QRCreateError {
    /// The fiat amount is zero.
    AmountNotPositive,
    /// The currency code is not accepted.
    UnsupportedCurrency,
    /// The amount cannot be converted into tokens.
    Conversion(ConversionError),
}

/// A payment request as it is shown to a payer.
#[derive(Debug)]
pub struct QRDisplayInfo {
    pub id: String,
    /// Fiat amount in millionths of the currency unit.
    pub fiat_amount: u64,
    pub fiat_currency: String,
    pub icp_amount: u64,
    pub formatted_fiat: String,
    pub formatted_icp: String,
    pub time_remaining_seconds: Option<u64>,
    pub is_expired: bool,
    pub is_used: bool,
    pub description: Option<String>,
}

/// What a `QRDisplayInfo` holds.
pub struct QRDisplayInfoView {
    pub id: Seq<char>,
    pub fiat_amount: u64,
    pub fiat_currency: Seq<char>,
    pub icp_amount: u64,
    pub formatted_fiat: Seq<char>,
    pub formatted_icp: Seq<char>,
    pub time_remaining_seconds: Option<u64>,
    pub is_expired: bool,
    pub is_used: bool,
    pub description: Option<Seq<char>>,
}

impl View for QRDisplayInfo {
    type V = QRDisplayInfoView;

    open spec fn view(&self) -> QRDisplayInfoView {
        QRDisplayInfoView {
            id: self.id@,
            fiat_amount: self.fiat_amount,
            fiat_currency: self.fiat_currency@,
            icp_amount: self.icp_amount,
            formatted_fiat: self.formatted_fiat@,
            formatted_icp: self.formatted_icp@,
            time_remaining_seconds: self.time_remaining_seconds,
            is_expired: self.is_expired,
            is_used: self.is_used,
            description: text_of(self.description),
        }
    }
}

/// The whole seconds left to pay a request that expires at `expire_time`;
/// nothing once the time has come.
pub open spec fn seconds_left(expire_time: u64, now: u64) -> Option<u64> {
    if now < expire_time {
        Some(((expire_time - now) / NANOS_PER_SECOND as int) as u64)
    } else {
        None
    }
}

/// The request as it is shown at `now`.
pub open spec fn display_of(qr: QRCodeView, now: u64) -> QRDisplayInfoView {
    QRDisplayInfoView {
        id: qr.id,
        fiat_amount: qr.fiat_amount,
        fiat_currency: qr.fiat_currency,
        icp_amount: qr.icp_amount,
        formatted_fiat: currency_text(qr.fiat_amount, qr.fiat_currency),
        formatted_icp: token_text(qr.icp_amount),
        time_remaining_seconds: seconds_left(qr.expire_time, now),
        is_expired: expired_at(qr.expire_time, now),
        is_used: qr.is_used,
        description: qr.description,
    }
}

/// The text from which the identifier of a payment request is derived: the
/// time, a hyphen and the textual form of the caller.
pub open spec fn qr_id_seed(caller: Seq<u8>, now: u64) -> Seq<char> {
    decimal(now as nat) + "-"@ + principal_text(caller)
}

/// The identifier of the payment request that `caller` makes at `now`: the
/// first sixteen characters of the upper-case hexadecimal SHA-256 digest of
/// the seed.
pub open spec fn qr_id_for(caller: Seq<u8>, now: u64) -> Seq<char> {
    hex_upper(sha256(encode_utf8(qr_id_seed(caller, now)))).take(16)
}

/// Whether `c` is a decimal digit or a capital letter from `A` to `F`.
pub open spec fn is_upper_hex(c: char) -> bool {
    '0' <= c <= '9' || 'A' <= c <= 'F'
}

/// Whether `id` has the form of a payment request identifier: sixteen
/// upper-case hexadecimal characters.
pub open spec fn is_qr_id(id: Seq<char>) -> bool {
    id.len() == QR_ID_LENGTH && forall|i: int| 0 <= i < id.len() ==> is_upper_hex(#[trigger] id[i])
}

/// Whether the time to pay a request that expires at `expire_time` is over
/// at `now`.
pub open spec fn expired_at(expire_time: u64, now: u64) -> bool {
    now > expire_time
}

/// Whether the usage log holds a completed payment of the request `qr_id`.
pub open spec fn is_used(log: Seq<QRUsageView>, qr_id: Seq<char>) -> bool {
    exists|i: int|
        0 <= i < log.len() && (#[trigger] log[i]).qr_id == qr_id && log[i].usage_type
            == QRUsageType::PaymentCompleted
}

/// Whether the request can be paid at `now`: it is used where the usage log
/// holds a completed payment of it; else it is expired where its time is
/// over. The flag of the request is a hint for display and decides nothing.
pub open spec fn redeemable(qr: QRCodeView, log: Seq<QRUsageView>, now: u64) -> Result<
    (),
    QRError,
> {
    if is_used(log, qr.id) {
        Err(QRError::AlreadyUsed)
    } else if expired_at(qr.expire_time, now) {
        Err(QRError::Expired)
    } else {
        Ok(())
    }
}

/// The request that `user_id` makes at `now` for `fiat_amount` in
/// `fiat_currency`, at the rate `rate`.
pub open spec fn new_qr_code(
    user_id: Seq<u8>,
    fiat_amount: u64,
    fiat_currency: Seq<char>,
    description: Option<Seq<char>>,
    rate: u64,
    now: u64,
) -> Result<QRCodeView, QRCreateError> {
    if fiat_amount == 0 {
        Err(QRCreateError::AmountNotPositive)
    } else if !is_supported(fiat_currency) {
        Err(QRCreateError::UnsupportedCurrency)
    } else {
        match conversion(fiat_amount, rate) {
            Err(error) => Err(QRCreateError::Conversion(error)),
            Ok(icp_amount) => Ok(
                QRCodeView {
                    id: qr_id_for(user_id, now),
                    user_id,
                    fiat_amount,
                    fiat_currency: unicode_upper(fiat_currency),
                    icp_amount,
                    expire_time: capped_sum(now, QR_LIFETIME),
                    created_at: now,
                    is_used: false,
                    description,
                },
            ),
        }
    }
}

/// A request or the reason why there is none, the request as its view.
pub open spec fn created_view(r: Result<QRCode, QRCreateError>) -> Result<
    QRCodeView,
    QRCreateError,
> {
    match r {
        Ok(qr) => Ok(qr@),
        Err(error) => Err(error),
    }
}

/// The identifier of an entry of the usage log that `caller` brings about at
/// `now`: `QRU_`, the first eight characters of the caller's textual form,
/// `_` and the time.
pub open spec fn usage_log_id(caller: Seq<u8>, now: u64) -> Seq<char> {
    let text = principal_text(caller);
    let prefix = if text.len() < 8 {
        text
    } else {
        text.take(8)
    };
    "QRU_"@ + prefix + "_"@ + decimal(now as nat)
}

impl QRError {
    /// What to tell the caller.
    pub fn message(&self) -> (text: String)
        ensures
            text@ == match *self {
                QRError::AlreadyUsed => "QR code has already been used"@,
                QRError::Expired => "QR code has expired"@,
            },
    {
        match self {
            QRError::AlreadyUsed => String::from_str("QR code has already been used"),
            QRError::Expired => String::from_str("QR code has expired"),
        }
    }
}

/// What to tell the caller whose request in `currency` was not made.
pub open spec fn create_words(error: QRCreateError, currency: Seq<char>) -> Seq<char> {
    match error {
        QRCreateError::AmountNotPositive => "Amount must be greater than 0"@,
        QRCreateError::UnsupportedCurrency => "Unsupported currency: "@ + currency,
        QRCreateError::Conversion(ConversionError::AmountNotPositive) => "Fiat amount must be greater than 0"@,
        QRCreateError::Conversion(ConversionError::RateNotPositive) => "Exchange rate must be greater than 0"@,
        QRCreateError::Conversion(ConversionError::ConversionTooSmall) => "Amount too small, results in 0 e8s"@,
    }
}

impl QRCreateError {
    /// What to tell the caller whose request in `currency` was not made.
    pub fn message(&self, currency: &str) -> (text: String)
        ensures
            text@ == create_words(*self, currency@),
    {
        match self {
            QRCreateError::AmountNotPositive => String::from_str("Amount must be greater than 0"),
            QRCreateError::UnsupportedCurrency => {
                let mut text = String::from_str("Unsupported currency: ");
                text.append(currency);
                text
            },
            QRCreateError::Conversion(error) => error.message(),
        }
    }
}

/// The beginning of the upper-case hexadecimal of bytes is made of
/// upper-case hexadecimal characters.
pub proof fn lemma_hex_is_upper_hex(bytes: Seq<u8>, count: int)
    requires
        0 <= count <= 2 * bytes.len(),
    ensures
        hex_upper(bytes).take(count).len() == count,
        forall|i: int| 0 <= i < count ==> is_upper_hex(#[trigger] hex_upper(bytes).take(count)[i]),
{
    assert forall|i: int| 0 <= i < count implies is_upper_hex(
        #[trigger] hex_upper(bytes).take(count)[i],
    ) by {
        let b = bytes[i / 2];
        let d: nat = if i % 2 == 0 {
            (b / 16) as nat
        } else {
            (b % 16) as nat
        };
        assert(d < 16);
        assert(hex_upper(bytes).take(count)[i] == crate::text::hex_char(d));
    }
}

/// Derives the identifier of the payment request that `caller` makes at
/// `now`.
pub fn generate_qr_id(caller: &AccountId, now: u64) -> (id: String)
    ensures
        id@ == qr_id_for(caller@, now),
        is_qr_id(id@),
{
    let mut seed = String::new();
    push_decimal(&mut seed, now);
    seed.append("-");
    let text = caller.to_text();
    seed.append(text.as_str());
    let digest = sha256_digest(seed.as_str().as_bytes());
    let mut id = String::new();
    push_hex_prefix(&mut id, &digest, QR_ID_LENGTH);
    proof {
        lemma_hex_is_upper_hex(digest@, QR_ID_LENGTH as int);
    }
    id
}

/// Makes a payment request of `user_id` for `fiat_amount`, in millionths of
/// `fiat_currency`, at the given rate. The token amount is fixed now; the
/// request can be paid for half an hour.
pub fn create_qr_code(
    user_id: AccountId,
    fiat_amount: u64,
    fiat_currency: String,
    description: Option<String>,
    exchange_rate: &ExchangeRate,
    now: u64,
) -> (r: Result<QRCode, QRCreateError>)
    ensures
        created_view(r) == new_qr_code(
            user_id@,
            fiat_amount,
            fiat_currency@,
            text_of(description),
            exchange_rate.rate,
            now,
        ),
        r is Ok ==> is_qr_id(r->Ok_0.id@),
{
    if fiat_amount == 0 {
        return Err(QRCreateError::AmountNotPositive);
    }
    if !is_supported_currency(fiat_currency.as_str()) {
        return Err(QRCreateError::UnsupportedCurrency);
    }
    let icp_amount = match calculate_icp_amount(fiat_amount, exchange_rate.rate) {
        Ok(amount) => amount,
        Err(error) => {
            return Err(QRCreateError::Conversion(error));
        },
    };
    let id = generate_qr_id(&user_id, now);
    Ok(
        QRCode {
            id,
            user_id,
            fiat_amount,
            fiat_currency: to_unicode_upper(fiat_currency.as_str()),
            icp_amount,
            expire_time: now.saturating_add(QR_LIFETIME),
            created_at: now,
            is_used: false,
            description,
        },
    )
}

/// Whether the usage log holds a completed payment of the request `qr_id`.
pub fn is_qr_already_used(log: &Vec<QRUsageLog>, qr_id: &str) -> (r: bool)
    ensures
        r == is_used(views_of(log@), qr_id@),
{
    let mut i: usize = 0;
    while i < log.len()
        invariant
            i <= log.len(),
            forall|k: int|
                0 <= k < i ==> !((#[trigger] views_of(log@)[k]).qr_id == qr_id@ && views_of(
                    log@,
                )[k].usage_type == QRUsageType::PaymentCompleted),
        decreases log.len() - i,
    {
        assert(views_of(log@)[i as int] == log@[i as int]@);
        let completed = match log[i].usage_type {
            QRUsageType::PaymentCompleted => true,
            _ => false,
        };
        if completed && crate::text::same_text(log[i].qr_id.as_str(), qr_id) {
            return true;
        }
        i += 1;
    }
    false
}

/// Whether the request can be paid at `now`. The usage log alone decides
/// whether it was used; the flag of the request is not looked at.
pub fn is_qr_code_valid(qr_code: &QRCode, log: &Vec<QRUsageLog>, now: u64) -> (r: Result<
    (),
    QRError,
>)
    ensures
        r == redeemable(qr_code@, views_of(log@), now),
{
    if is_qr_already_used(log, qr_code.id.as_str()) {
        return Err(QRError::AlreadyUsed);
    }
    if now > qr_code.expire_time {
        return Err(QRError::Expired);
    }
    Ok(())
}

/// Sets the flag of the request, a hint for those who show it. The usage log
/// is not touched, and whether the request can be paid does not change.
pub fn mark_qr_as_used(qr_code: &mut QRCode)
    ensures
        final(qr_code)@ == (QRCodeView { is_used: true, ..old(qr_code)@ }),
{
    qr_code.is_used = true;
}

/// The address under which a payer finds the request.
pub fn generate_qr_data_url(qr_id: &str, frontend_url: &str) -> (url: String)
    ensures
        url@ == frontend_url@ + "/pay/"@ + qr_id@,
{
    let mut url = String::from_str(frontend_url);
    url.append("/pay/");
    url.append(qr_id);
    url
}

/// The request as it is shown at `now`: its amounts as text, the whole
/// seconds left to pay it, and whether its time is over. Nothing is changed.
pub fn get_qr_display_info(qr_code: &QRCode, now: u64) -> (info: QRDisplayInfo)
    ensures
        info@ == display_of(qr_code@, now),
{
    let time_remaining = if now < qr_code.expire_time {
        Some((qr_code.expire_time - now) / NANOS_PER_SECOND)
    } else {
        None
    };
    QRDisplayInfo {
        id: qr_code.id.clone(),
        fiat_amount: qr_code.fiat_amount,
        fiat_currency: qr_code.fiat_currency.clone(),
        icp_amount: qr_code.icp_amount,
        formatted_fiat: format_currency_amount(qr_code.fiat_amount, qr_code.fiat_currency.as_str()),
        formatted_icp: format_token_amount(qr_code.icp_amount),
        time_remaining_seconds: time_remaining,
        is_expired: now > qr_code.expire_time,
        is_used: qr_code.is_used,
        description: clone_text(&qr_code.description),
    }
}

/// Whether `qr_id` has the form of a payment request identifier.
pub fn validate_qr_id_format(qr_id: &str) -> (r: bool)
    ensures
        r == is_qr_id(qr_id@),
{
    let chars = chars_of(qr_id);
    if chars.len() != QR_ID_LENGTH {
        return false;
    }
    let mut i: usize = 0;
    while i < chars.len()
        invariant
            i <= chars.len(),
            chars@ == qr_id@,
            forall|k: int| 0 <= k < i ==> is_upper_hex(#[trigger] chars@[k]),
        decreases chars.len() - i,
    {
        let c = chars[i];
        if !(('0' <= c && c <= '9') || ('A' <= c && c <= 'F')) {
            return false;
        }
        i += 1;
    }
    true
}

/// Whether the time to pay the request is over at `now`.
pub fn is_qr_expired(qr_code: &QRCode, now: u64) -> (r: bool)
    ensures
        r == expired_at(qr_code.expire_time, now),
{
    now > qr_code.expire_time
}

/// The identifier of an entry of the usage log that `caller` brings about at
/// `now`.
pub fn generate_qr_usage_log_id(caller: &AccountId, now: u64) -> (id: String)
    ensures
        id@ == usage_log_id(caller@, now),
{
    let text = caller.to_text();
    let chars = chars_of(text.as_str());
    let mut id = String::from_str("QRU_");
    let count: usize = if chars.len() < 8 {
        chars.len()
    } else {
        8
    };
    let mut i: usize = 0;
    while i < count
        invariant
            i <= count,
            count <= chars.len(),
            id@ == "QRU_"@ + chars@.take(i as int),
        decreases count - i,
    {
        id.push(chars[i]);
        i += 1;
    }
    assert(chars@.take(chars@.len() as int) == chars@);
    id.append("_");
    push_decimal(&mut id, now);
    id
}

/// Adds an entry with the given fields to the usage log and returns a copy
/// of it. The log keeps all the entries it had; the entry gets the
/// identifier that its caller and time give it, lengthened where an entry
/// has it already.
pub fn create_qr_usage_log(
    log: &mut Vec<QRUsageLog>,
    caller: &AccountId,
    qr_id: String,
    user_id: AccountId,
    used_by: AccountId,
    transaction_id: String,
    usage_type: QRUsageType,
    now: u64,
) -> (entry: QRUsageLog)
    ensures
        views_of(final(log)@) == views_of(old(log)@).push(entry@),
        entry@ == recorded_row::<QRUsageLog>(
            views_of(old(log)@),
            QRUsageView {
                id: usage_log_id(caller@, now),
                qr_id: qr_id@,
                user_id: user_id@,
                used_by: used_by@,
                transaction_id: transaction_id@,
                timestamp: now,
                usage_type,
            },
        ),
{
    let entry = QRUsageLog {
        id: generate_qr_usage_log_id(caller, now),
        qr_id,
        user_id,
        used_by,
        transaction_id,
        timestamp: now,
        usage_type,
    };
    record_row(log, entry)
}

/// The entries of the usage log that speak of the request `qr_id`, latest
/// first.
pub fn get_qr_usage_history(log: &Vec<QRUsageLog>, qr_id: &str) -> (history: Vec<QRUsageLog>)
    ensures
        views_of(history@) == latest_first::<QRUsageLog>(
            chosen(views_of(log@), |e: QRUsageView| e.qr_id == qr_id@),
        ),
{
    let mut marks: Vec<bool> = Vec::new();
    let mut i: usize = 0;
    while i < log.len()
        invariant
            i <= log.len(),
            marks@.len() == i,
            forall|k: int| 0 <= k < i ==> marks@[k] == (views_of(log@)[k].qr_id == qr_id@),
        decreases log.len() - i,
    {
        marks.push(crate::text::same_text(log[i].qr_id.as_str(), qr_id));
        i += 1;
    }
    assert(marks@ =~= Seq::new(
        views_of(log@).len(),
        |i: int| (|e: QRUsageView| e.qr_id == qr_id@)(views_of(log@)[i]),
    ));
    let mine = pick_marked(log, &marks);
    sort_latest_first(&mine)
}

/// All entries of the usage log, latest first.
pub fn get_all_qr_usage_logs(log: &Vec<QRUsageLog>) -> (all: Vec<QRUsageLog>)
    ensures
        views_of(all@) == latest_first::<QRUsageLog>(views_of(log@)),
{
    sort_latest_first(log)
}

/// Once the usage log holds a completed payment of a request, it holds it
/// whatever is added to the log.
pub proof fn lemma_used_stays_used(log: Seq<QRUsageView>, more: Seq<QRUsageView>, qr_id: Seq<char>)
    requires
        is_used(log, qr_id),
    ensures
        is_used(log + more, qr_id),
{
    let i = choose|i: int|
        0 <= i < log.len() && (#[trigger] log[i]).qr_id == qr_id && log[i].usage_type
            == QRUsageType::PaymentCompleted;
    assert((log + more)[i] == log[i]);
}

/// A request of which the usage log holds a completed payment cannot be
/// paid, at no time and whatever the request itself says.
pub proof fn lemma_used_is_not_redeemable(qr: QRCodeView, log: Seq<QRUsageView>, now: u64)
    requires
        is_used(log, qr.id),
    ensures
        redeemable(qr, log, now) == Err::<(), QRError>(QRError::AlreadyUsed),
{
}

/// The flag of a request decides nothing: with the flag set or unset, the
/// request can be paid at the same times.
pub proof fn lemma_flag_decides_nothing(qr: QRCodeView, log: Seq<QRUsageView>, now: u64)
    ensures
        redeemable(QRCodeView { is_used: true, ..qr }, log, now) == redeemable(
            QRCodeView { is_used: false, ..qr },
            log,
            now,
        ),
{
}

} // verus!
