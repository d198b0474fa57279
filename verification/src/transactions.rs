//! Payments: their identifiers, the fee and the bounds of an amount, and
//! selections from the payment log.

use crate::digest::{sha256, sha256_digest};
use crate::identity::{principal_text, AccountId};
use crate::qr::{is_qr_code_valid, redeemable, QRError};
use crate::rates::{format_token_amount, push_two_places, token_text, two_places};
use crate::rows::{chosen, pick_marked, views_of};
use crate::text::{decimal, hex_upper, push_decimal, push_hex_prefix};
use crate::types::{
    text_of, QRCode, QRCodeView, QRUsageLog, Transaction, TransactionStatus, TransactionView,
    UserStats,
};
use vstd::prelude::*;
use vstd::string::StringExecFns;
use vstd::utf8::encode_utf8;

verus! {

/// Smallest fee charged on any payment, in minor units.
pub const MIN_FEE: u64 = 10_000;

/// Smallest amount a single payment may carry, in minor units.
pub const MIN_TX: u64 = 100_000;

/// Largest amount a single payment may carry, in minor units.
pub const MAX_TX: u64 = 100_000_000_000;

/// Nanoseconds in an hour.
pub const HOUR: u64 = 60 * 60 * 1_000_000_000;

/// Nanoseconds in a day.
pub const DAY: u64 = 24 * 60 * 60 * 1_000_000_000;

/// Why an amount cannot be paid.
#[derive(Clone, Copy, Debug, PartialEq, Eq, Structural)]
pub enum AmountError {
    /// The amount is zero.
    Zero,
    /// The amount is below the smallest payment.
    TooSmall,
    /// The amount is above the largest payment.
    TooLarge,
}

/// A payment as one of its two parties sees it.
#[derive(Debug)]
pub struct TransactionSummary {
    pub id: String,
    pub amount_icp: String,
    pub amount_fiat: String,
    pub currency: String,
    pub status: String,
    pub timestamp: u64,
    pub is_incoming: bool,
    pub counterpart: AccountId,
}

/// One percent of the amount, but never less than `MIN_FEE`.
pub open spec fn fee_for(amount: u64) -> u64 {
    if amount / 100 >= MIN_FEE {
        amount / 100
    } else {
        MIN_FEE
    }
}

/// Whether an amount lies within the bounds of a single payment.
pub open spec fn within_bounds(amount: u64) -> bool {
    MIN_TX <= amount <= MAX_TX
}

/// What the check of an amount gives.
pub open spec fn amount_check(amount: u64) -> Result<(), AmountError> {
    if amount == 0 {
        Err(AmountError::Zero)
    } else if amount < MIN_TX {
        Err(AmountError::TooSmall)
    } else if amount > MAX_TX {
        Err(AmountError::TooLarge)
    } else {
        Ok(())
    }
}

/// The text from which the identifier of a payment is derived.
pub open spec fn transaction_id_seed(from: Seq<u8>, to: Seq<u8>, amount: u64, now: u64) -> Seq<
    char,
> {
    principal_text(from) + "-"@ + principal_text(to) + "-"@ + decimal(amount as nat) + "-"@
        + decimal(now as nat) + "-"@ + decimal((now % 1000000) as nat)
}

/// The identifier of the payment of `amount` from `from` to `to` at `now`:
/// `tx_` and the first 29 characters of the upper-case hexadecimal SHA-256
/// digest of the seed.
pub open spec fn transaction_id_for(from: Seq<u8>, to: Seq<u8>, amount: u64, now: u64) -> Seq<
    char,
> {
    "tx_"@ + hex_upper(sha256(encode_utf8(transaction_id_seed(from, to, amount, now)))).take(29)
}

/// The payment row that `payer` opens on the request `qr` at `now`.
pub open spec fn opened_transaction(
    qr: QRCodeView,
    payer: Seq<u8>,
    transaction_hash: Option<Seq<char>>,
    now: u64,
) -> TransactionView {
    TransactionView {
        id: transaction_id_for(payer, qr.user_id, qr.icp_amount, now),
        from: payer,
        to: qr.user_id,
        amount: qr.icp_amount,
        fiat_currency: qr.fiat_currency,
        fiat_amount: qr.fiat_amount,
        icp_amount: qr.icp_amount,
        timestamp: now,
        status: TransactionStatus::Processing,
        qr_id: qr.id,
        transaction_hash,
        fee: fee_for(qr.icp_amount),
    }
}

/// A number held at the largest `u64`.
pub open spec fn capped(n: nat) -> u64 {
    if n > u64::MAX {
        u64::MAX
    } else {
        n as u64
    }
}

/// The sum of the amounts of the payments that `user` sent.
pub open spec fn total_sent(rows: Seq<TransactionView>, user: Seq<u8>) -> nat
    decreases rows.len(),
{
    if rows.len() == 0 {
        0
    } else if rows.last().from == user {
        total_sent(rows.drop_last(), user) + rows.last().amount as nat
    } else {
        total_sent(rows.drop_last(), user)
    }
}

/// The sum of the amounts of the payments that `user` received from others.
pub open spec fn total_received(rows: Seq<TransactionView>, user: Seq<u8>) -> nat
    decreases rows.len(),
{
    if rows.len() == 0 {
        0
    } else if rows.last().from != user && rows.last().to == user {
        total_received(rows.drop_last(), user) + rows.last().amount as nat
    } else {
        total_received(rows.drop_last(), user)
    }
}

/// Whether `user` is the payer or the payee of the payment.
pub open spec fn is_party(row: TransactionView, user: Seq<u8>) -> bool {
    row.from == user || row.to == user
}

/// The number of payment rows of which `user` is a party.
pub open spec fn count_party(rows: Seq<TransactionView>, user: Seq<u8>) -> nat
    decreases rows.len(),
{
    if rows.len() == 0 {
        0
    } else if is_party(rows.last(), user) {
        count_party(rows.drop_last(), user) + 1
    } else {
        count_party(rows.drop_last(), user)
    }
}

/// The time before which a payment is older than a day at `now`.
pub open spec fn day_before(now: u64) -> u64 {
    if now < DAY {
        0
    } else {
        (now - DAY) as u64
    }
}

/// Whether a pending payment row has waited for more than an hour at `now`.
pub open spec fn is_overdue(row: TransactionView, now: u64) -> bool {
    row.status == TransactionStatus::Pending && now > row.timestamp + HOUR
}

/// The identifiers of `rows`, in order.
pub open spec fn ids_of(rows: Seq<TransactionView>) -> Seq<Seq<char>> {
    Seq::new(rows.len(), |i: int| rows[i].id)
}

/// Whether `summary` shows the payment `row` as `user` sees it: incoming
/// where the user is the payee, with the other party as counterpart.
pub open spec fn summary_of(row: TransactionView, user: Seq<u8>, summary: TransactionSummary) -> bool {
    &&& summary.id@ == row.id
    &&& summary.amount_icp@ == token_text(row.amount)
    &&& summary.amount_fiat@ == two_places(row.fiat_amount) + " "@ + row.fiat_currency
    &&& summary.currency@ == row.fiat_currency
    &&& summary.status@ == status_text(row.status)
    &&& summary.timestamp == row.timestamp
    &&& summary.is_incoming == (row.to == user)
    &&& summary.counterpart@ == if row.to == user {
        row.from
    } else {
        row.to
    }
}

/// The words that show a stage of a payment.
pub open spec fn status_text(status: TransactionStatus) -> Seq<char> {
    match status {
        TransactionStatus::Pending => "⏳ Pending"@,
        TransactionStatus::Processing => "🔄 Processing"@,
        TransactionStatus::Completed => "✅ Completed"@,
        TransactionStatus::Failed => "❌ Failed"@,
        TransactionStatus::Expired => "⏰ Expired"@,
    }
}

impl AmountError {
    /// What to tell the caller.
    pub fn message(&self) -> (text: String)
        ensures
            text@ == match *self {
                AmountError::Zero => "Transaction amount cannot be zero"@,
                AmountError::TooSmall => "Transaction amount too small. Minimum: 0.001 ICP"@,
                AmountError::TooLarge => "Transaction amount too large. Maximum: 1000 ICP"@,
            },
    {
        match self {
            AmountError::Zero => String::from_str("Transaction amount cannot be zero"),
            AmountError::TooSmall => String::from_str(
                "Transaction amount too small. Minimum: 0.001 ICP",
            ),
            AmountError::TooLarge => String::from_str(
                "Transaction amount too large. Maximum: 1000 ICP",
            ),
        }
    }
}

/// Derives the identifier of the payment of `amount` from `from` to `to` at
/// `now`.
pub fn generate_transaction_id(from: &AccountId, to: &AccountId, amount: u64, now: u64) -> (id:
    String)
    ensures
        id@ == transaction_id_for(from@, to@, amount, now),
{
    let mut seed = from.to_text();
    seed.append("-");
    let to_text = to.to_text();
    seed.append(to_text.as_str());
    seed.append("-");
    push_decimal(&mut seed, amount);
    seed.append("-");
    push_decimal(&mut seed, now);
    seed.append("-");
    push_decimal(&mut seed, now % 1000000);
    let digest = sha256_digest(seed.as_str().as_bytes());
    let mut id = String::from_str("tx_");
    push_hex_prefix(&mut id, &digest, 29);
    id
}

/// Opens a payment of `payer` on a request that can be paid at `now`, going
/// by the usage log `log`: a row in the stage `Processing` with the amounts
/// of the request and the fee on them.
pub fn create_transaction(
    qr_code: &QRCode,
    payer: AccountId,
    transaction_hash: Option<String>,
    log: &Vec<QRUsageLog>,
    now: u64,
) -> (r: Result<Transaction, QRError>)
    ensures
        match redeemable(qr_code@, views_of(log@), now) {
            Err(error) => r is Err && r->Err_0 == error,
            Ok(_) => r is Ok && r->Ok_0@ == opened_transaction(
                qr_code@,
                payer@,
                text_of(transaction_hash),
                now,
            ),
        },
{
    match is_qr_code_valid(qr_code, log, now) {
        Err(error) => {
            return Err(error);
        },
        Ok(_) => {},
    }
    let id = generate_transaction_id(&payer, &qr_code.user_id, qr_code.icp_amount, now);
    Ok(
        Transaction {
            id,
            from: payer,
            to: qr_code.user_id.clone(),
            amount: qr_code.icp_amount,
            fiat_currency: qr_code.fiat_currency.clone(),
            fiat_amount: qr_code.fiat_amount,
            icp_amount: qr_code.icp_amount,
            timestamp: now,
            status: TransactionStatus::Processing,
            qr_id: qr_code.id.clone(),
            transaction_hash,
            fee: calculate_transaction_fee(qr_code.icp_amount),
        },
    )
}

/// The fee on a payment of `amount` minor units: one percent, but never less
/// than the smallest fee.
pub fn calculate_transaction_fee(amount: u64) -> (fee: u64)
    ensures
        fee == fee_for(amount),
        fee >= MIN_FEE,
{
    let percentage_fee: u64 = amount / 100;
    if percentage_fee >= MIN_FEE {
        percentage_fee
    } else {
        MIN_FEE
    }
}

/// Checks that an amount lies within the bounds of a single payment.
pub fn validate_transaction_amount(amount: u64) -> (r: Result<(), AmountError>)
    ensures
        r == amount_check(amount),
        r is Ok <==> within_bounds(amount),
{
    if amount == 0 {
        return Err(AmountError::Zero);
    }
    if amount < MIN_TX {
        return Err(AmountError::TooSmall);
    }
    if amount > MAX_TX {
        return Err(AmountError::TooLarge);
    }
    Ok(())
}

/// The totals of `user_id` over the payment rows: what it sent, what it
/// received from others, and the number of rows it is a party of, each held
/// at the largest `u64`. The other totals are zero.
pub fn calculate_user_stats(transactions: &Vec<Transaction>, user_id: &AccountId) -> (stats:
    UserStats)
    ensures
        stats == (UserStats {
            total_sent: capped(total_sent(views_of(transactions@), user_id@)),
            total_received: capped(total_received(views_of(transactions@), user_id@)),
            transaction_count: capped(count_party(views_of(transactions@), user_id@)),
            qr_codes_generated: 0,
            total_topup: 0,
            topup_count: 0,
            current_balance: 0,
        }),
{
    let ghost rows = views_of(transactions@);
    let mut total_out: u64 = 0;
    let mut total_in: u64 = 0;
    let mut count: u64 = 0;
    let mut i: usize = 0;
    while i < transactions.len()
        invariant
            i <= transactions.len(),
            rows == views_of(transactions@),
            total_out == capped(total_sent(rows.take(i as int), user_id@)),
            total_in == capped(total_received(rows.take(i as int), user_id@)),
            count == capped(count_party(rows.take(i as int), user_id@)),
        decreases transactions.len() - i,
    {
        assert(rows.take(i + 1).drop_last() == rows.take(i as int));
        assert(rows.take(i + 1).last() == transactions@[i as int]@);
        let row = &transactions[i];
        if row.from.same(user_id) {
            total_out = total_out.saturating_add(row.amount);
            count = count.saturating_add(1);
        } else if row.to.same(user_id) {
            total_in = total_in.saturating_add(row.amount);
            count = count.saturating_add(1);
        }
        i += 1;
    }
    assert(rows.take(transactions@.len() as int) == rows);
    UserStats {
        total_sent: total_out,
        total_received: total_in,
        transaction_count: count,
        qr_codes_generated: 0,
        total_topup: 0,
        topup_count: 0,
        current_balance: 0,
    }
}

/// The payment rows in the stage `status`, in order.
pub fn filter_transactions_by_status(transactions: &Vec<Transaction>, status: TransactionStatus) -> (r:
    Vec<Transaction>)
    ensures
        views_of(r@) == chosen(views_of(transactions@), |t: TransactionView| t.status == status),
{
    let mut marks: Vec<bool> = Vec::new();
    let mut i: usize = 0;
    while i < transactions.len()
        invariant
            i <= transactions.len(),
            marks@.len() == i,
            forall|k: int| 0 <= k < i ==> marks@[k] == (views_of(transactions@)[k].status == status),
        decreases transactions.len() - i,
    {
        marks.push(transactions[i].status == status);
        i += 1;
    }
    assert(marks@ =~= Seq::new(
        views_of(transactions@).len(),
        |i: int| (|t: TransactionView| t.status == status)(views_of(transactions@)[i]),
    ));
    pick_marked(transactions, &marks)
}

/// The payment rows of which `user_id` is a party, in order.
pub fn get_user_transactions(transactions: &Vec<Transaction>, user_id: &AccountId) -> (r: Vec<
    Transaction,
>)
    ensures
        views_of(r@) == chosen(
            views_of(transactions@),
            |t: TransactionView| is_party(t, user_id@),
        ),
{
    let mut marks: Vec<bool> = Vec::new();
    let mut i: usize = 0;
    while i < transactions.len()
        invariant
            i <= transactions.len(),
            marks@.len() == i,
            forall|k: int| 0 <= k < i ==> marks@[k] == is_party(views_of(transactions@)[k], user_id@),
        decreases transactions.len() - i,
    {
        let row = &transactions[i];
        marks.push(row.from.same(user_id) || row.to.same(user_id));
        i += 1;
    }
    assert(marks@ =~= Seq::new(
        views_of(transactions@).len(),
        |i: int| (|t: TransactionView| is_party(t, user_id@))(views_of(transactions@)[i]),
    ));
    pick_marked(transactions, &marks)
}

/// The payment rows of the last day before `now`, in order.
pub fn get_recent_transactions(transactions: &Vec<Transaction>, now: u64) -> (r: Vec<Transaction>)
    ensures
        views_of(r@) == chosen(
            views_of(transactions@),
            |t: TransactionView| t.timestamp >= day_before(now),
        ),
{
    let cutoff = now.saturating_sub(DAY);
    let mut marks: Vec<bool> = Vec::new();
    let mut i: usize = 0;
    while i < transactions.len()
        invariant
            i <= transactions.len(),
            marks@.len() == i,
            cutoff == day_before(now),
            forall|k: int|
                0 <= k < i ==> marks@[k] == (views_of(transactions@)[k].timestamp >= cutoff),
        decreases transactions.len() - i,
    {
        marks.push(transactions[i].timestamp >= cutoff);
        i += 1;
    }
    assert(marks@ =~= Seq::new(
        views_of(transactions@).len(),
        |i: int| (|t: TransactionView| t.timestamp >= day_before(now))(views_of(transactions@)[i]),
    ));
    pick_marked(transactions, &marks)
}

/// Writes `amount` minor units as tokens with eight decimal places.
pub fn format_transaction_amount(amount: u64) -> (text: String)
    ensures
        text@ == token_text(amount),
{
    format_token_amount(amount)
}

/// The words that show a stage of a payment.
pub fn get_transaction_display_status(status: &TransactionStatus) -> (text: String)
    ensures
        text@ == status_text(*status),
{
    match status {
        TransactionStatus::Pending => String::from_str("⏳ Pending"),
        TransactionStatus::Processing => String::from_str("🔄 Processing"),
        TransactionStatus::Completed => String::from_str("✅ Completed"),
        TransactionStatus::Failed => String::from_str("❌ Failed"),
        TransactionStatus::Expired => String::from_str("⏰ Expired"),
    }
}

/// The payment as `user_id` sees it: incoming where the user is the payee,
/// with the other party as counterpart.
pub fn create_transaction_summary(transaction: &Transaction, user_id: &AccountId) -> (summary:
    TransactionSummary)
    ensures
        summary_of(transaction@, user_id@, summary),
{
    let is_incoming = transaction.to.same(user_id);
    let counterpart = if is_incoming {
        transaction.from.clone()
    } else {
        transaction.to.clone()
    };
    let mut amount_fiat = String::new();
    push_two_places(&mut amount_fiat, transaction.fiat_amount);
    amount_fiat.append(" ");
    amount_fiat.append(transaction.fiat_currency.as_str());
    TransactionSummary {
        id: transaction.id.clone(),
        amount_icp: format_transaction_amount(transaction.amount),
        amount_fiat,
        currency: transaction.fiat_currency.clone(),
        status: get_transaction_display_status(&transaction.status),
        timestamp: transaction.timestamp,
        is_incoming,
        counterpart,
    }
}

/// The identifiers of the pending payment rows that have waited for more
/// than an hour at `now`, in order.
pub fn find_expired_transactions(transactions: &Vec<Transaction>, now: u64) -> (expired: Vec<
    String,
>)
    ensures
        views_of(expired@) == ids_of(
            chosen(views_of(transactions@), |t: TransactionView| is_overdue(t, now)),
        ),
{
    let mut marks: Vec<bool> = Vec::new();
    let mut i: usize = 0;
    while i < transactions.len()
        invariant
            i <= transactions.len(),
            marks@.len() == i,
            forall|k: int| 0 <= k < i ==> marks@[k] == is_overdue(views_of(transactions@)[k], now),
        decreases transactions.len() - i,
    {
        let row = &transactions[i];
        let pending = match row.status {
            TransactionStatus::Pending => true,
            _ => false,
        };
        let overdue = match row.timestamp.checked_add(HOUR) {
            Some(expiry) => now > expiry,
            None => false,
        };
        marks.push(pending && overdue);
        i += 1;
    }
    assert(marks@ =~= Seq::new(
        views_of(transactions@).len(),
        |i: int| (|t: TransactionView| is_overdue(t, now))(views_of(transactions@)[i]),
    ));
    let rows = pick_marked(transactions, &marks);
    let mut expired: Vec<String> = Vec::new();
    let mut j: usize = 0;
    while j < rows.len()
        invariant
            j <= rows.len(),
            expired@.len() == j,
            forall|k: int| 0 <= k < j ==> (#[trigger] expired@[k])@ == rows@[k].id@,
        decreases rows.len() - j,
    {
        expired.push(rows[j].id.clone());
        j += 1;
    }
    assert(views_of(expired@) =~= ids_of(views_of(rows@)));
    expired
}

} // verus!
