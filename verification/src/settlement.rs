//! Settling a payment request: the checks, the balance changes and the
//! records that a payment leaves.

use crate::gateway::{
    extends, find_qr, is_registered, lemma_find_qr, rows_distinct, Gateway, GatewayView,
};
use crate::identity::{anonymous_bytes, AccountId};
use crate::ledger::{
    balance_of, capped_sum, floored_difference, get_current_balance,
    lemma_append_keeps_well_recorded, lemma_balance_after_latest, lemma_balance_of_other_account,
    none_later, well_recorded,
};
use crate::qr::{
    is_qr_code_valid, is_used, lemma_used_stays_used, redeemable, usage_log_id,
    generate_qr_usage_log_id, QRError,
};
use crate::rates::{format_token_amount, plain_text, push_plain_amount, token_text};
use crate::rows::{distinct, lemma_recorded_is_fresh, record_row, recorded, recorded_row};
use crate::text::{decimal, push_decimal};
use crate::transactions::{
    amount_check, calculate_transaction_fee, fee_for, generate_transaction_id,
    transaction_id_for, validate_transaction_amount, within_bounds, AmountError,
};
use crate::types::{
    clone_text, text_of, BalanceChangeLog, BalanceChangeType, BalanceChangeView, QRCode,
    QRCodeView, QRUsageLog, QRUsageType, QRUsageView, Transaction, TransactionStatus,
    TransactionView,
};
use vstd::prelude::*;
use vstd::string::StringExecFns;

verus! {

/// Why a payment was not made.
#[derive(Clone, Copy, Debug, PartialEq, Eq, Structural)]
pub enum PaymentError {
    /// The payer is not authenticated.
    Anonymous,
    /// There is no payment request with this identifier.
    NotFound,
    /// The request was paid before.
    AlreadyUsed,
    /// The time to pay the request is over.
    Expired,
    /// The payer is the one who made the request.
    SelfPaymentNotAllowed,
    /// The one who made the request is no registered account.
    RecipientNotRegistered,
    /// The amount of the request is outside the bounds of a payment.
    AmountOutOfBounds(AmountError),
    /// The payer's balance does not cover the amount and the fee.
    InsufficientBalance,
}

/// The checks before a payment, in their order: the payer must be
/// authenticated; the request must exist, must not have been paid and must
/// not be expired; the payer must not be its maker; its maker must be
/// registered; its amount must lie within the bounds; and the payer's
/// balance must cover the amount and the fee. Where all hold, the request to
/// settle is given.
pub open spec fn settlement_check(state: GatewayView, qr_id: Seq<char>, payer: Seq<u8>, now: u64) -> Result<
    QRCodeView,
    PaymentError,
> {
    if payer == anonymous_bytes() {
        Err(PaymentError::Anonymous)
    } else {
        match find_qr(state.qr_codes, qr_id) {
            None => Err(PaymentError::NotFound),
            Some(qr) => match redeemable(qr, state.qr_usage_logs, now) {
                Err(QRError::AlreadyUsed) => Err(PaymentError::AlreadyUsed),
                Err(QRError::Expired) => Err(PaymentError::Expired),
                Ok(_) => {
                    if payer == qr.user_id {
                        Err(PaymentError::SelfPaymentNotAllowed)
                    } else if !is_registered(state.users, qr.user_id) {
                        Err(PaymentError::RecipientNotRegistered)
                    } else {
                        match amount_check(qr.icp_amount) {
                            Err(error) => Err(PaymentError::AmountOutOfBounds(error)),
                            Ok(_) => {
                                if qr.icp_amount + fee_for(qr.icp_amount) > balance_of(
                                    state.balance_change_logs,
                                    payer,
                                ) {
                                    Err(PaymentError::InsufficientBalance)
                                } else {
                                    Ok(qr)
                                }
                            },
                        }
                    }
                },
            },
        }
    }
}

/// The row of the payment of `qr` by `payer` in the stage `status`, written
/// at the time `at`; `word` names the stage in its identifier.
pub open spec fn payment_row(
    qr: QRCodeView,
    payer: Seq<u8>,
    transaction_hash: Option<Seq<char>>,
    now: u64,
    status: TransactionStatus,
    word: Seq<char>,
    at: u64,
) -> TransactionView {
    TransactionView {
        id: transaction_id_for(payer, qr.user_id, qr.icp_amount, now) + word + decimal(at as nat),
        from: payer,
        to: qr.user_id,
        amount: qr.icp_amount,
        fiat_currency: qr.fiat_currency,
        fiat_amount: qr.fiat_amount,
        icp_amount: qr.icp_amount,
        timestamp: at,
        status,
        qr_id: qr.id,
        transaction_hash,
        fee: fee_for(qr.icp_amount),
    }
}

/// The row that opens the payment.
pub open spec fn pending_row(
    qr: QRCodeView,
    payer: Seq<u8>,
    transaction_hash: Option<Seq<char>>,
    now: u64,
) -> TransactionView {
    payment_row(qr, payer, transaction_hash, now, TransactionStatus::Pending, "_PENDING_"@, now)
}

/// The row of the payment at work. Its identifier is the reference of the
/// balance changes of the payment.
pub open spec fn processing_row(
    qr: QRCodeView,
    payer: Seq<u8>,
    transaction_hash: Option<Seq<char>>,
    now: u64,
) -> TransactionView {
    payment_row(
        qr,
        payer,
        transaction_hash,
        now,
        TransactionStatus::Processing,
        "_PROCESSING_"@,
        capped_sum(now, 1),
    )
}

/// The row that ends the payment.
pub open spec fn completed_row(
    qr: QRCodeView,
    payer: Seq<u8>,
    transaction_hash: Option<Seq<char>>,
    now: u64,
) -> TransactionView {
    payment_row(
        qr,
        payer,
        transaction_hash,
        now,
        TransactionStatus::Completed,
        "_COMPLETED_"@,
        capped_sum(now, 2),
    )
}

/// The balance change that takes the amount from the payer.
pub open spec fn sent_change(
    qr: QRCodeView,
    payer: Seq<u8>,
    reference: Seq<char>,
    payer_balance: u64,
    now: u64,
) -> BalanceChangeView {
    BalanceChangeView {
        id: "BAL_PAYMENT_"@ + reference + "_"@ + decimal(now as nat),
        user_id: payer,
        change_type: BalanceChangeType::PaymentSent,
        amount: qr.icp_amount,
        previous_balance: payer_balance,
        new_balance: floored_difference(payer_balance, qr.icp_amount),
        timestamp: now,
        reference_id: reference,
        description: "Payment sent: "@ + plain_text(qr.fiat_amount) + " "@ + qr.fiat_currency,
    }
}

/// The balance change that takes the fee from the payer. The fee is given to
/// nobody.
pub open spec fn fee_change(
    qr: QRCodeView,
    payer: Seq<u8>,
    reference: Seq<char>,
    payer_balance: u64,
    now: u64,
) -> BalanceChangeView {
    BalanceChangeView {
        id: "BAL_FEE_"@ + reference + "_"@ + decimal(capped_sum(now, 1) as nat),
        user_id: payer,
        change_type: BalanceChangeType::FeeDeducted,
        amount: fee_for(qr.icp_amount),
        previous_balance: floored_difference(payer_balance, qr.icp_amount),
        new_balance: floored_difference(
            floored_difference(payer_balance, qr.icp_amount),
            fee_for(qr.icp_amount),
        ),
        timestamp: capped_sum(now, 1),
        reference_id: reference,
        description: "Transaction fee: "@ + token_text(fee_for(qr.icp_amount)),
    }
}

/// The balance change that gives the amount to the maker of the request.
pub open spec fn received_change(
    qr: QRCodeView,
    reference: Seq<char>,
    recipient_balance: u64,
    now: u64,
) -> BalanceChangeView {
    BalanceChangeView {
        id: "BAL_RECEIVED_"@ + reference + "_"@ + decimal(capped_sum(now, 2) as nat),
        user_id: qr.user_id,
        change_type: BalanceChangeType::PaymentReceived,
        amount: qr.icp_amount,
        previous_balance: recipient_balance,
        new_balance: capped_sum(recipient_balance, qr.icp_amount),
        timestamp: capped_sum(now, 2),
        reference_id: reference,
        description: "Payment received: "@ + plain_text(qr.fiat_amount) + " "@ + qr.fiat_currency,
    }
}

/// The entry of the usage log that makes the request paid for good.
pub open spec fn completed_use(qr: QRCodeView, payer: Seq<u8>, transaction_id: Seq<char>, now: u64) -> QRUsageView {
    QRUsageView {
        id: usage_log_id(payer, now),
        qr_id: qr.id,
        user_id: qr.user_id,
        used_by: payer,
        transaction_id,
        timestamp: now,
        usage_type: QRUsageType::PaymentCompleted,
    }
}

/// The payment rows after `payer` has paid the request `qr` at `now`: the
/// rows of the three stages, recorded one after the other, each under an
/// identifier that no row had.
pub open spec fn payment_rows(
    rows: Seq<TransactionView>,
    qr: QRCodeView,
    payer: Seq<u8>,
    transaction_hash: Option<Seq<char>>,
    now: u64,
) -> Seq<TransactionView> {
    recorded::<Transaction>(
        recorded::<Transaction>(
            recorded::<Transaction>(rows, pending_row(qr, payer, transaction_hash, now)),
            processing_row(qr, payer, transaction_hash, now),
        ),
        completed_row(qr, payer, transaction_hash, now),
    )
}

/// The row of the payment at work as it is kept. Its identifier is the
/// reference of the balance changes of the payment.
pub open spec fn kept_processing(
    rows: Seq<TransactionView>,
    qr: QRCodeView,
    payer: Seq<u8>,
    transaction_hash: Option<Seq<char>>,
    now: u64,
) -> TransactionView {
    payment_rows(rows, qr, payer, transaction_hash, now)[rows.len() as int + 1]
}

/// The row that ends the payment as it is kept.
pub open spec fn kept_completed(
    rows: Seq<TransactionView>,
    qr: QRCodeView,
    payer: Seq<u8>,
    transaction_hash: Option<Seq<char>>,
    now: u64,
) -> TransactionView {
    payment_rows(rows, qr, payer, transaction_hash, now)[rows.len() as int + 2]
}

/// The ledger after `payer` has paid the request `qr` at `now`: three
/// balance changes with the reference `reference`, recorded one after the
/// other, which take the amount and the fee from the payer and give the
/// amount to the maker of the request.
pub open spec fn payment_changes(
    log: Seq<BalanceChangeView>,
    qr: QRCodeView,
    payer: Seq<u8>,
    reference: Seq<char>,
    now: u64,
) -> Seq<BalanceChangeView> {
    recorded::<BalanceChangeLog>(
        recorded::<BalanceChangeLog>(
            recorded::<BalanceChangeLog>(
                log,
                sent_change(qr, payer, reference, balance_of(log, payer), now),
            ),
            fee_change(qr, payer, reference, balance_of(log, payer), now),
        ),
        received_change(qr, reference, balance_of(log, qr.user_id), now),
    )
}

/// The gateway after `payer` has paid the request `qr` at `now`: three
/// payment rows, one per stage; three balance changes with the identifier of
/// the row at work as their reference; and one entry of the usage log, which
/// names the row that ends the payment. Each is recorded under an
/// identifier that no row of its table had. Nothing else is changed.
pub open spec fn settled(
    state: GatewayView,
    qr: QRCodeView,
    payer: Seq<u8>,
    transaction_hash: Option<Seq<char>>,
    now: u64,
) -> GatewayView {
    GatewayView {
        transactions: payment_rows(state.transactions, qr, payer, transaction_hash, now),
        balance_change_logs: payment_changes(
            state.balance_change_logs,
            qr,
            payer,
            kept_processing(state.transactions, qr, payer, transaction_hash, now).id,
            now,
        ),
        qr_usage_logs: recorded::<QRUsageLog>(
            state.qr_usage_logs,
            completed_use(
                qr,
                payer,
                kept_completed(state.transactions, qr, payer, transaction_hash, now).id,
                now,
            ),
        ),
        ..state
    }
}

/// A payment is made exactly when the payer is authenticated, the request
/// exists, the usage log holds no completed payment of it, its time is not
/// over, the payer is not its maker, its maker is registered, its amount
/// lies within the bounds and the payer's balance covers amount and fee.
pub proof fn lemma_payment_is_made_exactly_when(
    state: GatewayView,
    qr_id: Seq<char>,
    payer: Seq<u8>,
    now: u64,
)
    ensures
        settlement_check(state, qr_id, payer, now) is Ok <==> {
            &&& payer != anonymous_bytes()
            &&& find_qr(state.qr_codes, qr_id) is Some
            &&& !is_used(state.qr_usage_logs, qr_id)
            &&& now <= find_qr(state.qr_codes, qr_id)->0.expire_time
            &&& payer != find_qr(state.qr_codes, qr_id)->0.user_id
            &&& is_registered(state.users, find_qr(state.qr_codes, qr_id)->0.user_id)
            &&& within_bounds(find_qr(state.qr_codes, qr_id)->0.icp_amount)
            &&& balance_of(state.balance_change_logs, payer) >= find_qr(
                state.qr_codes,
                qr_id,
            )->0.icp_amount + fee_for(find_qr(state.qr_codes, qr_id)->0.icp_amount)
        },
{
    if find_qr(state.qr_codes, qr_id) is Some {
        lemma_find_qr(state.qr_codes, Seq::empty(), qr_id);
    }
}

/// A request can be paid once: after a payment of it, every later attempt
/// of an authenticated payer to pay it fails as already used, at whatever
/// time and whatever has been added to the gateway since.
pub proof fn lemma_single_use(
    state: GatewayView,
    qr_id: Seq<char>,
    payer: Seq<u8>,
    transaction_hash: Option<Seq<char>>,
    now: u64,
    later: GatewayView,
    next_payer: Seq<u8>,
    next_time: u64,
)
    requires
        settlement_check(state, qr_id, payer, now) is Ok,
        extends(
            settled(
                state,
                settlement_check(state, qr_id, payer, now)->Ok_0,
                payer,
                transaction_hash,
                now,
            ),
            later,
        ),
        next_payer != anonymous_bytes(),
    ensures
        settlement_check(later, qr_id, next_payer, next_time) == Err::<QRCodeView, PaymentError>(
            PaymentError::AlreadyUsed,
        ),
{
    let qr = settlement_check(state, qr_id, payer, now)->Ok_0;
    let after = settled(state, qr, payer, transaction_hash, now);
    let more_codes = later.qr_codes.skip(state.qr_codes.len() as int);
    assert(state.qr_codes + more_codes =~= later.qr_codes);
    lemma_find_qr(state.qr_codes, more_codes, qr_id);
    assert(after.transactions.len() == state.transactions.len() + 3);
    let more_uses = later.qr_usage_logs.skip(after.qr_usage_logs.len() as int);
    assert(after.qr_usage_logs + more_uses =~= later.qr_usage_logs);
    assert(is_used(after.qr_usage_logs, qr_id)) by {
        let last = after.qr_usage_logs.len() - 1;
        assert(after.qr_usage_logs[last].qr_id == qr.id);
        assert(after.qr_usage_logs[last].usage_type == QRUsageType::PaymentCompleted);
    }
    lemma_used_stays_used(after.qr_usage_logs, more_uses, qr_id);
}

/// Whether the usage log holds at most one completed payment of each
/// request.
pub open spec fn paid_at_most_once(log: Seq<QRUsageView>) -> bool {
    forall|i: int, j: int|
        0 <= i < log.len() && 0 <= j < log.len() && i != j && (#[trigger] log[i]).usage_type
            == QRUsageType::PaymentCompleted && (#[trigger] log[j]).usage_type
            == QRUsageType::PaymentCompleted ==> log[i].qr_id != log[j].qr_id
}

/// A payment keeps a usage log in which each request is paid at most once
/// that way: it adds a completed payment only of a request that has none.
pub proof fn lemma_paid_at_most_once(
    state: GatewayView,
    qr_id: Seq<char>,
    payer: Seq<u8>,
    transaction_hash: Option<Seq<char>>,
    now: u64,
)
    requires
        settlement_check(state, qr_id, payer, now) is Ok,
        paid_at_most_once(state.qr_usage_logs),
    ensures
        paid_at_most_once(
            settled(
                state,
                settlement_check(state, qr_id, payer, now)->Ok_0,
                payer,
                transaction_hash,
                now,
            ).qr_usage_logs,
        ),
{
    let qr = settlement_check(state, qr_id, payer, now)->Ok_0;
    let before = state.qr_usage_logs;
    let after = settled(state, qr, payer, transaction_hash, now).qr_usage_logs;
    assert(!is_used(before, qr.id));
    assert forall|i: int, j: int|
        0 <= i < after.len() && 0 <= j < after.len() && i != j && (#[trigger] after[i]).usage_type
            == QRUsageType::PaymentCompleted && (#[trigger] after[j]).usage_type
            == QRUsageType::PaymentCompleted implies after[i].qr_id != after[j].qr_id by {
        if i < before.len() && j < before.len() {
            assert(after[i] == before[i] && after[j] == before[j]);
        } else if i < before.len() {
            assert(after[i] == before[i]);
            assert(after[j].qr_id == qr.id);
        } else {
            assert(after[j] == before[j]);
            assert(after[i].qr_id == qr.id);
        }
    }
}

/// No request whose amount lies outside the bounds of a payment is ever
/// paid.
pub proof fn lemma_bounds_enforced(state: GatewayView, qr_id: Seq<char>, payer: Seq<u8>, now: u64)
    requires
        find_qr(state.qr_codes, qr_id) is Some,
        !within_bounds(find_qr(state.qr_codes, qr_id)->0.icp_amount),
    ensures
        settlement_check(state, qr_id, payer, now) is Err,
{
}

/// Where no change of payer or payee is later than the payment, the payment
/// takes the amount and the fee from the payer's balance, adds the amount to
/// the payee's, and keeps a well recorded ledger well recorded.
pub proof fn lemma_settlement_moves_amount(
    state: GatewayView,
    qr_id: Seq<char>,
    payer: Seq<u8>,
    transaction_hash: Option<Seq<char>>,
    now: u64,
)
    requires
        settlement_check(state, qr_id, payer, now) is Ok,
        state.balance_change_logs.len() + 3 <= usize::MAX,
        none_later(state.balance_change_logs, payer, now),
        none_later(
            state.balance_change_logs,
            settlement_check(state, qr_id, payer, now)->Ok_0.user_id,
            now,
        ),
    ensures
        ({
            let qr = settlement_check(state, qr_id, payer, now)->Ok_0;
            let before = state.balance_change_logs;
            let after = settled(state, qr, payer, transaction_hash, now).balance_change_logs;
            &&& balance_of(after, payer) == balance_of(before, payer) - qr.icp_amount - fee_for(
                qr.icp_amount,
            )
            &&& balance_of(after, qr.user_id) == capped_sum(
                balance_of(before, qr.user_id),
                qr.icp_amount,
            )
            &&& well_recorded(before) ==> well_recorded(after)
        }),
{
    let qr = settlement_check(state, qr_id, payer, now)->Ok_0;
    let before = state.balance_change_logs;
    let reference = kept_processing(state.transactions, qr, payer, transaction_hash, now).id;
    let sent = recorded_row::<BalanceChangeLog>(
        before,
        sent_change(qr, payer, reference, balance_of(before, payer), now),
    );
    let first = before.push(sent);
    let fee = recorded_row::<BalanceChangeLog>(
        first,
        fee_change(qr, payer, reference, balance_of(before, payer), now),
    );
    let second = first.push(fee);
    let received = recorded_row::<BalanceChangeLog>(
        second,
        received_change(qr, reference, balance_of(before, qr.user_id), now),
    );
    let third = second.push(received);
    assert(settled(state, qr, payer, transaction_hash, now).balance_change_logs == third);
    lemma_balance_after_latest(before, sent);
    assert(none_later(first, payer, fee.timestamp)) by {
        assert forall|i: int| 0 <= i < first.len() && (#[trigger] first[i]).user_id
            == payer implies first[i].timestamp <= fee.timestamp by {
            if i < before.len() {
                assert(first[i] == before[i]);
            }
        }
    }
    lemma_balance_after_latest(first, fee);
    lemma_balance_of_other_account(second, received, payer);
    lemma_balance_of_other_account(before, sent, qr.user_id);
    lemma_balance_of_other_account(first, fee, qr.user_id);
    assert(none_later(second, qr.user_id, received.timestamp)) by {
        assert forall|i: int| 0 <= i < second.len() && (#[trigger] second[i]).user_id
            == qr.user_id implies second[i].timestamp <= received.timestamp by {
            if i < before.len() {
                assert(second[i] == before[i]);
            }
        }
    }
    lemma_balance_after_latest(second, received);
    if well_recorded(before) {
        lemma_append_keeps_well_recorded(before, sent);
        lemma_append_keeps_well_recorded(first, fee);
        lemma_append_keeps_well_recorded(second, received);
    }
}

/// A payment keeps the identifiers of the payment rows, of the ledger and
/// of the usage log distinct: every row it adds gets an identifier that no
/// row of its table had.
pub proof fn lemma_settlement_keeps_identifiers_distinct(
    state: GatewayView,
    qr: QRCodeView,
    payer: Seq<u8>,
    transaction_hash: Option<Seq<char>>,
    now: u64,
)
    ensures
        ({
            let after = settled(state, qr, payer, transaction_hash, now);
            &&& distinct::<Transaction>(state.transactions) ==> distinct::<Transaction>(
                after.transactions,
            )
            &&& distinct::<BalanceChangeLog>(state.balance_change_logs) ==> distinct::<
                BalanceChangeLog,
            >(after.balance_change_logs)
            &&& distinct::<QRUsageLog>(state.qr_usage_logs) ==> distinct::<QRUsageLog>(
                after.qr_usage_logs,
            )
        }),
{
    let rows = state.transactions;
    let one = recorded::<Transaction>(rows, pending_row(qr, payer, transaction_hash, now));
    let two = recorded::<Transaction>(one, processing_row(qr, payer, transaction_hash, now));
    lemma_recorded_is_fresh::<Transaction>(rows, pending_row(qr, payer, transaction_hash, now));
    lemma_recorded_is_fresh::<Transaction>(one, processing_row(qr, payer, transaction_hash, now));
    lemma_recorded_is_fresh::<Transaction>(two, completed_row(qr, payer, transaction_hash, now));

    let log = state.balance_change_logs;
    let reference = kept_processing(rows, qr, payer, transaction_hash, now).id;
    let sent = sent_change(qr, payer, reference, balance_of(log, payer), now);
    let fee = fee_change(qr, payer, reference, balance_of(log, payer), now);
    let received = received_change(qr, reference, balance_of(log, qr.user_id), now);
    let first = recorded::<BalanceChangeLog>(log, sent);
    let second = recorded::<BalanceChangeLog>(first, fee);
    lemma_recorded_is_fresh::<BalanceChangeLog>(log, sent);
    lemma_recorded_is_fresh::<BalanceChangeLog>(first, fee);
    lemma_recorded_is_fresh::<BalanceChangeLog>(second, received);

    lemma_recorded_is_fresh::<QRUsageLog>(
        state.qr_usage_logs,
        completed_use(
            qr,
            payer,
            kept_completed(rows, qr, payer, transaction_hash, now).id,
            now,
        ),
    );
}

impl PaymentError {
    /// What to tell the caller.
    pub fn message(&self) -> (text: String)
        ensures
            text@ == match *self {
                PaymentError::Anonymous => "Anonymous users cannot make payments"@,
                PaymentError::NotFound => "QR code not found"@,
                PaymentError::AlreadyUsed => "QR code has already been used"@,
                PaymentError::Expired => "QR code has expired"@,
                PaymentError::SelfPaymentNotAllowed => "Cannot pay to yourself"@,
                PaymentError::RecipientNotRegistered => "Recipient not registered"@,
                PaymentError::AmountOutOfBounds(AmountError::Zero) => "Transaction amount cannot be zero"@,
                PaymentError::AmountOutOfBounds(AmountError::TooSmall) => "Transaction amount too small. Minimum: 0.001 ICP"@,
                PaymentError::AmountOutOfBounds(AmountError::TooLarge) => "Transaction amount too large. Maximum: 1000 ICP"@,
                PaymentError::InsufficientBalance => "Insufficient balance"@,
            },
    {
        match self {
            PaymentError::Anonymous => String::from_str("Anonymous users cannot make payments"),
            PaymentError::NotFound => String::from_str("QR code not found"),
            PaymentError::AlreadyUsed => String::from_str("QR code has already been used"),
            PaymentError::Expired => String::from_str("QR code has expired"),
            PaymentError::SelfPaymentNotAllowed => String::from_str("Cannot pay to yourself"),
            PaymentError::RecipientNotRegistered => String::from_str("Recipient not registered"),
            PaymentError::AmountOutOfBounds(error) => error.message(),
            PaymentError::InsufficientBalance => String::from_str("Insufficient balance"),
        }
    }
}

/// Builds a row of the payment of `qr_code` by `payer`.
fn make_payment_row(
    qr_code: &QRCode,
    payer: &AccountId,
    transaction_hash: &Option<String>,
    base: &String,
    status: TransactionStatus,
    word: &str,
    at: u64,
) -> (row: Transaction)
    ensures
        row@ == (TransactionView {
            id: base@ + word@ + decimal(at as nat),
            from: payer@,
            to: qr_code@.user_id,
            amount: qr_code.icp_amount,
            fiat_currency: qr_code@.fiat_currency,
            fiat_amount: qr_code.fiat_amount,
            icp_amount: qr_code.icp_amount,
            timestamp: at,
            status,
            qr_id: qr_code@.id,
            transaction_hash: text_of(*transaction_hash),
            fee: fee_for(qr_code.icp_amount),
        }),
{
    let mut id = base.clone();
    id.append(word);
    push_decimal(&mut id, at);
    Transaction {
        id,
        from: payer.clone(),
        to: qr_code.user_id.clone(),
        amount: qr_code.icp_amount,
        fiat_currency: qr_code.fiat_currency.clone(),
        fiat_amount: qr_code.fiat_amount,
        icp_amount: qr_code.icp_amount,
        timestamp: at,
        status,
        qr_id: qr_code.id.clone(),
        transaction_hash: clone_text(transaction_hash),
        fee: calculate_transaction_fee(qr_code.icp_amount),
    }
}

/// Builds a balance change of a payment.
fn make_change(
    word: &str,
    reference: &String,
    user_id: &AccountId,
    change_type: BalanceChangeType,
    amount: u64,
    previous_balance: u64,
    new_balance: u64,
    at: u64,
    description: String,
) -> (change: BalanceChangeLog)
    ensures
        change@ == (BalanceChangeView {
            id: word@ + reference@ + "_"@ + decimal(at as nat),
            user_id: user_id@,
            change_type,
            amount,
            previous_balance,
            new_balance,
            timestamp: at,
            reference_id: reference@,
            description: description@,
        }),
{
    let mut id = String::from_str(word);
    id.append(reference.as_str());
    id.append("_");
    push_decimal(&mut id, at);
    BalanceChangeLog {
        id,
        user_id: user_id.clone(),
        change_type,
        amount,
        previous_balance,
        new_balance,
        timestamp: at,
        reference_id: reference.clone(),
        description,
    }
}

/// The words that describe a payment in the ledger.
fn describe_payment(word: &str, qr_code: &QRCode) -> (text: String)
    ensures
        text@ == word@ + plain_text(qr_code.fiat_amount) + " "@ + qr_code@.fiat_currency,
{
    let mut text = String::from_str(word);
    push_plain_amount(&mut text, qr_code.fiat_amount);
    text.append(" ");
    text.append(qr_code.fiat_currency.as_str());
    text
}

impl Gateway {
    /// Carries out the checks before a payment and gives the request to
    /// settle. Nothing is changed.
    pub fn check_payment(&self, caller: &AccountId, qr_id: &str, now: u64) -> (r: Result<
        QRCode,
        PaymentError,
    >)
        ensures
            match settlement_check(self@, qr_id@, caller@, now) {
                Ok(qr) => r is Ok && r->Ok_0@ == qr,
                Err(error) => r is Err && r->Err_0 == error,
            },
    {
        if caller.is_anonymous() {
            return Err(PaymentError::Anonymous);
        }
        let qr_code = match self.get_qr(qr_id) {
            Some(qr_code) => qr_code,
            None => {
                return Err(PaymentError::NotFound);
            },
        };
        match is_qr_code_valid(&qr_code, &self.qr_usage_logs, now) {
            Err(QRError::AlreadyUsed) => {
                return Err(PaymentError::AlreadyUsed);
            },
            Err(QRError::Expired) => {
                return Err(PaymentError::Expired);
            },
            Ok(_) => {},
        }
        if caller.same(&qr_code.user_id) {
            return Err(PaymentError::SelfPaymentNotAllowed);
        }
        if !self.is_user_registered(&qr_code.user_id) {
            return Err(PaymentError::RecipientNotRegistered);
        }
        match validate_transaction_amount(qr_code.icp_amount) {
            Err(error) => {
                return Err(PaymentError::AmountOutOfBounds(error));
            },
            Ok(_) => {},
        }
        let payer_balance = get_current_balance(&self.balance_change_logs, caller);
        let total_cost = qr_code.icp_amount + calculate_transaction_fee(qr_code.icp_amount);
        if payer_balance < total_cost {
            return Err(PaymentError::InsufficientBalance);
        }
        Ok(qr_code)
    }

    /// Pays the request `qr_id` from the balance of `caller` at `now`.
    ///
    /// Where a check fails, its reason is given and nothing is changed. Else
    /// the payment is recorded as a whole: a row for each of its stages, the
    /// balance changes of payer and payee, and the entry of the usage log
    /// after which the request cannot be paid again. The row that ends the
    /// payment is returned. Every row is kept under an identifier that no
    /// row of its table had, so that logs of distinct identifiers stay so.
    pub fn process_payment(
        &mut self,
        caller: &AccountId,
        qr_id: &str,
        transaction_hash: Option<String>,
        now: u64,
    ) -> (r: Result<Transaction, PaymentError>)
        ensures
            extends(old(self)@, final(self)@),
            rows_distinct(old(self)@) ==> rows_distinct(final(self)@),
            match settlement_check(old(self)@, qr_id@, caller@, now) {
                Err(error) => r is Err && r->Err_0 == error && final(self)@ == old(self)@,
                Ok(qr) => r is Ok && r->Ok_0@ == kept_completed(
                    old(self)@.transactions,
                    qr,
                    caller@,
                    text_of(transaction_hash),
                    now,
                ) && final(self)@ == settled(
                    old(self)@,
                    qr,
                    caller@,
                    text_of(transaction_hash),
                    now,
                ),
            },
            r is Ok ==> r->Ok_0.status == TransactionStatus::Completed && r->Ok_0.from@ == caller@
                && r->Ok_0.qr_id@ == qr_id@ && r->Ok_0.fee == fee_for(r->Ok_0.amount),
            r is Ok && none_later(old(self)@.balance_change_logs, caller@, now) && none_later(
                old(self)@.balance_change_logs,
                r->Ok_0.to@,
                now,
            ) ==> balance_of(final(self)@.balance_change_logs, caller@) == balance_of(
                old(self)@.balance_change_logs,
                caller@,
            ) - r->Ok_0.amount - r->Ok_0.fee && balance_of(
                final(self)@.balance_change_logs,
                r->Ok_0.to@,
            ) == capped_sum(balance_of(old(self)@.balance_change_logs, r->Ok_0.to@), r->Ok_0.amount),
    {
        let qr_code = match self.check_payment(caller, qr_id, now) {
            Ok(qr_code) => qr_code,
            Err(error) => {
                return Err(error);
            },
        };
        let ghost before = self@;
        let ghost qr = qr_code@;
        let ghost hash = text_of(transaction_hash);
        let payer_balance = get_current_balance(&self.balance_change_logs, caller);
        let recipient_balance = get_current_balance(&self.balance_change_logs, &qr_code.user_id);
        let amount = qr_code.icp_amount;
        let fee = calculate_transaction_fee(amount);
        let base = generate_transaction_id(caller, &qr_code.user_id, amount, now);

        let pending = make_payment_row(
            &qr_code,
            caller,
            &transaction_hash,
            &base,
            TransactionStatus::Pending,
            "_PENDING_",
            now,
        );
        let processing = make_payment_row(
            &qr_code,
            caller,
            &transaction_hash,
            &base,
            TransactionStatus::Processing,
            "_PROCESSING_",
            now.saturating_add(1),
        );
        let completed = make_payment_row(
            &qr_code,
            caller,
            &transaction_hash,
            &base,
            TransactionStatus::Completed,
            "_COMPLETED_",
            now.saturating_add(2),
        );
        let pending = record_row(&mut self.transactions, pending);
        let processing = record_row(&mut self.transactions, processing);
        let completed = record_row(&mut self.transactions, completed);
        let after_payment = payer_balance.saturating_sub(amount);
        let sent = make_change(
            "BAL_PAYMENT_",
            &processing.id,
            caller,
            BalanceChangeType::PaymentSent,
            amount,
            payer_balance,
            after_payment,
            now,
            describe_payment("Payment sent: ", &qr_code),
        );
        let mut fee_words = String::from_str("Transaction fee: ");
        let fee_text = format_token_amount(fee);
        fee_words.append(fee_text.as_str());
        let charged = make_change(
            "BAL_FEE_",
            &processing.id,
            caller,
            BalanceChangeType::FeeDeducted,
            fee,
            after_payment,
            after_payment.saturating_sub(fee),
            now.saturating_add(1),
            fee_words,
        );
        let received = make_change(
            "BAL_RECEIVED_",
            &processing.id,
            &qr_code.user_id,
            BalanceChangeType::PaymentReceived,
            amount,
            recipient_balance,
            recipient_balance.saturating_add(amount),
            now.saturating_add(2),
            describe_payment("Payment received: ", &qr_code),
        );
        let usage = QRUsageLog {
            id: generate_qr_usage_log_id(caller, now),
            qr_id: qr_code.id.clone(),
            user_id: qr_code.user_id.clone(),
            used_by: caller.clone(),
            transaction_id: completed.id.clone(),
            timestamp: now,
            usage_type: QRUsageType::PaymentCompleted,
        };
        record_row(&mut self.balance_change_logs, sent);
        record_row(&mut self.balance_change_logs, charged);
        record_row(&mut self.balance_change_logs, received);
        record_row(&mut self.qr_usage_logs, usage);
        let changes: usize = self.balance_change_logs.len();

        proof {
            let after = settled(before, qr, caller@, hash, now);
            assert(self@.transactions =~= after.transactions);
            assert(self@.balance_change_logs =~= after.balance_change_logs);
            assert(self@.qr_usage_logs =~= after.qr_usage_logs);
            assert(changes == before.balance_change_logs.len() + 3);
            lemma_settlement_keeps_identifiers_distinct(before, qr, caller@, hash, now);
            lemma_find_qr(before.qr_codes, Seq::empty(), qr_id@);
            if none_later(before.balance_change_logs, caller@, now) && none_later(
                before.balance_change_logs,
                qr.user_id,
                now,
            ) {
                lemma_settlement_moves_amount(before, qr_id@, caller@, hash, now);
            }
        }
        Ok(completed)
    }
}

} // verus!
