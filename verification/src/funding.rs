//! Top-ups in the gateway: asking for one, deciding on a card, and claiming
//! a QRIS payment. Each stage of a top-up is a row of its own; a completed
//! top-up adds one balance change.

use crate::gateway::{
    extends, find_topup, is_registered, rows_distinct, Gateway, GatewayView,
};
use crate::identity::AccountId;
use crate::ledger::{
    balance_log_id, balance_of, capped_sum, create_balance_change_log,
    get_current_balance, lemma_append_keeps_well_recorded, lemma_balance_after_latest,
    none_later, well_recorded,
};
use crate::rates::{
    is_supported, is_supported_currency, plain_text, push_plain_amount, ConversionError,
};
use crate::rows::{
    chosen, distinct, latest_first, lemma_recorded_is_fresh, name_unused, names, pick_marked,
    record_row, recorded, recorded_row, sort_latest_first, unused_identifier, unused_name,
    views_of,
};
use crate::text::{decimal, push_decimal, same_text};
use crate::topup::{
    card_accepted, check_payment_expiration, new_card_topup, new_qris_topup,
    simulate_card_processing, topup_expired, CardError, TopUpError,
};
use crate::types::{
    BalanceChangeLog, BalanceChangeType, BalanceChangeView, CardDataInput, ExchangeRate, TopUpStatus,
    TopUpTransaction, TopUpView,
};
use vstd::prelude::*;
use vstd::string::StringExecFns;

verus! {

/// Why a top-up was not made.
#[derive(Clone, Copy, Debug, PartialEq, Eq, Structural)]
pub enum FundingError {
    /// The caller is no registered account.
    UserNotRegistered,
    /// The fiat amount is zero.
    AmountNotPositive,
    /// The currency code is not accepted.
    UnsupportedCurrency,
    /// The card is refused.
    InvalidPaymentData(CardError),
    /// The amount cannot be converted into tokens.
    Conversion(ConversionError),
}

/// Why a top-up was not claimed.
#[derive(Clone, Copy, Debug, PartialEq, Eq, Structural)]
pub enum ClaimError {
    /// There is no top-up with this identifier.
    NotFound,
    /// The top-up has left the stage in which it can be claimed.
    AlreadyProcessed,
    /// The time to claim the top-up is over.
    Expired,
}

/// The error of a funding request that stands for an error of the top-up.
pub open spec fn funding_error(error: TopUpError) -> FundingError {
    match error {
        TopUpError::Card(e) => FundingError::InvalidPaymentData(e),
        TopUpError::Conversion(e) => FundingError::Conversion(e),
    }
}

/// The checks before a top-up is made, in their order.
pub open spec fn funding_check(
    state: GatewayView,
    caller: Seq<u8>,
    fiat_amount: u64,
    currency: Seq<char>,
) -> Result<(), FundingError> {
    if !is_registered(state.users, caller) {
        Err(FundingError::UserNotRegistered)
    } else if fiat_amount == 0 {
        Err(FundingError::AmountNotPositive)
    } else if !is_supported(currency) {
        Err(FundingError::UnsupportedCurrency)
    } else {
        Ok(())
    }
}

/// The first row of a top-up as it is kept in `rows`: under an identifier
/// that no row has, which is from then on the reference of every row of the
/// top-up. So the stages of two top-ups that wanted one identifier are told
/// apart.
pub open spec fn opened_row(rows: Seq<TopUpView>, row: TopUpView) -> TopUpView {
    let name = unused_name(names::<TopUpTransaction>(rows), row.id);
    TopUpView { id: name, reference_id: name, ..row }
}

/// The top-up rows after the top-up with the first row `row` was opened:
/// one row more, at the end.
pub open spec fn opened(rows: Seq<TopUpView>, row: TopUpView) -> Seq<TopUpView> {
    rows.push(opened_row(rows, row))
}

/// The row of a later stage of the top-up `row`, written at the time `at`;
/// `word` names the stage in its identifier.
pub open spec fn stage_row(
    row: TopUpView,
    word: Seq<char>,
    status: TopUpStatus,
    at: u64,
    processed_at: Option<u64>,
) -> TopUpView {
    TopUpView { id: row.id + word + decimal(at as nat), status, created_at: at, processed_at, ..row }
}

/// The row of a top-up at work.
pub open spec fn processing_stage(row: TopUpView, now: u64) -> TopUpView {
    stage_row(row, "_PROCESSING_"@, TopUpStatus::Processing, now, None)
}

/// The row of a top-up that is completed.
pub open spec fn completed_stage(row: TopUpView, now: u64) -> TopUpView {
    stage_row(
        row,
        "_COMPLETED_"@,
        TopUpStatus::Completed,
        capped_sum(now, 2),
        Some(capped_sum(now, 2)),
    )
}

/// The row of a top-up that failed.
pub open spec fn failed_stage(row: TopUpView, now: u64) -> TopUpView {
    stage_row(
        row,
        "_FAILED_"@,
        TopUpStatus::Failed,
        capped_sum(now, 1),
        Some(capped_sum(now, 1)),
    )
}

/// The row of a top-up whose time ran out.
pub open spec fn expired_stage(row: TopUpView, now: u64) -> TopUpView {
    stage_row(row, "_EXPIRED_"@, TopUpStatus::Expired, now, Some(now))
}

/// The balance change of a completed top-up, as it asks to be recorded: the
/// amount is added to the balance of the account that asked for the top-up;
/// `reference` is the identifier of the row of the top-up at work.
pub open spec fn topup_change(
    row: TopUpView,
    caller: Seq<u8>,
    word: Seq<char>,
    balance: u64,
    reference: Seq<char>,
    now: u64,
) -> BalanceChangeView {
    BalanceChangeView {
        id: balance_log_id(caller, now),
        user_id: row.user_id,
        change_type: BalanceChangeType::TopupCompleted,
        amount: row.amount,
        previous_balance: balance,
        new_balance: capped_sum(balance, row.amount),
        timestamp: now,
        reference_id: reference,
        description: word + plain_text(row.fiat_amount) + " "@ + row.fiat_currency,
    }
}

/// Whether a row of the top-up with the reference `reference` shows that it
/// has left the pending stage.
pub open spec fn has_left_pending(rows: Seq<TopUpView>, reference: Seq<char>) -> bool {
    exists|i: int|
        0 <= i < rows.len() && (#[trigger] rows[i]).reference_id == reference && rows[i].status
            != TopUpStatus::Pending
}

/// The checks before a top-up is claimed: it must exist and none of its rows
/// may show a stage other than pending. The row to claim is given.
pub open spec fn claim_check(state: GatewayView, topup_id: Seq<char>) -> Result<
    TopUpView,
    ClaimError,
> {
    match find_topup(state.topup_transactions, topup_id) {
        None => Err(ClaimError::NotFound),
        Some(row) => if has_left_pending(state.topup_transactions, row.reference_id) {
            Err(ClaimError::AlreadyProcessed)
        } else {
            Ok(row)
        },
    }
}

/// The last row of a card top-up whose first row is kept as `first`:
/// completed where the card is accepted, else failed.
pub open spec fn card_outcome(first: TopUpView, now: u64) -> TopUpView {
    if card_accepted(processing_stage(first, now)) {
        completed_stage(first, now)
    } else {
        failed_stage(first, now)
    }
}

/// The top-up rows after a card top-up was asked for with the first row
/// `row`: the row as it is opened, the row at work and the last row,
/// recorded one after the other, each under an identifier that no row had.
pub open spec fn card_rows(rows: Seq<TopUpView>, row: TopUpView, now: u64) -> Seq<TopUpView> {
    let first = opened_row(rows, row);
    recorded::<TopUpTransaction>(
        recorded::<TopUpTransaction>(opened(rows, row), processing_stage(first, now)),
        card_outcome(first, now),
    )
}

/// The gateway after a card top-up was asked for with the first row `row`:
/// its three rows and, where the card is accepted, one balance change with
/// the identifier of the row at work as its reference; a declined card
/// leaves the ledger as it was.
pub open spec fn card_funded(state: GatewayView, row: TopUpView, caller: Seq<u8>, now: u64) -> GatewayView {
    let rows = card_rows(state.topup_transactions, row, now);
    let first = rows[state.topup_transactions.len() as int];
    if card_accepted(processing_stage(first, now)) {
        GatewayView {
            topup_transactions: rows,
            balance_change_logs: recorded::<BalanceChangeLog>(
                state.balance_change_logs,
                topup_change(
                    first,
                    caller,
                    "Card topup completed: "@,
                    balance_of(state.balance_change_logs, first.user_id),
                    rows[state.topup_transactions.len() as int + 1].id,
                    now,
                ),
            ),
            ..state
        }
    } else {
        GatewayView { topup_transactions: rows, ..state }
    }
}

/// The top-up rows after the top-up `row` was claimed in time: the row at
/// work and the completed row, recorded one after the other, each under an
/// identifier that no row had.
pub open spec fn claim_rows(rows: Seq<TopUpView>, row: TopUpView, now: u64) -> Seq<TopUpView> {
    recorded::<TopUpTransaction>(
        recorded::<TopUpTransaction>(rows, processing_stage(row, now)),
        completed_stage(row, now),
    )
}

/// The gateway after the top-up `row` was claimed in time: the row at work,
/// the completed row, and one balance change with the identifier of the row
/// at work as its reference.
pub open spec fn claimed(state: GatewayView, row: TopUpView, caller: Seq<u8>, now: u64) -> GatewayView {
    let rows = claim_rows(state.topup_transactions, row, now);
    GatewayView {
        topup_transactions: rows,
        balance_change_logs: recorded::<BalanceChangeLog>(
            state.balance_change_logs,
            topup_change(
                row,
                caller,
                "QRIS topup completed: "@,
                balance_of(state.balance_change_logs, row.user_id),
                rows[state.topup_transactions.len() as int].id,
                now,
            ),
        ),
        ..state
    }
}

/// The gateway after the top-up `row` was claimed too late: the expired row
/// and no balance change.
pub open spec fn claim_expired(state: GatewayView, row: TopUpView, now: u64) -> GatewayView {
    GatewayView {
        topup_transactions: recorded::<TopUpTransaction>(
            state.topup_transactions,
            expired_stage(row, now),
        ),
        ..state
    }
}

/// A top-up that was claimed, in time or too late, cannot be claimed again,
/// whatever has been added to the gateway since.
pub proof fn lemma_single_claim(
    state: GatewayView,
    topup_id: Seq<char>,
    caller: Seq<u8>,
    now: u64,
    later: GatewayView,
)
    requires
        claim_check(state, topup_id) is Ok,
        extends(claimed(state, claim_check(state, topup_id)->Ok_0, caller, now), later) || extends(
            claim_expired(state, claim_check(state, topup_id)->Ok_0, now),
            later,
        ),
        find_topup(later.topup_transactions, topup_id) is Some,
        find_topup(later.topup_transactions, topup_id)->0.reference_id == claim_check(
            state,
            topup_id,
        )->Ok_0.reference_id,
    ensures
        claim_check(later, topup_id) == Err::<TopUpView, ClaimError>(ClaimError::AlreadyProcessed),
{
    let row = claim_check(state, topup_id)->Ok_0;
    let n = state.topup_transactions.len() as int;
    if extends(claimed(state, row, caller, now), later) {
        let after = claimed(state, row, caller, now);
        assert(after.topup_transactions[n] == recorded_row::<TopUpTransaction>(
            state.topup_transactions,
            processing_stage(row, now),
        ));
        assert(later.topup_transactions[n] == after.topup_transactions[n]);
    } else {
        let after = claim_expired(state, row, now);
        assert(after.topup_transactions[n] == recorded_row::<TopUpTransaction>(
            state.topup_transactions,
            expired_stage(row, now),
        ));
        assert(later.topup_transactions[n] == after.topup_transactions[n]);
    }
}

/// Where no change of the account is later than the claim, a top-up claimed
/// in time adds its amount to the balance of the account and keeps a well
/// recorded ledger well recorded.
pub proof fn lemma_claim_adds_amount(state: GatewayView, row: TopUpView, caller: Seq<u8>, now: u64)
    requires
        state.balance_change_logs.len() < usize::MAX,
        none_later(state.balance_change_logs, row.user_id, now),
    ensures
        balance_of(claimed(state, row, caller, now).balance_change_logs, row.user_id) == capped_sum(
            balance_of(state.balance_change_logs, row.user_id),
            row.amount,
        ),
        well_recorded(state.balance_change_logs) ==> well_recorded(
            claimed(state, row, caller, now).balance_change_logs,
        ),
{
    let wanted = topup_change(
        row,
        caller,
        "QRIS topup completed: "@,
        balance_of(state.balance_change_logs, row.user_id),
        claim_rows(state.topup_transactions, row, now)[state.topup_transactions.len() as int].id,
        now,
    );
    let kept = recorded_row::<BalanceChangeLog>(state.balance_change_logs, wanted);
    if well_recorded(state.balance_change_logs) {
        lemma_append_keeps_well_recorded(state.balance_change_logs, kept);
    }
    lemma_balance_after_latest(state.balance_change_logs, kept);
}

/// Where no change of the account is later than the top-up, an accepted
/// card adds the amount of the top-up to the balance of the account, and a
/// declined card leaves the balance as it was.
pub proof fn lemma_card_adds_amount(state: GatewayView, row: TopUpView, caller: Seq<u8>, now: u64)
    requires
        card_accepted(processing_stage(row, now)) ==> state.balance_change_logs.len() < usize::MAX,
        none_later(state.balance_change_logs, row.user_id, now),
    ensures
        balance_of(card_funded(state, row, caller, now).balance_change_logs, row.user_id) == if
            card_accepted(processing_stage(row, now)) {
            capped_sum(balance_of(state.balance_change_logs, row.user_id), row.amount)
        } else {
            balance_of(state.balance_change_logs, row.user_id)
        },
{
    let rows = card_rows(state.topup_transactions, row, now);
    let first = rows[state.topup_transactions.len() as int];
    assert(first == opened_row(state.topup_transactions, row));
    if card_accepted(processing_stage(first, now)) {
        let wanted = topup_change(
            first,
            caller,
            "Card topup completed: "@,
            balance_of(state.balance_change_logs, first.user_id),
            rows[state.topup_transactions.len() as int + 1].id,
            now,
        );
        lemma_balance_after_latest(
            state.balance_change_logs,
            recorded_row::<BalanceChangeLog>(state.balance_change_logs, wanted),
        );
    }
}

/// To open a top-up is to record its first row with its own identifier, as
/// it is kept, for its reference.
pub proof fn lemma_opened_is_recorded(rows: Seq<TopUpView>, row: TopUpView)
    ensures
        opened_row(rows, row) == recorded_row::<TopUpTransaction>(
            rows,
            TopUpView { reference_id: opened_row(rows, row).id, ..row },
        ),
        opened(rows, row) == recorded::<TopUpTransaction>(
            rows,
            TopUpView { reference_id: opened_row(rows, row).id, ..row },
        ),
{
}

/// Whether every row of the table refers to a row of the table: its
/// reference is the identifier of some row.
pub open spec fn references_kept(rows: Seq<TopUpView>) -> bool {
    forall|i: int|
        0 <= i < rows.len() ==> !name_unused(
            names::<TopUpTransaction>(rows),
            (#[trigger] rows[i]).reference_id,
        )
}

/// A row that is recorded with the identifier of a row of the table for its
/// reference leaves a table that refers to its own rows as one.
pub proof fn lemma_recorded_keeps_references(rows: Seq<TopUpView>, row: TopUpView)
    requires
        references_kept(rows),
        !name_unused(names::<TopUpTransaction>(rows), row.reference_id),
    ensures
        references_kept(recorded::<TopUpTransaction>(rows, row)),
{
    let next = recorded::<TopUpTransaction>(rows, row);
    let taken = names::<TopUpTransaction>(rows);
    let after = names::<TopUpTransaction>(next);
    assert forall|i: int| 0 <= i < next.len() implies !name_unused(
        after,
        (#[trigger] next[i]).reference_id,
    ) by {
        let reference = next[i].reference_id;
        if i < rows.len() {
            assert(next[i] == rows[i]);
        }
        assert(!name_unused(taken, reference));
        let k = choose|k: int| 0 <= k < taken.len() && #[trigger] taken[k] == reference;
        assert(after[k] == taken[k]);
    }
}

/// A top-up that was just opened stands apart from every other: no older
/// row has its reference, whatever top-up wanted the same identifier
/// before, so that it can be claimed while its own row is pending. The
/// table goes on referring to its own rows.
pub proof fn lemma_opened_topup_stands_apart(state: GatewayView, row: TopUpView)
    requires
        references_kept(state.topup_transactions),
    ensures
        references_kept(opened(state.topup_transactions, row)),
        forall|i: int|
            0 <= i < state.topup_transactions.len() ==> (
            #[trigger] state.topup_transactions[i]).reference_id != opened_row(
                state.topup_transactions,
                row,
            ).id,
        row.status == TopUpStatus::Pending ==> claim_check(
            GatewayView { topup_transactions: opened(state.topup_transactions, row), ..state },
            opened_row(state.topup_transactions, row).id,
        ) == Ok::<TopUpView, ClaimError>(opened_row(state.topup_transactions, row)),
{
    let rows = state.topup_transactions;
    let taken = names::<TopUpTransaction>(rows);
    let first = opened_row(rows, row);
    let next = opened(rows, row);
    let after = names::<TopUpTransaction>(next);
    crate::rows::lemma_unused_name(taken, row.id);
    assert forall|i: int| 0 <= i < rows.len() implies (#[trigger] rows[i]).reference_id
        != first.id by {
        let k = choose|k: int| 0 <= k < taken.len() && #[trigger] taken[k] == rows[i].reference_id;
    }
    assert forall|i: int| 0 <= i < next.len() implies !name_unused(
        after,
        (#[trigger] next[i]).reference_id,
    ) by {
        if i < rows.len() {
            assert(next[i] == rows[i]);
            let k = choose|k: int|
                0 <= k < taken.len() && #[trigger] taken[k] == rows[i].reference_id;
            assert(after[k] == taken[k]);
        } else {
            assert(after[rows.len() as int] == first.id);
        }
    }
    if row.status == TopUpStatus::Pending {
        assert(next.last() == first);
        assert forall|i: int| 0 <= i < next.len() implies !((#[trigger] next[i]).reference_id
            == first.id && next[i].status != TopUpStatus::Pending) by {
            if i < rows.len() {
                assert(next[i] == rows[i]);
            }
        }
    }
}

/// Deciding on a card and claiming a top-up of the table leave a table that
/// refers to its own rows as one.
pub proof fn lemma_funding_keeps_references(
    state: GatewayView,
    row: TopUpView,
    caller: Seq<u8>,
    now: u64,
)
    requires
        references_kept(state.topup_transactions),
    ensures
        references_kept(card_funded(state, row, caller, now).topup_transactions),
        !name_unused(names::<TopUpTransaction>(state.topup_transactions), row.reference_id) ==> {
            &&& references_kept(claimed(state, row, caller, now).topup_transactions)
            &&& references_kept(claim_expired(state, row, now).topup_transactions)
        },
{
    let rows = state.topup_transactions;
    let first = opened_row(rows, row);
    let one = opened(rows, row);
    lemma_opened_topup_stands_apart(state, row);
    assert(names::<TopUpTransaction>(one)[rows.len() as int] == first.id);
    lemma_recorded_keeps_references(one, processing_stage(first, now));
    let two = recorded::<TopUpTransaction>(one, processing_stage(first, now));
    assert(names::<TopUpTransaction>(two)[rows.len() as int] == first.id);
    lemma_recorded_keeps_references(two, card_outcome(first, now));
    if !name_unused(names::<TopUpTransaction>(rows), row.reference_id) {
        let taken = names::<TopUpTransaction>(rows);
        let k = choose|k: int| 0 <= k < taken.len() && #[trigger] taken[k] == row.reference_id;
        lemma_recorded_keeps_references(rows, processing_stage(row, now));
        let work = recorded::<TopUpTransaction>(rows, processing_stage(row, now));
        assert(names::<TopUpTransaction>(work)[k] == taken[k]);
        lemma_recorded_keeps_references(work, completed_stage(row, now));
        lemma_recorded_keeps_references(rows, expired_stage(row, now));
    }
}

/// Making, deciding and claiming top-ups keeps the identifiers of the
/// top-up rows and of the ledger distinct: every row that is added gets an
/// identifier that no row of its table had.
pub proof fn lemma_funding_keeps_identifiers_distinct(
    state: GatewayView,
    row: TopUpView,
    caller: Seq<u8>,
    now: u64,
)
    ensures
        distinct::<TopUpTransaction>(state.topup_transactions) ==> {
            &&& distinct::<TopUpTransaction>(opened(state.topup_transactions, row))
            &&& distinct::<TopUpTransaction>(card_funded(state, row, caller, now).topup_transactions)
            &&& distinct::<TopUpTransaction>(claimed(state, row, caller, now).topup_transactions)
            &&& distinct::<TopUpTransaction>(claim_expired(state, row, now).topup_transactions)
        },
        distinct::<BalanceChangeLog>(state.balance_change_logs) ==> {
            &&& distinct::<BalanceChangeLog>(card_funded(state, row, caller, now).balance_change_logs)
            &&& distinct::<BalanceChangeLog>(claimed(state, row, caller, now).balance_change_logs)
        },
{
    let rows = state.topup_transactions;
    let first = opened_row(rows, row);
    let one = opened(rows, row);
    let two = recorded::<TopUpTransaction>(one, processing_stage(first, now));
    lemma_opened_is_recorded(rows, row);
    lemma_recorded_is_fresh::<TopUpTransaction>(
        rows,
        TopUpView { reference_id: first.id, ..row },
    );
    lemma_recorded_is_fresh::<TopUpTransaction>(one, processing_stage(first, now));
    lemma_recorded_is_fresh::<TopUpTransaction>(two, card_outcome(first, now));
    let work = recorded::<TopUpTransaction>(rows, processing_stage(row, now));
    lemma_recorded_is_fresh::<TopUpTransaction>(rows, processing_stage(row, now));
    lemma_recorded_is_fresh::<TopUpTransaction>(work, completed_stage(row, now));
    lemma_recorded_is_fresh::<TopUpTransaction>(rows, expired_stage(row, now));
    let log = state.balance_change_logs;
    let card_rows_after = card_rows(rows, row, now);
    assert(card_rows_after[rows.len() as int] == first);
    lemma_recorded_is_fresh::<BalanceChangeLog>(
        log,
        topup_change(
            first,
            caller,
            "Card topup completed: "@,
            balance_of(log, first.user_id),
            card_rows_after[rows.len() as int + 1].id,
            now,
        ),
    );
    lemma_recorded_is_fresh::<BalanceChangeLog>(
        log,
        topup_change(
            row,
            caller,
            "QRIS topup completed: "@,
            balance_of(log, row.user_id),
            claim_rows(rows, row, now)[rows.len() as int].id,
            now,
        ),
    );
}

impl FundingError {
    /// What to tell the caller whose top-up in `currency` was not made.
    pub fn message(&self, currency: &str) -> (text: String)
        ensures
            text@ == match *self {
                FundingError::UserNotRegistered => "User not registered"@,
                FundingError::AmountNotPositive => "Amount must be greater than 0"@,
                FundingError::UnsupportedCurrency => "Unsupported currency: "@ + currency@,
                FundingError::InvalidPaymentData(CardError::UnknownNumber) => "Invalid card number for MVP demo"@,
                FundingError::InvalidPaymentData(CardError::BadCvv) => "CVV must be 3 digits"@,
                FundingError::InvalidPaymentData(CardError::NameTooShort) => "Cardholder name too short"@,
                FundingError::Conversion(ConversionError::AmountNotPositive) => "Fiat amount must be greater than 0"@,
                FundingError::Conversion(ConversionError::RateNotPositive) => "Exchange rate must be greater than 0"@,
                FundingError::Conversion(ConversionError::ConversionTooSmall) => "Amount too small, results in 0 e8s"@,
            },
    {
        match self {
            FundingError::UserNotRegistered => String::from_str("User not registered"),
            FundingError::AmountNotPositive => String::from_str("Amount must be greater than 0"),
            FundingError::UnsupportedCurrency => {
                let mut text = String::from_str("Unsupported currency: ");
                text.append(currency);
                text
            },
            FundingError::InvalidPaymentData(error) => error.message(),
            FundingError::Conversion(error) => error.message(),
        }
    }
}

impl ClaimError {
    /// What to tell the caller.
    pub fn message(&self) -> (text: String)
        ensures
            text@ == match *self {
                ClaimError::NotFound => "Top-up not found"@,
                ClaimError::AlreadyProcessed => "Top-up already processed"@,
                ClaimError::Expired => "Top-up expired"@,
            },
    {
        match self {
            ClaimError::NotFound => String::from_str("Top-up not found"),
            ClaimError::AlreadyProcessed => String::from_str("Top-up already processed"),
            ClaimError::Expired => String::from_str("Top-up expired"),
        }
    }
}

/// Opens a top-up: keeps its first row `row` at the end of the table, under
/// an identifier that no row has and with that identifier for its
/// reference, and returns a copy of the row as it is kept.
fn open_topup(rows: &mut Vec<TopUpTransaction>, row: TopUpTransaction) -> (kept: TopUpTransaction)
    ensures
        views_of(final(rows)@) == opened(views_of(old(rows)@), row@),
        kept@ == opened_row(views_of(old(rows)@), row@),
{
    let ghost all = views_of(rows@);
    let name = unused_identifier(rows, row.id.as_str());
    let kept = TopUpTransaction {
        id: name.clone(),
        user_id: row.user_id,
        amount: row.amount,
        fiat_amount: row.fiat_amount,
        fiat_currency: row.fiat_currency,
        payment_method: row.payment_method,
        payment_data: row.payment_data,
        status: row.status,
        created_at: row.created_at,
        processed_at: row.processed_at,
        reference_id: name,
    };
    let copy = kept.clone();
    rows.push(kept);
    assert(views_of(rows@) =~= all.push(copy@));
    copy
}

/// Builds the row of a later stage of a top-up.
fn make_stage_row(
    row: &TopUpTransaction,
    word: &str,
    status: TopUpStatus,
    at: u64,
    processed_at: Option<u64>,
) -> (next: TopUpTransaction)
    ensures
        next@ == stage_row(row@, word@, status, at, processed_at),
{
    let mut id = row.id.clone();
    id.append(word);
    push_decimal(&mut id, at);
    TopUpTransaction {
        id,
        user_id: row.user_id.clone(),
        amount: row.amount,
        fiat_amount: row.fiat_amount,
        fiat_currency: row.fiat_currency.clone(),
        payment_method: row.payment_method,
        payment_data: row.payment_data.clone(),
        status,
        created_at: at,
        processed_at,
        reference_id: row.reference_id.clone(),
    }
}

/// The words that describe a completed top-up in the ledger.
fn describe_topup(word: &str, row: &TopUpTransaction) -> (text: String)
    ensures
        text@ == word@ + plain_text(row.fiat_amount) + " "@ + row@.fiat_currency,
{
    let mut text = String::from_str(word);
    push_plain_amount(&mut text, row.fiat_amount);
    text.append(" ");
    text.append(row.fiat_currency.as_str());
    text
}

/// Whether a row of the top-up with the reference `reference` shows that it
/// has left the pending stage.
fn left_pending(rows: &Vec<TopUpTransaction>, reference: &str) -> (r: bool)
    ensures
        r == has_left_pending(views_of(rows@), reference@),
{
    let mut i: usize = 0;
    while i < rows.len()
        invariant
            i <= rows.len(),
            forall|k: int|
                0 <= k < i ==> !((#[trigger] views_of(rows@)[k]).reference_id == reference@
                    && views_of(rows@)[k].status != TopUpStatus::Pending),
        decreases rows.len() - i,
    {
        assert(views_of(rows@)[i as int] == rows@[i as int]@);
        let pending = match rows[i].status {
            TopUpStatus::Pending => true,
            _ => false,
        };
        if !pending && same_text(rows[i].reference_id.as_str(), reference) {
            return true;
        }
        i += 1;
    }
    false
}

impl Gateway {
    /// Carries out the checks before a top-up is made, which need no rate.
    /// Nothing is changed.
    pub fn check_funding(&self, caller: &AccountId, fiat_amount: u64, currency: &str) -> (r: Result<
        (),
        FundingError,
    >)
        ensures
            r == funding_check(self@, caller@, fiat_amount, currency@),
    {
        if !self.is_user_registered(caller) {
            return Err(FundingError::UserNotRegistered);
        }
        if fiat_amount == 0 {
            return Err(FundingError::AmountNotPositive);
        }
        if !is_supported_currency(currency) {
            return Err(FundingError::UnsupportedCurrency);
        }
        Ok(())
    }

    /// Makes a QRIS top-up for the registered account `caller` and keeps its
    /// row, which waits to be claimed, under an identifier that no row had.
    /// Where a check or the conversion fails, nothing is changed.
    pub fn create_qris_topup(
        &mut self,
        caller: &AccountId,
        amount: u64,
        currency: String,
        exchange_rate: &ExchangeRate,
        now: u64,
    ) -> (r: Result<TopUpTransaction, FundingError>)
        ensures
            extends(old(self)@, final(self)@),
            rows_distinct(old(self)@) ==> rows_distinct(final(self)@),
            match funding_check(old(self)@, caller@, amount, currency@) {
                Err(error) => r is Err && r->Err_0 == error && final(self)@ == old(self)@,
                Ok(_) => match new_qris_topup(caller@, amount, currency@, exchange_rate.rate, now) {
                    Err(error) => r is Err && r->Err_0 == funding_error(error) && final(self)@
                        == old(self)@,
                    Ok(row) => r is Ok && r->Ok_0@ == opened_row(
                        old(self)@.topup_transactions,
                        row,
                    ) && final(self)@ == (GatewayView {
                        topup_transactions: opened(old(self)@.topup_transactions, row),
                        ..old(self)@
                    }),
                },
            },
    {
        match self.check_funding(caller, amount, currency.as_str()) {
            Err(error) => {
                return Err(error);
            },
            Ok(_) => {},
        }
        let row = match crate::topup::create_qris_topup(
            caller.clone(),
            amount,
            currency,
            exchange_rate,
            now,
        ) {
            Ok(row) => row,
            Err(TopUpError::Card(error)) => {
                return Err(FundingError::InvalidPaymentData(error));
            },
            Err(TopUpError::Conversion(error)) => {
                return Err(FundingError::Conversion(error));
            },
        };
        proof {
            lemma_funding_keeps_identifiers_distinct(self@, row@, caller@, now);
        }
        let kept = open_topup(&mut self.topup_transactions, row);
        Ok(kept)
    }

    /// Makes a card top-up for the registered account `caller` and decides
    /// on it at once. An accepted card completes the top-up, which adds its
    /// amount to the balance of the account by one balance change; a
    /// declined card fails it, with no balance change. The last row is
    /// returned. Where a check, the card data or the conversion fails,
    /// nothing is changed.
    pub fn create_card_topup(
        &mut self,
        caller: &AccountId,
        amount: u64,
        currency: String,
        card_data: CardDataInput,
        is_credit: bool,
        exchange_rate: &ExchangeRate,
        now: u64,
    ) -> (r: Result<TopUpTransaction, FundingError>)
        ensures
            extends(old(self)@, final(self)@),
            rows_distinct(old(self)@) ==> rows_distinct(final(self)@),
            match funding_check(old(self)@, caller@, amount, currency@) {
                Err(error) => r is Err && r->Err_0 == error && final(self)@ == old(self)@,
                Ok(_) => match new_card_topup(
                    caller@,
                    amount,
                    currency@,
                    card_data.card_number@,
                    card_data.cvv@,
                    card_data.cardholder_name@,
                    is_credit,
                    exchange_rate.rate,
                    now,
                ) {
                    Err(error) => r is Err && r->Err_0 == funding_error(error) && final(self)@
                        == old(self)@,
                    Ok(row) => r is Ok && r->Ok_0@ == card_rows(
                        old(self)@.topup_transactions,
                        row,
                        now,
                    )[old(self)@.topup_transactions.len() as int + 2] && r->Ok_0.status == (if
                        card_accepted(processing_stage(row, now)) {
                        TopUpStatus::Completed
                    } else {
                        TopUpStatus::Failed
                    }) && final(self)@ == card_funded(old(self)@, row, caller@, now),
                },
            },
            r is Ok && none_later(old(self)@.balance_change_logs, caller@, now) ==> balance_of(
                final(self)@.balance_change_logs,
                caller@,
            ) == if r->Ok_0.status == TopUpStatus::Completed {
                capped_sum(balance_of(old(self)@.balance_change_logs, caller@), r->Ok_0.amount)
            } else {
                balance_of(old(self)@.balance_change_logs, caller@)
            },
    {
        match self.check_funding(caller, amount, currency.as_str()) {
            Err(error) => {
                return Err(error);
            },
            Ok(_) => {},
        }
        let row = match crate::topup::create_card_topup(
            caller.clone(),
            amount,
            currency,
            card_data,
            is_credit,
            exchange_rate,
            now,
        ) {
            Ok(row) => row,
            Err(TopUpError::Card(error)) => {
                return Err(FundingError::InvalidPaymentData(error));
            },
            Err(TopUpError::Conversion(error)) => {
                return Err(FundingError::Conversion(error));
            },
        };
        let ghost before = self@;
        let ghost wanted = row@;
        proof {
            lemma_funding_keeps_identifiers_distinct(before, wanted, caller@, now);
        }
        let first = open_topup(&mut self.topup_transactions, row);
        let processing = make_stage_row(&first, "_PROCESSING_", TopUpStatus::Processing, now, None);
        let accepted = simulate_card_processing(&processing);
        let processing = record_row(&mut self.topup_transactions, processing);
        if accepted {
            let balance = get_current_balance(&self.balance_change_logs, &first.user_id);
            let completed = make_stage_row(
                &first,
                "_COMPLETED_",
                TopUpStatus::Completed,
                now.saturating_add(2),
                Some(now.saturating_add(2)),
            );
            let description = describe_topup("Card topup completed: ", &first);
            create_balance_change_log(
                &mut self.balance_change_logs,
                caller,
                first.user_id.clone(),
                BalanceChangeType::TopupCompleted,
                first.amount,
                balance,
                balance.saturating_add(first.amount),
                processing.id.clone(),
                description,
                now,
            );
            let completed = record_row(&mut self.topup_transactions, completed);
            let changes: usize = self.balance_change_logs.len();
            proof {
                let after = card_funded(before, wanted, caller@, now);
                assert(self@.topup_transactions =~= after.topup_transactions);
                assert(self@.balance_change_logs =~= after.balance_change_logs);
                assert(changes == before.balance_change_logs.len() + 1);
                if none_later(before.balance_change_logs, caller@, now) {
                    lemma_card_adds_amount(before, wanted, caller@, now);
                }
            }
            Ok(completed)
        } else {
            let failed = make_stage_row(
                &first,
                "_FAILED_",
                TopUpStatus::Failed,
                now.saturating_add(1),
                Some(now.saturating_add(1)),
            );
            let failed = record_row(&mut self.topup_transactions, failed);
            proof {
                let after = card_funded(before, wanted, caller@, now);
                assert(self@.topup_transactions =~= after.topup_transactions);
            }
            Ok(failed)
        }
    }

    /// Claims the payment of the top-up `topup_id` at `now`.
    ///
    /// A top-up that does not exist or has left the pending stage is
    /// refused and nothing is changed. A top-up whose time is over gets its
    /// expired row and the claim fails. Else the top-up is completed: its
    /// row at work, one balance change that adds its amount to the balance
    /// of its account, and its completed row, which is returned.
    pub fn claim_qris_payment(&mut self, caller: &AccountId, topup_id: &str, now: u64) -> (r: Result<
        TopUpTransaction,
        ClaimError,
    >)
        ensures
            extends(old(self)@, final(self)@),
            rows_distinct(old(self)@) ==> rows_distinct(final(self)@),
            match claim_check(old(self)@, topup_id@) {
                Err(error) => r is Err && r->Err_0 == error && final(self)@ == old(self)@,
                Ok(row) => if topup_expired(row, now) {
                    r is Err && r->Err_0 == ClaimError::Expired && final(self)@ == claim_expired(
                        old(self)@,
                        row,
                        now,
                    )
                } else {
                    r is Ok && r->Ok_0@ == claim_rows(old(self)@.topup_transactions, row, now)[old(
                        self,
                    )@.topup_transactions.len() as int + 1] && r->Ok_0.status == TopUpStatus::Completed
                        && final(self)@ == claimed(old(self)@, row, caller@, now)
                },
            },
            r is Ok && none_later(old(self)@.balance_change_logs, r->Ok_0.user_id@, now)
                ==> balance_of(final(self)@.balance_change_logs, r->Ok_0.user_id@) == capped_sum(
                balance_of(old(self)@.balance_change_logs, r->Ok_0.user_id@),
                r->Ok_0.amount,
            ),
    {
        let row = match self.get_topup_transaction(topup_id) {
            Some(row) => row,
            None => {
                return Err(ClaimError::NotFound);
            },
        };
        if left_pending(&self.topup_transactions, row.reference_id.as_str()) {
            return Err(ClaimError::AlreadyProcessed);
        }
        let ghost before = self@;
        let ghost first = row@;
        proof {
            lemma_funding_keeps_identifiers_distinct(before, first, caller@, now);
        }
        if check_payment_expiration(&row, now) {
            let expired = make_stage_row(&row, "_EXPIRED_", TopUpStatus::Expired, now, Some(now));
            record_row(&mut self.topup_transactions, expired);
            return Err(ClaimError::Expired);
        }
        let processing = make_stage_row(&row, "_PROCESSING_", TopUpStatus::Processing, now, None);
        let completed = make_stage_row(
            &row,
            "_COMPLETED_",
            TopUpStatus::Completed,
            now.saturating_add(2),
            Some(now.saturating_add(2)),
        );
        let processing = record_row(&mut self.topup_transactions, processing);
        let completed = record_row(&mut self.topup_transactions, completed);
        let balance = get_current_balance(&self.balance_change_logs, &row.user_id);
        let description = describe_topup("QRIS topup completed: ", &row);
        create_balance_change_log(
            &mut self.balance_change_logs,
            caller,
            row.user_id.clone(),
            BalanceChangeType::TopupCompleted,
            row.amount,
            balance,
            balance.saturating_add(row.amount),
            processing.id.clone(),
            description,
            now,
        );
        let changes: usize = self.balance_change_logs.len();
        proof {
            let after = claimed(before, first, caller@, now);
            assert(self@.topup_transactions =~= after.topup_transactions);
            assert(self@.balance_change_logs =~= after.balance_change_logs);
            assert(changes == before.balance_change_logs.len() + 1);
            if none_later(before.balance_change_logs, first.user_id, now) {
                lemma_claim_adds_amount(before, first, caller@, now);
            }
        }
        Ok(completed)
    }

    /// The top-up rows of `caller`, latest first.
    pub fn get_user_topup_history(&self, caller: &AccountId) -> (history: Vec<TopUpTransaction>)
        ensures
            views_of(history@) == latest_first::<TopUpTransaction>(
                chosen(self@.topup_transactions, |t: TopUpView| t.user_id == caller@),
            ),
    {
        let mut marks: Vec<bool> = Vec::new();
        let mut i: usize = 0;
        while i < self.topup_transactions.len()
            invariant
                i <= self.topup_transactions.len(),
                marks@.len() == i,
                forall|k: int|
                    0 <= k < i ==> marks@[k] == (self@.topup_transactions[k].user_id == caller@),
            decreases self.topup_transactions.len() - i,
        {
            marks.push(self.topup_transactions[i].user_id.same(caller));
            i += 1;
        }
        assert(marks@ =~= Seq::new(
            self@.topup_transactions.len(),
            |i: int| (|t: TopUpView| t.user_id == caller@)(self@.topup_transactions[i]),
        ));
        let mine = pick_marked(&self.topup_transactions, &marks);
        sort_latest_first(&mine)
    }
}

} // verus!
