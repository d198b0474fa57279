//! Reading the gateway: balances, histories and lists of payments.

use crate::gateway::{Gateway, GatewayView};
use crate::identity::AccountId;
use crate::ledger::{balance_of, events_of, get_current_balance};
use crate::rates::{format_token_amount, token_text};
use crate::rows::{chosen, latest_first, sort_latest_first, views_of};
use crate::transactions::{
    create_transaction_summary, day_before, is_party, TransactionSummary,
};
use crate::types::{
    BalanceChangeLog, QRUsageLog, QRUsageView, Transaction, TransactionView,
    UserBalance,
};
use vstd::prelude::*;

verus! {

/// The payment rows of which `user` is a party, latest first.
pub open spec fn rows_of_party(rows: Seq<TransactionView>, user: Seq<u8>) -> Seq<TransactionView> {
    latest_first::<Transaction>(chosen(rows, |t: TransactionView| is_party(t, user)))
}

impl Gateway {
    /// The balance of `caller` at `now`, as a number and as text; there is
    /// always one. The value is what the balance changes of the account add
    /// up to; nothing is changed by reading it, so that two reads with no
    /// write between them give the same balance.
    pub fn get_user_balance(&self, caller: &AccountId, now: u64) -> (r: Option<UserBalance>)
        ensures
            r is Some,
            r->0.user_id@ == caller@,
            r->0.balance == balance_of(self@.balance_change_logs, caller@),
            r->0.formatted_balance@ == token_text(r->0.balance),
            r->0.last_updated == now,
    {
        let balance = get_current_balance(&self.balance_change_logs, caller);
        Some(
            UserBalance {
                user_id: caller.clone(),
                balance,
                formatted_balance: format_token_amount(balance),
                last_updated: now,
            },
        )
    }

    /// The balance changes of `caller`, latest first.
    pub fn get_user_balance_history(&self, caller: &AccountId) -> (history: Vec<BalanceChangeLog>)
        ensures
            views_of(history@) == latest_first::<BalanceChangeLog>(
                events_of(self@.balance_change_logs, caller@),
            ),
    {
        crate::ledger::get_user_balance_history(&self.balance_change_logs, caller)
    }

    /// The entries of the usage log that speak of the request `qr_id`,
    /// latest first.
    pub fn get_qr_usage_history(&self, qr_id: &str) -> (history: Vec<QRUsageLog>)
        ensures
            views_of(history@) == latest_first::<QRUsageLog>(
                chosen(self@.qr_usage_logs, |e: QRUsageView| e.qr_id == qr_id@),
            ),
    {
        crate::qr::get_qr_usage_history(&self.qr_usage_logs, qr_id)
    }

    /// All balance changes, latest first.
    pub fn get_all_balance_changes(&self) -> (all: Vec<BalanceChangeLog>)
        ensures
            views_of(all@) == latest_first::<BalanceChangeLog>(self@.balance_change_logs),
    {
        sort_latest_first(&self.balance_change_logs)
    }

    /// All entries of the usage log, latest first.
    pub fn get_all_qr_usage_logs(&self) -> (all: Vec<QRUsageLog>)
        ensures
            views_of(all@) == latest_first::<QRUsageLog>(self@.qr_usage_logs),
    {
        sort_latest_first(&self.qr_usage_logs)
    }

    /// The payment rows of which `caller` is a party, latest first.
    pub fn get_user_transactions(&self, caller: &AccountId) -> (rows: Vec<Transaction>)
        ensures
            views_of(rows@) == rows_of_party(self@.transactions, caller@),
    {
        let mine = crate::transactions::get_user_transactions(&self.transactions, caller);
        sort_latest_first(&mine)
    }

    /// The payment rows of which `caller` is a party as the caller sees
    /// them, latest first.
    pub fn get_user_transaction_summaries(&self, caller: &AccountId) -> (summaries: Vec<
        TransactionSummary,
    >)
        ensures
            summaries@.len() == rows_of_party(self@.transactions, caller@).len(),
            forall|i: int|
                0 <= i < summaries@.len() ==> crate::transactions::summary_of(
                    rows_of_party(self@.transactions, caller@)[i],
                    caller@,
                    #[trigger] summaries@[i],
                ),
    {
        let rows = self.get_user_transactions(caller);
        let mut summaries: Vec<TransactionSummary> = Vec::new();
        let mut i: usize = 0;
        while i < rows.len()
            invariant
                i <= rows.len(),
                summaries@.len() == i,
                forall|k: int|
                    0 <= k < i ==> crate::transactions::summary_of(
                        views_of(rows@)[k],
                        caller@,
                        #[trigger] summaries@[k],
                    ),
            decreases rows.len() - i,
        {
            assert(views_of(rows@)[i as int] == rows@[i as int]@);
            summaries.push(create_transaction_summary(&rows[i], caller));
            i += 1;
        }
        summaries
    }

    /// The payment rows of the last day before `now`, in the order in which
    /// they were written.
    pub fn get_recent_transactions_public(&self, now: u64) -> (rows: Vec<Transaction>)
        ensures
            views_of(rows@) == chosen(
                self@.transactions,
                |t: TransactionView| t.timestamp >= day_before(now),
            ),
    {
        crate::transactions::get_recent_transactions(&self.transactions, now)
    }

    /// All payment rows, latest first.
    pub fn get_all_transactions(&self) -> (rows: Vec<Transaction>)
        ensures
            views_of(rows@) == latest_first::<Transaction>(self@.transactions),
    {
        sort_latest_first(&self.transactions)
    }

    /// All payment rows, latest first, for everyone.
    pub fn get_all_transactions_public(&self) -> (rows: Vec<Transaction>)
        ensures
            views_of(rows@) == latest_first::<Transaction>(self@.transactions),
    {
        self.get_all_transactions()
    }
}

/// Reading a balance twice gives the same amount where nothing was written
/// between the reads; and what is written for another account, or to
/// another table, leaves the balance as it was.
pub proof fn lemma_balance_read_is_repeatable(
    first: GatewayView,
    second: GatewayView,
    account: Seq<u8>,
)
    requires
        events_of(second.balance_change_logs, account) == events_of(
            first.balance_change_logs,
            account,
        ),
    ensures
        balance_of(second.balance_change_logs, account) == balance_of(
            first.balance_change_logs,
            account,
        ),
{
}

} // verus!
