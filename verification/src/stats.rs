//! Totals over the tables of the gateway and the combined list of its
//! activity.

use crate::gateway::{Gateway, GatewayView};
use crate::identity::AccountId;
use crate::ledger::{balance_of, get_current_balance};
use crate::rates::{is_fresh, is_rate_cache_valid, plain_text, push_plain_amount};
use crate::rows::{latest_first, sort_latest_first, views_of};
use crate::text::same_text;
use crate::transactions::{capped, count_party, day_before, DAY};
use crate::types::{
    clone_text, BalanceChangeType, BalanceChangeView, ExchangeRateView, NetworkTransaction,
    NetworkTransactionStatus, NetworkTransactionType, NetworkTransactionView, QRCodeView,
    SystemStats, TopUpMethod, TopUpView, Transaction, TransactionStatus,
    TransactionView, UserStats,
};
use vstd::prelude::*;
use vstd::string::StringExecFns;

verus! {

/// How often and how much a currency was used in completed payments.
#[derive(Debug)]
pub struct CurrencyStatInfo {
    pub currency: String,
    pub usage_count: u64,
    /// Fiat volume in millionths of the currency unit.
    pub total_fiat_volume: u64,
    pub total_icp_volume: u64,
}

/// What a `CurrencyStatInfo` holds.
pub struct CurrencyStatView {
    pub currency: Seq<char>,
    pub usage_count: u64,
    pub total_fiat_volume: u64,
    pub total_icp_volume: u64,
}

impl View for CurrencyStatInfo {
    type V = CurrencyStatView;

    open spec fn view(&self) -> CurrencyStatView {
        CurrencyStatView {
            currency: self.currency@,
            usage_count: self.usage_count,
            total_fiat_volume: self.total_fiat_volume,
            total_icp_volume: self.total_icp_volume,
        }
    }
}

/// How often a currency was used in completed payments.
#[derive(Debug)]
pub struct CurrencyCountryInfo {
    pub currency: String,
    pub transaction_count: u64,
}

/// Totals of the payments of the gateway.
#[derive(Debug)]
pub struct NetworkStats {
    pub active_countries: u64,
    pub active_currencies: u64,
    pub total_icp_volume: u64,
    pub transactions_24h: u64,
    pub transactions_7d: u64,
    pub total_transactions: u64,
    pub completed_transactions: u64,
    pub pending_transactions: u64,
    pub failed_transactions: u64,
    pub total_users: u64,
    pub currency_stats: Vec<CurrencyStatInfo>,
    pub currency_countries: Vec<CurrencyCountryInfo>,
}

/// The number of rows of which `wanted` holds.
pub open spec fn count<V>(rows: Seq<V>, wanted: spec_fn(V) -> bool) -> nat
    decreases rows.len(),
{
    if rows.len() == 0 {
        0
    } else if wanted(rows.last()) {
        count(rows.drop_last(), wanted) + 1
    } else {
        count(rows.drop_last(), wanted)
    }
}

/// The sum of the amounts of the balance changes of `account` of the kind
/// `kind`.
pub open spec fn total_of_kind(log: Seq<BalanceChangeView>, account: Seq<u8>, kind: BalanceChangeType) -> nat
    decreases log.len(),
{
    if log.len() == 0 {
        0
    } else if log.last().user_id == account && log.last().change_type == kind {
        total_of_kind(log.drop_last(), account, kind) + log.last().amount as nat
    } else {
        total_of_kind(log.drop_last(), account, kind)
    }
}

/// Whether a payment row counts as pending: it is opened or at work.
pub open spec fn counts_pending(row: TransactionView) -> bool {
    row.status == TransactionStatus::Pending || row.status == TransactionStatus::Processing
}

/// Whether a payment row counts as failed: it failed or expired.
pub open spec fn counts_failed(row: TransactionView) -> bool {
    row.status == TransactionStatus::Failed || row.status == TransactionStatus::Expired
}

/// Whether a payment row is completed.
pub open spec fn counts_completed(row: TransactionView) -> bool {
    row.status == TransactionStatus::Completed
}

/// The time before which a payment is older than a week at `now`.
pub open spec fn week_before(now: u64) -> u64 {
    if now < 7 * DAY {
        0
    } else {
        (now - 7 * DAY) as u64
    }
}

/// The sum of the amounts of the completed payment rows.
pub open spec fn completed_volume(rows: Seq<TransactionView>) -> nat
    decreases rows.len(),
{
    if rows.len() == 0 {
        0
    } else if counts_completed(rows.last()) {
        completed_volume(rows.drop_last()) + rows.last().amount as nat
    } else {
        completed_volume(rows.drop_last())
    }
}

/// The position of the entry of `currency` among the currency totals.
pub open spec fn stat_position(stats: Seq<CurrencyStatView>, currency: Seq<char>) -> Option<int>
    decreases stats.len(),
{
    if stats.len() == 0 {
        None
    } else {
        match stat_position(stats.drop_last(), currency) {
            Some(i) => Some(i),
            None => if stats.last().currency == currency {
                Some(stats.len() - 1)
            } else {
                None
            },
        }
    }
}

/// The currency totals with one more completed payment counted in.
pub open spec fn counted_in(stats: Seq<CurrencyStatView>, row: TransactionView) -> Seq<
    CurrencyStatView,
> {
    match stat_position(stats, row.fiat_currency) {
        Some(i) => stats.update(
            i,
            CurrencyStatView {
                currency: stats[i].currency,
                usage_count: capped(stats[i].usage_count as nat + 1),
                total_fiat_volume: capped(stats[i].total_fiat_volume as nat + row.fiat_amount as nat),
                total_icp_volume: capped(stats[i].total_icp_volume as nat + row.amount as nat),
            },
        ),
        None => stats.push(
            CurrencyStatView {
                currency: row.fiat_currency,
                usage_count: 1,
                total_fiat_volume: row.fiat_amount,
                total_icp_volume: row.amount,
            },
        ),
    }
}

/// The totals of the completed payment rows by currency, in the order in
/// which the currencies first occur; each total is held at the largest
/// `u64`.
pub open spec fn currency_totals(rows: Seq<TransactionView>) -> Seq<CurrencyStatView>
    decreases rows.len(),
{
    if rows.len() == 0 {
        Seq::empty()
    } else if counts_completed(rows.last()) {
        counted_in(currency_totals(rows.drop_last()), rows.last())
    } else {
        currency_totals(rows.drop_last())
    }
}

/// The words for a way to pay a top-up.
pub open spec fn method_text(method: TopUpMethod) -> Seq<char> {
    match method {
        TopUpMethod::QRIS => "QRIS"@,
        TopUpMethod::CreditCard => "Credit Card"@,
        TopUpMethod::DebitCard => "Debit Card"@,
        TopUpMethod::Web3Wallet => "Web3 Wallet"@,
    }
}

/// A payment row as an entry of the activity list.
pub open spec fn payment_activity(row: TransactionView) -> NetworkTransactionView {
    NetworkTransactionView {
        id: row.id,
        transaction_type: NetworkTransactionType::Payment,
        from_user: Some(row.from),
        to_user: Some(row.to),
        amount: row.amount,
        fiat_amount: row.fiat_amount,
        fiat_currency: row.fiat_currency,
        icp_amount: row.icp_amount,
        timestamp: row.timestamp,
        status: NetworkTransactionStatus::of_transaction(row.status),
        reference_id: row.qr_id,
        transaction_hash: row.transaction_hash,
        fee: Some(row.fee),
        description: "Payment: "@ + plain_text(row.fiat_amount) + " "@ + row.fiat_currency,
    }
}

/// A top-up row as an entry of the activity list.
pub open spec fn topup_activity(row: TopUpView) -> NetworkTransactionView {
    NetworkTransactionView {
        id: row.id,
        transaction_type: NetworkTransactionType::Topup,
        from_user: None,
        to_user: Some(row.user_id),
        amount: row.amount,
        fiat_amount: row.fiat_amount,
        fiat_currency: row.fiat_currency,
        icp_amount: row.amount,
        timestamp: row.created_at,
        status: NetworkTransactionStatus::of_topup(row.status),
        reference_id: row.reference_id,
        transaction_hash: None,
        fee: None,
        description: "Top-up via "@ + method_text(row.payment_method) + ": "@ + plain_text(
            row.fiat_amount,
        ) + " "@ + row.fiat_currency,
    }
}

/// All payment rows and then all top-up rows as entries of the activity
/// list.
pub open spec fn activity(state: GatewayView) -> Seq<NetworkTransactionView> {
    Seq::new(state.transactions.len(), |i: int| payment_activity(state.transactions[i]))
        + Seq::new(state.topup_transactions.len(), |i: int| topup_activity(state.topup_transactions[i]))
}

/// The totals of `account` in `state`.
pub open spec fn user_totals(state: GatewayView, account: Seq<u8>) -> UserStats {
    UserStats {
        total_sent: capped(
            total_of_kind(state.balance_change_logs, account, BalanceChangeType::PaymentSent),
        ),
        total_received: capped(
            total_of_kind(state.balance_change_logs, account, BalanceChangeType::PaymentReceived),
        ),
        transaction_count: capped(count_party(state.transactions, account)),
        qr_codes_generated: capped(count(state.qr_codes, |q: QRCodeView| q.user_id == account)),
        total_topup: capped(
            total_of_kind(state.balance_change_logs, account, BalanceChangeType::TopupCompleted),
        ),
        topup_count: capped(
            count(
                state.balance_change_logs,
                |e: BalanceChangeView|
                    e.user_id == account && e.change_type == BalanceChangeType::TopupCompleted,
            ),
        ),
        current_balance: balance_of(state.balance_change_logs, account),
    }
}

/// The totals of the gateway at `now`.
pub open spec fn system_totals(state: GatewayView, now: u64) -> SystemStats {
    SystemStats {
        total_users: capped(state.users.len()),
        total_transactions: capped(state.transactions.len()),
        total_qr_codes: capped(state.qr_codes.len()),
        cached_exchange_rates: capped(state.exchange_rates.len()),
        valid_exchange_rates: capped(
            count(state.exchange_rates, |r: ExchangeRateView| is_fresh(r.timestamp, now)),
        ),
        expired_exchange_rates: capped(
            count(state.exchange_rates, |r: ExchangeRateView| !is_fresh(r.timestamp, now)),
        ),
        completed_transactions: capped(
            count(state.transactions, |t: TransactionView| counts_completed(t)),
        ),
        pending_transactions: capped(
            count(state.transactions, |t: TransactionView| counts_pending(t)),
        ),
        failed_transactions: capped(
            count(state.transactions, |t: TransactionView| counts_failed(t)),
        ),
        canister_balance: 0,
    }
}

/// The words for a way to pay a top-up.
pub fn get_topup_method_string(method: &TopUpMethod) -> (text: String)
    ensures
        text@ == method_text(*method),
{
    match method {
        TopUpMethod::QRIS => String::from_str("QRIS"),
        TopUpMethod::CreditCard => String::from_str("Credit Card"),
        TopUpMethod::DebitCard => String::from_str("Debit Card"),
        TopUpMethod::Web3Wallet => String::from_str("Web3 Wallet"),
    }
}

/// One more than `n`, held at the largest `u64`.
fn one_more(n: u64) -> (r: u64)
    ensures
        r == capped(n as nat + 1),
{
    n.saturating_add(1)
}

/// The totals of the completed payment rows by currency.
fn currency_stats_of(transactions: &Vec<Transaction>) -> (stats: Vec<CurrencyStatInfo>)
    ensures
        views_of(stats@) == currency_totals(views_of(transactions@)),
{
    let ghost rows = views_of(transactions@);
    let mut stats: Vec<CurrencyStatInfo> = Vec::new();
    let mut i: usize = 0;
    assert(views_of(stats@) =~= currency_totals(rows.take(0)));
    while i < transactions.len()
        invariant
            i <= transactions.len(),
            rows == views_of(transactions@),
            views_of(stats@) == currency_totals(rows.take(i as int)),
        decreases transactions.len() - i,
    {
        assert(rows.take(i + 1).drop_last() == rows.take(i as int));
        assert(rows.take(i + 1).last() == transactions@[i as int]@);
        let row = &transactions[i];
        let completed = match row.status {
            TransactionStatus::Completed => true,
            _ => false,
        };
        if completed {
            let ghost before = views_of(stats@);
            let place = position_of_stat(&stats, row.fiat_currency.as_str());
            if let Some(at) = place {
                let entry = CurrencyStatInfo {
                    currency: stats[at].currency.clone(),
                    usage_count: one_more(stats[at].usage_count),
                    total_fiat_volume: stats[at].total_fiat_volume.saturating_add(row.fiat_amount),
                    total_icp_volume: stats[at].total_icp_volume.saturating_add(row.amount),
                };
                assert(before[at as int] == stats@[at as int]@);
                let ghost entry_view = entry@;
                stats.set(at, entry);
                assert(views_of(stats@) =~= before.update(at as int, entry_view));
            } else {
                let entry = CurrencyStatInfo {
                    currency: row.fiat_currency.clone(),
                    usage_count: 1,
                    total_fiat_volume: row.fiat_amount,
                    total_icp_volume: row.amount,
                };
                let ghost entry_view = entry@;
                stats.push(entry);
                assert(views_of(stats@) =~= before.push(entry_view));
            }
        }
        i += 1;
    }
    assert(rows.take(transactions@.len() as int) == rows);
    stats
}

/// The position of the entry of `currency` among the currency totals.
fn position_of_stat(stats: &Vec<CurrencyStatInfo>, currency: &str) -> (r: Option<usize>)
    ensures
        r is Some == stat_position(views_of(stats@), currency@) is Some,
        r matches Some(i) ==> i < stats@.len() && stat_position(views_of(stats@), currency@)
            == Some(i as int),
{
    let ghost all = views_of(stats@);
    let mut at: usize = 0;
    while at < stats.len()
        invariant
            at <= stats.len(),
            all == views_of(stats@),
            stat_position(all.take(at as int), currency@) is None,
        decreases stats.len() - at,
    {
        assert(all.take(at + 1).drop_last() == all.take(at as int));
        assert(all.take(at + 1).last() == stats@[at as int]@);
        if same_text(stats[at].currency.as_str(), currency) {
            proof {
                lemma_stat_position_stays(all, currency@, at as int + 1);
            }
            return Some(at);
        }
        at += 1;
    }
    assert(all.take(stats@.len() as int) == all);
    None
}

/// A position found among the first `n` entries is the position found among
/// all.
proof fn lemma_stat_position_stays(stats: Seq<CurrencyStatView>, currency: Seq<char>, n: int)
    requires
        0 <= n <= stats.len(),
        stat_position(stats.take(n), currency) is Some,
    ensures
        stat_position(stats, currency) == stat_position(stats.take(n), currency),
    decreases stats.len() - n,
{
    if n < stats.len() {
        assert(stats.take(n + 1).drop_last() == stats.take(n));
        lemma_stat_position_stays(stats, currency, n + 1);
    } else {
        assert(stats.take(n) == stats);
    }
}

impl Gateway {
    /// The totals of `caller`; there are always some: what its balance
    /// changes say it sent, received and topped up, the payment rows and
    /// requests it has, and its balance. Each total is held at the largest
    /// `u64`.
    pub fn get_user_stats(&self, caller: &AccountId) -> (stats: Option<UserStats>)
        ensures
            stats == Some(user_totals(self@, caller@)),
    {
        let ghost log = self@.balance_change_logs;
        let ghost topups = |e: BalanceChangeView|
            e.user_id == caller@ && e.change_type == BalanceChangeType::TopupCompleted;
        let mut sent: u64 = 0;
        let mut received: u64 = 0;
        let mut topup: u64 = 0;
        let mut topup_count: u64 = 0;
        let mut i: usize = 0;
        while i < self.balance_change_logs.len()
            invariant
                i <= self.balance_change_logs.len(),
                log == views_of(self.balance_change_logs@),
                topups == |e: BalanceChangeView|
                    e.user_id == caller@ && e.change_type == BalanceChangeType::TopupCompleted,
                sent == capped(
                    total_of_kind(log.take(i as int), caller@, BalanceChangeType::PaymentSent),
                ),
                received == capped(
                    total_of_kind(log.take(i as int), caller@, BalanceChangeType::PaymentReceived),
                ),
                topup == capped(
                    total_of_kind(log.take(i as int), caller@, BalanceChangeType::TopupCompleted),
                ),
                topup_count == capped(count(log.take(i as int), topups)),
            decreases self.balance_change_logs.len() - i,
        {
            assert(log.take(i + 1).drop_last() == log.take(i as int));
            assert(log.take(i + 1).last() == self.balance_change_logs@[i as int]@);
            let entry = &self.balance_change_logs[i];
            if entry.user_id.same(caller) {
                match entry.change_type {
                    BalanceChangeType::PaymentSent => {
                        sent = sent.saturating_add(entry.amount);
                    },
                    BalanceChangeType::PaymentReceived => {
                        received = received.saturating_add(entry.amount);
                    },
                    BalanceChangeType::TopupCompleted => {
                        topup = topup.saturating_add(entry.amount);
                        topup_count = one_more(topup_count);
                    },
                    _ => {},
                }
            }
            i += 1;
        }
        assert(log.take(self.balance_change_logs@.len() as int) == log);

        let ghost rows = self@.transactions;
        let mut transaction_count: u64 = 0;
        let mut j: usize = 0;
        while j < self.transactions.len()
            invariant
                j <= self.transactions.len(),
                rows == views_of(self.transactions@),
                transaction_count == capped(count_party(rows.take(j as int), caller@)),
            decreases self.transactions.len() - j,
        {
            assert(rows.take(j + 1).drop_last() == rows.take(j as int));
            assert(rows.take(j + 1).last() == self.transactions@[j as int]@);
            let row = &self.transactions[j];
            if row.from.same(caller) || row.to.same(caller) {
                transaction_count = one_more(transaction_count);
            }
            j += 1;
        }
        assert(rows.take(self.transactions@.len() as int) == rows);

        let ghost codes = self@.qr_codes;
        let ghost own = |q: QRCodeView| q.user_id == caller@;
        let mut qr_codes_generated: u64 = 0;
        let mut k: usize = 0;
        while k < self.qr_codes.len()
            invariant
                k <= self.qr_codes.len(),
                codes == views_of(self.qr_codes@),
                own == |q: QRCodeView| q.user_id == caller@,
                qr_codes_generated == capped(count(codes.take(k as int), own)),
            decreases self.qr_codes.len() - k,
        {
            assert(codes.take(k + 1).drop_last() == codes.take(k as int));
            assert(codes.take(k + 1).last() == self.qr_codes@[k as int]@);
            if self.qr_codes[k].user_id.same(caller) {
                qr_codes_generated = one_more(qr_codes_generated);
            }
            k += 1;
        }
        assert(codes.take(self.qr_codes@.len() as int) == codes);

        Some(
            UserStats {
                total_sent: sent,
                total_received: received,
                transaction_count,
                qr_codes_generated,
                total_topup: topup,
                topup_count,
                current_balance: get_current_balance(&self.balance_change_logs, caller),
            },
        )
    }

    /// The totals of the gateway at `now`: the sizes of its tables, the
    /// rates that are fresh and those that are not, and the payment rows by
    /// stage.
    pub fn get_system_stats(&self, now: u64) -> (stats: SystemStats)
        ensures
            stats == system_totals(self@, now),
    {
        let ghost rates = self@.exchange_rates;
        let ghost fresh = |r: ExchangeRateView| is_fresh(r.timestamp, now);
        let ghost old = |r: ExchangeRateView| !is_fresh(r.timestamp, now);
        let mut valid: u64 = 0;
        let mut expired: u64 = 0;
        let mut i: usize = 0;
        while i < self.exchange_rates.len()
            invariant
                i <= self.exchange_rates.len(),
                rates == views_of(self.exchange_rates@),
                fresh == |r: ExchangeRateView| is_fresh(r.timestamp, now),
                old == |r: ExchangeRateView| !is_fresh(r.timestamp, now),
                valid == capped(count(rates.take(i as int), fresh)),
                expired == capped(count(rates.take(i as int), old)),
            decreases self.exchange_rates.len() - i,
        {
            assert(rates.take(i + 1).drop_last() == rates.take(i as int));
            assert(rates.take(i + 1).last() == self.exchange_rates@[i as int]@);
            if is_rate_cache_valid(&self.exchange_rates[i], now) {
                valid = one_more(valid);
            } else {
                expired = one_more(expired);
            }
            i += 1;
        }
        assert(rates.take(self.exchange_rates@.len() as int) == rates);

        let ghost rows = self@.transactions;
        let ghost done = |t: TransactionView| counts_completed(t);
        let ghost open = |t: TransactionView| counts_pending(t);
        let ghost lost = |t: TransactionView| counts_failed(t);
        let mut completed: u64 = 0;
        let mut pending: u64 = 0;
        let mut failed: u64 = 0;
        let mut j: usize = 0;
        while j < self.transactions.len()
            invariant
                j <= self.transactions.len(),
                rows == views_of(self.transactions@),
                done == |t: TransactionView| counts_completed(t),
                open == |t: TransactionView| counts_pending(t),
                lost == |t: TransactionView| counts_failed(t),
                completed == capped(count(rows.take(j as int), done)),
                pending == capped(count(rows.take(j as int), open)),
                failed == capped(count(rows.take(j as int), lost)),
            decreases self.transactions.len() - j,
        {
            assert(rows.take(j + 1).drop_last() == rows.take(j as int));
            assert(rows.take(j + 1).last() == self.transactions@[j as int]@);
            match self.transactions[j].status {
                TransactionStatus::Completed => {
                    completed = one_more(completed);
                },
                TransactionStatus::Pending | TransactionStatus::Processing => {
                    pending = one_more(pending);
                },
                TransactionStatus::Failed | TransactionStatus::Expired => {
                    failed = one_more(failed);
                },
            }
            j += 1;
        }
        assert(rows.take(self.transactions@.len() as int) == rows);

        SystemStats {
            total_users: self.users.len() as u64,
            total_transactions: self.transactions.len() as u64,
            total_qr_codes: self.qr_codes.len() as u64,
            cached_exchange_rates: self.exchange_rates.len() as u64,
            valid_exchange_rates: valid,
            expired_exchange_rates: expired,
            completed_transactions: completed,
            pending_transactions: pending,
            failed_transactions: failed,
            canister_balance: 0,
        }
    }

    /// The totals of the payments at `now`: the rows by stage, those of the
    /// last day and week, the volume of the completed ones, and the
    /// completed ones by currency. One currency counts as one country.
    pub fn get_network_stats(&self, now: u64) -> (stats: NetworkStats)
        ensures
            stats.total_transactions == capped(self@.transactions.len()),
            stats.completed_transactions == capped(
                count(self@.transactions, |t: TransactionView| counts_completed(t)),
            ),
            stats.pending_transactions == capped(
                count(self@.transactions, |t: TransactionView| counts_pending(t)),
            ),
            stats.failed_transactions == capped(
                count(self@.transactions, |t: TransactionView| counts_failed(t)),
            ),
            stats.transactions_24h == capped(
                count(self@.transactions, |t: TransactionView| t.timestamp >= day_before(now)),
            ),
            stats.transactions_7d == capped(
                count(self@.transactions, |t: TransactionView| t.timestamp >= week_before(now)),
            ),
            stats.total_icp_volume == capped(completed_volume(self@.transactions)),
            stats.total_users == capped(self@.users.len()),
            views_of(stats.currency_stats@) == currency_totals(self@.transactions),
            stats.active_currencies == capped(currency_totals(self@.transactions).len()),
            stats.active_countries == stats.active_currencies,
            stats.currency_countries@.len() == stats.currency_stats@.len(),
            forall|i: int|
                0 <= i < stats.currency_countries@.len() ==> (
                #[trigger] stats.currency_countries@[i]).currency@
                    == stats.currency_stats@[i].currency@
                    && stats.currency_countries@[i].transaction_count
                    == stats.currency_stats@[i].usage_count,
    {
        let cutoff_day = now.saturating_sub(DAY);
        let cutoff_week = now.saturating_sub(7 * DAY);
        let system = self.get_system_stats(now);
        let ghost rows = self@.transactions;
        let ghost in_day = |t: TransactionView| t.timestamp >= day_before(now);
        let ghost in_week = |t: TransactionView| t.timestamp >= week_before(now);
        let mut last_day: u64 = 0;
        let mut last_week: u64 = 0;
        let mut volume: u64 = 0;
        let mut j: usize = 0;
        while j < self.transactions.len()
            invariant
                j <= self.transactions.len(),
                rows == views_of(self.transactions@),
                cutoff_day == day_before(now),
                cutoff_week == week_before(now),
                in_day == |t: TransactionView| t.timestamp >= day_before(now),
                in_week == |t: TransactionView| t.timestamp >= week_before(now),
                last_day == capped(count(rows.take(j as int), in_day)),
                last_week == capped(count(rows.take(j as int), in_week)),
                volume == capped(completed_volume(rows.take(j as int))),
            decreases self.transactions.len() - j,
        {
            assert(rows.take(j + 1).drop_last() == rows.take(j as int));
            assert(rows.take(j + 1).last() == self.transactions@[j as int]@);
            let row = &self.transactions[j];
            if row.timestamp >= cutoff_day {
                last_day = one_more(last_day);
            }
            if row.timestamp >= cutoff_week {
                last_week = one_more(last_week);
            }
            let completed = match row.status {
                TransactionStatus::Completed => true,
                _ => false,
            };
            if completed {
                volume = volume.saturating_add(row.amount);
            }
            j += 1;
        }
        assert(rows.take(self.transactions@.len() as int) == rows);

        let currency_stats = currency_stats_of(&self.transactions);
        let mut currency_countries: Vec<CurrencyCountryInfo> = Vec::new();
        let mut k: usize = 0;
        while k < currency_stats.len()
            invariant
                k <= currency_stats.len(),
                currency_countries@.len() == k,
                forall|i: int|
                    0 <= i < k ==> (#[trigger] currency_countries@[i]).currency@
                        == currency_stats@[i].currency@ && currency_countries@[i].transaction_count
                        == currency_stats@[i].usage_count,
            decreases currency_stats.len() - k,
        {
            currency_countries.push(
                CurrencyCountryInfo {
                    currency: currency_stats[k].currency.clone(),
                    transaction_count: currency_stats[k].usage_count,
                },
            );
            k += 1;
        }
        let active = currency_stats.len() as u64;
        NetworkStats {
            active_countries: active,
            active_currencies: active,
            total_icp_volume: volume,
            transactions_24h: last_day,
            transactions_7d: last_week,
            total_transactions: system.total_transactions,
            completed_transactions: system.completed_transactions,
            pending_transactions: system.pending_transactions,
            failed_transactions: system.failed_transactions,
            total_users: system.total_users,
            currency_stats,
            currency_countries,
        }
    }

    /// All payment rows and all top-up rows as one list of activity, latest
    /// first. Rows of one time stand as they stand in their tables, payments
    /// before top-ups.
    pub fn get_all_network_transactions(&self) -> (list: Vec<NetworkTransaction>)
        ensures
            views_of(list@) == latest_first::<NetworkTransaction>(activity(self@)),
    {
        let mut all: Vec<NetworkTransaction> = Vec::new();
        let mut i: usize = 0;
        while i < self.transactions.len()
            invariant
                i <= self.transactions.len(),
                all@.len() == i,
                forall|k: int|
                    0 <= k < i ==> (#[trigger] all@[k])@ == payment_activity(self@.transactions[k]),
            decreases self.transactions.len() - i,
        {
            let row = &self.transactions[i];
            assert(self@.transactions[i as int] == row@);
            let mut description = String::from_str("Payment: ");
            push_plain_amount(&mut description, row.fiat_amount);
            description.append(" ");
            description.append(row.fiat_currency.as_str());
            all.push(
                NetworkTransaction {
                    id: row.id.clone(),
                    transaction_type: NetworkTransactionType::Payment,
                    from_user: Some(row.from.clone()),
                    to_user: Some(row.to.clone()),
                    amount: row.amount,
                    fiat_amount: row.fiat_amount,
                    fiat_currency: row.fiat_currency.clone(),
                    icp_amount: row.icp_amount,
                    timestamp: row.timestamp,
                    status: NetworkTransactionStatus::from_transaction_status(&row.status),
                    reference_id: row.qr_id.clone(),
                    transaction_hash: clone_text(&row.transaction_hash),
                    fee: Some(row.fee),
                    description,
                },
            );
            i += 1;
        }
        let n = self.transactions.len();
        let mut j: usize = 0;
        while j < self.topup_transactions.len()
            invariant
                j <= self.topup_transactions.len(),
                n == self.transactions@.len(),
                all@.len() == n + j,
                forall|k: int|
                    0 <= k < n ==> (#[trigger] all@[k])@ == payment_activity(self@.transactions[k]),
                forall|k: int|
                    0 <= k < j ==> (#[trigger] all@[n + k])@ == topup_activity(
                        self@.topup_transactions[k],
                    ),
            decreases self.topup_transactions.len() - j,
        {
            let row = &self.topup_transactions[j];
            assert(self@.topup_transactions[j as int] == row@);
            let mut description = String::from_str("Top-up via ");
            let method = get_topup_method_string(&row.payment_method);
            description.append(method.as_str());
            description.append(": ");
            push_plain_amount(&mut description, row.fiat_amount);
            description.append(" ");
            description.append(row.fiat_currency.as_str());
            let ghost before = all@;
            all.push(
                NetworkTransaction {
                    id: row.id.clone(),
                    transaction_type: NetworkTransactionType::Topup,
                    from_user: None,
                    to_user: Some(row.user_id.clone()),
                    amount: row.amount,
                    fiat_amount: row.fiat_amount,
                    fiat_currency: row.fiat_currency.clone(),
                    icp_amount: row.amount,
                    timestamp: row.created_at,
                    status: NetworkTransactionStatus::from_topup_status(&row.status),
                    reference_id: row.reference_id.clone(),
                    transaction_hash: None,
                    fee: None,
                    description,
                },
            );
            assert(forall|k: int| 0 <= k < n + j ==> all@[k] == before[k]);
            j += 1;
        }
        proof {
            let listed = views_of(all@);
            let wanted = activity(self@);
            assert(listed.len() == wanted.len());
            assert forall|k: int| 0 <= k < listed.len() implies listed[k] == wanted[k] by {
                if k < n {
                    assert(all@[k]@ == payment_activity(self@.transactions[k]));
                } else {
                    assert(all@[n + (k - n)]@ == topup_activity(self@.topup_transactions[k - n]));
                }
            }
            assert(listed =~= wanted);
        }
        sort_latest_first(&all)
    }
}

} // verus!
