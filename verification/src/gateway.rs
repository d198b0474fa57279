//! The tables of the gateway and the lookups in them.

use crate::identity::AccountId;
use crate::rows::{distinct, views_of};
use crate::text::same_text;
use crate::types::{
    BalanceChangeLog, BalanceChangeView, ExchangeRate, ExchangeRateView, QRCode, QRCodeView,
    QRUsageLog, QRUsageView, TopUpTransaction, TopUpView, Transaction, TransactionView, User,
    UserView,
};
use vstd::prelude::*;

verus! {

/// All that the gateway keeps. The logs of payments, top-ups, balance
/// changes and request uses only ever grow, and each row that the gateway
/// adds to them gets an identifier that no row of its table has. Payment
/// requests only ever grow too; their identifiers have a fixed form, and of
/// two requests with one identifier the later is the one that is found.
/// Accounts and rates are kept one per key.
#[derive(Debug)]
pub struct Gateway {
    pub users: Vec<User>,
    pub transactions: Vec<Transaction>,
    pub qr_codes: Vec<QRCode>,
    pub topup_transactions: Vec<TopUpTransaction>,
    pub balance_change_logs: Vec<BalanceChangeLog>,
    pub qr_usage_logs: Vec<QRUsageLog>,
    pub exchange_rates: Vec<ExchangeRate>,
}

/// What a `Gateway` holds.
pub struct GatewayView {
    pub users: Seq<UserView>,
    pub transactions: Seq<TransactionView>,
    pub qr_codes: Seq<QRCodeView>,
    pub topup_transactions: Seq<TopUpView>,
    pub balance_change_logs: Seq<BalanceChangeView>,
    pub qr_usage_logs: Seq<QRUsageView>,
    pub exchange_rates: Seq<ExchangeRateView>,
}

impl View for Gateway {
    type V = GatewayView;

    open spec fn view(&self) -> GatewayView {
        GatewayView {
            users: views_of(self.users@),
            transactions: views_of(self.transactions@),
            qr_codes: views_of(self.qr_codes@),
            topup_transactions: views_of(self.topup_transactions@),
            balance_change_logs: views_of(self.balance_change_logs@),
            qr_usage_logs: views_of(self.qr_usage_logs@),
            exchange_rates: views_of(self.exchange_rates@),
        }
    }
}

/// A gateway that holds nothing.
pub open spec fn empty_gateway() -> GatewayView {
    GatewayView {
        users: Seq::empty(),
        transactions: Seq::empty(),
        qr_codes: Seq::empty(),
        topup_transactions: Seq::empty(),
        balance_change_logs: Seq::empty(),
        qr_usage_logs: Seq::empty(),
        exchange_rates: Seq::empty(),
    }
}

/// Whether `later` holds all the rows of the logs of `earlier`, in their
/// places, and all its payment requests.
pub open spec fn extends(earlier: GatewayView, later: GatewayView) -> bool {
    &&& earlier.transactions.is_prefix_of(later.transactions)
    &&& earlier.qr_codes.is_prefix_of(later.qr_codes)
    &&& earlier.topup_transactions.is_prefix_of(later.topup_transactions)
    &&& earlier.balance_change_logs.is_prefix_of(later.balance_change_logs)
    &&& earlier.qr_usage_logs.is_prefix_of(later.qr_usage_logs)
}

/// Whether each of the logs of the gateway has rows of distinct
/// identifiers: the payment rows, the top-up rows, the balance changes and
/// the entries of the usage log.
pub open spec fn rows_distinct(state: GatewayView) -> bool {
    &&& distinct::<Transaction>(state.transactions)
    &&& distinct::<TopUpTransaction>(state.topup_transactions)
    &&& distinct::<BalanceChangeLog>(state.balance_change_logs)
    &&& distinct::<QRUsageLog>(state.qr_usage_logs)
}

/// What extends a gateway that extends another extends that other too, and
/// every gateway extends itself.
pub proof fn lemma_extends_in_steps(first: GatewayView, second: GatewayView, third: GatewayView)
    requires
        extends(first, second),
        extends(second, third),
    ensures
        extends(first, third),
        extends(first, first),
{
}

/// Whether an account with the identity `id` is registered.
pub open spec fn is_registered(users: Seq<UserView>, id: Seq<u8>) -> bool {
    exists|i: int| 0 <= i < users.len() && (#[trigger] users[i]).id == id
}

/// The position of the first account with the identity `id`.
pub open spec fn user_position(users: Seq<UserView>, id: Seq<u8>) -> Option<int>
    decreases users.len(),
{
    if users.len() == 0 {
        None
    } else {
        match user_position(users.drop_last(), id) {
            Some(i) => Some(i),
            None => if users.last().id == id {
                Some(users.len() - 1)
            } else {
                None
            },
        }
    }
}

/// The payment request with the identifier `id`; the latest, should there be
/// more than one.
pub open spec fn find_qr(codes: Seq<QRCodeView>, id: Seq<char>) -> Option<QRCodeView>
    decreases codes.len(),
{
    if codes.len() == 0 {
        None
    } else if codes.last().id == id {
        Some(codes.last())
    } else {
        find_qr(codes.drop_last(), id)
    }
}

/// The payment row with the identifier `id`; the latest, should there be
/// more than one.
pub open spec fn find_transaction(rows: Seq<TransactionView>, id: Seq<char>) -> Option<
    TransactionView,
>
    decreases rows.len(),
{
    if rows.len() == 0 {
        None
    } else if rows.last().id == id {
        Some(rows.last())
    } else {
        find_transaction(rows.drop_last(), id)
    }
}

/// The top-up row with the identifier `id`; the latest, should there be more
/// than one.
pub open spec fn find_topup(rows: Seq<TopUpView>, id: Seq<char>) -> Option<TopUpView>
    decreases rows.len(),
{
    if rows.len() == 0 {
        None
    } else if rows.last().id == id {
        Some(rows.last())
    } else {
        find_topup(rows.drop_last(), id)
    }
}

/// The position of the rate of `currency`, a code in upper case.
pub open spec fn rate_position(rates: Seq<ExchangeRateView>, currency: Seq<char>) -> Option<int>
    decreases rates.len(),
{
    if rates.len() == 0 {
        None
    } else {
        match rate_position(rates.drop_last(), currency) {
            Some(i) => Some(i),
            None => if rates.last().currency == currency {
                Some(rates.len() - 1)
            } else {
                None
            },
        }
    }
}

/// The rate kept for `currency`, a code in upper case.
pub open spec fn find_rate(rates: Seq<ExchangeRateView>, currency: Seq<char>) -> Option<
    ExchangeRateView,
> {
    match rate_position(rates, currency) {
        Some(i) => Some(rates[i]),
        None => None,
    }
}

/// A found position is a position of the table, holds the identity looked
/// for, and no earlier position does; where nothing is found, no position
/// holds it.
pub proof fn lemma_user_position(users: Seq<UserView>, id: Seq<u8>)
    ensures
        match user_position(users, id) {
            Some(i) => 0 <= i < users.len() && users[i].id == id && forall|k: int|
                0 <= k < i ==> (#[trigger] users[k]).id != id,
            None => !is_registered(users, id),
        },
    decreases users.len(),
{
    if users.len() > 0 {
        let front = users.drop_last();
        lemma_user_position(front, id);
        match user_position(front, id) {
            Some(i) => {
                assert(front[i] == users[i]);
                assert forall|k: int| 0 <= k < i implies (#[trigger] users[k]).id != id by {
                    assert(front[k] == users[k]);
                }
            },
            None => {
                assert forall|k: int| 0 <= k < users.len() - 1 implies (#[trigger] users[k]).id
                    != id by {
                    assert(front[k] == users[k]);
                }
            },
        }
    }
}

/// A found position is a position of the cache, holds the currency looked
/// for, and no earlier position does; where nothing is found, no position
/// holds it.
pub proof fn lemma_rate_position(rates: Seq<ExchangeRateView>, currency: Seq<char>)
    ensures
        match rate_position(rates, currency) {
            Some(i) => 0 <= i < rates.len() && rates[i].currency == currency && forall|k: int|
                0 <= k < i ==> (#[trigger] rates[k]).currency != currency,
            None => forall|k: int| 0 <= k < rates.len() ==> (#[trigger] rates[k]).currency != currency,
        },
    decreases rates.len(),
{
    if rates.len() > 0 {
        let front = rates.drop_last();
        lemma_rate_position(front, currency);
        match rate_position(front, currency) {
            Some(i) => {
                assert(front[i] == rates[i]);
                assert forall|k: int| 0 <= k < i implies (#[trigger] rates[k]).currency
                    != currency by {
                    assert(front[k] == rates[k]);
                }
            },
            None => {
                assert forall|k: int| 0 <= k < rates.len() - 1 implies (#[trigger] rates[k]).currency
                    != currency by {
                    assert(front[k] == rates[k]);
                }
            },
        }
    }
}

/// A payment request that is found has the identifier looked for and is
/// still found after more requests were added.
pub proof fn lemma_find_qr(codes: Seq<QRCodeView>, more: Seq<QRCodeView>, id: Seq<char>)
    requires
        find_qr(codes, id) is Some,
    ensures
        find_qr(codes, id)->0.id == id,
        find_qr(codes + more, id) is Some,
        find_qr(codes + more, id)->0.id == id,
    decreases codes.len() + more.len(),
{
    if codes.len() > 0 && codes.last().id != id {
        lemma_find_qr(codes.drop_last(), Seq::empty(), id);
    }
    if more.len() > 0 {
        assert((codes + more).drop_last() == codes + more.drop_last());
        assert((codes + more).last() == more.last());
        if more.last().id != id {
            lemma_find_qr(codes, more.drop_last(), id);
        }
    } else {
        assert(codes + more == codes);
    }
}

/// The position of the first account with the identity `id`.
pub fn position_of_user(users: &Vec<User>, id: &AccountId) -> (r: Option<usize>)
    ensures
        r is Some == user_position(views_of(users@), id@) is Some,
        r matches Some(i) ==> i < users@.len() && user_position(views_of(users@), id@) == Some(
            i as int,
        ),
{
    let ghost all = views_of(users@);
    let mut i: usize = 0;
    while i < users.len()
        invariant
            i <= users.len(),
            all == views_of(users@),
            user_position(all.take(i as int), id@).is_none(),
        decreases users.len() - i,
    {
        assert(all.take(i + 1).drop_last() == all.take(i as int));
        assert(all.take(i + 1).last() == users@[i as int]@);
        if users[i].id.same(id) {
            proof {
                lemma_position_stays(all, id@, i as int + 1);
            }
            return Some(i);
        }
        i += 1;
    }
    assert(all.take(users@.len() as int) == all);
    None
}

/// A position found among the first `n` accounts is the position found among
/// all.
proof fn lemma_position_stays(users: Seq<UserView>, id: Seq<u8>, n: int)
    requires
        0 <= n <= users.len(),
        user_position(users.take(n), id) is Some,
    ensures
        user_position(users, id) == user_position(users.take(n), id),
    decreases users.len() - n,
{
    if n < users.len() {
        assert(users.take(n + 1).drop_last() == users.take(n));
        lemma_position_stays(users, id, n + 1);
    } else {
        assert(users.take(n) == users);
    }
}

impl Gateway {
    /// A gateway that holds nothing.
    pub fn new() -> (gateway: Gateway)
        ensures
            gateway@ == empty_gateway(),
    {
        let gateway = Gateway {
            users: Vec::new(),
            transactions: Vec::new(),
            qr_codes: Vec::new(),
            topup_transactions: Vec::new(),
            balance_change_logs: Vec::new(),
            qr_usage_logs: Vec::new(),
            exchange_rates: Vec::new(),
        };
        assert(gateway@.users =~= Seq::<UserView>::empty());
        assert(gateway@.transactions =~= Seq::<TransactionView>::empty());
        assert(gateway@.qr_codes =~= Seq::<QRCodeView>::empty());
        assert(gateway@.topup_transactions =~= Seq::<TopUpView>::empty());
        assert(gateway@.balance_change_logs =~= Seq::<BalanceChangeView>::empty());
        assert(gateway@.qr_usage_logs =~= Seq::<QRUsageView>::empty());
        assert(gateway@.exchange_rates =~= Seq::<ExchangeRateView>::empty());
        gateway
    }

    /// Whether an account with the identity `id` is registered.
    pub fn is_user_registered(&self, id: &AccountId) -> (r: bool)
        ensures
            r == is_registered(self@.users, id@),
    {
        proof {
            lemma_user_position(self@.users, id@);
        }
        position_of_user(&self.users, id).is_some()
    }

    /// The account with the identity `user_id`.
    pub fn get_user_by_id(&self, user_id: &AccountId) -> (r: Option<User>)
        ensures
            match user_position(self@.users, user_id@) {
                Some(i) => r is Some && r->0@ == self@.users[i],
                None => r is None,
            },
    {
        match position_of_user(&self.users, user_id) {
            Some(i) => Some(self.users[i].clone()),
            None => None,
        }
    }

    /// The payment request with the identifier `qr_id`.
    pub fn get_qr(&self, qr_id: &str) -> (r: Option<QRCode>)
        ensures
            match find_qr(self@.qr_codes, qr_id@) {
                Some(qr) => r is Some && r->0@ == qr,
                None => r is None,
            },
    {
        let ghost all = self@.qr_codes;
        let mut i: usize = self.qr_codes.len();
        assert(all.take(i as int) == all);
        while i > 0
            invariant
                i <= self.qr_codes.len(),
                all == views_of(self.qr_codes@),
                find_qr(all, qr_id@) == find_qr(all.take(i as int), qr_id@),
            decreases i,
        {
            assert(all.take(i as int).drop_last() == all.take(i - 1));
            assert(all.take(i as int).last() == self.qr_codes@[i - 1]@);
            if same_text(self.qr_codes[i - 1].id.as_str(), qr_id) {
                return Some(self.qr_codes[i - 1].clone());
            }
            i -= 1;
        }
        None
    }

    /// The payment row with the identifier `transaction_id`.
    pub fn get_transaction(&self, transaction_id: &str) -> (r: Option<Transaction>)
        ensures
            match find_transaction(self@.transactions, transaction_id@) {
                Some(row) => r is Some && r->0@ == row,
                None => r is None,
            },
    {
        let ghost all = self@.transactions;
        let mut i: usize = self.transactions.len();
        assert(all.take(i as int) == all);
        while i > 0
            invariant
                i <= self.transactions.len(),
                all == views_of(self.transactions@),
                find_transaction(all, transaction_id@) == find_transaction(
                    all.take(i as int),
                    transaction_id@,
                ),
            decreases i,
        {
            assert(all.take(i as int).drop_last() == all.take(i - 1));
            assert(all.take(i as int).last() == self.transactions@[i - 1]@);
            if same_text(self.transactions[i - 1].id.as_str(), transaction_id) {
                return Some(self.transactions[i - 1].clone());
            }
            i -= 1;
        }
        None
    }

    /// The top-up row with the identifier `topup_id`.
    pub fn get_topup_transaction(&self, topup_id: &str) -> (r: Option<TopUpTransaction>)
        ensures
            match find_topup(self@.topup_transactions, topup_id@) {
                Some(row) => r is Some && r->0@ == row,
                None => r is None,
            },
    {
        let ghost all = self@.topup_transactions;
        let mut i: usize = self.topup_transactions.len();
        assert(all.take(i as int) == all);
        while i > 0
            invariant
                i <= self.topup_transactions.len(),
                all == views_of(self.topup_transactions@),
                find_topup(all, topup_id@) == find_topup(all.take(i as int), topup_id@),
            decreases i,
        {
            assert(all.take(i as int).drop_last() == all.take(i - 1));
            assert(all.take(i as int).last() == self.topup_transactions@[i - 1]@);
            if same_text(self.topup_transactions[i - 1].id.as_str(), topup_id) {
                return Some(self.topup_transactions[i - 1].clone());
            }
            i -= 1;
        }
        None
    }
}

} // verus!
