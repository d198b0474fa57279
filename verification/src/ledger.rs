//! The balance ledger: balance changes are only ever added, and the balance
//! of an account is what its changes, replayed in the order of their
//! timestamps, add up to.

use crate::identity::{principal_text, AccountId};
use crate::order::{arranged, key_order, lemma_latest_goes_last, stable_order_of, within};
use crate::text::{chars_of, decimal, push_decimal};
use crate::rows::{
    latest_first, lemma_recorded_is_fresh, name_unused, names, pick_rows, record_row,
    recorded_row, sort_latest_first, views_of,
};
use crate::types::{BalanceChangeLog, BalanceChangeType, BalanceChangeView};
use vstd::prelude::*;
use vstd::string::StringExecFns;

verus! {

/// The sum of two amounts, held at the largest amount.
pub open spec fn capped_sum(a: u64, b: u64) -> u64 {
    if a + b > u64::MAX {
        u64::MAX
    } else {
        (a + b) as u64
    }
}

/// The difference of two amounts, held at zero.
pub open spec fn floored_difference(a: u64, b: u64) -> u64 {
    if a < b {
        0
    } else {
        (a - b) as u64
    }
}

/// The balance that a change of `kind` and `amount` makes of `balance`: a
/// top-up, a received payment and a refund add, held at the largest amount; a
/// sent payment and a fee take away, held at zero; an adjustment sets the
/// balance to the amount.
pub open spec fn apply_change(kind: BalanceChangeType, balance: u64, amount: u64) -> u64 {
    match kind {
        BalanceChangeType::TopupCompleted => capped_sum(balance, amount),
        BalanceChangeType::PaymentReceived => capped_sum(balance, amount),
        BalanceChangeType::Refund => capped_sum(balance, amount),
        BalanceChangeType::PaymentSent => floored_difference(balance, amount),
        BalanceChangeType::FeeDeducted => floored_difference(balance, amount),
        BalanceChangeType::Adjustment => amount,
    }
}

/// The balance after the changes `events`, applied from the first to the
/// last, starting from zero.
pub open spec fn replay(events: Seq<BalanceChangeView>) -> u64
    decreases events.len(),
{
    if events.len() == 0 {
        0
    } else {
        apply_change(events.last().change_type, replay(events.drop_last()), events.last().amount)
    }
}

/// The changes of `log` that belong to `account`, in the order of the log.
pub open spec fn events_of(log: Seq<BalanceChangeView>, account: Seq<u8>) -> Seq<
    BalanceChangeView,
>
    decreases log.len(),
{
    if log.len() == 0 {
        Seq::empty()
    } else if log.last().user_id == account {
        events_of(log.drop_last(), account).push(log.last())
    } else {
        events_of(log.drop_last(), account)
    }
}

/// The timestamps of `events`, in order.
pub open spec fn timestamps(events: Seq<BalanceChangeView>) -> Seq<u64> {
    Seq::new(events.len(), |i: int| events[i].timestamp)
}

/// `events` with the earliest timestamp first; changes of one timestamp keep
/// their order.
pub open spec fn in_time_order(events: Seq<BalanceChangeView>) -> Seq<BalanceChangeView> {
    arranged(events, key_order(timestamps(events), false))
}

/// The balance of `account`: its changes in `log`, replayed in the order of
/// their timestamps.
pub open spec fn balance_of(log: Seq<BalanceChangeView>, account: Seq<u8>) -> u64 {
    replay(in_time_order(events_of(log, account)))
}

/// The identifier of a balance change that `caller` brings about at `now`:
/// `BAL_`, the first eight characters of the caller's textual form, `_`, and
/// the time plus its last six decimal digits.
pub open spec fn balance_log_id(caller: Seq<u8>, now: u64) -> Seq<char> {
    let text = principal_text(caller);
    let prefix = if text.len() < 8 {
        text
    } else {
        text.take(8)
    };
    "BAL_"@ + prefix + "_"@ + decimal(capped_sum(now, (now % 1000000) as u64) as nat)
}

/// Whether every change of `account` in `log` has a timestamp of at most
/// `now`.
pub open spec fn none_later(log: Seq<BalanceChangeView>, account: Seq<u8>, now: u64) -> bool {
    forall|i: int|
        0 <= i < log.len() && (#[trigger] log[i]).user_id == account ==> log[i].timestamp <= now
}

/// Whether each row of `log` was recorded as `append_event` records: its
/// balance before is the balance of its account over the rows before it, its
/// balance after is what the change makes of that, and no earlier row of its
/// account has a later timestamp.
pub open spec fn well_recorded(log: Seq<BalanceChangeView>) -> bool {
    forall|i: int|
        0 <= i < log.len() ==> {
            &&& (#[trigger] log[i]).previous_balance == balance_of(log.take(i), log[i].user_id)
            &&& log[i].new_balance == apply_change(
                log[i].change_type,
                log[i].previous_balance,
                log[i].amount,
            )
            &&& none_later(log.take(i), log[i].user_id, log[i].timestamp)
        }
}

/// Every change that `events_of` selects belongs to the account and stands
/// in the log.
pub proof fn lemma_events_of_members(log: Seq<BalanceChangeView>, account: Seq<u8>)
    ensures
        events_of(log, account).len() <= log.len(),
        forall|j: int|
            0 <= j < events_of(log, account).len() ==> (#[trigger] events_of(
                log,
                account,
            )[j]).user_id == account && log.contains(events_of(log, account)[j]),
    decreases log.len(),
{
    if log.len() > 0 {
        lemma_events_of_members(log.drop_last(), account);
        let mine = events_of(log, account);
        let front = events_of(log.drop_last(), account);
        assert forall|j: int| 0 <= j < mine.len() implies (#[trigger] mine[j]).user_id == account
            && log.contains(mine[j]) by {
            if j < front.len() {
                assert(mine[j] == front[j]);
                let k = choose|k: int| 0 <= k < log.drop_last().len() && log.drop_last()[k] == front[j];
                assert(log[k] == front[j]);
            } else {
                assert(mine[j] == log[log.len() - 1]);
            }
        }
    }
}

/// An account without changes has the balance zero.
pub proof fn lemma_balance_without_changes(log: Seq<BalanceChangeView>, account: Seq<u8>)
    requires
        events_of(log, account).len() == 0,
    ensures
        balance_of(log, account) == 0,
{
    assert(timestamps(events_of(log, account)) =~= Seq::<u64>::empty());
    assert(in_time_order(events_of(log, account)) =~= Seq::<BalanceChangeView>::empty());
}

/// A change of one account leaves the balance of every other account as it
/// was.
pub proof fn lemma_balance_of_other_account(
    log: Seq<BalanceChangeView>,
    event: BalanceChangeView,
    account: Seq<u8>,
)
    requires
        event.user_id != account,
    ensures
        balance_of(log.push(event), account) == balance_of(log, account),
{
    assert(log.push(event).drop_last() == log);
}

/// A change that is not earlier than any change of its account makes of the
/// account's balance what `apply_change` says.
pub proof fn lemma_balance_after_latest(log: Seq<BalanceChangeView>, event: BalanceChangeView)
    requires
        log.len() < usize::MAX,
        none_later(log, event.user_id, event.timestamp),
    ensures
        balance_of(log.push(event), event.user_id) == apply_change(
            event.change_type,
            balance_of(log, event.user_id),
            event.amount,
        ),
{
    let account = event.user_id;
    let mine = events_of(log, account);
    assert(log.push(event).drop_last() == log);
    assert(events_of(log.push(event), account) == mine.push(event));
    lemma_events_of_members(log, account);
    let keys = timestamps(mine);
    assert forall|k: int| 0 <= k < keys.len() implies keys[k] <= event.timestamp by {
        let i = choose|i: int| 0 <= i < log.len() && log[i] == mine[k];
        assert(log[i].user_id == account);
    }
    assert(timestamps(mine.push(event)) =~= keys.push(event.timestamp));
    lemma_latest_goes_last(keys, event.timestamp, false);
    crate::order::lemma_stable_order_properties(keys, keys.len(), false);
    assert(in_time_order(mine.push(event)) =~= in_time_order(mine).push(event));
    assert(in_time_order(mine).push(event).drop_last() == in_time_order(mine));
}

/// In a log whose rows were all recorded as `append_event` records, the
/// balance of an account with changes is the balance after its last change.
pub proof fn lemma_balance_is_last_recorded(log: Seq<BalanceChangeView>, account: Seq<u8>)
    requires
        log.len() < usize::MAX,
        well_recorded(log),
        events_of(log, account).len() > 0,
    ensures
        balance_of(log, account) == events_of(log, account).last().new_balance,
    decreases log.len(),
{
    let front = log.drop_last();
    let last = log.last();
    assert(log == front.push(last));
    assert(log.take(log.len() - 1) == front);
    assert(log[log.len() - 1] == last);
    if last.user_id == account {
        lemma_balance_after_latest(front, last);
    } else {
        lemma_balance_of_other_account(front, last, account);
        assert(well_recorded(front)) by {
            assert forall|i: int| 0 <= i < front.len() implies {
                &&& (#[trigger] front[i]).previous_balance == balance_of(
                    front.take(i),
                    front[i].user_id,
                )
                &&& front[i].new_balance == apply_change(
                    front[i].change_type,
                    front[i].previous_balance,
                    front[i].amount,
                )
                &&& none_later(front.take(i), front[i].user_id, front[i].timestamp)
            } by {
                assert(front[i] == log[i]);
                assert(front.take(i) == log.take(i));
            }
        }
        lemma_balance_is_last_recorded(front, account);
    }
}

/// Recording a change that is not earlier than any change of its account, as
/// `append_event` records it, keeps a well recorded log well recorded.
pub proof fn lemma_append_keeps_well_recorded(log: Seq<BalanceChangeView>, event: BalanceChangeView)
    requires
        well_recorded(log),
        none_later(log, event.user_id, event.timestamp),
        event.previous_balance == balance_of(log, event.user_id),
        event.new_balance == apply_change(event.change_type, event.previous_balance, event.amount),
    ensures
        well_recorded(log.push(event)),
{
    let next = log.push(event);
    assert forall|i: int| 0 <= i < next.len() implies {
        &&& (#[trigger] next[i]).previous_balance == balance_of(next.take(i), next[i].user_id)
        &&& next[i].new_balance == apply_change(
            next[i].change_type,
            next[i].previous_balance,
            next[i].amount,
        )
        &&& none_later(next.take(i), next[i].user_id, next[i].timestamp)
    } by {
        if i < log.len() {
            assert(next[i] == log[i]);
            assert(next.take(i) == log.take(i));
        } else {
            assert(next.take(i) == log);
        }
    }
}

/// Whether the timestamps of `events` rise strictly from each change to the
/// next.
pub open spec fn strictly_rising(events: Seq<BalanceChangeView>) -> bool {
    forall|i: int, j: int|
        0 <= i < j < events.len() ==> (#[trigger] events[i]).timestamp < (
        #[trigger] events[j]).timestamp
}

/// Whether no two changes of `events` have the same timestamp.
pub open spec fn distinct_times(events: Seq<BalanceChangeView>) -> bool {
    forall|i: int, j: int|
        0 <= i < events.len() && 0 <= j < events.len() && i != j ==> (
        #[trigger] events[i]).timestamp != (#[trigger] events[j]).timestamp
}

/// Whether `a` and `b` hold the same changes, in whatever order.
pub open spec fn same_changes(a: Seq<BalanceChangeView>, b: Seq<BalanceChangeView>) -> bool {
    forall|e: BalanceChangeView| a.contains(e) <==> b.contains(e)
}

/// Two sequences of the same changes, both with strictly rising timestamps,
/// are the same sequence.
proof fn lemma_rising_is_unique(x: Seq<BalanceChangeView>, y: Seq<BalanceChangeView>)
    requires
        strictly_rising(x),
        strictly_rising(y),
        same_changes(x, y),
    ensures
        x == y,
    decreases x.len(),
{
    if x.len() == 0 {
        if y.len() > 0 {
            assert(y.contains(y[0]));
            assert(x.contains(y[0]));
        }
        assert(x =~= y);
    } else {
        let top = x.last();
        assert(x.contains(top)) by {
            assert(x[x.len() - 1] == top);
        }
        assert(y.contains(top));
        let at = choose|at: int| 0 <= at < y.len() && y[at] == top;
        let end = y.last();
        assert(y.contains(end)) by {
            assert(y[y.len() - 1] == end);
        }
        assert(x.contains(end));
        let back = choose|back: int| 0 <= back < x.len() && x[back] == end;
        assert(end == top) by {
            if at < y.len() - 1 {
                assert(y[at].timestamp < y[y.len() - 1].timestamp);
            }
            if back < x.len() - 1 {
                assert(x[back].timestamp < x[x.len() - 1].timestamp);
            }
        }
        let xs = x.drop_last();
        let ys = y.drop_last();
        assert(strictly_rising(xs)) by {
            assert forall|i: int, j: int| 0 <= i < j < xs.len() implies (#[trigger] xs[i]).timestamp
                < (#[trigger] xs[j]).timestamp by {
                assert(xs[i] == x[i] && xs[j] == x[j]);
            }
        }
        assert(strictly_rising(ys)) by {
            assert forall|i: int, j: int| 0 <= i < j < ys.len() implies (#[trigger] ys[i]).timestamp
                < (#[trigger] ys[j]).timestamp by {
                assert(ys[i] == y[i] && ys[j] == y[j]);
            }
        }
        assert forall|e: BalanceChangeView| xs.contains(e) <==> ys.contains(e) by {
            if xs.contains(e) {
                let i = choose|i: int| 0 <= i < xs.len() && xs[i] == e;
                assert(x[i] == e);
                assert(x[i].timestamp < x[x.len() - 1].timestamp);
                assert(x.contains(e));
                assert(y.contains(e));
                let k = choose|k: int| 0 <= k < y.len() && y[k] == e;
                assert(k < y.len() - 1);
                assert(ys[k] == e);
            }
            if ys.contains(e) {
                let i = choose|i: int| 0 <= i < ys.len() && ys[i] == e;
                assert(y[i] == e);
                assert(y[i].timestamp < y[y.len() - 1].timestamp);
                assert(y.contains(e));
                assert(x.contains(e));
                let k = choose|k: int| 0 <= k < x.len() && x[k] == e;
                assert(k < x.len() - 1);
                assert(xs[k] == e);
            }
        }
        lemma_rising_is_unique(xs, ys);
        assert(x =~= xs.push(top));
        assert(y =~= ys.push(end));
    }
}

/// Changes with distinct timestamps, put in time order, are the same changes
/// with strictly rising timestamps.
proof fn lemma_time_order_rises(events: Seq<BalanceChangeView>)
    requires
        events.len() <= usize::MAX,
        distinct_times(events),
    ensures
        strictly_rising(in_time_order(events)),
        same_changes(in_time_order(events), events),
{
    let keys = timestamps(events);
    let order = key_order(keys, false);
    let sorted = in_time_order(events);
    crate::order::lemma_stable_order_properties(keys, keys.len(), false);
    assert forall|i: int, j: int| 0 <= i < j < sorted.len() implies (#[trigger] sorted[i]).timestamp
        < (#[trigger] sorted[j]).timestamp by {
        assert(order[i] != order[j]);
        assert(!crate::order::before(keys[order[j] as int], keys[order[i] as int], false));
        assert(events[order[i] as int].timestamp != events[order[j] as int].timestamp);
    }
    assert forall|e: BalanceChangeView| sorted.contains(e) <==> events.contains(e) by {
        if sorted.contains(e) {
            let i = choose|i: int| 0 <= i < sorted.len() && sorted[i] == e;
            assert(events[order[i] as int] == e);
        }
        if events.contains(e) {
            let i = choose|i: int| 0 <= i < events.len() && events[i] == e;
            assert(order.contains(i as usize));
            let k = choose|k: int| 0 <= k < order.len() && order[k] == i as usize;
            assert(sorted[k] == e);
        }
    }
}

/// Replaying does not depend on the order in which the changes are kept: two
/// logs that hold the same changes of an account, no two of them with the
/// same timestamp, give the account the same balance.
pub proof fn lemma_replay_is_determined(
    a: Seq<BalanceChangeView>,
    b: Seq<BalanceChangeView>,
    account: Seq<u8>,
)
    requires
        a.len() <= usize::MAX,
        b.len() <= usize::MAX,
        same_changes(events_of(a, account), events_of(b, account)),
        distinct_times(events_of(a, account)),
        distinct_times(events_of(b, account)),
    ensures
        balance_of(a, account) == balance_of(b, account),
{
    lemma_events_of_members(a, account);
    lemma_events_of_members(b, account);
    lemma_time_order_rises(events_of(a, account));
    lemma_time_order_rises(events_of(b, account));
    lemma_rising_is_unique(
        in_time_order(events_of(a, account)),
        in_time_order(events_of(b, account)),
    );
}

/// Applies one balance change to a balance.
pub fn apply_balance_change(kind: BalanceChangeType, balance: u64, amount: u64) -> (r: u64)
    ensures
        r == apply_change(kind, balance, amount),
{
    match kind {
        BalanceChangeType::TopupCompleted => balance.saturating_add(amount),
        BalanceChangeType::PaymentReceived => balance.saturating_add(amount),
        BalanceChangeType::Refund => balance.saturating_add(amount),
        BalanceChangeType::PaymentSent => balance.saturating_sub(amount),
        BalanceChangeType::FeeDeducted => balance.saturating_sub(amount),
        BalanceChangeType::Adjustment => amount,
    }
}

/// The positions in `log` of the changes of `user_id`, and their timestamps.
fn select_account(log: &Vec<BalanceChangeLog>, user_id: &AccountId) -> (r: (Vec<usize>, Vec<u64>))
    ensures
        r.0@.len() == events_of(views_of(log@), user_id@).len(),
        r.1@ == timestamps(events_of(views_of(log@), user_id@)),
        within(r.0@, log@.len()),
        forall|j: int|
            0 <= j < r.0@.len() ==> (#[trigger] log@[r.0@[j] as int])@ == events_of(
                views_of(log@),
                user_id@,
            )[j],
{
    let ghost all = views_of(log@);
    let mut picks: Vec<usize> = Vec::new();
    let mut keys: Vec<u64> = Vec::new();
    let mut i: usize = 0;
    while i < log.len()
        invariant
            i <= log.len(),
            all == views_of(log@),
            picks@.len() == events_of(all.take(i as int), user_id@).len(),
            keys@ == timestamps(events_of(all.take(i as int), user_id@)),
            within(picks@, i as nat),
            forall|j: int|
                0 <= j < picks@.len() ==> (#[trigger] log@[picks@[j] as int])@ == events_of(
                    all.take(i as int),
                    user_id@,
                )[j],
        decreases log.len() - i,
    {
        assert(all.take(i + 1).drop_last() == all.take(i as int));
        assert(all.take(i + 1).last() == log@[i as int]@);
        if log[i].user_id.same(user_id) {
            picks.push(i);
            keys.push(log[i].timestamp);
        }
        i += 1;
    }
    assert(all.take(log@.len() as int) == all);
    (picks, keys)
}

/// The balance of `user_id`: all of its changes, earliest first, applied to a
/// balance of zero. An account without changes has the balance zero.
pub fn get_current_balance(log: &Vec<BalanceChangeLog>, user_id: &AccountId) -> (balance: u64)
    ensures
        balance == balance_of(views_of(log@), user_id@),
{
    let ghost mine = events_of(views_of(log@), user_id@);
    let (picks, keys) = select_account(log, user_id);
    let order = stable_order_of(&keys, false);
    let ghost sorted = in_time_order(mine);
    let mut balance: u64 = 0;
    let mut k: usize = 0;
    while k < order.len()
        invariant
            k <= order.len(),
            order@ == key_order(timestamps(mine), false),
            order@.len() == picks@.len(),
            within(order@, picks@.len()),
            within(picks@, log@.len()),
            mine == events_of(views_of(log@), user_id@),
            sorted == in_time_order(mine),
            picks@.len() == mine.len(),
            forall|j: int| 0 <= j < picks@.len() ==> (#[trigger] log@[picks@[j] as int])@ == mine[j],
            balance == replay(sorted.take(k as int)),
        decreases order.len() - k,
    {
        let event = &log[picks[order[k]]];
        assert(event@ == sorted[k as int]);
        assert(sorted.take(k + 1).drop_last() == sorted.take(k as int));
        balance = apply_balance_change(event.change_type, balance, event.amount);
        k += 1;
    }
    assert(sorted.take(order@.len() as int) == sorted);
    balance
}

/// The identifier of a balance change that `caller` brings about at `now`.
pub fn generate_balance_log_id(caller: &AccountId, now: u64) -> (id: String)
    ensures
        id@ == balance_log_id(caller@, now),
{
    let text = caller.to_text();
    let chars = chars_of(text.as_str());
    let mut id = String::from_str("BAL_");
    let count: usize = if chars.len() < 8 {
        chars.len()
    } else {
        8
    };
    let mut i: usize = 0;
    while i < count
        invariant
            i <= count,
            count <= chars.len(),
            id@ == "BAL_"@ + chars@.take(i as int),
        decreases count - i,
    {
        id.push(chars[i]);
        i += 1;
    }
    assert(chars@.take(chars@.len() as int) == chars@);
    id.append("_");
    push_decimal(&mut id, now.saturating_add(now % 1000000));
    id
}

/// Adds a balance change with the given fields to the log and returns a copy
/// of it. The log keeps all the rows it had; the change gets the identifier
/// that its caller and time give it, lengthened where a row has it already.
pub fn create_balance_change_log(
    log: &mut Vec<BalanceChangeLog>,
    caller: &AccountId,
    user_id: AccountId,
    change_type: BalanceChangeType,
    amount: u64,
    previous_balance: u64,
    new_balance: u64,
    reference_id: String,
    description: String,
    now: u64,
) -> (entry: BalanceChangeLog)
    ensures
        views_of(final(log)@) == views_of(old(log)@).push(entry@),
        entry@ == recorded_row::<BalanceChangeLog>(
            views_of(old(log)@),
            BalanceChangeView {
                id: balance_log_id(caller@, now),
                user_id: user_id@,
                change_type,
                amount,
                previous_balance,
                new_balance,
                timestamp: now,
                reference_id: reference_id@,
                description: description@,
            },
        ),
{
    let entry = BalanceChangeLog {
        id: generate_balance_log_id(caller, now),
        user_id,
        change_type,
        amount,
        previous_balance,
        new_balance,
        timestamp: now,
        reference_id,
        description,
    };
    record_row(log, entry)
}

/// Records a change of `kind` and `amount` for `account`: the balance before
/// it is the account's current balance, the balance after it is what the
/// change makes of that. The log grows by this one row, which is returned;
/// its identifier is one that no row had.
pub fn append_event(
    log: &mut Vec<BalanceChangeLog>,
    caller: &AccountId,
    account: AccountId,
    kind: BalanceChangeType,
    amount: u64,
    reference_id: String,
    description: String,
    now: u64,
) -> (entry: BalanceChangeLog)
    ensures
        views_of(final(log)@) == views_of(old(log)@).push(entry@),
        name_unused(names::<BalanceChangeLog>(views_of(old(log)@)), entry@.id),
        entry@ == recorded_row::<BalanceChangeLog>(
            views_of(old(log)@),
            BalanceChangeView {
                id: balance_log_id(caller@, now),
                user_id: account@,
                change_type: kind,
                amount,
                previous_balance: balance_of(views_of(old(log)@), account@),
                new_balance: apply_change(kind, balance_of(views_of(old(log)@), account@), amount),
                timestamp: now,
                reference_id: reference_id@,
                description: description@,
            },
        ),
{
    let previous_balance = get_current_balance(log, &account);
    let new_balance = apply_balance_change(kind, previous_balance, amount);
    proof {
        lemma_recorded_is_fresh::<BalanceChangeLog>(
            views_of(log@),
            BalanceChangeView {
                id: balance_log_id(caller@, now),
                user_id: account@,
                change_type: kind,
                amount,
                previous_balance,
                new_balance,
                timestamp: now,
                reference_id: reference_id@,
                description: description@,
            },
        );
    }
    create_balance_change_log(
        log,
        caller,
        account,
        kind,
        amount,
        previous_balance,
        new_balance,
        reference_id,
        description,
        now,
    )
}

/// The balance changes of `user_id`, latest first.
pub fn get_user_balance_history(log: &Vec<BalanceChangeLog>, user_id: &AccountId) -> (history: Vec<
    BalanceChangeLog,
>)
    ensures
        views_of(history@) == latest_first::<BalanceChangeLog>(
            events_of(views_of(log@), user_id@),
        ),
{
    let (picks, keys) = select_account(log, user_id);
    let mine = pick_rows(log, &picks);
    assert(views_of(mine@) =~= events_of(views_of(log@), user_id@));
    sort_latest_first(&mine)
}

/// All balance changes, latest first.
pub fn get_all_balance_changes(log: &Vec<BalanceChangeLog>) -> (all: Vec<BalanceChangeLog>)
    ensures
        views_of(all@) == latest_first::<BalanceChangeLog>(views_of(log@)),
{
    sort_latest_first(log)
}

} // verus!
