//! Stable ordering of rows by a `u64` key such as a timestamp.

use vstd::prelude::*;

verus! {

/// Whether a row with key `a` must stand before a row with key `b`.
pub open spec fn before(a: u64, b: u64, descending: bool) -> bool {
    if descending {
        a > b
    } else {
        a < b
    }
}

/// `order` with the index `i` put in: behind every index whose key does not
/// have to stand behind `keys[i]`.
pub open spec fn place(order: Seq<usize>, keys: Seq<u64>, i: usize, descending: bool) -> Seq<
    usize,
>
    decreases order.len(),
{
    if order.len() == 0 {
        seq![i]
    } else if before(keys[i as int], keys[order.last() as int], descending) {
        place(order.drop_last(), keys, i, descending).push(order.last())
    } else {
        order.push(i)
    }
}

/// The indices `0..n` of `keys`, ordered by key; indices of equal keys keep
/// their order.
pub open spec fn stable_order(keys: Seq<u64>, n: nat, descending: bool) -> Seq<usize>
    decreases n,
{
    if n == 0 {
        Seq::empty()
    } else {
        place(stable_order(keys, (n - 1) as nat, descending), keys, (n - 1) as usize, descending)
    }
}

/// All indices of `keys`, ordered by key.
pub open spec fn key_order(keys: Seq<u64>, descending: bool) -> Seq<usize> {
    stable_order(keys, keys.len(), descending)
}

/// The rows of `items` in the order that `order` gives.
pub open spec fn arranged<T>(items: Seq<T>, order: Seq<usize>) -> Seq<T> {
    Seq::new(order.len(), |i: int| items[order[i] as int])
}

/// Whether every entry of `order` is an index of a sequence of length `n`.
pub open spec fn within(order: Seq<usize>, n: nat) -> bool {
    forall|k: int| 0 <= k < order.len() ==> #[trigger] order[k] < n
}

/// Whether `order` is ordered by key, entries of equal keys by index.
pub open spec fn ordered(order: Seq<usize>, keys: Seq<u64>, descending: bool) -> bool {
    forall|a: int, b: int|
        0 <= a < b < order.len() ==> !before(
            keys[#[trigger] order[b] as int],
            keys[#[trigger] order[a] as int],
            descending,
        ) && (keys[order[a] as int] == keys[order[b] as int] ==> order[a] < order[b])
}

/// Putting an index in at the place where the keys before it do not have to
/// follow it, and the keys behind it do, is what `place` does.
proof fn lemma_place_at(order: Seq<usize>, keys: Seq<u64>, i: usize, descending: bool, at: int)
    requires
        0 <= at <= order.len(),
        forall|k: int| at <= k < order.len() ==> before(keys[i as int], keys[order[k] as int], descending),
        at > 0 ==> !before(keys[i as int], keys[order[at - 1] as int], descending),
    ensures
        place(order, keys, i, descending) == order.insert(at, i),
    decreases order.len(),
{
    if order.len() == 0 {
        assert(order.insert(at, i) =~= seq![i]);
    } else if at == order.len() {
        assert(order.insert(at, i) =~= order.push(i));
    } else {
        lemma_place_at(order.drop_last(), keys, i, descending, at);
        assert(order.drop_last().insert(at, i).push(order.last()) =~= order.insert(at, i));
    }
}

/// `place` reads only the keys at `i` and at the entries of `order`.
pub proof fn lemma_place_reads(
    order: Seq<usize>,
    keys: Seq<u64>,
    other: Seq<u64>,
    i: usize,
    descending: bool,
)
    requires
        keys[i as int] == other[i as int],
        forall|k: int| 0 <= k < order.len() ==> keys[#[trigger] order[k] as int] == other[order[k] as int],
    ensures
        place(order, keys, i, descending) == place(order, other, i, descending),
    decreases order.len(),
{
    if order.len() > 0 {
        assert(keys[order[order.len() - 1] as int] == other[order[order.len() - 1] as int]);
        assert forall|k: int| 0 <= k < order.drop_last().len() implies keys[#[trigger] order.drop_last()[k] as int]
            == other[order.drop_last()[k] as int] by {
            assert(order.drop_last()[k] == order[k]);
        }
        lemma_place_reads(order.drop_last(), keys, other, i, descending);
    }
}

/// The stable order of the first `n` keys reads only those keys.
pub proof fn lemma_stable_order_reads(keys: Seq<u64>, other: Seq<u64>, n: nat, descending: bool)
    requires
        n <= keys.len(),
        n <= other.len(),
        n <= usize::MAX,
        forall|k: int| 0 <= k < n ==> keys[k] == other[k],
    ensures
        stable_order(keys, n, descending) == stable_order(other, n, descending),
    decreases n,
{
    if n > 0 {
        lemma_stable_order_reads(keys, other, (n - 1) as nat, descending);
        lemma_stable_order_properties(keys, (n - 1) as nat, descending);
        lemma_place_reads(
            stable_order(keys, (n - 1) as nat, descending),
            keys,
            other,
            (n - 1) as usize,
            descending,
        );
    }
}

/// A key that no earlier key has to follow goes to the end of the order.
pub proof fn lemma_latest_goes_last(keys: Seq<u64>, key: u64, descending: bool)
    requires
        keys.len() < usize::MAX,
        forall|k: int| 0 <= k < keys.len() ==> !before(key, keys[k], descending),
    ensures
        key_order(keys.push(key), descending) == key_order(keys, descending).push(
            keys.len() as usize,
        ),
{
    let n = keys.len();
    let order = stable_order(keys, n, descending);
    lemma_stable_order_reads(keys.push(key), keys, n, descending);
    lemma_stable_order_properties(keys, n, descending);
    if order.len() > 0 {
        assert(order[order.len() - 1] < n);
    }
}

/// `place` adds one entry, keeps the others and, where `order` was ordered
/// and `i` is larger than all of its entries, leaves the result ordered.
pub proof fn lemma_place_properties(order: Seq<usize>, keys: Seq<u64>, i: usize, descending: bool)
    requires
        within(order, i as nat),
        i < keys.len(),
        ordered(order, keys, descending),
    ensures
        place(order, keys, i, descending).len() == order.len() + 1,
        within(place(order, keys, i, descending), (i + 1) as nat),
        ordered(place(order, keys, i, descending), keys, descending),
        place(order, keys, i, descending).to_multiset() == order.to_multiset().insert(i),
    decreases order.len(),
{
    broadcast use vstd::seq_lib::group_to_multiset_ensures;

    let placed = place(order, keys, i, descending);
    if order.len() == 0 {
        assert(order =~= Seq::empty());
        assert(placed.to_multiset() =~= order.to_multiset().insert(i));
    } else if before(keys[i as int], keys[order.last() as int], descending) {
        let front = order.drop_last();
        let inner = place(front, keys, i, descending);
        assert(within(front, i as nat));
        assert(ordered(front, keys, descending)) by {
            assert forall|a: int, b: int| 0 <= a < b < front.len() implies !before(
                keys[#[trigger] front[b] as int],
                keys[#[trigger] front[a] as int],
                descending,
            ) && (keys[front[a] as int] == keys[front[b] as int] ==> front[a] < front[b]) by {
                assert(front[a] == order[a] && front[b] == order[b]);
            }
        }
        lemma_place_properties(front, keys, i, descending);
        assert(order =~= front.push(order.last()));
        assert(order.to_multiset() =~= front.to_multiset().insert(order.last()));
        assert(placed.to_multiset() =~= order.to_multiset().insert(i));
        // every entry of `inner` is `i` or an entry of `front`
        assert forall|a: int, b: int| 0 <= a < b < placed.len() implies !before(
            keys[#[trigger] placed[b] as int],
            keys[#[trigger] placed[a] as int],
            descending,
        ) && (keys[placed[a] as int] == keys[placed[b] as int] ==> placed[a] < placed[b]) by {
            if b < inner.len() {
                assert(placed[a] == inner[a] && placed[b] == inner[b]);
            } else {
                assert(placed[b] == order.last());
                assert(placed[a] == inner[a]);
                assert(inner.to_multiset().count(inner[a]) > 0);
                if inner[a] == i {
                } else {
                    assert(front.to_multiset().count(inner[a]) > 0);
                    assert(front.contains(inner[a]));
                    let k = choose|k: int| 0 <= k < front.len() && front[k] == inner[a];
                    assert(order[k] == inner[a]);
                    assert(order[order.len() - 1] == order.last());
                }
            }
        }
    } else {
        assert(placed.to_multiset() =~= order.to_multiset().insert(i));
        assert forall|a: int, b: int| 0 <= a < b < placed.len() implies !before(
            keys[#[trigger] placed[b] as int],
            keys[#[trigger] placed[a] as int],
            descending,
        ) && (keys[placed[a] as int] == keys[placed[b] as int] ==> placed[a] < placed[b]) by {
            if b < order.len() {
                assert(placed[a] == order[a] && placed[b] == order[b]);
            } else {
                assert(placed[b] == i);
                assert(placed[a] == order[a]);
                if a < order.len() - 1 {
                    assert(order[order.len() - 1] == order.last());
                }
            }
        }
    }
}

/// The stable order of the first `n` keys holds each index below `n` once,
/// and is ordered by key, equal keys by index.
pub proof fn lemma_stable_order_properties(keys: Seq<u64>, n: nat, descending: bool)
    requires
        n <= keys.len(),
        n <= usize::MAX,
    ensures
        stable_order(keys, n, descending).len() == n,
        within(stable_order(keys, n, descending), n),
        ordered(stable_order(keys, n, descending), keys, descending),
        stable_order(keys, n, descending).no_duplicates(),
        forall|i: usize| i < n ==> stable_order(keys, n, descending).contains(i),
    decreases n,
{
    broadcast use vstd::seq_lib::group_to_multiset_ensures;

    let order = stable_order(keys, n, descending);
    if n > 0 {
        let front = stable_order(keys, (n - 1) as nat, descending);
        lemma_stable_order_properties(keys, (n - 1) as nat, descending);
        lemma_place_properties(front, keys, (n - 1) as usize, descending);
        front.lemma_multiset_has_no_duplicates();
        assert(!front.contains((n - 1) as usize)) by {
            if front.contains((n - 1) as usize) {
                let k = choose|k: int| 0 <= k < front.len() && front[k] == (n - 1) as usize;
                assert(front[k] < n - 1);
            }
        }
        assert forall|x: usize| order.to_multiset().contains(x) implies order.to_multiset().count(
            x,
        ) == 1 by {
            if x == (n - 1) as usize {
                assert(front.to_multiset().count(x) == 0);
            } else {
                assert(front.to_multiset().contains(x));
            }
        }
        order.lemma_multiset_has_no_duplicates_conv();
        assert forall|i: usize| i < n implies order.contains(i) by {
            if i < n - 1 {
                assert(front.contains(i));
                assert(front.to_multiset().count(i) > 0);
            }
            assert(order.to_multiset().count(i) > 0);
        }
    }
}

/// Whether a row with key `a` must stand before a row with key `b`.
pub fn goes_before(a: u64, b: u64, descending: bool) -> (r: bool)
    ensures
        r == before(a, b, descending),
{
    if descending {
        a > b
    } else {
        a < b
    }
}

/// The indices of `keys`, ordered by key, ascending or descending. Rows with
/// equal keys keep the order in which they stand.
pub fn stable_order_of(keys: &Vec<u64>, descending: bool) -> (order: Vec<usize>)
    ensures
        order@ == key_order(keys@, descending),
        order@.len() == keys@.len(),
        within(order@, keys@.len()),
{
    let mut order: Vec<usize> = Vec::new();
    let mut n: usize = 0;
    while n < keys.len()
        invariant
            n <= keys.len(),
            order@ == stable_order(keys@, n as nat, descending),
            order@.len() == n,
            within(order@, n as nat),
        decreases keys.len() - n,
    {
        let key = keys[n];
        let mut at: usize = order.len();
        while at > 0 && goes_before(key, keys[order[at - 1]], descending)
            invariant
                at <= order.len(),
                n < keys.len(),
                key == keys[n as int],
                within(order@, n as nat),
                forall|k: int|
                    at <= k < order.len() ==> before(key, keys[order[k] as int], descending),
            decreases at,
        {
            at -= 1;
        }
        proof {
            lemma_place_at(order@, keys@, n, descending, at as int);
        }
        order.insert(at, n);
        n += 1;
    }
    order
}

} // verus!
