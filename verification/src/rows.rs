//! Tables of records: views, copies, selections and orderings by time.

use crate::order::{arranged, key_order, stable_order_of};
use crate::text::{chars_of, same_chars};
use vstd::prelude::*;

verus! {

/// The views of the items of a sequence, in order.
pub open spec fn views_of<T: View>(s: Seq<T>) -> Seq<T::V> {
    Seq::new(s.len(), |i: int| s[i]@)
}

/// A record of a table: it can be copied and it carries a time.
pub trait Row: View + Sized {
    /// The time that a record with this view carries.
    spec fn stamp(row: Self::V) -> u64;

    /// A second value with the same view.
    fn duplicate(&self) -> (r: Self)
        ensures
            r@ == self@,
    ;

    /// The time that the record carries.
    fn time(&self) -> (t: u64)
        ensures
            t == Self::stamp(self@),
    ;
}

/// A record that is kept under an identifier.
pub trait Named: Row {
    /// The identifier of a record with this view.
    spec fn name(row: Self::V) -> Seq<char>;

    /// The record with this view under another identifier.
    spec fn renamed(row: Self::V, name: Seq<char>) -> Self::V;

    /// A renamed record has the identifier it was given.
    proof fn lemma_renamed(row: Self::V, name: Seq<char>)
        ensures
            Self::name(Self::renamed(row, name)) == name,
    ;

    /// The identifier of the record.
    fn identifier(&self) -> (id: &String)
        ensures
            id@ == Self::name(self@),
    ;

    /// The record under another identifier.
    fn renamed_to(self, name: String) -> (r: Self)
        ensures
            r@ == Self::renamed(self@, name@),
    ;
}

/// The identifiers of `rows`, in order.
pub open spec fn names<T: Named>(rows: Seq<T::V>) -> Seq<Seq<char>> {
    Seq::new(rows.len(), |i: int| T::name(rows[i]))
}

/// Whether `name` is none of `taken`.
pub open spec fn name_unused(taken: Seq<Seq<char>>, name: Seq<char>) -> bool {
    forall|i: int| 0 <= i < taken.len() ==> #[trigger] taken[i] != name
}

/// Whether no two of `taken` are the same.
pub open spec fn distinct_names(taken: Seq<Seq<char>>) -> bool {
    forall|i: int, j: int|
        0 <= i < taken.len() && 0 <= j < taken.len() && i != j ==> #[trigger] taken[i]
            != #[trigger] taken[j]
}

/// Whether no two rows of `rows` have the same identifier.
pub open spec fn distinct<T: Named>(rows: Seq<T::V>) -> bool {
    distinct_names(names::<T>(rows))
}

/// The length of the longest of `taken`.
pub open spec fn longest_name(taken: Seq<Seq<char>>) -> nat
    decreases taken.len(),
{
    if taken.len() == 0 {
        0
    } else if taken.last().len() > longest_name(taken.drop_last()) {
        taken.last().len()
    } else {
        longest_name(taken.drop_last())
    }
}

/// The identifier under which a record that wants the identifier `wanted`
/// is kept: `wanted` itself where it is not taken, else `wanted` lengthened
/// by underscores until it is longer than every identifier taken.
pub open spec fn unused_name(taken: Seq<Seq<char>>, wanted: Seq<char>) -> Seq<char> {
    if name_unused(taken, wanted) {
        wanted
    } else {
        wanted + Seq::new((longest_name(taken) + 1 - wanted.len()) as nat, |i: int| '_')
    }
}

/// `row` under the identifier under which it is kept in `rows`.
pub open spec fn recorded_row<T: Named>(rows: Seq<T::V>, row: T::V) -> T::V {
    T::renamed(row, unused_name(names::<T>(rows), T::name(row)))
}

/// The table with `row` recorded: one row more, at the end, under an
/// identifier that no row had.
pub open spec fn recorded<T: Named>(rows: Seq<T::V>, row: T::V) -> Seq<T::V> {
    rows.push(recorded_row::<T>(rows, row))
}

/// None of `taken` is longer than the longest.
pub proof fn lemma_longest_name(taken: Seq<Seq<char>>)
    ensures
        forall|i: int| 0 <= i < taken.len() ==> (#[trigger] taken[i]).len() <= longest_name(taken),
    decreases taken.len(),
{
    if taken.len() > 0 {
        lemma_longest_name(taken.drop_last());
        assert forall|i: int| 0 <= i < taken.len() implies (#[trigger] taken[i]).len()
            <= longest_name(taken) by {
            if i < taken.len() - 1 {
                assert(taken.drop_last()[i] == taken[i]);
            }
        }
    }
}

/// The identifier under which a record is kept is not taken.
pub proof fn lemma_unused_name(taken: Seq<Seq<char>>, wanted: Seq<char>)
    ensures
        name_unused(taken, unused_name(taken, wanted)),
{
    lemma_longest_name(taken);
    if !name_unused(taken, wanted) {
        let k = choose|k: int| 0 <= k < taken.len() && #[trigger] taken[k] == wanted;
        assert(wanted.len() <= longest_name(taken));
        assert(unused_name(taken, wanted).len() == longest_name(taken) + 1);
    }
}

/// A record is recorded under an identifier that no row of the table has,
/// so that a table of distinct identifiers stays one.
pub proof fn lemma_recorded_is_fresh<T: Named>(rows: Seq<T::V>, row: T::V)
    ensures
        name_unused(names::<T>(rows), T::name(recorded_row::<T>(rows, row))),
        distinct::<T>(rows) ==> distinct::<T>(recorded::<T>(rows, row)),
{
    let taken = names::<T>(rows);
    lemma_unused_name(taken, T::name(row));
    T::lemma_renamed(row, unused_name(taken, T::name(row)));
    if distinct::<T>(rows) {
        let next = names::<T>(recorded::<T>(rows, row));
        assert forall|i: int, j: int|
            0 <= i < next.len() && 0 <= j < next.len() && i != j implies #[trigger] next[i]
            != #[trigger] next[j] by {
            if i < rows.len() {
                assert(next[i] == taken[i]);
            }
            if j < rows.len() {
                assert(next[j] == taken[j]);
            }
        }
    }
}

/// The rows of `rows` whose mark is set, in order.
pub open spec fn kept<V>(rows: Seq<V>, marks: Seq<bool>) -> Seq<V>
    decreases rows.len(),
{
    if rows.len() == 0 {
        Seq::empty()
    } else if marks[rows.len() - 1] {
        kept(rows.drop_last(), marks).push(rows.last())
    } else {
        kept(rows.drop_last(), marks)
    }
}

/// The rows of `rows` that `wanted` holds of, in order.
pub open spec fn chosen<V>(rows: Seq<V>, wanted: spec_fn(V) -> bool) -> Seq<V> {
    kept(rows, Seq::new(rows.len(), |i: int| wanted(rows[i])))
}

/// The times of `rows`, in order.
pub open spec fn stamps<T: Row>(rows: Seq<T::V>) -> Seq<u64> {
    Seq::new(rows.len(), |i: int| T::stamp(rows[i]))
}

/// `rows` with the latest first; rows of one time keep their order.
pub open spec fn latest_first<T: Row>(rows: Seq<T::V>) -> Seq<T::V> {
    arranged(rows, key_order(stamps::<T>(rows), true))
}

/// `kept` reads only the marks of the rows it is given.
pub proof fn lemma_kept_reads<V>(rows: Seq<V>, marks: Seq<bool>, other: Seq<bool>)
    requires
        marks.len() >= rows.len(),
        other.len() >= rows.len(),
        forall|i: int| 0 <= i < rows.len() ==> marks[i] == other[i],
    ensures
        kept(rows, marks) == kept(rows, other),
    decreases rows.len(),
{
    if rows.len() > 0 {
        lemma_kept_reads(rows.drop_last(), marks, other);
    }
}

/// Every chosen row is a row of the table of which `wanted` holds, and every
/// such row is chosen.
pub proof fn lemma_chosen_members<V>(rows: Seq<V>, wanted: spec_fn(V) -> bool)
    ensures
        chosen(rows, wanted).len() <= rows.len(),
        forall|v: V| #[trigger] chosen(rows, wanted).contains(v) <==> rows.contains(v) && wanted(v),
    decreases rows.len(),
{
    let marks = Seq::new(rows.len(), |i: int| wanted(rows[i]));
    if rows.len() > 0 {
        let front = rows.drop_last();
        let last = rows.last();
        let front_marks = Seq::new(front.len(), |i: int| wanted(front[i]));
        lemma_chosen_members(front, wanted);
        lemma_kept_reads(front, marks, front_marks);
        let all = chosen(rows, wanted);
        let part = chosen(front, wanted);
        assert(part == kept(front, marks));
        assert(marks[rows.len() - 1] == wanted(last));
        assert(all == if wanted(last) {
            part.push(last)
        } else {
            part
        });
        assert forall|v: V| all.contains(v) <==> rows.contains(v) && wanted(v) by {
            if all.contains(v) {
                let k = choose|k: int| 0 <= k < all.len() && all[k] == v;
                if k < part.len() {
                    assert(part[k] == v);
                    assert(part.contains(v));
                    assert(front.contains(v) && wanted(v));
                    let j = choose|j: int| 0 <= j < front.len() && front[j] == v;
                    assert(rows[j] == v);
                } else {
                    assert(v == rows[rows.len() - 1]);
                }
            }
            if rows.contains(v) && wanted(v) {
                let j = choose|j: int| 0 <= j < rows.len() && rows[j] == v;
                if j < front.len() {
                    assert(front[j] == v);
                    assert(front.contains(v));
                    assert(part.contains(v));
                    let k = choose|k: int| 0 <= k < part.len() && part[k] == v;
                    assert(all[k] == v);
                } else {
                    assert(wanted(last));
                    assert(all[all.len() - 1] == v);
                }
            }
        }
    }
}

/// Copies of the rows of `rows` at the positions `picks`, in the order of
/// `picks`.
pub fn pick_rows<T: Row>(rows: &Vec<T>, picks: &Vec<usize>) -> (r: Vec<T>)
    requires
        forall|k: int| 0 <= k < picks@.len() ==> #[trigger] picks@[k] < rows@.len(),
    ensures
        views_of(r@) == arranged(views_of(rows@), picks@),
{
    let mut out: Vec<T> = Vec::new();
    let mut i: usize = 0;
    while i < picks.len()
        invariant
            i <= picks.len(),
            out@.len() == i,
            forall|k: int| 0 <= k < picks@.len() ==> #[trigger] picks@[k] < rows@.len(),
            forall|k: int| 0 <= k < i ==> (#[trigger] out@[k])@ == rows@[picks@[k] as int]@,
        decreases picks.len() - i,
    {
        out.push(rows[picks[i]].duplicate());
        i += 1;
    }
    assert(views_of(out@) =~= arranged(views_of(rows@), picks@));
    out
}

/// Copies of the rows of `rows` whose mark is set, in order.
pub fn pick_marked<T: Row>(rows: &Vec<T>, marks: &Vec<bool>) -> (r: Vec<T>)
    requires
        marks@.len() == rows@.len(),
    ensures
        views_of(r@) == kept(views_of(rows@), marks@),
{
    let ghost all = views_of(rows@);
    let mut out: Vec<T> = Vec::new();
    let mut i: usize = 0;
    while i < rows.len()
        invariant
            i <= rows.len(),
            marks@.len() == rows@.len(),
            all == views_of(rows@),
            views_of(out@) == kept(all.take(i as int), marks@),
        decreases rows.len() - i,
    {
        assert(all.take(i + 1).drop_last() == all.take(i as int));
        assert(all.take(i + 1).last() == rows@[i as int]@);
        if marks[i] {
            let ghost before = views_of(out@);
            out.push(rows[i].duplicate());
            assert(views_of(out@) =~= before.push(rows@[i as int]@));
        }
        i += 1;
    }
    assert(all.take(rows@.len() as int) == all);
    out
}

/// The identifier under which a record that wants the identifier `wanted`
/// is kept in the table: `wanted` itself where no row has it, else a longer
/// one that no row has.
pub fn unused_identifier<T: Named>(rows: &Vec<T>, wanted: &str) -> (name: String)
    ensures
        name@ == unused_name(names::<T>(views_of(rows@)), wanted@),
{
    let ghost all = views_of(rows@);
    let ghost taken = names::<T>(all);
    let letters = chars_of(wanted);
    let mut used = false;
    let mut longest: usize = 0;
    let mut i: usize = 0;
    while i < rows.len()
        invariant
            i <= rows.len(),
            all == views_of(rows@),
            taken == names::<T>(all),
            letters@ == wanted@,
            used == !name_unused(taken.take(i as int), wanted@),
            longest == longest_name(taken.take(i as int)),
        decreases rows.len() - i,
    {
        assert(taken.take(i + 1).drop_last() == taken.take(i as int));
        assert(taken.take(i + 1).last() == T::name(rows@[i as int]@));
        let own = chars_of(rows[i].identifier().as_str());
        let same = same_chars(&own, &letters);
        proof {
            let before = taken.take(i as int);
            let after = taken.take(i + 1);
            if same {
                assert(after[i as int] == wanted@);
            }
            if !name_unused(before, wanted@) {
                let k = choose|k: int| 0 <= k < before.len() && #[trigger] before[k] == wanted@;
                assert(after[k] == before[k]);
            }
            if !same && name_unused(before, wanted@) {
                assert forall|k: int| 0 <= k < after.len() implies #[trigger] after[k]
                    != wanted@ by {
                    if k < i {
                        assert(before[k] == after[k]);
                    }
                }
            }
        }
        if same {
            used = true;
        }
        if own.len() > longest {
            longest = own.len();
        }
        i += 1;
    }
    assert(taken.take(rows@.len() as int) == taken);
    let mut name = String::from_str(wanted);
    if used {
        proof {
            lemma_longest_name(taken);
            let k = choose|k: int| 0 <= k < taken.len() && #[trigger] taken[k] == wanted@;
            assert(wanted@.len() <= longest_name(taken));
        }
        let mut n: usize = letters.len();
        while n < longest
            invariant
                letters.len() <= n <= longest,
                letters@ == wanted@,
                name@ == wanted@ + Seq::new((n - letters.len()) as nat, |i: int| '_'),
            decreases longest - n,
        {
            name.push('_');
            assert(name@ =~= wanted@ + Seq::new((n + 1 - letters.len()) as nat, |i: int| '_'));
            n += 1;
        }
        name.push('_');
        assert(name@ =~= wanted@ + Seq::new((longest + 1 - letters.len()) as nat, |i: int| '_'));
    }
    name
}

/// Records `row` in the table: the table grows by this one row, at its end,
/// and a copy of the row is returned. Where a row has the identifier that
/// the record wants, it is recorded under a longer one that no row has.
pub fn record_row<T: Named>(rows: &mut Vec<T>, row: T) -> (kept: T)
    ensures
        views_of(final(rows)@) == recorded::<T>(views_of(old(rows)@), row@),
        kept@ == recorded_row::<T>(views_of(old(rows)@), row@),
{
    let ghost all = views_of(rows@);
    let name = unused_identifier(rows, row.identifier().as_str());
    let kept = row.renamed_to(name);
    let copy = kept.duplicate();
    rows.push(kept);
    assert(views_of(rows@) =~= all.push(copy@));
    copy
}

/// Copies of the rows of `rows`, the latest first. Rows of one time keep
/// their order.
pub fn sort_latest_first<T: Row>(rows: &Vec<T>) -> (r: Vec<T>)
    ensures
        views_of(r@) == latest_first::<T>(views_of(rows@)),
{
    let mut keys: Vec<u64> = Vec::new();
    let mut i: usize = 0;
    while i < rows.len()
        invariant
            i <= rows.len(),
            keys@ == stamps::<T>(views_of(rows@)).take(i as int),
        decreases rows.len() - i,
    {
        keys.push(rows[i].time());
        i += 1;
    }
    assert(keys@ == stamps::<T>(views_of(rows@)));
    let order = stable_order_of(&keys, true);
    pick_rows(rows, &order)
}

} // verus!
