//! Reading a decimal numeral, such as `4.87`, as a count of millionths.

use crate::text::chars_of;
use vstd::prelude::*;

verus! {

/// Whether `c` is a decimal digit.
pub open spec fn is_digit(c: char) -> bool {
    '0' <= c <= '9'
}

/// Whether `s` is made of decimal digits only.
pub open spec fn all_digits(s: Seq<char>) -> bool {
    forall|i: int| 0 <= i < s.len() ==> is_digit(#[trigger] s[i])
}

/// The number that the digits `s` write.
pub open spec fn digits_value(s: Seq<char>) -> nat
    decreases s.len(),
{
    if s.len() == 0 {
        0
    } else {
        digits_value(s.drop_last()) * 10 + ((s.last() as u8) - 48) as nat
    }
}

/// The first position of `s` that holds a point, or the length of `s`.
pub open spec fn point_at(s: Seq<char>) -> int
    decreases s.len(),
{
    if s.len() == 0 {
        0
    } else if s[0] == '.' {
        0
    } else {
        1 + point_at(s.drop_first())
    }
}

/// The digits of `s` before the point.
pub open spec fn whole_part(s: Seq<char>) -> Seq<char> {
    s.take(point_at(s))
}

/// The digits of `s` behind the point; none where there is no point.
pub open spec fn fraction_part(s: Seq<char>) -> Seq<char> {
    if point_at(s) < s.len() {
        s.skip(point_at(s) + 1)
    } else {
        Seq::empty()
    }
}

/// Whether `s` is a decimal numeral: digits, of which at least one stands
/// before the point, and at most one point.
pub open spec fn is_decimal(s: Seq<char>) -> bool {
    &&& whole_part(s).len() > 0
    &&& all_digits(whole_part(s))
    &&& all_digits(fraction_part(s))
}

/// The first six digits of `fraction`, read as millionths; missing digits
/// count as zeros.
pub open spec fn fraction_millionths(fraction: Seq<char>) -> nat {
    let d = |i: int|
        if i < fraction.len() {
            ((fraction[i] as u8) - 48) as nat
        } else {
            0nat
        };
    d(0) * 100_000 + d(1) * 10_000 + d(2) * 1_000 + d(3) * 100 + d(4) * 10 + d(5)
}

/// The millionths that the decimal numeral `s` counts, digits beyond the
/// sixth place dropped.
pub open spec fn millionths(s: Seq<char>) -> nat {
    digits_value(whole_part(s)) * 1_000_000 + fraction_millionths(fraction_part(s))
}

/// What reading `s` gives: nothing where `s` is no decimal numeral, else its
/// millionths, held at the largest `u64`.
pub open spec fn decimal_reading(s: Seq<char>) -> Option<u64> {
    if !is_decimal(s) {
        None
    } else if millionths(s) > u64::MAX {
        Some(u64::MAX)
    } else {
        Some(millionths(s) as u64)
    }
}

/// `point_at` of a sequence whose first `i` characters are no point.
proof fn lemma_point_at(s: Seq<char>, i: int)
    requires
        0 <= i <= s.len(),
        forall|k: int| 0 <= k < i ==> s[k] != '.',
        i == s.len() || s[i] == '.',
    ensures
        point_at(s) == i,
    decreases i,
{
    if i > 0 {
        assert(s[0] != '.');
        assert forall|k: int| 0 <= k < i - 1 implies s.drop_first()[k] != '.' by {
            assert(s.drop_first()[k] == s[k + 1]);
        }
        if i < s.len() {
            assert(s.drop_first()[i - 1] == s[i]);
        }
        lemma_point_at(s.drop_first(), i - 1);
    }
}

/// `point_at` lies behind every beginning of `s` that holds no point.
proof fn lemma_point_behind(s: Seq<char>, i: int)
    requires
        0 <= i < s.len(),
        forall|k: int| 0 <= k <= i ==> s[k] != '.',
    ensures
        i < point_at(s) <= s.len(),
    decreases s.len(),
{
    assert(s[0] != '.');
    if i > 0 {
        assert forall|k: int| 0 <= k <= i - 1 implies s.drop_first()[k] != '.' by {
            assert(s.drop_first()[k] == s[k + 1]);
        }
        lemma_point_behind(s.drop_first(), i - 1);
    } else {
        lemma_point_bounds(s.drop_first());
    }
}

/// `point_at` is a position of `s` or its length.
proof fn lemma_point_bounds(s: Seq<char>)
    ensures
        0 <= point_at(s) <= s.len(),
    decreases s.len(),
{
    if s.len() > 0 && s[0] != '.' {
        lemma_point_bounds(s.drop_first());
    }
}

/// Reads a decimal numeral as millionths. Digits beyond the sixth decimal
/// place are dropped; a value beyond the largest `u64` is held there. Text
/// that is no decimal numeral gives nothing.
pub fn read_millionths(text: &str) -> (r: Option<u64>)
    ensures
        r == decimal_reading(text@),
{
    let chars = chars_of(text);
    let n = chars.len();
    // the whole part
    let mut i: usize = 0;
    let mut whole: u64 = 0;
    let mut beyond = false;
    while i < n && chars[i] != '.'
        invariant
            i <= n,
            n == chars.len(),
            chars@ == text@,
            forall|k: int| 0 <= k < i ==> chars@[k] != '.',
            all_digits(chars@.take(i as int)),
            !beyond ==> whole == digits_value(chars@.take(i as int)) && whole <= 18446744073709,
            beyond ==> digits_value(chars@.take(i as int)) > 18446744073709,
        decreases n - i,
    {
        let c = chars[i];
        if !('0' <= c && c <= '9') {
            proof {
                lemma_point_behind(chars@, i as int);
                assert(whole_part(chars@)[i as int] == c);
            }
            return None;
        }
        let d: u64 = ((c as u8) - 48) as u64;
        assert(chars@.take(i + 1).drop_last() == chars@.take(i as int));
        assert(chars@.take(i + 1).last() == c);
        assert(all_digits(chars@.take(i + 1))) by {
            assert forall|k: int| 0 <= k < i + 1 implies is_digit(#[trigger] chars@.take(i + 1)[k]) by {
                if k < i {
                    assert(chars@.take(i as int)[k] == chars@[k]);
                }
            }
        }
        if !beyond {
            whole = whole * 10 + d;
            if whole > 18446744073709 {
                beyond = true;
            }
        }
        i += 1;
    }
    proof {
        lemma_point_at(chars@, i as int);
    }
    if i == 0 {
        return None;
    }
    // the fraction
    let start: usize = if i < n {
        i + 1
    } else {
        n
    };
    let ghost fraction = fraction_part(chars@);
    assert(fraction.len() == n - start);
    assert(forall|k: int| 0 <= k < fraction.len() ==> fraction[k] == chars@[start + k]);
    let mut j: usize = start;
    let mut part: u64 = 0;
    let mut scale: u64 = 100_000;
    let mut taken: usize = 0;
    while j < n
        invariant
            start <= j <= n,
            n == chars.len(),
            chars@ == text@,
            fraction == fraction_part(chars@),
            fraction.len() == n - start,
            forall|k: int| 0 <= k < fraction.len() ==> fraction[k] == chars@[start + k],
            all_digits(fraction.take(j - start)),
            taken == if j - start < 6 { j - start } else { 6 },
            taken == 0 ==> scale == 100_000,
            taken == 1 ==> scale == 10_000,
            taken == 2 ==> scale == 1_000,
            taken == 3 ==> scale == 100,
            taken == 4 ==> scale == 10,
            taken == 5 ==> scale == 1,
            part == fraction_millionths(fraction.take(j - start)),
            part <= 999_999,
        decreases n - j,
    {
        let c = chars[j];
        if !('0' <= c && c <= '9') {
            assert(fraction[j - start] == c);
            return None;
        }
        let d: u64 = ((c as u8) - 48) as u64;
        let ghost before_step = fraction.take(j - start);
        let ghost after_step = fraction.take(j - start + 1);
        assert(after_step.len() == before_step.len() + 1);
        assert(forall|k: int| 0 <= k < before_step.len() ==> after_step[k] == before_step[k]);
        assert(after_step[j - start] == c);
        assert(all_digits(after_step)) by {
            assert forall|k: int| 0 <= k < after_step.len() implies is_digit(
                #[trigger] after_step[k],
            ) by {
                if k < before_step.len() {
                    assert(is_digit(before_step[k]));
                }
            }
        }
        if taken < 6 {
            part = part + d * scale;
            scale = scale / 10;
            taken += 1;
        }
        j += 1;
    }
    assert(fraction.take(n - start) == fraction);
    assert(chars@.take(i as int) == whole_part(chars@));
    if beyond {
        return Some(u64::MAX);
    }
    let scaled: u64 = whole * 1_000_000;
    match scaled.checked_add(part) {
        Some(total) => Some(total),
        None => Some(u64::MAX),
    }
}

} // verus!
