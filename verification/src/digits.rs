//! Parsing unsigned decimal numbers out of user-typed text: the grammar the
//! standard integer parse accepts (an optional leading plus sign, then one or
//! more digits), with a caller-chosen upper bound in place of a fixed width.

use vstd::prelude::*;

verus! {

/// ASCII whitespace: space, tab, line feed, carriage return.
pub open spec fn is_ascii_ws(b: u8) -> bool {
    b == 32 || b == 9 || b == 10 || b == 13
}

/// An ASCII decimal digit.
pub open spec fn is_digit(b: u8) -> bool {
    48 <= b <= 57
}

/// Every byte is an ASCII decimal digit.
pub open spec fn all_digits(s: Seq<u8>) -> bool {
    forall|i: int| 0 <= i < s.len() ==> is_digit(#[trigger] s[i])
}

/// The number a digit string denotes.
pub open spec fn spec_digits_value(s: Seq<u8>) -> int
    decreases s.len(),
{
    if s.len() == 0 {
        0
    } else {
        spec_digits_value(s.drop_last()) * 10 + (s.last() - 48)
    }
}

/// `s` without one leading plus sign.
pub open spec fn spec_strip_plus(s: Seq<u8>) -> Seq<u8> {
    if s.len() > 0 && s[0] == 43 {
        s.drop_first()
    } else {
        s
    }
}

/// `s` without leading ASCII whitespace.
pub open spec fn spec_trim_front(s: Seq<u8>) -> Seq<u8>
    decreases s.len(),
{
    if s.len() > 0 && is_ascii_ws(s[0]) {
        spec_trim_front(s.drop_first())
    } else {
        s
    }
}

/// `s` without trailing ASCII whitespace.
pub open spec fn spec_trim_back(s: Seq<u8>) -> Seq<u8>
    decreases s.len(),
{
    if s.len() > 0 && is_ascii_ws(s.last()) {
        spec_trim_back(s.drop_last())
    } else {
        s
    }
}

/// `s` without leading and trailing ASCII whitespace.
pub open spec fn spec_trim(s: Seq<u8>) -> Seq<u8> {
    spec_trim_back(spec_trim_front(s))
}

/// The number `s` denotes, when it is an optional plus sign followed by one
/// or more digits and the number is at most `bound`; `None` otherwise.
pub open spec fn spec_parse_number(s: Seq<u8>, bound: int) -> Option<int> {
    let t = spec_strip_plus(s);
    if t.len() > 0 && all_digits(t) && spec_digits_value(t) <= bound {
        Some(spec_digits_value(t))
    } else {
        None
    }
}

/// A digit string denotes a non-negative number.
pub proof fn lemma_digits_value_nonneg(s: Seq<u8>)
    requires
        all_digits(s),
    ensures
        spec_digits_value(s) >= 0,
    decreases s.len(),
{
    if s.len() > 0 {
        assert(all_digits(s.drop_last())) by {
            assert(forall|i: int|
                0 <= i < s.len() - 1 ==> is_digit(#[trigger] s.drop_last()[i]) == is_digit(s[i]));
        }
        lemma_digits_value_nonneg(s.drop_last());
    }
}

/// A digit string denotes at least what any of its prefixes denotes.
pub proof fn lemma_digits_value_monotone(s: Seq<u8>, k: int)
    requires
        all_digits(s),
        0 <= k <= s.len(),
    ensures
        spec_digits_value(s.take(k)) <= spec_digits_value(s),
    decreases s.len() - k,
{
    if k < s.len() {
        lemma_digits_value_monotone(s, k + 1);
        assert(s.take(k + 1).drop_last() =~= s.take(k));
        assert(all_digits(s.take(k))) by {
            assert(forall|i: int|
                0 <= i < k ==> is_digit(#[trigger] s.take(k)[i]) == is_digit(s[i]));
        }
        lemma_digits_value_nonneg(s.take(k));
        assert(is_digit(s[k]));
        assert(s.take(k + 1).last() == s[k]);
        assert(spec_digits_value(s.take(k + 1)) == spec_digits_value(s.take(k)) * 10 + (s[k]
            - 48));
    } else {
        assert(s.take(k) =~= s);
    }
}

/// Parse the decimal number in `bytes[start..end]`: an optional plus sign,
/// then digits, denoting at most `bound`.
pub fn parse_decimal(bytes: &[u8], start: usize, end: usize, bound: u64) -> (r: Option<u64>)
    requires
        start <= end <= bytes@.len(),
    ensures
        match r {
            Some(v) => spec_parse_number(bytes@.subrange(start as int, end as int), bound as int)
                == Some(v as int),
            None => spec_parse_number(bytes@.subrange(start as int, end as int), bound as int)
                is None,
        },
{
    let ghost s = bytes@.subrange(start as int, end as int);
    let mut i = start;
    if i < end && bytes[i] == 43 {
        i = i + 1;
    }
    let ghost t = bytes@.subrange(i as int, end as int);
    proof {
        assert(spec_strip_plus(s) =~= t);
    }
    if i == end {
        return None;
    }
    let mut acc: u128 = 0;
    let mut j = i;
    while j < end
        invariant
            start <= i <= j <= end <= bytes@.len(),
            s == bytes@.subrange(start as int, end as int),
            t == spec_strip_plus(s),
            t == bytes@.subrange(i as int, end as int),
            acc == spec_digits_value(t.take(j - i)),
            acc <= bound,
            all_digits(t.take(j - i)),
        decreases end - j,
    {
        let b = bytes[j];
        if b < 48 || b > 57 {
            proof {
                assert(t[j - i] == bytes@[j as int]);
                assert(!is_digit(t[j - i]));
                assert(!all_digits(t));
            }
            return None;
        }
        proof {
            assert(t.take(j - i + 1).drop_last() =~= t.take(j - i));
            assert(t.take(j - i + 1).last() == bytes@[j as int]);
            assert(forall|m: int|
                0 <= m < j - i + 1 ==> is_digit(#[trigger] t.take(j - i + 1)[m]) == is_digit(
                    t.take(j - i + 1)[m],
                ));
            assert(all_digits(t.take(j - i + 1))) by {
                assert(forall|m: int| 0 <= m < j - i ==> t.take(j - i + 1)[m] == #[trigger] t.take(
                    j - i,
                )[m]);
            }
        }
        acc = acc * 10 + ((b - 48) as u128);
        j = j + 1;
        if acc > bound as u128 {
            proof {
                assert(t.take(end - i) =~= t);
                if all_digits(t) {
                    lemma_digits_value_monotone(t, j - i);
                }
            }
            return None;
        }
    }
    proof {
        assert(t.take(end - i) =~= t);
    }
    Some(acc as u64)
}

/// Trim ASCII whitespace from both ends of `bytes[start..end]`, returning
/// the trimmed bounds.
pub fn trim_range(bytes: &[u8], start: usize, end: usize) -> (r: (usize, usize))
    requires
        start <= end <= bytes@.len(),
    ensures
        start <= r.0 <= r.1 <= end,
        bytes@.subrange(r.0 as int, r.1 as int) == spec_trim(
            bytes@.subrange(start as int, end as int),
        ),
{
    let ghost s = bytes@.subrange(start as int, end as int);
    let mut a = start;
    while a < end && is_ws(bytes[a])
        invariant
            start <= a <= end <= bytes@.len(),
            spec_trim_front(s) == spec_trim_front(bytes@.subrange(a as int, end as int)),
        decreases end - a,
    {
        proof {
            assert(bytes@.subrange(a as int, end as int).drop_first() =~= bytes@.subrange(
                a + 1,
                end as int,
            ));
        }
        a = a + 1;
    }
    proof {
        assert(spec_trim_front(s) == bytes@.subrange(a as int, end as int));
    }
    let mut b = end;
    while b > a && is_ws(bytes[b - 1])
        invariant
            start <= a <= b <= end <= bytes@.len(),
            spec_trim_back(spec_trim_front(s)) == spec_trim_back(
                bytes@.subrange(a as int, b as int),
            ),
        decreases b,
    {
        proof {
            assert(bytes@.subrange(a as int, b as int).drop_last() =~= bytes@.subrange(
                a as int,
                b - 1,
            ));
        }
        b = b - 1;
    }
    proof {
        assert(spec_trim_back(bytes@.subrange(a as int, b as int)) == bytes@.subrange(
            a as int,
            b as int,
        ));
    }
    (a, b)
}

/// Whether a byte is ASCII whitespace.
fn is_ws(b: u8) -> (r: bool)
    ensures
        r == is_ascii_ws(b),
{
    b == 32 || b == 9 || b == 10 || b == 13
}

} // verus!
