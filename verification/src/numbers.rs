//! Decimal parsing of `u16` values, matching `str::parse::<u16>`: an
//! optional leading `+`, then one or more ASCII digits, rejecting overflow.

use vstd::prelude::*;
use vstd::string::*;
use crate::text::{spec_is_ascii_digit, is_ascii_digit_char};

verus! {

pub open spec fn spec_all_digits(s: Seq<char>) -> bool {
    forall|i: int| 0 <= i < s.len() ==> spec_is_ascii_digit(s[i])
}

/// The value of a sequence of decimal digits, most significant first.
pub open spec fn spec_digits_val(s: Seq<char>) -> nat
    decreases s.len(),
{
    if s.len() == 0 {
        0
    } else {
        spec_digits_val(s.drop_last()) * 10 + (s.last() as u32 - 48) as nat
    }
}

/// What `str::parse::<u16>` accepts and returns: an optional leading `+`,
/// then one or more digits whose value fits in `u16`.
pub open spec fn spec_parse_u16(s: Seq<char>) -> Option<u16> {
    let d = if s.len() > 0 && s[0] == '+' {
        s.skip(1)
    } else {
        s
    };
    if d.len() > 0 && spec_all_digits(d) && spec_digits_val(d) <= 65535 {
        Some(spec_digits_val(d) as u16)
    } else {
        None
    }
}

/// A digit prefix never exceeds the value of the whole digit string.
proof fn lemma_digits_val_prefix(s: Seq<char>, i: int)
    requires
        0 <= i <= s.len(),
    ensures
        spec_digits_val(s.take(i)) <= spec_digits_val(s),
    decreases s.len() - i,
{
    if i < s.len() {
        assert(s.take(i + 1).drop_last() =~= s.take(i));
        assert(spec_digits_val(s.take(i + 1)) == spec_digits_val(s.take(i)) * 10 + (s.take(
            i + 1,
        ).last() as u32 - 48) as nat);
        lemma_digits_val_prefix(s, i + 1);
    } else {
        assert(s.take(i) =~= s);
    }
}

/// Parses `s` exactly as `str::parse::<u16>` would.
pub fn parse_u16(s: &str) -> (r: Option<u16>)
    ensures
        r == spec_parse_u16(s@),
{
    let n = s.unicode_len();
    let start: usize = if n > 0 && s.get_char(0) == '+' {
        1
    } else {
        0
    };
    let ghost d = if s@.len() > 0 && s@[0] == '+' {
        s@.skip(1)
    } else {
        s@
    };
    assert(d.len() == n - start);
    assert(forall|j: int| 0 <= j < d.len() ==> d[j] == s@[j + start]);
    if n == start {
        return None;
    }
    let mut acc: u32 = 0;
    let mut i: usize = start;
    while i < n
        invariant
            n == s@.len(),
            start <= i <= n,
            d == (if s@.len() > 0 && s@[0] == '+' {
                s@.skip(1)
            } else {
                s@
            }),
            d.len() == n - start,
            forall|j: int| 0 <= j < d.len() ==> d[j] == s@[j + start],
            forall|j: int| 0 <= j < i - start ==> spec_is_ascii_digit(d[j]),
            acc == spec_digits_val(d.take(i - start)),
            acc <= 65535,
        decreases n - i,
    {
        let c = s.get_char(i);
        assert(c == d[i - start]);
        if !is_ascii_digit_char(c) {
            proof {
                assert(!spec_is_ascii_digit(d[i - start]));
                assert(!spec_all_digits(d));
            }
            return None;
        }
        let digit = c as u32 - 48;
        let next = acc * 10 + digit;
        proof {
            assert(d.take(i - start + 1).drop_last() =~= d.take(i - start));
            assert(d.take(i - start + 1).last() == c);
            assert(spec_digits_val(d.take(i - start + 1)) == acc * 10 + (c as u32 - 48) as nat);
        }
        if next > 65535 {
            proof {
                lemma_digits_val_prefix(d, i - start + 1);
                assert(spec_digits_val(d) > 65535);
            }
            return None;
        }
        acc = next;
        i += 1;
    }
    proof {
        assert(d.take(n - start) =~= d);
    }
    Some(acc as u16)
}

} // verus!

