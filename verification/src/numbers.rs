//! Verified decimal parsing for the numeric tag payloads: unsigned ratings
//! (Elo) and signed rating deltas.
//!
//! A numeral is an optional sign followed by one or more ASCII digits; a
//! value out of range of the target type is rejected, never truncated.

use vstd::prelude::*;

use crate::chars::{is_digit, spec_digit_value, spec_is_digit};

verus! {

/// Every character of `s` is an ASCII decimal digit.
pub open spec fn spec_all_digits(s: Seq<char>) -> bool {
    forall|i: int| 0 <= i < s.len() ==> spec_is_digit(s[i])
}

/// The value of a digit string read in base ten.
pub open spec fn spec_digits_value(s: Seq<char>) -> int
    decreases s.len(),
{
    if s.len() == 0 {
        0
    } else {
        spec_digits_value(s.drop_last()) * 10 + spec_digit_value(s.last())
    }
}

/// The unsigned value denoted by `s`: an optional `+`, then one or more
/// digits, denoting a value of at most `u16::MAX`.
pub open spec fn spec_parse_u16(s: Seq<char>) -> Option<u16> {
    let t = if s.len() > 0 && s[0] == '+' {
        s.drop_first()
    } else {
        s
    };
    if t.len() > 0 && spec_all_digits(t) && spec_digits_value(t) <= u16::MAX {
        Some(spec_digits_value(t) as u16)
    } else {
        None
    }
}

/// The signed value denoted by `s`: an optional `+` or `-`, then one or
/// more digits, denoting a value within the range of `i16`.
pub open spec fn spec_parse_i16(s: Seq<char>) -> Option<i16> {
    if s.len() > 0 && s[0] == '-' {
        let t = s.drop_first();
        if t.len() > 0 && spec_all_digits(t) && spec_digits_value(t) <= 32768 {
            Some((-spec_digits_value(t)) as i16)
        } else {
            None
        }
    } else {
        let t = if s.len() > 0 && s[0] == '+' {
            s.drop_first()
        } else {
            s
        };
        if t.len() > 0 && spec_all_digits(t) && spec_digits_value(t) <= i16::MAX {
            Some(spec_digits_value(t) as i16)
        } else {
            None
        }
    }
}

proof fn lemma_digits_value_nonneg(s: Seq<char>)
    requires
        spec_all_digits(s),
    ensures
        spec_digits_value(s) >= 0,
    decreases s.len(),
{
    if s.len() > 0 {
        assert(spec_all_digits(s.drop_last()));
        lemma_digits_value_nonneg(s.drop_last());
    }
}

/// A digit string is worth at least any of its prefixes.
proof fn lemma_digits_value_prefix(s: Seq<char>, k: int)
    requires
        spec_all_digits(s),
        0 <= k <= s.len(),
    ensures
        spec_digits_value(s.take(k)) <= spec_digits_value(s),
    decreases s.len(),
{
    if k == s.len() {
        assert(s.take(k) =~= s);
    } else {
        assert(spec_all_digits(s.drop_last()));
        assert(s.take(k) =~= s.drop_last().take(k));
        lemma_digits_value_prefix(s.drop_last(), k);
        lemma_digits_value_nonneg(s.drop_last());
    }
}

/// Reads the digits of `s` from `start` on: succeeds exactly when what
/// remains is one or more digits whose value is at most `max`.
fn parse_digits(s: &str, start: usize, max: u32) -> (r: Option<u32>)
    requires
        start <= s@.len(),
        max <= 100000,
    ensures
        match r {
            Some(v) => {
                let t = s@.skip(start as int);
                &&& t.len() > 0
                &&& spec_all_digits(t)
                &&& v == spec_digits_value(t)
                &&& v <= max
            },
            None => {
                let t = s@.skip(start as int);
                !(t.len() > 0 && spec_all_digits(t) && spec_digits_value(t) <= max)
            },
        },
{
    let ghost t = s@.skip(start as int);
    let n = s.unicode_len();
    if start == n {
        return None;
    }
    let mut acc: u32 = 0;
    let mut i: usize = start;
    while i < n
        invariant
            start <= i <= n,
            n == s@.len(),
            start < n,
            t == s@.skip(start as int),
            spec_all_digits(t.take(i - start)),
            acc == spec_digits_value(t.take(i - start)),
            acc <= max,
            max <= 100000,
        decreases n - i,
    {
        let c = s.get_char(i);
        proof {
            assert(t[i - start] == s@[i as int]);
        }
        if !is_digit(c) {
            proof {
                assert(!spec_all_digits(t));
            }
            return None;
        }
        let d: u32 = (c as u32) - ('0' as u32);
        proof {
            assert(t.take(i - start + 1).drop_last() =~= t.take(i - start));
            assert(t.take(i - start + 1).last() == t[i - start]);
        }
        let next: u32 = acc * 10 + d;
        if next > max {
            proof {
                if spec_all_digits(t) {
                    lemma_digits_value_prefix(t, i - start + 1);
                }
            }
            return None;
        }
        acc = next;
        i = i + 1;
    }
    proof {
        assert(t.take(n - start) =~= t);
    }
    Some(acc)
}

/// Parses `s` as an unsigned 16-bit numeral, exactly as
/// [`spec_parse_u16`] describes.
pub fn parse_u16(s: &str) -> (r: Option<u16>)
    ensures
        r == spec_parse_u16(s@),
{
    let n = s.unicode_len();
    let start: usize = if n > 0 && s.get_char(0) == '+' {
        1
    } else {
        0
    };
    proof {
        if start == 1 {
            assert(s@.skip(1) =~= s@.drop_first());
        } else {
            assert(s@.skip(0) =~= s@);
        }
    }
    match parse_digits(s, start, 65535) {
        Some(v) => Some(v as u16),
        None => None,
    }
}

/// Parses `s` as a signed 16-bit numeral, exactly as
/// [`spec_parse_i16`] describes.
pub fn parse_i16(s: &str) -> (r: Option<i16>)
    ensures
        r == spec_parse_i16(s@),
{
    let n = s.unicode_len();
    if n > 0 && s.get_char(0) == '-' {
        proof {
            assert(s@.skip(1) =~= s@.drop_first());
        }
        match parse_digits(s, 1, 32768) {
            Some(v) => Some((-(v as i32)) as i16),
            None => None,
        }
    } else {
        let start: usize = if n > 0 && s.get_char(0) == '+' {
            1
        } else {
            0
        };
        proof {
            if start == 1 {
                assert(s@.skip(1) =~= s@.drop_first());
            } else {
                assert(s@.skip(0) =~= s@);
            }
        }
        match parse_digits(s, start, 32767) {
            Some(v) => Some(v as i16),
            None => None,
        }
    }
}

} // verus!
