//! Decimal numbers in text: how they are written and how they are read.

use crate::text::{in_class, lemma_run_len, run_end, run_len, slice_of, CharClass};
use vstd::prelude::*;

verus! {

/// Whether every character of `s` is a decimal digit.
pub open spec fn all_digits(s: Seq<char>) -> bool {
    forall|i: int| 0 <= i < s.len() ==> in_class(CharClass::Digit, #[trigger] s[i])
}

/// The number that the digit `c` stands for.
pub open spec fn digit_value(c: char) -> nat {
    (c as u32 - '0' as u32) as nat
}

/// The digit that stands for `d`, for `d` below ten.
pub open spec fn digit_char(d: nat) -> char {
    (('0' as u8 + d) as u8) as char
}

/// The number that the digits `s` spell in base ten; the empty text spells 0.
pub open spec fn digits_value(s: Seq<char>) -> nat
    decreases s.len(),
{
    if s.len() == 0 {
        0
    } else {
        digits_value(s.drop_last()) * 10 + digit_value(s.last())
    }
}

/// How `n` is written in base ten, without leading zeros.
pub open spec fn decimal_of(n: nat) -> Seq<char>
    decreases n,
{
    if n < 10 {
        seq![digit_char(n)]
    } else {
        decimal_of(n / 10).push(digit_char(n % 10))
    }
}

/// A prefix of a number's digits spells a number that is not larger.
pub proof fn lemma_digits_value_prefix(s: Seq<char>, k: int)
    requires
        0 <= k <= s.len(),
    ensures
        digits_value(s.take(k)) <= digits_value(s),
    decreases s.len(),
{
    if k < s.len() {
        let t = s.drop_last();
        lemma_digits_value_prefix(t, k);
        assert(t.take(k) =~= s.take(k));
    } else {
        assert(s.take(k) =~= s);
    }
}

/// The decimal digit for `d`.
pub fn digit_of(d: u8) -> (c: char)
    requires
        d < 10,
    ensures
        c == digit_char(d as nat),
{
    (48u8 + d) as char
}

/// `n` in base ten (see `decimal_of`).
pub fn decimal(n: u64) -> (out: Vec<char>)
    ensures
        out@ == decimal_of(n as nat),
    decreases n,
{
    if n < 10 {
        let mut out: Vec<char> = Vec::new();
        out.push(digit_of(n as u8));
        out
    } else {
        let mut out = decimal(n / 10);
        out.push(digit_of((n % 10) as u8));
        out
    }
}

/// The number that the digits `v` spell, unless it is above `max`.
pub fn value_of_digits(v: &Vec<char>, max: u64) -> (r: Option<u64>)
    requires
        all_digits(v@),
    ensures
        match r {
            Some(n) => n == digits_value(v@) && n <= max,
            None => digits_value(v@) > max,
        },
{
    let mut acc: u64 = 0;
    let mut i: usize = 0;
    while i < v.len()
        invariant
            i <= v.len(),
            all_digits(v@),
            acc == digits_value(v@.take(i as int)),
            acc <= max,
        decreases v.len() - i,
    {
        let c = v[i];
        let d: u64 = (c as u32 - '0' as u32) as u64;
        let next: u128 = (acc as u128) * 10 + (d as u128);
        proof {
            let p = v@.take(i + 1);
            assert(p.drop_last() =~= v@.take(i as int));
        }
        if next > max as u128 {
            proof {
                lemma_digits_value_prefix(v@, i + 1);
            }
            return None;
        }
        acc = next as u64;
        i += 1;
    }
    assert(v@.take(i as int) =~= v@);
    Some(acc)
}

/// The number that `s` spells if it is an unsigned decimal number not above
/// `max`: an optional `+`, then one digit or more, and nothing else.
pub open spec fn unsigned_of(s: Seq<char>, max: nat) -> Option<nat> {
    let body = if s.len() > 0 && s[0] == '+' {
        s.drop_first()
    } else {
        s
    };
    if body.len() > 0 && all_digits(body) && digits_value(body) <= max {
        Some(digits_value(body))
    } else {
        None
    }
}

/// Whether every character of `v` is a decimal digit.
pub fn is_all_digits(v: &Vec<char>) -> (r: bool)
    ensures
        r == all_digits(v@),
{
    let n = run_end(v, 0, CharClass::Digit);
    proof {
        assert(v@.skip(0) =~= v@);
        lemma_run_len(v@, CharClass::Digit);
    }
    n == v.len()
}

/// Reads an unsigned decimal number not above `max` (see `unsigned_of`).
pub fn parse_unsigned(v: &Vec<char>, max: u64) -> (r: Option<u64>)
    ensures
        match r {
            Some(n) => unsigned_of(v@, max as nat) == Some(n as nat),
            None => unsigned_of(v@, max as nat) is None,
        },
{
    let from: usize = if v.len() > 0 && v[0] == '+' {
        1
    } else {
        0
    };
    let body = slice_of(v, from, v.len());
    assert(body@ =~= if v@.len() > 0 && v@[0] == '+' {
        v@.drop_first()
    } else {
        v@
    });
    if body.len() == 0 || !is_all_digits(&body) {
        return None;
    }
    value_of_digits(&body, max)
}

/// The number that `s` spells if it is a signed decimal number that fits in
/// 64 bits: an optional `+` or `-`, then one digit or more, and nothing else.
pub open spec fn signed_of(s: Seq<char>) -> Option<int> {
    if s.len() > 0 && s[0] == '-' {
        let body = s.drop_first();
        if body.len() > 0 && all_digits(body) && digits_value(body) <= 0x8000_0000_0000_0000 {
            Some(-(digits_value(body) as int))
        } else {
            None
        }
    } else {
        match unsigned_of(s, 0x7fff_ffff_ffff_ffff) {
            Some(n) => Some(n as int),
            None => None,
        }
    }
}

/// Reads a signed decimal number that fits in 64 bits (see `signed_of`).
pub fn parse_signed(v: &Vec<char>) -> (r: Option<i64>)
    ensures
        match r {
            Some(n) => signed_of(v@) == Some(n as int),
            None => signed_of(v@) is None,
        },
{
    if v.len() > 0 && v[0] == '-' {
        let body = slice_of(v, 1, v.len());
        if body.len() == 0 || !is_all_digits(&body) {
            return None;
        }
        match value_of_digits(&body, 0x8000_0000_0000_0000) {
            Some(n) => {
                if n == 0x8000_0000_0000_0000 {
                    Some(i64::MIN)
                } else {
                    Some(-(n as i64))
                }
            },
            None => None,
        }
    } else {
        match parse_unsigned(v, 0x7fff_ffff_ffff_ffff) {
            Some(n) => Some(n as i64),
            None => None,
        }
    }
}

/// The digit at place `i` after the point, or 0 where the text has none.
pub open spec fn place_value(f: Seq<char>, i: int) -> nat {
    if 0 <= i < f.len() {
        digit_value(f[i])
    } else {
        0
    }
}

/// The first three places after the point, read as a number of thousandths.
pub open spec fn thousandths(f: Seq<char>) -> nat {
    place_value(f, 0) * 100 + place_value(f, 1) * 10 + place_value(f, 2)
}

/// The value of `s` in thousandths, if `s` is a plain decimal number: digits,
/// then optionally a point and more digits, with a digit on at least one side
/// of the point, no sign and no exponent. Places after the third are dropped.
/// A value above `u64::MAX` thousandths is not read.
pub open spec fn thousandths_of(s: Seq<char>) -> Option<nat> {
    let n = run_len(s, CharClass::Digit) as int;
    let whole = s.take(n);
    let rest = s.skip(n);
    let frac = if rest.len() > 0 {
        rest.drop_first()
    } else {
        rest
    };
    let well_formed = (rest.len() == 0 || rest[0] == '.') && all_digits(frac) && whole.len()
        + frac.len() > 0;
    let value = digits_value(whole) * 1000 + thousandths(frac);
    if well_formed && value <= u64::MAX {
        Some(value)
    } else {
        None
    }
}

/// The digit of `v` at place `i` after the point (see `place_value`).
fn place(v: &Vec<char>, i: usize) -> (d: u64)
    requires
        all_digits(v@),
    ensures
        d == place_value(v@, i as int),
        d <= 9,
{
    if i < v.len() {
        (v[i] as u32 - '0' as u32) as u64
    } else {
        0
    }
}

/// Reads a plain decimal number as a number of thousandths (see
/// `thousandths_of`).
pub fn parse_thousandths(v: &Vec<char>) -> (r: Option<u64>)
    ensures
        match r {
            Some(n) => thousandths_of(v@) == Some(n as nat),
            None => thousandths_of(v@) is None,
        },
{
    let n = run_end(v, 0, CharClass::Digit);
    proof {
        assert(v@.skip(0) =~= v@);
        lemma_run_len(v@, CharClass::Digit);
    }
    let whole = slice_of(v, 0, n);
    if n < v.len() && v[n] != '.' {
        return None;
    }
    let frac = if n < v.len() {
        slice_of(v, n + 1, v.len())
    } else {
        Vec::new()
    };
    proof {
        let rest = v@.skip(n as int);
        if n < v.len() {
            assert(frac@ =~= rest.drop_first());
        }
    }
    if !is_all_digits(&frac) || (n == 0 && frac.len() == 0) {
        return None;
    }
    let th: u64 = place(&frac, 0) * 100 + place(&frac, 1) * 10 + place(&frac, 2);
    match value_of_digits(&whole, (u64::MAX - th) / 1000) {
        Some(w) => {
            assert(w * 1000 + th <= u64::MAX) by (nonlinear_arith)
                requires
                    w <= (u64::MAX - th) / 1000,
                    th <= 999,
            ;
            Some(w * 1000 + th)
        },
        None => {
            assert(digits_value(whole@) * 1000 + th > u64::MAX) by (nonlinear_arith)
                requires
                    digits_value(whole@) > (u64::MAX - th) / 1000,
                    th <= 999,
            ;
            None
        },
    }
}

} // verus!
