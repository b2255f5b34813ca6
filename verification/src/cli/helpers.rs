//! Small conversions between text and values.

use crate::numbers::{parse_signed, signed_of};
use crate::text::{chars_of, slice_of, string_of, trim, trimmed};
use vstd::prelude::*;
use vstd::utf8::{decode_utf8, encode_utf8, is_char_boundary};

verus! {

/// `n` full stops.
pub open spec fn dots(n: nat) -> Seq<char> {
    Seq::new(n, |i: int| '.')
}

/// Whether `s` can be cut down to `max_len` bytes: where it has to be cut,
/// the cut does not fall inside a character.
pub open spec fn can_truncate(s: Seq<char>, max_len: nat) -> bool {
    encode_utf8(s).len() > max_len > 3 ==> is_char_boundary(encode_utf8(s), max_len - 3)
}

/// `s` cut down to at most `max_len` bytes in UTF-8. A text that is short
/// enough stays as it is. A longer one keeps its first `max_len - 3` bytes
/// and ends in three full stops; where `max_len` is 3 or less, nothing but
/// `max_len` full stops is left.
pub open spec fn truncated(s: Seq<char>, max_len: nat) -> Seq<char> {
    if encode_utf8(s).len() <= max_len {
        s
    } else if max_len <= 3 {
        dots(max_len)
    } else {
        decode_utf8(encode_utf8(s).subrange(0, max_len - 3)) + "..."@
    }
}

/// Whether `s` can be cut down to `max_len` bytes (see `can_truncate`).
pub fn fits_truncation(s: &str, max_len: usize) -> (r: bool)
    ensures
        r == can_truncate(s@, max_len as nat),
{
    if s.as_bytes().len() > max_len && max_len > 3 {
        s.is_char_boundary(max_len - 3)
    } else {
        true
    }
}

/// `s` cut down to at most `max_len` bytes (see `truncated`).
pub fn truncate(s: &str, max_len: usize) -> (r: String)
    requires
        can_truncate(s@, max_len as nat),
    ensures
        r@ == truncated(s@, max_len as nat),
{
    if s.as_bytes().len() <= max_len {
        s.to_owned()
    } else if max_len <= 3 {
        let mut r = String::new();
        let mut i: usize = 0;
        while i < max_len
            invariant
                i <= max_len,
                r@ == dots(i as nat),
            decreases max_len - i,
        {
            r.push('.');
            i += 1;
        }
        r
    } else {
        let (head, _) = s.split_at(max_len - 3);
        proof {
            vstd::utf8::encode_utf8_decode_utf8(head@);
        }
        let mut r = head.to_owned();
        r.append("...");
        r
    }
}

/// The number of seconds in one unit of time, by the unit's letter: `s` for
/// a second, `m` for a minute, `h` for an hour, `d` for a day, `w` for a week.
pub open spec fn unit_seconds(unit: char) -> Option<int> {
    if unit == 's' {
        Some(1)
    } else if unit == 'm' {
        Some(60)
    } else if unit == 'h' {
        Some(3_600)
    } else if unit == 'd' {
        Some(86_400)
    } else if unit == 'w' {
        Some(604_800)
    } else {
        None
    }
}

/// The longest span of time that a duration can have, in seconds, in either
/// direction: with it the span in milliseconds still fits in 64 bits.
pub const MAX_DURATION_SECS: i64 = 9_223_372_036_854_775;

/// The span of time that `s` spells, in seconds, or why it spells none.
///
/// A duration is a whole number, which may have a sign, followed by the
/// letter of its unit, as in `24h` or `7d`; white space around it does not
/// count. The number is checked first, then the unit, then the size.
pub open spec fn duration_of(s: Seq<char>) -> Result<int, Seq<char>> {
    let t = trimmed(s);
    if t.len() == 0 {
        Err("Empty duration string"@)
    } else {
        match signed_of(t.drop_last()) {
            None => Err("Invalid number in duration: "@ + t.drop_last()),
            Some(n) => match unit_seconds(t.last()) {
                None => Err(
                    "Invalid duration unit '"@ + seq![t.last()] + "'. Use s, m, h, d, or w"@,
                ),
                Some(k) => if -MAX_DURATION_SECS <= n * k <= MAX_DURATION_SECS {
                    Ok(n * k)
                } else {
                    Err("Duration out of range"@)
                },
            },
        }
    }
}

/// The number of seconds in one unit of time (see `unit_seconds`).
fn seconds_in(unit: char) -> (r: Option<i64>)
    ensures
        match r {
            Some(k) => unit_seconds(unit) == Some(k as int) && 1 <= k <= 604_800,
            None => unit_seconds(unit) is None,
        },
{
    if unit == 's' {
        Some(1)
    } else if unit == 'm' {
        Some(60)
    } else if unit == 'h' {
        Some(3_600)
    } else if unit == 'd' {
        Some(86_400)
    } else if unit == 'w' {
        Some(604_800)
    } else {
        None
    }
}

/// Reads a duration such as `24h`, `7d` or `30m` as a number of seconds (see
/// `duration_of`).
pub fn parse_duration(s: &str) -> (r: Result<i64, String>)
    ensures
        match r {
            Ok(secs) => duration_of(s@) == Ok::<int, Seq<char>>(secs as int),
            Err(why) => duration_of(s@) == Err::<int, Seq<char>>(why@),
        },
{
    let t = trim(&chars_of(s));
    if t.len() == 0 {
        return Err("Empty duration string".to_owned());
    }
    let digits = slice_of(&t, 0, t.len() - 1);
    let unit = t[t.len() - 1];
    let n: i64 = match parse_signed(&digits) {
        Some(n) => n,
        None => {
            let mut why = "Invalid number in duration: ".to_owned();
            why.append(string_of(&digits).as_str());
            return Err(why);
        },
    };
    let k: i64 = match seconds_in(unit) {
        Some(k) => k,
        None => {
            let mut why = "Invalid duration unit '".to_owned();
            why.push(unit);
            why.append("'. Use s, m, h, d, or w");
            assert(why@ =~= "Invalid duration unit '"@ + seq![unit]
                + "'. Use s, m, h, d, or w"@);
            return Err(why);
        },
    };
    let limit: i64 = MAX_DURATION_SECS / k;
    assert(limit * k <= MAX_DURATION_SECS < (limit + 1) * k) by (nonlinear_arith)
        requires
            limit == (MAX_DURATION_SECS as int) / (k as int),
            1 <= k <= 604_800,
    ;
    if n > limit || n < -limit {
        assert(!(-MAX_DURATION_SECS <= n * k <= MAX_DURATION_SECS)) by (nonlinear_arith)
            requires
                n > limit || n < -limit,
                limit * k <= MAX_DURATION_SECS < (limit + 1) * k,
                1 <= k <= 604_800,
        ;
        return Err("Duration out of range".to_owned());
    }
    assert(-MAX_DURATION_SECS <= n * k <= MAX_DURATION_SECS) by (nonlinear_arith)
        requires
            -limit <= n <= limit,
            limit * k <= MAX_DURATION_SECS < (limit + 1) * k,
            1 <= k <= 604_800,
    ;
    Ok(n * k)
}

} // verus!
