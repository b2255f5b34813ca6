//! Keeps watch over a network: probes a set of endpoints, follows their
//! connectivity through the states online, degraded and offline, and, when
//! the endpoints cannot be reached, finds the last hop on the path that
//! still answers.
//!
//! This crate holds everything that is computed. Running the probe and trace
//! programs, storing the records and printing are left to the program that
//! uses it.

use vstd::prelude::*;

pub mod cli;
pub mod clock;
pub mod config;
pub mod models;
pub mod monitor;
pub mod numbers;
pub mod stats;
pub mod text;

use crate::text::{begins_with, chars_of, lines, lines_of, slice_of, string_of, texts, trim, trimmed};

verus! {

/// The gateway that the lines of a routing report name: what follows
/// `gateway:` on the first line that, trimmed, begins with it, trimmed again.
pub open spec fn gateway_of_lines(lines: Seq<Seq<char>>) -> Option<Seq<char>>
    decreases lines.len(),
{
    if lines.len() == 0 {
        None
    } else if "gateway:"@.is_prefix_of(trimmed(lines[0])) {
        Some(trimmed(trimmed(lines[0]).skip(8)))
    } else {
        gateway_of_lines(lines.drop_first())
    }
}

/// The address of the default gateway that the routing report `output`
/// names, if it names one (see `gateway_of_lines`).
pub fn parse_gateway(output: &str) -> (r: Option<String>)
    ensures
        r.deep_view() == gateway_of_lines(lines_of(output@)),
{
    let all = lines(&chars_of(output));
    let mark = chars_of("gateway:");
    proof {
        reveal_strlit("gateway:");
    }
    let mut i: usize = 0;
    assert(texts(all@).skip(0) =~= texts(all@));
    while i < all.len()
        invariant
            i <= all.len(),
            mark@ == "gateway:"@,
            mark@.len() == 8,
            texts(all@) == lines_of(output@),
            gateway_of_lines(texts(all@)) == gateway_of_lines(texts(all@).skip(i as int)),
        decreases all.len() - i,
    {
        proof {
            let rest = texts(all@).skip(i as int);
            assert(rest.drop_first() =~= texts(all@).skip(i + 1));
        }
        let line = trim(&all[i]);
        if begins_with(&line, &mark) {
            let rest = slice_of(&line, 8, line.len());
            return Some(string_of(&trim(&rest)));
        }
        i += 1;
    }
    None
}

/// Whether a log file is past keeping: whether its age, given in whole
/// seconds and the nanoseconds beyond them, is more than `max_age_days`
/// days.
pub fn log_expired(age_secs: u64, age_subsec_nanos: u32, max_age_days: u32) -> (r: bool)
    ensures
        r == (age_secs * 1_000_000_000 + age_subsec_nanos > max_age_days * 86_400
            * 1_000_000_000),
{
    let age: u128 = (age_secs as u128) * 1_000_000_000 + (age_subsec_nanos as u128);
    let limit: u128 = (max_age_days as u128) * 86_400 * 1_000_000_000;
    age > limit
}

} // verus!
