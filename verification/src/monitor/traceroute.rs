//! Path traces: reading the report of a trace and finding the last hop that
//! answered.

use crate::clock::Timestamp;
use crate::models::{HopView, TraceView, TracerouteHop, TracerouteResult};
use crate::numbers::{
    decimal, decimal_of, digit_char, digit_of, parse_thousandths, parse_unsigned, thousandths_of,
    unsigned_of,
};
use crate::text::{
    begins_with, chars_of, extend, extend_padded_left, extend_padded_right, extend_str, lines,
    lines_of, padded_left, padded_right, same_chars, string_of, texts, trim, trimmed, words,
    words_of,
};
use vstd::prelude::*;

verus! {

/// Whether `i` is the position of the last hop in `hops` that answered.
pub open spec fn is_last_responding(hops: Seq<HopView>, i: int) -> bool {
    &&& 0 <= i < hops.len()
    &&& hops[i].responded()
    &&& forall|j: int| i < j < hops.len() ==> !(#[trigger] hops[j]).responded()
}

/// The hop at which the trail goes cold: for a trace that did not reach its
/// target, the ordinal and address of the hop that answered last, as far as
/// the order of the report goes. A trace that reached its target has no such
/// hop, nor has one in which no hop answered.
///
/// A hop that timed out before a later hop answered is passed over: the
/// later hop is the one returned.
pub open spec fn failing_hop_of(trace: TraceView) -> Option<(u8, Seq<char>)> {
    if trace.success || !exists|i: int| is_last_responding(trace.hops, i) {
        None
    } else {
        let i = choose|i: int| is_last_responding(trace.hops, i);
        Some((trace.hops[i].hop_number, trace.hops[i].ip->0))
    }
}

/// At most one position is that of the last hop that answered.
pub proof fn lemma_last_responding_unique(hops: Seq<HopView>, i: int, j: int)
    requires
        is_last_responding(hops, i),
        is_last_responding(hops, j),
    ensures
        i == j,
{
}

/// For a trace that did not reach its target, `failing_hop_of` is the last
/// hop in the report that answered.
pub proof fn lemma_failing_hop_found(trace: TraceView, i: int)
    requires
        !trace.success,
        is_last_responding(trace.hops, i),
    ensures
        failing_hop_of(trace) == Some((trace.hops[i].hop_number, trace.hops[i].ip->0)),
{
}

/// `failing_hop_of` is `None` exactly for a trace that reached its target
/// and for one in which no hop answered; so it is for one in which every hop
/// timed out.
pub proof fn lemma_failing_hop_none(trace: TraceView)
    ensures
        failing_hop_of(trace) is None <==> trace.success || forall|i: int|
            0 <= i < trace.hops.len() ==> !(#[trigger] trace.hops[i]).responded(),
        (forall|i: int| 0 <= i < trace.hops.len() ==> (#[trigger] trace.hops[i]).timeout)
            ==> failing_hop_of(trace) is None,
{
    if !trace.success && !exists|i: int| is_last_responding(trace.hops, i) {
        lemma_none_responded(trace.hops, trace.hops.len() as int);
    }
}

/// Where no position is that of the last hop that answered, no hop answered.
proof fn lemma_none_responded(hops: Seq<HopView>, n: int)
    requires
        0 <= n <= hops.len(),
        !exists|i: int| is_last_responding(hops, i),
        forall|j: int| n <= j < hops.len() ==> !(#[trigger] hops[j]).responded(),
    ensures
        forall|i: int| 0 <= i < hops.len() ==> !(#[trigger] hops[i]).responded(),
    decreases n,
{
    if n > 0 {
        if hops[n - 1].responded() {
            assert(is_last_responding(hops, n - 1));
        } else {
            lemma_none_responded(hops, n - 1);
        }
    }
}

/// Where the ordinals of the hops grow along the report, the hop that
/// `failing_hop_of` returns has the highest ordinal of all hops that
/// answered.
pub proof fn lemma_failing_hop_is_highest(trace: TraceView)
    requires
        forall|i: int, j: int|
            0 <= i < j < trace.hops.len() ==> trace.hops[i].hop_number
                <= trace.hops[j].hop_number,
    ensures
        failing_hop_of(trace) matches Some((n, _)) ==> forall|i: int|
            0 <= i < trace.hops.len() && (#[trigger] trace.hops[i]).responded()
                ==> trace.hops[i].hop_number <= n,
{
}

/// Analyses path traces.
#[derive(Debug, Clone, Copy, PartialEq, Eq, Structural)]
pub struct HopAnalyzer {
    /// How long each hop may take to answer, in seconds; at least 1.
    pub timeout_secs: u64,
    /// The largest number of hops that a trace follows.
    pub max_hops: u8,
}

impl HopAnalyzer {
    /// An analyzer that gives each hop `timeout_secs` seconds, but at least
    /// one, and follows at most `max_hops` hops.
    pub fn new(timeout_secs: u64, max_hops: u8) -> (r: HopAnalyzer)
        ensures
            r.timeout_secs == if timeout_secs >= 1 {
                timeout_secs
            } else {
                1
            },
            r.max_hops == max_hops,
    {
        HopAnalyzer {
            timeout_secs: if timeout_secs >= 1 {
                timeout_secs
            } else {
                1
            },
            max_hops,
        }
    }

    /// The hop at which the trail goes cold (see `failing_hop_of`).
    pub fn identify_failing_hop(result: &TracerouteResult) -> (r: Option<(u8, String)>)
        ensures
            match r {
                Some((n, ip)) => failing_hop_of(result@) == Some((n, ip@)),
                None => failing_hop_of(result@) is None,
            },
    {
        if result.success {
            return None;
        }
        let mut i: usize = result.hops.len();
        while i > 0
            invariant
                !result.success,
                i <= result.hops.len(),
                forall|j: int|
                    i <= j < result.hops.len() ==> !(#[trigger] result@.hops[j]).responded(),
            decreases i,
        {
            i -= 1;
            let hop = &result.hops[i];
            if !hop.timeout {
                if let Some(ip) = &hop.ip {
                    proof {
                        assert(is_last_responding(result@.hops, i as int));
                    }
                    return Some((hop.hop_number, ip.clone()));
                }
            }
        }
        None
    }
}

impl Default for HopAnalyzer {
    fn default() -> (r: Self)
        ensures
            r == (HopAnalyzer { timeout_secs: 2, max_hops: 30 }),
    {
        HopAnalyzer::new(2, 30)
    }
}

/// The round-trip time that the words of a hop line report, in
/// microseconds: the value of the first word, from position `i` on, that is
/// a plain decimal number of milliseconds and is followed by the word `ms`.
pub open spec fn latency_in(parts: Seq<Seq<char>>, i: int) -> Option<u64>
    decreases parts.len() - i,
{
    if i < 0 || i + 1 >= parts.len() {
        None
    } else if parts[i + 1] == "ms"@ && thousandths_of(parts[i]) is Some {
        Some(thousandths_of(parts[i])->0 as u64)
    } else {
        latency_in(parts, i + 1)
    }
}

/// The hop that one line of a trace report describes, if it describes one.
///
/// The line's first word is the hop's ordinal, a number from 0 to 255. Where
/// the second word is `*`, the hop timed out. Otherwise the second word is
/// the address that answered, and the round-trip time is looked for in the
/// words (see `latency_in`). A line of another shape describes no hop.
pub open spec fn hop_of_line(line: Seq<char>) -> Option<HopView> {
    let parts = words_of(line);
    if parts.len() < 2 {
        None
    } else {
        match unsigned_of(parts[0], 255) {
            None => None,
            Some(n) => if parts[1] == "*"@ {
                Some(
                    HopView {
                        hop_number: n as u8,
                        ip: None,
                        hostname: None,
                        latency_us: None,
                        timeout: true,
                    },
                )
            } else {
                Some(
                    HopView {
                        hop_number: n as u8,
                        ip: Some(parts[1]),
                        hostname: None,
                        latency_us: latency_in(parts, 0),
                        timeout: false,
                    },
                )
            },
        }
    }
}

/// The hops that the lines `lines` describe, in order. Each line is trimmed
/// first. Empty lines, the heading that begins with `traceroute to`, and
/// lines that describe no hop are passed over.
pub open spec fn hops_of_lines(lines: Seq<Seq<char>>) -> Seq<HopView>
    decreases lines.len(),
{
    if lines.len() == 0 {
        Seq::empty()
    } else {
        let rest = hops_of_lines(lines.drop_last());
        let line = trimmed(lines.last());
        if line.len() == 0 || "traceroute to"@.is_prefix_of(line) {
            rest
        } else {
            match hop_of_line(line) {
                Some(hop) => rest.push(hop),
                None => rest,
            }
        }
    }
}

/// The hops that a trace report describes.
pub open spec fn hops_of_report(report: Seq<char>) -> Seq<HopView> {
    hops_of_lines(lines_of(report))
}

/// Whether a trace with the hops `hops` reached `target`: the last hop has
/// exactly the address `target`.
pub open spec fn reached(hops: Seq<HopView>, target: Seq<char>) -> bool {
    hops.len() > 0 && hops.last().ip == Some(target)
}

/// The trace towards `target`, begun at `timestamp`, whose report is
/// `report`.
pub open spec fn trace_of_report(target: Seq<char>, timestamp: int, report: Seq<char>) -> TraceView {
    TraceView {
        target,
        timestamp,
        hops: hops_of_report(report),
        success: reached(hops_of_report(report), target),
    }
}

/// The trace towards `target`, begun at `timestamp`, that could not be run.
pub open spec fn trace_not_run(target: Seq<char>, timestamp: int) -> TraceView {
    TraceView { target, timestamp, hops: Seq::empty(), success: false }
}

/// The arguments with which the trace program is run towards `target`: with
/// numeric addresses, one probe for each hop, `timeout_secs` seconds for each
/// probe and at most `max_hops` hops.
pub open spec fn trace_arguments(timeout_secs: u64, max_hops: u8, target: Seq<char>) -> Seq<
    Seq<char>,
> {
    seq![
        "-n"@,
        "-q"@,
        "1"@,
        "-w"@,
        decimal_of(timeout_secs as nat),
        "-m"@,
        decimal_of(max_hops as nat),
        target,
    ]
}

/// The round-trip time that the words `parts` report (see `latency_in`).
fn find_latency(parts: &Vec<Vec<char>>) -> (r: Option<u64>)
    ensures
        r == latency_in(texts(parts@), 0),
{
    let unit = chars_of("ms");
    let mut i: usize = 0;
    while i < parts.len() && i + 1 < parts.len()
        invariant
            i <= parts.len(),
            unit@ == "ms"@,
            latency_in(texts(parts@), 0) == latency_in(texts(parts@), i as int),
        decreases parts.len() - i,
    {
        if same_chars(&parts[i + 1], &unit) {
            match parse_thousandths(&parts[i]) {
                Some(us) => {
                    return Some(us);
                },
                None => {},
            }
        }
        i += 1;
    }
    None
}

/// The hop that the line `line` describes (see `hop_of_line`).
fn hop_from_chars(line: &Vec<char>) -> (r: Option<TracerouteHop>)
    ensures
        r.deep_view() == hop_of_line(line@),
{
    let parts = words(line);
    if parts.len() < 2 {
        return None;
    }
    let hop_number: u8 = match parse_unsigned(&parts[0], 255) {
        Some(n) => n as u8,
        None => {
            return None;
        },
    };
    let star = chars_of("*");
    if same_chars(&parts[1], &star) {
        return Some(
            TracerouteHop { hop_number, ip: None, hostname: None, latency_us: None, timeout: true },
        );
    }
    Some(
        TracerouteHop {
            hop_number,
            ip: Some(string_of(&parts[1])),
            hostname: None,
            latency_us: find_latency(&parts),
            timeout: false,
        },
    )
}

/// The hop that the line `line` describes (see `hop_of_line`).
pub fn parse_hop_line(line: &str) -> (r: Option<TracerouteHop>)
    ensures
        r.deep_view() == hop_of_line(line@),
{
    hop_from_chars(&chars_of(line))
}

/// The hops that the trace report `output` describes (see `hops_of_lines`).
pub fn parse_traceroute_output(output: &str) -> (r: Vec<TracerouteHop>)
    ensures
        r.deep_view() == hops_of_report(output@),
{
    let all = lines(&chars_of(output));
    let heading = chars_of("traceroute to");
    let mut hops: Vec<TracerouteHop> = Vec::new();
    let mut i: usize = 0;
    while i < all.len()
        invariant
            i <= all.len(),
            heading@ == "traceroute to"@,
            hops.deep_view() == hops_of_lines(texts(all@).take(i as int)),
        decreases all.len() - i,
    {
        proof {
            let next = texts(all@).take(i + 1);
            assert(next.drop_last() =~= texts(all@).take(i as int));
        }
        let line = trim(&all[i]);
        if line.len() > 0 && !begins_with(&line, &heading) {
            match hop_from_chars(&line) {
                Some(hop) => {
                    hops.push(hop);
                },
                None => {},
            }
        }
        i += 1;
    }
    assert(texts(all@).take(i as int) =~= texts(all@));
    hops
}

/// Whether a trace with the hops `hops` reached `target` (see `reached`).
pub fn check_reached_target(hops: &[TracerouteHop], target: &str) -> (r: bool)
    ensures
        r == reached(hops.deep_view(), target@),
{
    if hops.len() == 0 {
        return false;
    }
    let last = &hops[hops.len() - 1];
    match &last.ip {
        Some(ip) => {
            let wanted = chars_of(target);
            let found = chars_of(ip.as_str());
            same_chars(&found, &wanted)
        },
        None => false,
    }
}

/// The program that traces a path.
pub const TRACE_PROGRAM: &'static str = "traceroute";

impl HopAnalyzer {
    /// The arguments with which `TRACE_PROGRAM` is run towards `target` (see
    /// `trace_arguments`).
    pub fn command_args(&self, target: &str) -> (r: Vec<String>)
        ensures
            r.deep_view() == trace_arguments(self.timeout_secs, self.max_hops, target@),
    {
        let mut r: Vec<String> = Vec::new();
        r.push("-n".to_owned());
        r.push("-q".to_owned());
        r.push("1".to_owned());
        r.push("-w".to_owned());
        r.push(string_of(&decimal(self.timeout_secs)));
        r.push("-m".to_owned());
        r.push(string_of(&decimal(self.max_hops as u64)));
        r.push(target.to_owned());
        r
    }

    /// The trace towards `target`, begun at `timestamp`, from what the trace
    /// program printed.
    pub fn read_report(target: &str, timestamp: Timestamp, report: &str) -> (r: TracerouteResult)
        ensures
            r@ == trace_of_report(target@, timestamp@, report@),
    {
        let hops = parse_traceroute_output(report);
        let success = check_reached_target(hops.as_slice(), target);
        TracerouteResult { target: target.to_owned(), timestamp, hops, success }
    }

    /// The trace towards `target`, begun at `timestamp`, where the trace
    /// program could not be run: no hops, target not reached.
    pub fn launch_failed(target: &str, timestamp: Timestamp) -> (r: TracerouteResult)
        ensures
            r@ == trace_not_run(target@, timestamp@),
    {
        let r = TracerouteResult {
            target: target.to_owned(),
            timestamp,
            hops: Vec::new(),
            success: false,
        };
        assert(r@.hops =~= Seq::<HopView>::empty());
        r
    }
}

/// A time of `us` microseconds written in milliseconds with two places after
/// the point, rounded to the nearest hundredth, a half upwards, and followed
/// by the unit: 1234 microseconds are `1.23 ms`.
pub open spec fn millis_text(us: u64) -> Seq<char> {
    let h: nat = (us / 10) as nat + if us % 10 >= 5 {
        1nat
    } else {
        0nat
    };
    decimal_of(h / 100) + seq!['.', digit_char(h % 100 / 10), digit_char(h % 10)] + " ms"@
}

/// One row of the table of hops: the ordinal in three columns, flush right;
/// the address, or `*`, in eighteen columns, flush left; the round-trip
/// time, or `*`.
pub open spec fn hop_row(hop: HopView) -> Seq<char> {
    padded_left(decimal_of(hop.hop_number as nat), 3) + "  "@ + padded_right(
        match hop.ip {
            Some(ip) => ip,
            None => "*"@,
        },
        18,
    ) + "  "@ + match hop.latency_us {
        Some(us) => millis_text(us),
        None => "*"@,
    } + "\n"@
}

/// The rows of the table of hops, one for each hop in order.
pub open spec fn hop_rows(hops: Seq<HopView>) -> Seq<char>
    decreases hops.len(),
{
    if hops.len() == 0 {
        Seq::empty()
    } else {
        hop_rows(hops.drop_last()) + hop_row(hops.last())
    }
}

/// The line that sums a trace up: that the target was reached and in how
/// many hops, or which hop answered last, or that none answered.
pub open spec fn trace_summary(trace: TraceView) -> Seq<char> {
    if trace.success {
        "\nTarget reached in "@ + decimal_of(trace.hops.len()) + " hops.\n"@
    } else {
        match failing_hop_of(trace) {
            Some((hop, ip)) => "\nTarget NOT reached. Last responding hop: "@ + decimal_of(
                hop as nat,
            ) + " ("@ + ip + ")\n"@,
            None => "\nTarget NOT reached. No hops responded.\n"@,
        }
    }
}

/// A trace as a table for reading: a heading with the target, a row for each
/// hop, and the summary.
pub open spec fn trace_table(trace: TraceView) -> Seq<char> {
    "Traceroute to "@ + trace.target + "\n"@
        + "═══════════════════════════════════════════════════════════\n\n"@
        + "Hop  IP                  Latency\n"@
        + "───────────────────────────────────────────────────────────\n"@ + hop_rows(
        trace.hops,
    ) + trace_summary(trace)
}

/// Appends `millis_text(us)` to `out`.
fn extend_millis(out: &mut Vec<char>, us: u64)
    ensures
        final(out)@ == old(out)@ + millis_text(us),
{
    let h: u64 = us / 10 + if us % 10 >= 5 {
        1
    } else {
        0
    };
    extend(out, &decimal(h / 100));
    out.push('.');
    out.push(digit_of((h % 100 / 10) as u8));
    out.push(digit_of((h % 10) as u8));
    extend_str(out, " ms");
}

/// Appends `hop_row(hop@)` to `out`.
fn extend_hop_row(out: &mut Vec<char>, hop: &TracerouteHop)
    ensures
        final(out)@ == old(out)@ + hop_row(hop@),
{
    extend_padded_left(out, &decimal(hop.hop_number as u64), 3);
    extend_str(out, "  ");
    let address = match &hop.ip {
        Some(ip) => chars_of(ip.as_str()),
        None => chars_of("*"),
    };
    extend_padded_right(out, &address, 18);
    extend_str(out, "  ");
    match hop.latency_us {
        Some(us) => extend_millis(out, us),
        None => extend_str(out, "*"),
    }
    extend_str(out, "\n");
}

/// A trace as a table for reading (see `trace_table`).
pub fn format_traceroute(result: &TracerouteResult) -> (r: String)
    ensures
        r@ == trace_table(result@),
{
    let mut out: Vec<char> = Vec::new();
    extend_str(&mut out, "Traceroute to ");
    extend_str(&mut out, result.target.as_str());
    extend_str(&mut out, "\n");
    extend_str(&mut out, "═══════════════════════════════════════════════════════════\n\n");
    extend_str(&mut out, "Hop  IP                  Latency\n");
    extend_str(&mut out, "───────────────────────────────────────────────────────────\n");
    let ghost head = out@;
    let mut i: usize = 0;
    while i < result.hops.len()
        invariant
            i <= result.hops.len(),
            out@ == head + hop_rows(result@.hops.take(i as int)),
        decreases result.hops.len() - i,
    {
        proof {
            let next = result@.hops.take(i + 1);
            assert(next.drop_last() =~= result@.hops.take(i as int));
        }
        extend_hop_row(&mut out, &result.hops[i]);
        i += 1;
    }
    assert(result@.hops.take(i as int) =~= result@.hops);
    if result.success {
        extend_str(&mut out, "\nTarget reached in ");
        extend(&mut out, &decimal(result.hops.len() as u64));
        extend_str(&mut out, " hops.\n");
    } else {
        match HopAnalyzer::identify_failing_hop(result) {
            Some((hop, ip)) => {
                extend_str(&mut out, "\nTarget NOT reached. Last responding hop: ");
                extend(&mut out, &decimal(hop as u64));
                extend_str(&mut out, " (");
                extend_str(&mut out, ip.as_str());
                extend_str(&mut out, ")\n");
            },
            None => {
                extend_str(&mut out, "\nTarget NOT reached. No hops responded.\n");
            },
        }
    }
    string_of(&out)
}

} // verus!
