//! Probing: which endpoints are probed and how, and what the report of one
//! reachability check says.

use crate::clock::Timestamp;
use crate::config::Config;
use crate::models::{clone_targets, PingResult, PingResultView, Target, TargetView};
use crate::numbers::{decimal, decimal_of, parse_thousandths, thousandths_of};
use crate::text::{
    chars_of, contains, find, first_at, has, lemma_first_at, lines, lines_of, run_end, run_len,
    slice_of, string_of, texts, CharClass,
};
use vstd::prelude::*;

verus! {

/// The round-trip time that one line of a report states, in microseconds.
/// The line states one where the text that follows its first `time=`, up to
/// the next blank or `m` or else to the end of the line, is a plain decimal
/// number of milliseconds.
pub open spec fn reading_of_line(line: Seq<char>) -> Option<u64> {
    match first_at(line, "time="@, 0) {
        None => None,
        Some(i) => {
            let rest = line.skip(i + 5);
            match thousandths_of(rest.take(run_len(rest, CharClass::Reading) as int)) {
                Some(us) => Some(us as u64),
                None => None,
            }
        },
    }
}

/// The round-trip time that the first of `lines` to state one states.
pub open spec fn reading_of_lines(lines: Seq<Seq<char>>) -> Option<u64>
    decreases lines.len(),
{
    if lines.len() == 0 {
        None
    } else {
        match reading_of_line(lines[0]) {
            Some(us) => Some(us),
            None => reading_of_lines(lines.drop_first()),
        }
    }
}

/// The round-trip time that a report states, in microseconds: that of its
/// first line that states one.
pub open spec fn latency_of_report(output: Seq<char>) -> Option<u64> {
    reading_of_lines(lines_of(output))
}

/// The first line of `s`, or `Unknown error` where `s` has no line.
pub open spec fn first_line(s: Seq<char>) -> Seq<char> {
    if lines_of(s).len() > 0 {
        lines_of(s)[0]
    } else {
        "Unknown error"@
    }
}

/// Why a reachability check failed, as far as its report tells. The first
/// of these that applies decides:
///
/// - the output speaks of the loss of all packets: `Request timeout`;
/// - the output says `No route to host`: the same words;
/// - the output says `Network is unreachable`: `Network unreachable`;
/// - the error output speaks of an unknown host or of a name that cannot be
///   resolved: `DNS resolution failed`;
/// - there is error output: its first line;
/// - otherwise: `Ping failed`.
pub open spec fn failure_reason(stdout: Seq<char>, stderr: Seq<char>) -> Seq<char> {
    if has(stdout, "100.0% packet loss"@) || has(stdout, "100% packet loss"@) {
        "Request timeout"@
    } else if has(stdout, "No route to host"@) {
        "No route to host"@
    } else if has(stdout, "Network is unreachable"@) {
        "Network unreachable"@
    } else if has(stderr, "Unknown host"@) || has(stderr, "cannot resolve"@) {
        "DNS resolution failed"@
    } else if stderr.len() > 0 {
        first_line(stderr)
    } else {
        "Ping failed"@
    }
}

/// The arguments with which the probe program is run against `ip`: one
/// packet, and `timeout_ms` milliseconds to wait for the answer.
pub open spec fn ping_arguments(ip: Seq<char>, timeout_ms: u64) -> Seq<Seq<char>> {
    seq!["-c"@, "1"@, "-W"@, decimal_of(timeout_ms as nat), ip]
}

/// The outcome of a check of the endpoint `name` at `ip`, begun at
/// `timestamp`, from what the probe program reported: whether it ended well,
/// and what it wrote. A check that ended well succeeded, with the round-trip
/// time that its output states, if it states one. Any other check failed,
/// for the reason that its report tells.
pub open spec fn ping_outcome(
    ip: Seq<char>,
    name: Seq<char>,
    timestamp: int,
    ended_well: bool,
    stdout: Seq<char>,
    stderr: Seq<char>,
) -> PingResultView {
    PingResultView {
        target: ip,
        target_name: name,
        timestamp,
        success: ended_well,
        latency_us: if ended_well {
            latency_of_report(stdout)
        } else {
            None
        },
        error: if ended_well {
            None
        } else {
            Some(failure_reason(stdout, stderr))
        },
    }
}

/// The outcome of a check that could not be run, for the reason `why`: a
/// failure that says so.
pub open spec fn ping_not_run(
    ip: Seq<char>,
    name: Seq<char>,
    timestamp: int,
    why: Seq<char>,
) -> PingResultView {
    PingResultView {
        target: ip,
        target_name: name,
        timestamp,
        success: false,
        latency_us: None,
        error: Some("Failed to execute ping: "@ + why),
    }
}

/// The round-trip time that the line `line` states (see `reading_of_line`).
fn read_line(line: &Vec<char>, mark: &Vec<char>) -> (r: Option<u64>)
    requires
        mark@ == "time="@,
    ensures
        r == reading_of_line(line@),
{
    proof {
        reveal_strlit("time=");
        lemma_first_at(line@, mark@, 0);
    }
    match find(line, mark) {
        None => None,
        Some(i) => {
            assert(i + 5 <= line.len());
            let from: usize = i + 5;
            let to: usize = run_end(line, from, CharClass::Reading);
            let token = slice_of(line, from, to);
            proof {
                let rest = line@.skip(i + 5);
                assert(token@ =~= rest.take(run_len(rest, CharClass::Reading) as int));
            }
            parse_thousandths(&token)
        },
    }
}

/// The round-trip time that the report `output` states, in microseconds
/// (see `latency_of_report`).
pub fn parse_latency(output: &str) -> (r: Option<u64>)
    ensures
        r == latency_of_report(output@),
{
    let all = lines(&chars_of(output));
    let mark = chars_of("time=");
    let mut i: usize = 0;
    assert(texts(all@).skip(0) =~= texts(all@));
    while i < all.len()
        invariant
            i <= all.len(),
            mark@ == "time="@,
            latency_of_report(output@) == reading_of_lines(texts(all@).skip(i as int)),
        decreases all.len() - i,
    {
        proof {
            let rest = texts(all@).skip(i as int);
            assert(rest.drop_first() =~= texts(all@).skip(i + 1));
        }
        match read_line(&all[i], &mark) {
            Some(us) => {
                return Some(us);
            },
            None => {},
        }
        i += 1;
    }
    None
}

/// Whether the text `needle` stands somewhere in `hay`.
fn mentions(hay: &Vec<char>, needle: &str) -> (r: bool)
    ensures
        r == has(hay@, needle@),
{
    contains(hay, &chars_of(needle))
}

/// Why a reachability check failed, as far as its report tells (see
/// `failure_reason`).
pub fn parse_error(stdout: &str, stderr: &str) -> (r: String)
    ensures
        r@ == failure_reason(stdout@, stderr@),
{
    let out = chars_of(stdout);
    let err = chars_of(stderr);
    if mentions(&out, "100.0% packet loss") || mentions(&out, "100% packet loss") {
        return "Request timeout".to_owned();
    }
    if mentions(&out, "No route to host") {
        return "No route to host".to_owned();
    }
    if mentions(&out, "Network is unreachable") {
        return "Network unreachable".to_owned();
    }
    if mentions(&err, "Unknown host") || mentions(&err, "cannot resolve") {
        return "DNS resolution failed".to_owned();
    }
    if err.len() > 0 {
        let all = lines(&err);
        if all.len() > 0 {
            string_of(&all[0])
        } else {
            "Unknown error".to_owned()
        }
    } else {
        "Ping failed".to_owned()
    }
}

/// The program that probes an endpoint.
pub const PING_PROGRAM: &'static str = "ping";

/// The arguments with which `PING_PROGRAM` is run against `ip` (see
/// `ping_arguments`).
pub fn ping_args(ip: &str, timeout_ms: u64) -> (r: Vec<String>)
    ensures
        r.deep_view() == ping_arguments(ip@, timeout_ms),
{
    let mut r: Vec<String> = Vec::new();
    r.push("-c".to_owned());
    r.push("1".to_owned());
    r.push("-W".to_owned());
    r.push(string_of(&decimal(timeout_ms)));
    r.push(ip.to_owned());
    r
}

/// The outcome of a check from what the probe program reported (see
/// `ping_outcome`).
pub fn read_ping_report(
    ip: &str,
    name: &str,
    timestamp: Timestamp,
    ended_well: bool,
    stdout: &str,
    stderr: &str,
) -> (r: PingResult)
    ensures
        r@ == ping_outcome(ip@, name@, timestamp@, ended_well, stdout@, stderr@),
{
    PingResult {
        target: ip.to_owned(),
        target_name: name.to_owned(),
        timestamp,
        success: ended_well,
        latency_us: if ended_well {
            parse_latency(stdout)
        } else {
            None
        },
        error: if ended_well {
            None
        } else {
            Some(parse_error(stdout, stderr))
        },
    }
}

/// The outcome of a check that could not be run (see `ping_not_run`).
pub fn ping_launch_failed(ip: &str, name: &str, timestamp: Timestamp, why: &str) -> (r: PingResult)
    ensures
        r@ == ping_not_run(ip@, name@, timestamp@, why@),
{
    let mut reason = "Failed to execute ping: ".to_owned();
    reason.append(why);
    PingResult {
        target: ip.to_owned(),
        target_name: name.to_owned(),
        timestamp,
        success: false,
        latency_us: None,
        error: Some(reason),
    }
}

/// The view of a `PingMonitor`.
pub struct PingMonitorView {
    pub targets: Seq<TargetView>,
    pub interval_ms: u64,
    pub timeout_ms: u64,
}

/// Which endpoints are probed, how often, and how patiently.
#[derive(Debug)]
pub struct PingMonitor {
    targets: Vec<Target>,
    interval_ms: u64,
    timeout_ms: u64,
}

impl View for PingMonitor {
    type V = PingMonitorView;

    closed spec fn view(&self) -> PingMonitorView {
        PingMonitorView {
            targets: self.targets.deep_view(),
            interval_ms: self.interval_ms,
            timeout_ms: self.timeout_ms,
        }
    }
}

impl PingMonitor {
    /// The monitor that `config` describes: it probes the gateway, where one
    /// is configured, and the configured targets.
    pub fn new(config: &Config) -> (r: PingMonitor)
        ensures
            r@ == (PingMonitorView {
                targets: config.all_target_views(),
                interval_ms: config.monitor.ping_interval_ms,
                timeout_ms: config.monitor.ping_timeout_ms,
            }),
    {
        PingMonitor {
            targets: config.all_targets(),
            interval_ms: config.monitor.ping_interval_ms,
            timeout_ms: config.monitor.ping_timeout_ms,
        }
    }

    /// A monitor that probes `targets` every `interval_ms` milliseconds and
    /// gives each probe `timeout_ms` milliseconds.
    pub fn with_settings(targets: Vec<Target>, interval_ms: u64, timeout_ms: u64) -> (r: PingMonitor)
        ensures
            r@ == (PingMonitorView { targets: targets.deep_view(), interval_ms, timeout_ms }),
    {
        PingMonitor { targets, interval_ms, timeout_ms }
    }

    /// The endpoints that are probed, in the order in which each round
    /// probes them and publishes their outcomes.
    pub fn targets(&self) -> (r: &[Target])
        ensures
            r.deep_view() == self@.targets,
    {
        self.targets.as_slice()
    }

    /// The time between two rounds of probes, in milliseconds.
    pub fn interval_ms(&self) -> (r: u64)
        ensures
            r == self@.interval_ms,
    {
        self.interval_ms
    }

    /// How long a probe may wait for its answer, in milliseconds.
    pub fn timeout_ms(&self) -> (r: u64)
        ensures
            r == self@.timeout_ms,
    {
        self.timeout_ms
    }

    /// The arguments with which `PING_PROGRAM` is run against `target`.
    pub fn command_args(&self, target: &Target) -> (r: Vec<String>)
        ensures
            r.deep_view() == ping_arguments(target@.ip, self@.timeout_ms),
    {
        ping_args(target.ip.as_str(), self.timeout_ms)
    }
}

impl Clone for PingMonitor {
    fn clone(&self) -> (r: Self)
        ensures
            r@ == self@,
    {
        PingMonitor {
            targets: clone_targets(&self.targets),
            interval_ms: self.interval_ms,
            timeout_ms: self.timeout_ms,
        }
    }
}

} // verus!
