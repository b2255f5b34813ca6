//! What the detailed view of one outage says of its path traces.

use crate::models::{hop_role, interpret_hop, HopView, Outage, OutageView, TraceView, TracerouteHop, TracerouteResult};
use crate::numbers::{decimal, decimal_of};
use crate::text::{extend, extend_str, string_of};
use vstd::prelude::*;

verus! {

/// Who is held responsible for an outage: the failing hop with its address,
/// where known, and its usual role; `Unknown` where no hop is known.
pub open spec fn culprit_of(outage: OutageView) -> Seq<char> {
    match outage.failing_hop {
        Some(hop) => match outage.failing_hop_ip {
            Some(ip) => "Hop "@ + decimal_of(hop as nat) + " - "@ + ip + " ("@ + hop_role(hop)
                + ")"@,
            None => "Hop "@ + decimal_of(hop as nat) + " ("@ + hop_role(hop) + ")"@,
        },
        None => "Unknown"@,
    }
}

/// Who is held responsible for `outage` (see `culprit_of`).
pub fn culprit(outage: &Outage) -> (r: String)
    ensures
        r@ == culprit_of(outage@),
{
    match outage.failing_hop {
        Some(hop) => {
            let mut out: Vec<char> = Vec::new();
            extend_str(&mut out, "Hop ");
            extend(&mut out, &decimal(hop as u64));
            match &outage.failing_hop_ip {
                Some(ip) => {
                    extend_str(&mut out, " - ");
                    extend_str(&mut out, ip.as_str());
                },
                None => {},
            }
            extend_str(&mut out, " (");
            extend_str(&mut out, interpret_hop(hop));
            extend_str(&mut out, ")");
            string_of(&out)
        },
        None => "Unknown".to_owned(),
    }
}

/// What the detailed view says of one hop: that it timed out, or, where it
/// has a round-trip time, its usual role; a question mark otherwise.
pub open spec fn hop_status_of(hop: HopView) -> Seq<char> {
    if hop.timeout {
        "✗ TIMEOUT"@
    } else if hop.latency_us is Some {
        "✓ "@ + hop_role(hop.hop_number)
    } else {
        "?"@
    }
}

/// What the detailed view says of `hop` (see `hop_status_of`).
pub fn hop_status(hop: &TracerouteHop) -> (r: String)
    ensures
        r@ == hop_status_of(hop@),
{
    if hop.timeout {
        "✗ TIMEOUT".to_owned()
    } else if hop.latency_us.is_some() {
        let mut out: Vec<char> = Vec::new();
        extend_str(&mut out, "✓ ");
        extend_str(&mut out, interpret_hop(hop.hop_number));
        string_of(&out)
    } else {
        "?".to_owned()
    }
}

/// Whether the detailed view counts a hop as having answered: it did not
/// time out and has a round-trip time.
pub open spec fn answered(hop: HopView) -> bool {
    !hop.timeout && hop.latency_us is Some
}

/// The last of `hops` that the detailed view counts as having answered: its
/// ordinal and its address, or a question mark for an address it lacks.
pub open spec fn last_answer(hops: Seq<HopView>) -> Option<(u8, Seq<char>)>
    decreases hops.len(),
{
    if hops.len() == 0 {
        None
    } else if answered(hops.last()) {
        Some(
            (
                hops.last().hop_number,
                match hops.last().ip {
                    Some(ip) => ip,
                    None => "?"@,
                },
            ),
        )
    } else {
        last_answer(hops.drop_last())
    }
}

/// The verdict under a path trace in the detailed view: that the connection
/// had recovered, or which hop answered last, or that all hops timed out.
pub open spec fn verdict_of(trace: TraceView) -> Seq<char> {
    if trace.success {
        "  → Connection recovered"@
    } else {
        match last_answer(trace.hops) {
            Some((hop, ip)) => "  → Last responding: Hop "@ + decimal_of(hop as nat) + " ("@ + ip
                + ")"@,
            None => "  → All hops timed out"@,
        }
    }
}

/// The verdict under the path trace `trace` (see `verdict_of`).
pub fn verdict(trace: &TracerouteResult) -> (r: String)
    ensures
        r@ == verdict_of(trace@),
{
    if trace.success {
        return "  → Connection recovered".to_owned();
    }
    let mut i: usize = trace.hops.len();
    assert(trace@.hops.take(i as int) =~= trace@.hops);
    while i > 0
        invariant
            i <= trace.hops.len(),
            !trace.success,
            last_answer(trace@.hops) == last_answer(trace@.hops.take(i as int)),
        decreases i,
    {
        let hop = &trace.hops[i - 1];
        proof {
            let head = trace@.hops.take(i as int);
            assert(head.drop_last() =~= trace@.hops.take(i - 1));
        }
        if !hop.timeout && hop.latency_us.is_some() {
            let mut out: Vec<char> = Vec::new();
            extend_str(&mut out, "  → Last responding: Hop ");
            extend(&mut out, &decimal(hop.hop_number as u64));
            extend_str(&mut out, " (");
            match &hop.ip {
                Some(ip) => extend_str(&mut out, ip.as_str()),
                None => extend_str(&mut out, "?"),
            }
            extend_str(&mut out, ")");
            return string_of(&out);
        }
        i -= 1;
    }
    "  → All hops timed out".to_owned()
}

} // verus!
