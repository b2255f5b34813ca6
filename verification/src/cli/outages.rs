//! The cells of the table of outages.

use crate::cli::helpers::{can_truncate, truncate, truncated};
use crate::models::{Outage, OutageView};
use crate::numbers::{decimal, decimal_of};
use crate::text::{extend, extend_str, string_of};
use vstd::prelude::*;

verus! {

/// What the hop with the ordinal `hop` is called in the summaries: the
/// first is the gateway or router, the second the modem of the provider, and
/// all beyond belong to the provider's backbone.
pub open spec fn hop_label_of(hop: u8) -> Seq<char> {
    if hop == 1 {
        "Gateway/Router"@
    } else if hop == 2 {
        "ISP Modem"@
    } else {
        "ISP Backbone"@
    }
}

/// What the hop with the ordinal `hop` is called in the summaries.
pub fn hop_label(hop: u8) -> (r: &'static str)
    ensures
        r@ == hop_label_of(hop),
{
    match hop {
        1 => "Gateway/Router",
        2 => "ISP Modem",
        _ => "ISP Backbone",
    }
}

/// The ending of a noun of which there are `n`: none for one, `s` for any
/// other number.
pub fn plural(n: usize) -> (r: &'static str)
    ensures
        r@ == if n == 1 {
            ""@
        } else {
            "s"@
        },
{
    if n == 1 {
        ""
    } else {
        "s"
    }
}

/// The cell that names the failing hop of an outage: the ordinal, followed
/// in brackets by the address cut down to 8 bytes, where there is one; a
/// dash where no hop is known.
pub open spec fn failing_hop_cell_of(outage: OutageView) -> Seq<char> {
    match outage.failing_hop {
        Some(hop) => match outage.failing_hop_ip {
            Some(ip) => decimal_of(hop as nat) + " ("@ + truncated(ip, 8) + ")"@,
            None => decimal_of(hop as nat),
        },
        None => "-"@,
    }
}

/// Whether the cell for the failing hop of `outage` can be made: the
/// address, where it has to be cut, can be cut.
pub open spec fn has_failing_hop_cell(outage: OutageView) -> bool {
    outage.failing_hop is Some && outage.failing_hop_ip is Some ==> can_truncate(
        outage.failing_hop_ip->0,
        8,
    )
}

/// The cell that names the failing hop of `outage` (see
/// `failing_hop_cell_of`).
pub fn failing_hop_cell(outage: &Outage) -> (r: String)
    requires
        has_failing_hop_cell(outage@),
    ensures
        r@ == failing_hop_cell_of(outage@),
{
    match outage.failing_hop {
        Some(hop) => {
            let mut out = decimal(hop as u64);
            match &outage.failing_hop_ip {
                Some(ip) => {
                    extend_str(&mut out, " (");
                    extend_str(&mut out, truncate(ip.as_str(), 8).as_str());
                    extend_str(&mut out, ")");
                },
                None => {},
            }
            string_of(&out)
        },
        None => "-".to_owned(),
    }
}

/// The cell that names the affected targets of an outage: a dash for none,
/// one or two in full, and of more the first and the number of the others.
pub open spec fn affected_summary_of(targets: Seq<Seq<char>>) -> Seq<char> {
    if targets.len() == 0 {
        "-"@
    } else if targets.len() == 1 {
        targets[0]
    } else if targets.len() == 2 {
        targets[0] + ", "@ + targets[1]
    } else {
        targets[0] + ", +"@ + decimal_of((targets.len() - 1) as nat) + " more"@
    }
}

/// The cell that names the affected targets `targets` (see
/// `affected_summary_of`), before it is cut to the width of its column.
pub fn affected_summary(targets: &Vec<String>) -> (r: String)
    ensures
        r@ == affected_summary_of(targets.deep_view()),
{
    if targets.len() == 0 {
        return "-".to_owned();
    }
    let mut out: Vec<char> = Vec::new();
    extend_str(&mut out, targets[0].as_str());
    if targets.len() == 2 {
        extend_str(&mut out, ", ");
        extend_str(&mut out, targets[1].as_str());
    } else if targets.len() > 2 {
        extend_str(&mut out, ", +");
        extend(&mut out, &decimal((targets.len() - 1) as u64));
        extend_str(&mut out, " more");
    }
    string_of(&out)
}

/// The line that names the most common failing hop `hop`, which `count`
/// outages name.
pub open spec fn most_common_line_of(hop: u8, count: nat) -> Seq<char> {
    "Most common failing hop: "@ + decimal_of(hop as nat) + " ("@ + hop_label_of(hop) + ") - "@
        + decimal_of(count) + " occurrence"@ + if count == 1 {
        ""@
    } else {
        "s"@
    }
}

/// The line that names the most common failing hop (see
/// `most_common_line_of`).
pub fn most_common_line(hop: u8, count: usize) -> (r: String)
    ensures
        r@ == most_common_line_of(hop, count as nat),
{
    let mut out: Vec<char> = Vec::new();
    extend_str(&mut out, "Most common failing hop: ");
    extend(&mut out, &decimal(hop as u64));
    extend_str(&mut out, " (");
    extend_str(&mut out, hop_label(hop));
    extend_str(&mut out, ") - ");
    extend(&mut out, &decimal(count as u64));
    extend_str(&mut out, " occurrence");
    extend_str(&mut out, plural(count));
    string_of(&out)
}

} // verus!
