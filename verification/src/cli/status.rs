//! What the running monitor prints for each outcome, and when.

use crate::models::{ConnectivityState, PingResult, PingResultView};
use vstd::prelude::*;

verus! {

/// The mark that stands for an outcome in the monitor's running report, by
/// the connectivity state after the outcome and by whether the check
/// succeeded.
pub open spec fn status_marker_of(state: ConnectivityState, success: bool) -> Seq<char> {
    match state {
        ConnectivityState::Online => if success {
            "✓"@
        } else {
            "!"@
        },
        ConnectivityState::Degraded => if success {
            "~"@
        } else {
            "✗"@
        },
        ConnectivityState::Offline => if success {
            "?"@
        } else {
            "✗"@
        },
    }
}

/// The mark that stands for an outcome (see `status_marker_of`).
pub fn status_marker(state: ConnectivityState, success: bool) -> (r: &'static str)
    ensures
        r@ == status_marker_of(state, success),
{
    match state {
        ConnectivityState::Online => if success {
            "✓"
        } else {
            "!"
        },
        ConnectivityState::Degraded => if success {
            "~"
        } else {
            "✗"
        },
        ConnectivityState::Offline => if success {
            "?"
        } else {
            "✗"
        },
    }
}

/// A time of `us` microseconds in whole milliseconds, rounded to the
/// nearest, a half upwards.
pub open spec fn rounded_millis(us: u64) -> u64 {
    (us / 1000 + if us % 1000 >= 500 {
        1int
    } else {
        0int
    }) as u64
}

/// What is remembered of an outcome: whether the check succeeded, and its
/// round-trip time in whole milliseconds.
pub open spec fn digest_of(r: PingResultView) -> (bool, Option<u64>) {
    (
        r.success,
        match r.latency_us {
            Some(us) => Some(rounded_millis(us)),
            None => None,
        },
    )
}

/// What is remembered of `r` (see `digest_of`).
fn digest(r: &PingResult) -> (d: (bool, Option<u64>))
    ensures
        d == digest_of(r@),
{
    (
        r.success,
        match r.latency_us {
            Some(us) => Some(
                us / 1000 + if us % 1000 >= 500 {
                    1
                } else {
                    0
                },
            ),
            None => None,
        },
    )
}

/// What is remembered of the last reported outcome of one address.
#[derive(Debug)]
struct LogEntry {
    address: String,
    digest: (bool, Option<u64>),
}

/// Remembers, for each address, the last outcome that was reported, so that
/// an outcome is reported only when it differs from the one before.
#[derive(Debug)]
pub struct StatusLog {
    entries: Vec<LogEntry>,
}

impl View for StatusLog {
    type V = Map<Seq<char>, (bool, Option<u64>)>;

    /// What is remembered, by address.
    closed spec fn view(&self) -> Map<Seq<char>, (bool, Option<u64>)> {
        Map::new(
            |address: Seq<char>| position(self.entries@, address) is Some,
            |address: Seq<char>| self.entries@[position(self.entries@, address)->0].digest,
        )
    }
}

/// Whether `address` stands at `i` among `entries`.
spec fn stands_at(entries: Seq<LogEntry>, address: Seq<char>, i: int) -> bool {
    0 <= i < entries.len() && entries[i].address@ == address
}

/// Where `address` stands among `entries`, if it does.
spec fn position(entries: Seq<LogEntry>, address: Seq<char>) -> Option<int> {
    if exists|i: int| stands_at(entries, address, i) {
        Some(choose|i: int| stands_at(entries, address, i))
    } else {
        None
    }
}

/// Whether no address stands twice among `entries`.
spec fn unique(entries: Seq<LogEntry>) -> bool {
    forall|i: int, j: int|
        0 <= i < j < entries.len() ==> (#[trigger] entries[i]).address@ != (
        #[trigger] entries[j]).address@
}

/// Among entries with unique addresses, an address stands where it is found.
proof fn lemma_position(entries: Seq<LogEntry>, address: Seq<char>, i: int)
    requires
        unique(entries),
        stands_at(entries, address, i),
    ensures
        position(entries, address) == Some(i),
{
    let c = choose|c: int| stands_at(entries, address, c);
    assert(c == i);
}

impl StatusLog {
    #[verifier::type_invariant]
    spec fn well_formed(self) -> bool {
        unique(self.entries@)
    }

    /// A log that remembers nothing yet.
    pub fn new() -> (r: StatusLog)
        ensures
            r@ == Map::<Seq<char>, (bool, Option<u64>)>::empty(),
    {
        StatusLog { entries: Vec::new() }
    }

    /// Whether the outcome `result` is to be reported: whether it differs, in
    /// what is remembered of outcomes, from the last reported outcome of its
    /// address, or is the first of its address. An outcome that is to be
    /// reported is remembered in place of the one before.
    pub fn note(&mut self, result: &PingResult) -> (report: bool)
        ensures
            report == !(old(self)@.contains_key(result@.target) && old(self)@[result@.target]
                == digest_of(result@)),
            final(self)@ == if report {
                old(self)@.insert(result@.target, digest_of(result@))
            } else {
                old(self)@
            },
    {
        proof {
            use_type_invariant(&*self);
        }
        let current = digest(result);
        let ghost before = self.entries@;
        let ghost log = self@;
        let mut entries: Vec<LogEntry> = Vec::new();
        std::mem::swap(&mut self.entries, &mut entries);
        let mut i: usize = 0;
        while i < entries.len()
            invariant
                entries@ == before,
                unique(before),
                log == old(self)@,
                log == Map::new(
                    |address: Seq<char>| position(before, address) is Some,
                    |address: Seq<char>| before[position(before, address)->0].digest,
                ),
                current == digest_of(result@),
                i <= entries.len(),
                forall|j: int| 0 <= j < i ==> !stands_at(before, result@.target, j),
            decreases entries.len() - i,
        {
            if entries[i].address == result.target {
                proof {
                    assert(stands_at(before, result@.target, i as int));
                }
                let known = entries[i].digest;
                let same = known.0 == current.0 && known.1 == current.1;
                if !same {
                    entries.set(i, LogEntry { address: result.target.clone(), digest: current });
                    proof {
                        let after = entries@;
                        assert(unique(after));
                        assert forall|address: Seq<char>| position(after, address) == position(
                            before,
                            address,
                        ) by {
                            if position(before, address) is Some {
                                let c = position(before, address)->0;
                                assert(stands_at(after, address, c));
                            } else if position(after, address) is Some {
                                let d = position(after, address)->0;
                                assert(stands_at(before, address, d));
                            }
                        }
                    }
                }
                std::mem::swap(&mut self.entries, &mut entries);
                return !same;
            }
            i += 1;
        }
        entries.push(LogEntry { address: result.target.clone(), digest: current });
        proof {
            let after = entries@;
            let n = before.len() as int;
            assert(unique(after)) by {
                assert forall|x: int, y: int| 0 <= x < y < after.len() implies (
                #[trigger] after[x]).address@ != (#[trigger] after[y]).address@ by {
                    if y == n {
                        assert(!stands_at(before, result@.target, x));
                    }
                }
            }
            assert(position(before, result@.target) is None);
            assert(stands_at(after, result@.target, n));
            assert forall|address: Seq<char>| address != result@.target implies position(
                after,
                address,
            ) == position(before, address) by {
                if position(before, address) is Some {
                    let c = position(before, address)->0;
                    assert(stands_at(after, address, c));
                } else if position(after, address) is Some {
                    let d = position(after, address)->0;
                    assert(stands_at(before, address, d));
                }
            }
        }
        std::mem::swap(&mut self.entries, &mut entries);
        true
    }
}

} // verus!
