//! Figures drawn from the outages of a period.

use crate::clock::Timestamp;
use crate::models::{Outage, OutageView};
use vstd::prelude::*;

verus! {

/// The time that the outages `outages` lasted in all, in milliseconds. An
/// outage that has not ended has no duration yet and adds nothing.
pub open spec fn downtime_of(outages: Seq<OutageView>) -> int
    decreases outages.len(),
{
    if outages.len() == 0 {
        0
    } else {
        downtime_of(outages.drop_last()) + match outages.last().duration_ms {
            Some(d) => d,
            None => 0,
        }
    }
}

/// The number of outages among `outages` whose path trace went cold at the
/// hop with the ordinal `hop`.
pub open spec fn hop_count(outages: Seq<OutageView>, hop: u8) -> nat
    decreases outages.len(),
{
    if outages.len() == 0 {
        0
    } else {
        hop_count(outages.drop_last(), hop) + if outages.last().failing_hop == Some(hop) {
            1nat
        } else {
            0nat
        }
    }
}

/// Whether `hop` is the most common failing hop of `outages`: some outage
/// names it, none is named more often, and every hop that is named as often
/// has a higher ordinal.
pub open spec fn is_most_common(outages: Seq<OutageView>, hop: u8) -> bool {
    &&& hop_count(outages, hop) > 0
    &&& forall|other: u8| #[trigger]
        hop_count(outages, other) <= hop_count(outages, hop)
    &&& forall|other: u8|
        other < hop ==> #[trigger] hop_count(outages, other) < hop_count(outages, hop)
}

/// No hop is counted more often than there are outages.
pub proof fn lemma_hop_count_bound(outages: Seq<OutageView>, hop: u8)
    ensures
        hop_count(outages, hop) <= outages.len(),
    decreases outages.len(),
{
    if outages.len() > 0 {
        lemma_hop_count_bound(outages.drop_last(), hop);
    }
}

/// The time that `outages` lasted in all, in milliseconds (see
/// `downtime_of`).
pub fn total_downtime_ms(outages: &[Outage]) -> (r: i128)
    ensures
        r == downtime_of(outages.deep_view()),
{
    let mut total: i128 = 0;
    let mut i: usize = 0;
    while i < outages.len()
        invariant
            i <= outages.len(),
            total == downtime_of(outages.deep_view().take(i as int)),
            i * (i64::MIN as int) <= total <= i * (i64::MAX as int),
        decreases outages.len() - i,
    {
        proof {
            let next = outages.deep_view().take(i + 1);
            assert(next.drop_last() =~= outages.deep_view().take(i as int));
            assert(i * (i64::MIN as int) >= usize::MAX * (i64::MIN as int)) by (nonlinear_arith)
                requires
                    0 <= i <= usize::MAX,
            ;
            assert(i * (i64::MAX as int) <= usize::MAX * (i64::MAX as int)) by (nonlinear_arith)
                requires
                    0 <= i <= usize::MAX,
            ;
            assert((i + 1) * (i64::MIN as int) == i * (i64::MIN as int) + (i64::MIN as int))
                by (nonlinear_arith);
            assert((i + 1) * (i64::MAX as int) == i * (i64::MAX as int) + (i64::MAX as int))
                by (nonlinear_arith);
        }
        match outages[i].duration_ms {
            Some(d) => {
                total = total + d as i128;
            },
            None => {},
        }
        i += 1;
    }
    assert(outages.deep_view().take(i as int) =~= outages.deep_view());
    total
}

/// Whether `d` is the duration of the longest of `outages`: some outage
/// lasted as long, and none that has ended lasted longer.
pub open spec fn is_longest(outages: Seq<OutageView>, d: int) -> bool {
    &&& exists|i: int| 0 <= i < outages.len() && (#[trigger] outages[i]).duration_ms == Some(d)
    &&& forall|i: int|
        0 <= i < outages.len() ==> ((#[trigger] outages[i]).duration_ms matches Some(other)
            ==> other <= d)
}

/// How long the longest of `outages` lasted, in milliseconds (see
/// `is_longest`); `None` where none of them has ended.
pub fn longest_outage_ms(outages: &[Outage]) -> (r: Option<i64>)
    ensures
        match r {
            Some(d) => is_longest(outages.deep_view(), d as int),
            None => forall|i: int|
                0 <= i < outages.len() ==> (#[trigger] outages.deep_view()[i]).duration_ms
                    is None,
        },
{
    let mut best: Option<i64> = None;
    let mut i: usize = 0;
    while i < outages.len()
        invariant
            i <= outages.len(),
            match best {
                Some(d) => is_longest(outages.deep_view().take(i as int), d as int),
                None => forall|j: int|
                    0 <= j < i ==> (#[trigger] outages.deep_view()[j]).duration_ms is None,
            },
        decreases outages.len() - i,
    {
        let ghost view = outages.deep_view();
        let ghost before = view.take(i as int);
        let ghost after = view.take(i + 1);
        assert(view[i as int] == outages@[i as int]@);
        assert(forall|j: int| 0 <= j < i ==> before[j] == after[j]);
        assert(after[i as int] == view[i as int]);
        match outages[i].duration_ms {
            Some(d) => {
                let longer = match best {
                    Some(known) => d > known,
                    None => true,
                };
                if longer {
                    best = Some(d);
                } else {
                    let ghost w = choose|w: int|
                        0 <= w < before.len() && (#[trigger] before[w]).duration_ms == Some(
                            best->0 as int,
                        );
                    assert(after[w].duration_ms == Some(best->0 as int));
                }
            },
            None => {
                proof {
                    if best is Some {
                        let w = choose|w: int|
                            0 <= w < before.len() && (#[trigger] before[w]).duration_ms == Some(
                                best->0 as int,
                            );
                        assert(after[w].duration_ms == Some(best->0 as int));
                    }
                }
            },
        }
        i += 1;
    }
    assert(outages.deep_view().take(i as int) =~= outages.deep_view());
    best
}

/// The most common failing hop of `outages` and the number of outages that
/// name it (see `is_most_common`); `None` where no outage names a hop.
pub fn most_common_failing_hop(outages: &[Outage]) -> (r: Option<(u8, usize)>)
    ensures
        match r {
            Some((hop, n)) => is_most_common(outages.deep_view(), hop) && n == hop_count(
                outages.deep_view(),
                hop,
            ),
            None => forall|hop: u8| #[trigger] hop_count(outages.deep_view(), hop) == 0,
        },
{
    let mut counts: Vec<usize> = Vec::new();
    let mut h: usize = 0;
    while h < 256
        invariant
            h <= 256,
            counts.len() == h,
            forall|j: int| 0 <= j < h ==> counts@[j] == 0,
        decreases 256 - h,
    {
        counts.push(0);
        h += 1;
    }
    let mut i: usize = 0;
    while i < outages.len()
        invariant
            i <= outages.len(),
            counts.len() == 256,
            forall|hop: u8|
                #[trigger] counts@[hop as int] == hop_count(
                    outages.deep_view().take(i as int),
                    hop,
                ),
        decreases outages.len() - i,
    {
        proof {
            let next = outages.deep_view().take(i + 1);
            assert(next.drop_last() =~= outages.deep_view().take(i as int));
        }
        match outages[i].failing_hop {
            Some(hop) => {
                proof {
                    lemma_hop_count_bound(outages.deep_view().take(i as int), hop);
                }
                let n: usize = counts[hop as usize] + 1;
                counts.set(hop as usize, n);
            },
            None => {},
        }
        i += 1;
    }
    assert(outages.deep_view().take(i as int) =~= outages.deep_view());
    let mut best: usize = 0;
    let mut h: usize = 1;
    while h < 256
        invariant
            1 <= h <= 256,
            best < h,
            counts.len() == 256,
            forall|j: int| 0 <= j < h ==> counts@[j] <= counts@[best as int],
            forall|j: int| 0 <= j < best ==> counts@[j] < counts@[best as int],
        decreases 256 - h,
    {
        if counts[h] > counts[best] {
            best = h;
        }
        h += 1;
    }
    let ghost all = outages.deep_view();
    if counts[best] == 0 {
        assert forall|hop: u8| #[trigger] hop_count(all, hop) == 0 by {
            assert(counts@[hop as int] <= counts@[best as int]);
        }
        None
    } else {
        let hop: u8 = best as u8;
        assert forall|other: u8| #[trigger] hop_count(all, other) <= hop_count(all, hop) by {
            assert(counts@[other as int] <= counts@[best as int]);
        }
        assert forall|other: u8| other < hop implies #[trigger] hop_count(all, other) < hop_count(
            all,
            hop,
        ) by {
            assert(counts@[other as int] < counts@[best as int]);
        }
        Some((hop, counts[best]))
    }
}

/// The quarter of the day, from 0 to 3, into which the time `ms`
/// milliseconds after the Unix epoch falls, by the clock of UTC: 0 from
/// midnight to six, and so on.
pub open spec fn quarter_of_day(ms: int) -> int {
    (ms % 86_400_000) / 21_600_000
}

/// The number of outages among `outages` that began in the quarter
/// `quarter` of the day.
pub open spec fn quarter_count(outages: Seq<OutageView>, quarter: int) -> nat
    decreases outages.len(),
{
    if outages.len() == 0 {
        0
    } else {
        quarter_count(outages.drop_last(), quarter) + if quarter_of_day(
            outages.last().start_time,
        ) == quarter {
            1nat
        } else {
            0nat
        }
    }
}

/// No quarter is counted more often than there are outages.
pub proof fn lemma_quarter_count_bound(outages: Seq<OutageView>, quarter: int)
    ensures
        quarter_count(outages, quarter) <= outages.len(),
    decreases outages.len(),
{
    if outages.len() > 0 {
        lemma_quarter_count_bound(outages.drop_last(), quarter);
    }
}

/// The quarter of the day into which `t` falls (see `quarter_of_day`).
pub fn day_quarter(t: Timestamp) -> (q: usize)
    ensures
        q == quarter_of_day(t@),
        q < 4,
{
    let ms: i64 = t.millis();
    let within: i64 = if ms >= 0 {
        ms % 86_400_000
    } else {
        let back: i64 = (-ms) % 86_400_000;
        if back == 0 {
            0
        } else {
            86_400_000 - back
        }
    };
    assert(within == (ms as int) % 86_400_000) by {
        if ms < 0 {
            let back = (-(ms as int)) % 86_400_000;
            let k = (-(ms as int)) / 86_400_000;
            assert(-(ms as int) == k * 86_400_000 + back) by (nonlinear_arith)
                requires
                    back == (-(ms as int)) % 86_400_000,
                    k == (-(ms as int)) / 86_400_000,
            ;
        }
    }
    (within / 21_600_000) as usize
}

/// How many of `outages` began in each quarter of the day (see
/// `quarter_count`): four counts, for the quarters 0 to 3.
pub fn time_distribution(outages: &[Outage]) -> (r: Vec<usize>)
    ensures
        r.len() == 4,
        forall|q: int| 0 <= q < 4 ==> #[trigger] r@[q] == quarter_count(outages.deep_view(), q),
{
    let mut counts: Vec<usize> = Vec::new();
    counts.push(0);
    counts.push(0);
    counts.push(0);
    counts.push(0);
    let mut i: usize = 0;
    while i < outages.len()
        invariant
            i <= outages.len(),
            counts.len() == 4,
            forall|q: int|
                0 <= q < 4 ==> #[trigger] counts@[q] == quarter_count(
                    outages.deep_view().take(i as int),
                    q,
                ),
        decreases outages.len() - i,
    {
        proof {
            let next = outages.deep_view().take(i + 1);
            assert(next.drop_last() =~= outages.deep_view().take(i as int));
        }
        let q = day_quarter(outages[i].start_time);
        proof {
            lemma_quarter_count_bound(outages.deep_view().take(i as int), q as int);
        }
        let n: usize = counts[q] + 1;
        counts.set(q, n);
        i += 1;
    }
    assert(outages.deep_view().take(i as int) =~= outages.deep_view());
    counts
}

/// Figures drawn from the outages of a period.
#[derive(Debug, Clone, Copy, PartialEq, Eq)]
pub struct Stats {
    pub period_start: Timestamp,
    pub period_end: Timestamp,
    /// The number of outages.
    pub total_outages: usize,
    /// The time that the outages lasted in all, in milliseconds.
    pub total_downtime_ms: i128,
    /// The hop at which the path traces of the outages went cold most often.
    pub most_common_failing_hop: Option<u8>,
}

impl Stats {
    /// The figures for the outages `outages`, which are those of the period
    /// from `since` to `until`.
    pub fn of_outages(outages: &[Outage], since: Timestamp, until: Timestamp) -> (r: Stats)
        ensures
            r.period_start == since,
            r.period_end == until,
            r.total_outages == outages.len(),
            r.total_downtime_ms == downtime_of(outages.deep_view()),
            match r.most_common_failing_hop {
                Some(hop) => is_most_common(outages.deep_view(), hop),
                None => forall|hop: u8| #[trigger] hop_count(outages.deep_view(), hop) == 0,
            },
    {
        Stats {
            period_start: since,
            period_end: until,
            total_outages: outages.len(),
            total_downtime_ms: total_downtime_ms(outages),
            most_common_failing_hop: match most_common_failing_hop(outages) {
                Some((hop, _)) => Some(hop),
                None => None,
            },
        }
    }

    /// The length of the period in milliseconds.
    pub fn period_ms(&self) -> (r: i64)
        ensures
            r == self.period_end@ - self.period_start@,
    {
        self.period_end.millis_since(&self.period_start)
    }
}

/// The time that the outages among `outages` lasted in all whose path trace
/// went cold at the hop with the ordinal `hop`, in milliseconds.
pub open spec fn hop_downtime(outages: Seq<OutageView>, hop: u8) -> int
    decreases outages.len(),
{
    if outages.len() == 0 {
        0
    } else {
        hop_downtime(outages.drop_last(), hop) + if outages.last().failing_hop == Some(hop) {
            match outages.last().duration_ms {
                Some(d) => d,
                None => 0,
            }
        } else {
            0
        }
    }
}

/// Whether the hop `a` stands before the hop `b` in the list of failing
/// hops: more time was lost at it, or as much and its ordinal is lower.
pub open spec fn ranks_before(outages: Seq<OutageView>, a: u8, b: u8) -> bool {
    hop_downtime(outages, a) > hop_downtime(outages, b) || (hop_downtime(outages, a)
        == hop_downtime(outages, b) && a < b)
}

/// What the outages of a period say of one failing hop.
#[derive(Debug, Clone, Copy, PartialEq, Eq, Structural)]
pub struct HopTotal {
    /// The hop's ordinal.
    pub hop: u8,
    /// The number of outages whose path trace went cold at the hop.
    pub outages: usize,
    /// The time that those outages lasted in all, in milliseconds.
    pub downtime_ms: i128,
}

/// Whether `total` is what `outages` say of its hop.
pub open spec fn is_total_of(outages: Seq<OutageView>, total: HopTotal) -> bool {
    &&& total.outages > 0
    &&& total.outages == hop_count(outages, total.hop)
    &&& total.downtime_ms == hop_downtime(outages, total.hop)
}

/// The failing hops of `outages`, each with its number of outages and the
/// time lost at it, the hop with the most time lost first (see
/// `ranks_before`). A hop is listed exactly if some outage names it.
pub fn hop_totals(outages: &[Outage]) -> (r: Vec<HopTotal>)
    ensures
        forall|k: int| 0 <= k < r.len() ==> is_total_of(outages.deep_view(), #[trigger] r@[k]),
        forall|hop: u8|
            hop_count(outages.deep_view(), hop) > 0 ==> exists|k: int|
                0 <= k < r.len() && (#[trigger] r@[k]).hop == hop,
        forall|k: int, l: int|
            0 <= k < l < r.len() ==> ranks_before(
                outages.deep_view(),
                (#[trigger] r@[k]).hop,
                (#[trigger] r@[l]).hop,
            ),
{
    let ghost all = outages.deep_view();
    let mut counts: Vec<usize> = Vec::new();
    let mut sums: Vec<i128> = Vec::new();
    let mut h: usize = 0;
    while h < 256
        invariant
            h <= 256,
            counts.len() == h,
            sums.len() == h,
            forall|j: int| 0 <= j < h ==> counts@[j] == 0 && sums@[j] == 0,
        decreases 256 - h,
    {
        counts.push(0);
        sums.push(0);
        h += 1;
    }
    let mut i: usize = 0;
    while i < outages.len()
        invariant
            i <= outages.len(),
            all == outages.deep_view(),
            counts.len() == 256,
            sums.len() == 256,
            forall|hop: u8| #[trigger] counts@[hop as int] == hop_count(all.take(i as int), hop),
            forall|hop: u8| #[trigger] sums@[hop as int] == hop_downtime(all.take(i as int), hop),
            forall|hop: u8|
                i * (i64::MIN as int) <= #[trigger] sums@[hop as int] <= i * (i64::MAX as int),
        decreases outages.len() - i,
    {
        proof {
            let next = all.take(i + 1);
            assert(next.drop_last() =~= all.take(i as int));
            assert((i + 1) * (i64::MIN as int) == i * (i64::MIN as int) + (i64::MIN as int))
                by (nonlinear_arith);
            assert((i + 1) * (i64::MAX as int) == i * (i64::MAX as int) + (i64::MAX as int))
                by (nonlinear_arith);
            assert(i * (i64::MIN as int) >= usize::MAX * (i64::MIN as int)) by (nonlinear_arith)
                requires
                    0 <= i <= usize::MAX,
            ;
            assert(i * (i64::MAX as int) <= usize::MAX * (i64::MAX as int)) by (nonlinear_arith)
                requires
                    0 <= i <= usize::MAX,
            ;
        }
        match outages[i].failing_hop {
            Some(hop) => {
                proof {
                    lemma_hop_count_bound(all.take(i as int), hop);
                }
                let n: usize = counts[hop as usize] + 1;
                counts.set(hop as usize, n);
                match outages[i].duration_ms {
                    Some(d) => {
                        let t: i128 = sums[hop as usize] + d as i128;
                        sums.set(hop as usize, t);
                    },
                    None => {},
                }
            },
            None => {},
        }
        i += 1;
    }
    assert(all.take(i as int) =~= all);
    let mut out: Vec<HopTotal> = Vec::new();
    let mut h: usize = 0;
    while h < 256
        invariant
            h <= 256,
            counts.len() == 256,
            sums.len() == 256,
            forall|hop: u8| #[trigger] counts@[hop as int] == hop_count(all, hop),
            forall|hop: u8| #[trigger] sums@[hop as int] == hop_downtime(all, hop),
            forall|k: int|
                0 <= k < out.len() ==> is_total_of(all, #[trigger] out@[k]) && out@[k].hop < h,
            forall|hop: u8|
                hop < h && hop_count(all, hop) > 0 ==> exists|k: int|
                    0 <= k < out.len() && (#[trigger] out@[k]).hop == hop,
            forall|k: int, l: int|
                0 <= k < l < out.len() ==> ranks_before(
                    all,
                    (#[trigger] out@[k]).hop,
                    (#[trigger] out@[l]).hop,
                ),
        decreases 256 - h,
    {
        if counts[h] > 0 {
            let hop: u8 = h as u8;
            let entry = HopTotal { hop, outages: counts[h], downtime_ms: sums[h] };
            let mut p: usize = 0;
            while p < out.len() && (out[p].downtime_ms > entry.downtime_ms || (out[p].downtime_ms
                == entry.downtime_ms && out[p].hop < entry.hop))
                invariant
                    p <= out.len(),
                    is_total_of(all, entry),
                    forall|k: int| 0 <= k < out.len() ==> is_total_of(all, #[trigger] out@[k]),
                    forall|k: int|
                        0 <= k < p ==> ranks_before(all, (#[trigger] out@[k]).hop, entry.hop),
                decreases out.len() - p,
            {
                p += 1;
            }
            let ghost before = out@;
            out.insert(p, entry);
            proof {
                assert forall|g: u8| g < h + 1 && hop_count(all, g) > 0 implies exists|k: int|
                    0 <= k < out.len() && (#[trigger] out@[k]).hop == g by {
                    if g == hop {
                        assert(out@[p as int].hop == g);
                    } else {
                        let k = choose|k: int| 0 <= k < before.len() && (#[trigger] before[k]).hop == g;
                        let kk = if k < p {
                            k
                        } else {
                            k + 1
                        };
                        assert(out@[kk] == before[k]);
                    }
                }
            }
        }
        h += 1;
    }
    out
}

} // verus!
