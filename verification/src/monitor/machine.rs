//! The connectivity state machine as a mathematical object: what a tracker
//! is, what one probe outcome does to it, and what follows from that for
//! every sequence of outcomes.
//!
//! Each processed outcome is a *tick*. A tick is a failing tick where some
//! endpoint is failing once the outcome has been taken in, and a healthy
//! tick where none is. The aggregate counters count the failing ticks in a
//! row and the healthy ticks in a row; one failing endpoint is enough for a
//! failing tick, however many others answer.

use crate::config::MonitorConfig;
use crate::models::{ConnectivityState, OutageView, PingResultView, TargetView, TraceView};
use crate::monitor::traceroute::failing_hop_of;
use vstd::prelude::*;

verus! {

/// A counter's next value: one more, but never past `u32::MAX`. Thresholds
/// are `u32` values too, so a counter that stopped there still compares with
/// every threshold as the true count would.
pub open spec fn bump(c: u32) -> u32 {
    if c < u32::MAX {
        (c + 1) as u32
    } else {
        c
    }
}

/// The view of a `TargetState`: what the tracker knows of one endpoint.
pub struct TargetStateView {
    pub target: TargetView,
    pub last_result: Option<PingResultView>,
    pub consecutive_failures: u32,
    pub consecutive_successes: u32,
}

impl TargetStateView {
    /// The state of an endpoint of which no outcome has been seen.
    pub open spec fn fresh(target: TargetView) -> TargetStateView {
        TargetStateView {
            target,
            last_result: None,
            consecutive_failures: 0,
            consecutive_successes: 0,
        }
    }

    /// An endpoint is failing while its last outcome is a failure.
    pub open spec fn is_failing(self) -> bool {
        self.consecutive_failures > 0
    }

    /// The state after the outcome `r` of this endpoint.
    pub open spec fn updated(self, r: PingResultView) -> TargetStateView {
        if r.success {
            TargetStateView {
                consecutive_failures: 0,
                consecutive_successes: bump(self.consecutive_successes),
                last_result: Some(r),
                ..self
            }
        } else {
            TargetStateView {
                consecutive_successes: 0,
                consecutive_failures: bump(self.consecutive_failures),
                last_result: Some(r),
                ..self
            }
        }
    }
}

/// Whether `address` is the address of one of `targets`.
pub open spec fn tracks(targets: Seq<TargetStateView>, address: Seq<char>) -> bool {
    exists|i: int| 0 <= i < targets.len() && (#[trigger] targets[i]).target.ip == address
}

/// Whether no two of `targets` have the same address.
pub open spec fn distinct(targets: Seq<TargetStateView>) -> bool {
    forall|i: int, j: int|
        0 <= i < j < targets.len() ==> (#[trigger] targets[i]).target.ip != (
        #[trigger] targets[j]).target.ip
}

/// `targets` with `target` taken in: it takes the place of the endpoint that
/// has its address, and stands at the end if there is none.
pub open spec fn enrolled(targets: Seq<TargetStateView>, target: TargetView) -> Seq<
    TargetStateView,
> {
    if tracks(targets, target.ip) {
        Seq::new(
            targets.len(),
            |i: int|
                if targets[i].target.ip == target.ip {
                    TargetStateView::fresh(target)
                } else {
                    targets[i]
                },
        )
    } else {
        targets.push(TargetStateView::fresh(target))
    }
}

/// The endpoints that a tracker of `targets` starts with: one for each
/// address, in the order in which the addresses first occur. Where several
/// targets have one address, the last of them is the one kept.
pub open spec fn roster(targets: Seq<TargetView>) -> Seq<TargetStateView>
    decreases targets.len(),
{
    if targets.len() == 0 {
        Seq::empty()
    } else {
        enrolled(roster(targets.drop_last()), targets.last())
    }
}

/// `targets` after the outcome `r`: the endpoint with the outcome's address
/// is updated, the others stay. An outcome for an address that is not
/// tracked changes none.
pub open spec fn touched(targets: Seq<TargetStateView>, r: PingResultView) -> Seq<TargetStateView> {
    Seq::new(
        targets.len(),
        |i: int|
            if targets[i].target.ip == r.target {
                targets[i].updated(r)
            } else {
                targets[i]
            },
    )
}

/// The addresses of the endpoints among `targets` that are failing, in the
/// order of `targets`.
pub open spec fn failing_of(targets: Seq<TargetStateView>) -> Seq<Seq<char>>
    decreases targets.len(),
{
    if targets.len() == 0 {
        Seq::empty()
    } else if targets.last().is_failing() {
        failing_of(targets.drop_last()).push(targets.last().target.ip)
    } else {
        failing_of(targets.drop_last())
    }
}

/// The endpoints among `targets` that are failing, in the order of
/// `targets`.
pub open spec fn failing_states(targets: Seq<TargetStateView>) -> Seq<TargetStateView>
    decreases targets.len(),
{
    if targets.len() == 0 {
        Seq::empty()
    } else if targets.last().is_failing() {
        failing_states(targets.drop_last()).push(targets.last())
    } else {
        failing_states(targets.drop_last())
    }
}

/// The state of the endpoint with the address `address`, if it is tracked.
pub open spec fn state_of(targets: Seq<TargetStateView>, address: Seq<char>) -> Option<
    TargetStateView,
> {
    if tracks(targets, address) {
        Some(
            targets[choose|i: int|
                0 <= i < targets.len() && (#[trigger] targets[i]).target.ip == address],
        )
    } else {
        None
    }
}

/// What processing an outcome tells the caller.
pub enum EventView {
    /// The state became degraded; the addresses are those failing now.
    Degraded { failing_targets: Seq<Seq<char>> },
    /// The state became offline and the outage opened.
    Offline { outage: OutageView },
    /// The state became online again and the outage ended.
    Recovered { outage: OutageView },
    /// Nothing to report.
    NoChange,
}

/// The view of a `ConnectivityTracker`.
pub struct TrackerView {
    pub state: ConnectivityState,
    pub config: MonitorConfig,
    pub targets: Seq<TargetStateView>,
    /// The outage that is open, if one is.
    pub current_outage: Option<OutageView>,
    /// The number of failing ticks in a row up to now.
    pub aggregate_failures: u32,
    /// The number of healthy ticks in a row up to now.
    pub aggregate_successes: u32,
    /// The last path trace that was recorded for an outage.
    pub last_diagnosis: Option<TraceView>,
    /// Whether the open outage still waits for its path trace.
    pub awaiting_diagnosis: bool,
}

impl TrackerView {
    /// The tracker before any outcome: online, nothing counted, no outage.
    pub open spec fn fresh(config: MonitorConfig, targets: Seq<TargetView>) -> TrackerView {
        TrackerView {
            state: ConnectivityState::Online,
            config,
            targets: roster(targets),
            current_outage: None,
            aggregate_failures: 0,
            aggregate_successes: 0,
            last_diagnosis: None,
            awaiting_diagnosis: false,
        }
    }

    /// What holds of every tracker: no address is tracked twice; an outage
    /// is open exactly while the state is offline; only an open outage waits
    /// for a path trace.
    pub open spec fn wf(self) -> bool {
        &&& distinct(self.targets)
        &&& self.state == ConnectivityState::Offline <==> self.current_outage is Some
        &&& self.awaiting_diagnosis ==> self.current_outage is Some
    }

    /// The addresses of the endpoints that are failing.
    pub open spec fn failing(self) -> Seq<Seq<char>> {
        failing_of(self.targets)
    }

    /// Whether the outcome `r` makes a healthy tick: once it is taken in, no
    /// endpoint is failing.
    pub open spec fn healthy_after(self, r: PingResultView) -> bool {
        failing_of(touched(self.targets, r)).len() == 0
    }

    /// The tracker with the outcome `r` taken in and the tick counted,
    /// before any change of state. An outage that still waited for its path
    /// trace waits no longer: the trace was to be handed in before this
    /// outcome, and one that comes later is not taken.
    pub open spec fn observed(self, r: PingResultView) -> TrackerView {
        if self.healthy_after(r) {
            TrackerView {
                targets: touched(self.targets, r),
                aggregate_failures: 0,
                aggregate_successes: bump(self.aggregate_successes),
                awaiting_diagnosis: false,
                ..self
            }
        } else {
            TrackerView {
                targets: touched(self.targets, r),
                aggregate_successes: 0,
                aggregate_failures: bump(self.aggregate_failures),
                awaiting_diagnosis: false,
                ..self
            }
        }
    }

    /// Whether the tracker, with a tick just counted, has seen enough healthy
    /// ticks in a row to recover.
    pub open spec fn recovers(self) -> bool {
        self.failing().len() == 0 && self.aggregate_successes >= self.config.recovery_threshold
    }

    /// One step of the state machine: the tracker after the outcome `r`,
    /// processed at the time `now`, and the event that is reported.
    ///
    /// | state    | condition                                   | next     | event     |
    /// |----------|---------------------------------------------|----------|-----------|
    /// | online   | failing ticks in a row reach `degraded_threshold` | degraded | `Degraded` with the failing addresses |
    /// | degraded | healthy tick, healthy ticks in a row reach `recovery_threshold` | online | `NoChange` |
    /// | degraded | else failing ticks in a row reach `offline_threshold` | offline | `Offline` with the outage opened at `now` |
    /// | offline  | healthy tick, healthy ticks in a row reach `recovery_threshold` | online | `Recovered` with the outage closed at `now` |
    /// | any      | none of these                               | same     | `NoChange` |
    pub open spec fn step(self, r: PingResultView, now: int) -> (TrackerView, EventView) {
        let seen = self.observed(r);
        match self.state {
            ConnectivityState::Online => {
                if seen.aggregate_failures >= self.config.degraded_threshold {
                    (
                        TrackerView { state: ConnectivityState::Degraded, ..seen },
                        EventView::Degraded { failing_targets: seen.failing() },
                    )
                } else {
                    (seen, EventView::NoChange)
                }
            },
            ConnectivityState::Degraded => {
                if seen.recovers() {
                    (
                        TrackerView {
                            state: ConnectivityState::Online,
                            aggregate_failures: 0,
                            ..seen
                        },
                        EventView::NoChange,
                    )
                } else if seen.aggregate_failures >= self.config.offline_threshold {
                    let outage = OutageView::opened(seen.failing(), now);
                    (
                        TrackerView {
                            state: ConnectivityState::Offline,
                            current_outage: Some(outage),
                            awaiting_diagnosis: true,
                            ..seen
                        },
                        EventView::Offline { outage },
                    )
                } else {
                    (seen, EventView::NoChange)
                }
            },
            ConnectivityState::Offline => {
                if seen.recovers() && seen.current_outage is Some {
                    (
                        TrackerView {
                            state: ConnectivityState::Online,
                            aggregate_failures: 0,
                            current_outage: None,
                            awaiting_diagnosis: false,
                            ..seen
                        },
                        EventView::Recovered { outage: seen.current_outage->0.closed(now) },
                    )
                } else {
                    (seen, EventView::NoChange)
                }
            },
        }
    }

    /// The tracker after the path trace `trace` has been handed in. Where
    /// the open outage waits for its trace, the trace is kept and the hop at
    /// which the trail goes cold, if there is one, is written into the
    /// outage. Otherwise nothing changes: an outage gets one trace.
    pub open spec fn diagnosed(self, trace: TraceView) -> TrackerView {
        if self.awaiting_diagnosis && self.current_outage is Some {
            let outage = self.current_outage->0;
            TrackerView {
                current_outage: Some(
                    match failing_hop_of(trace) {
                        Some((hop, address)) => OutageView {
                            failing_hop: Some(hop),
                            failing_hop_ip: Some(address),
                            ..outage
                        },
                        None => outage,
                    },
                ),
                last_diagnosis: Some(trace),
                awaiting_diagnosis: false,
                ..self
            }
        } else {
            self
        }
    }

    /// The address to which the path is traced when an outage opens: that of
    /// the first endpoint, or `8.8.8.8` where the tracker has no endpoint.
    pub open spec fn diagnosis_target(self) -> Seq<char> {
        if self.targets.len() > 0 {
            self.targets[0].target.ip
        } else {
            "8.8.8.8"@
        }
    }

    /// The tracker after the open outage has been stored under `id`.
    /// Without an open outage nothing changes.
    pub open spec fn stored_as(self, id: i64) -> TrackerView {
        match self.current_outage {
            Some(outage) => TrackerView {
                current_outage: Some(OutageView { id: Some(id), ..outage }),
                ..self
            },
            None => self,
        }
    }

    /// The tracker after the open outage has been closed by force at `now`
    /// with the note `note`. The outage stays the tracker's current one, and
    /// the state stays offline. Without an open outage nothing changes.
    pub open spec fn force_closed(self, now: int, note: Seq<char>) -> TrackerView {
        match self.current_outage {
            Some(outage) => TrackerView {
                current_outage: Some(OutageView { notes: Some(note), ..outage.closed(now) }),
                ..self
            },
            None => self,
        }
    }
}

/// One processed outcome and the time at which it was processed.
pub struct Tick {
    pub result: PingResultView,
    pub now: int,
}

/// The tracker after the ticks `ticks`, one after the other.
pub open spec fn run(t: TrackerView, ticks: Seq<Tick>) -> TrackerView
    decreases ticks.len(),
{
    if ticks.len() == 0 {
        t
    } else {
        run(t, ticks.drop_last()).step(ticks.last().result, ticks.last().now).0
    }
}

/// The event that the tick at position `i` of `ticks` reports.
pub open spec fn event_at(t: TrackerView, ticks: Seq<Tick>, i: int) -> EventView {
    run(t, ticks.take(i)).step(ticks[i].result, ticks[i].now).1
}

/// Whether `r` is a failure of an endpoint that `t` tracks.
pub open spec fn is_tracked_failure(t: TrackerView, r: PingResultView) -> bool {
    !r.success && tracks(t.targets, r.target)
}

/// Taking an outcome in changes no address, so it tracks what was tracked
/// and keeps the addresses distinct.
pub proof fn lemma_touched_keeps_addresses(targets: Seq<TargetStateView>, r: PingResultView)
    ensures
        touched(targets, r).len() == targets.len(),
        forall|i: int|
            0 <= i < targets.len() ==> (#[trigger] touched(targets, r)[i]).target
                == targets[i].target,
        distinct(targets) ==> distinct(touched(targets, r)),
        forall|address: Seq<char>|
            tracks(touched(targets, r), address) <==> tracks(targets, address),
{
    let after = touched(targets, r);
    assert forall|address: Seq<char>| tracks(after, address) <==> tracks(
        targets,
        address,
    ) by {
        if tracks(after, address) {
            let i = choose|i: int| 0 <= i < after.len() && (#[trigger] after[i]).target.ip
                == address;
        }
        if tracks(targets, address) {
            let i = choose|i: int| 0 <= i < targets.len() && (#[trigger] targets[i]).target.ip
                == address;
            assert(after[i].target.ip == address);
        }
    }
}

/// Taking a target in keeps the addresses distinct.
pub proof fn lemma_enrolled_distinct(targets: Seq<TargetStateView>, target: TargetView)
    requires
        distinct(targets),
    ensures
        distinct(enrolled(targets, target)),
{
    assert(distinct(enrolled(targets, target)));
}

/// The roster of any list of targets has distinct addresses.
pub proof fn lemma_roster_distinct(targets: Seq<TargetView>)
    ensures
        distinct(roster(targets)),
    decreases targets.len(),
{
    if targets.len() > 0 {
        lemma_roster_distinct(targets.drop_last());
    }
}

/// The failing addresses are those of the failing endpoints: there is none
/// exactly when no endpoint is failing.
pub proof fn lemma_failing_none(targets: Seq<TargetStateView>)
    ensures
        failing_of(targets).len() == 0 <==> forall|i: int|
            0 <= i < targets.len() ==> !(#[trigger] targets[i]).is_failing(),
    decreases targets.len(),
{
    if targets.len() > 0 {
        let rest = targets.drop_last();
        lemma_failing_none(rest);
        if failing_of(targets).len() == 0 {
            assert forall|i: int| 0 <= i < targets.len() implies !(
            #[trigger] targets[i]).is_failing() by {
                if i < rest.len() {
                    assert(rest[i] == targets[i]);
                }
            }
        } else if !targets.last().is_failing() {
            let i = choose|i: int| 0 <= i < rest.len() && (#[trigger] rest[i]).is_failing();
            assert(targets[i].is_failing());
        }
    }
}

/// A failure of a tracked endpoint makes a failing tick.
pub proof fn lemma_tracked_failure_fails(t: TrackerView, r: PingResultView)
    requires
        is_tracked_failure(t, r),
    ensures
        !t.healthy_after(r),
{
    let i = choose|i: int| 0 <= i < t.targets.len() && (#[trigger] t.targets[i]).target.ip
        == r.target;
    let after = touched(t.targets, r);
    assert(after[i].is_failing());
    lemma_failing_none(after);
}

/// Every step keeps a tracker well formed, and changes neither its settings
/// nor the addresses it tracks.
pub proof fn lemma_step_keeps(t: TrackerView, r: PingResultView, now: int)
    requires
        t.wf(),
    ensures
        t.step(r, now).0.wf(),
        t.step(r, now).0.config == t.config,
        t.step(r, now).0.targets == touched(t.targets, r),
        forall|address: Seq<char>|
            tracks(t.step(r, now).0.targets, address) <==> tracks(t.targets, address),
{
    lemma_touched_keeps_addresses(t.targets, r);
}

/// Every run keeps a tracker well formed, and changes neither its settings
/// nor the addresses it tracks.
pub proof fn lemma_run_keeps(t: TrackerView, ticks: Seq<Tick>)
    requires
        t.wf(),
    ensures
        run(t, ticks).wf(),
        run(t, ticks).config == t.config,
        forall|address: Seq<char>|
            tracks(run(t, ticks).targets, address) <==> tracks(t.targets, address),
    decreases ticks.len(),
{
    if ticks.len() > 0 {
        lemma_run_keeps(t, ticks.drop_last());
        lemma_step_keeps(run(t, ticks.drop_last()), ticks.last().result, ticks.last().now);
    }
}

/// An outage is open exactly while the state is offline, so there is never
/// more than one; this holds of a new tracker and after every run.
pub proof fn lemma_one_outage(config: MonitorConfig, targets: Seq<TargetView>, ticks: Seq<Tick>)
    ensures
        TrackerView::fresh(config, targets).wf(),
        run(TrackerView::fresh(config, targets), ticks).wf(),
        run(TrackerView::fresh(config, targets), ticks).current_outage is Some <==> run(
            TrackerView::fresh(config, targets),
            ticks,
        ).state == ConnectivityState::Offline,
{
    lemma_roster_distinct(targets);
    lemma_run_keeps(TrackerView::fresh(config, targets), ticks);
}

/// While fewer failing ticks have been counted than `degraded_threshold`
/// asks for, a tracker that is online stays online and reports nothing:
/// after `n` more outcomes of any kind, as long as the failing ticks counted
/// before and `n` together stay below the threshold.
pub proof fn lemma_stays_online(t: TrackerView, ticks: Seq<Tick>)
    requires
        t.state == ConnectivityState::Online,
        t.aggregate_failures + ticks.len() < t.config.degraded_threshold,
    ensures
        run(t, ticks).state == ConnectivityState::Online,
        run(t, ticks).config == t.config,
        run(t, ticks).aggregate_failures <= t.aggregate_failures + ticks.len(),
        run(t, ticks).current_outage == t.current_outage,
        forall|i: int| 0 <= i < ticks.len() ==> event_at(t, ticks, i) is NoChange,
        forall|k: int|
            0 <= k <= ticks.len() ==> (#[trigger] run(t, ticks.take(k))).state
                == ConnectivityState::Online,
    decreases ticks.len(),
{
    if ticks.len() > 0 {
        let init = ticks.drop_last();
        lemma_stays_online(t, init);
        assert forall|i: int| 0 <= i < ticks.len() implies event_at(t, ticks, i) is NoChange by {
            if i < init.len() {
                assert(ticks.take(i) =~= init.take(i));
                assert(event_at(t, init, i) is NoChange);
            }
        }
        assert forall|k: int| 0 <= k <= ticks.len() implies (#[trigger] run(
            t,
            ticks.take(k),
        )).state == ConnectivityState::Online by {
            if k < ticks.len() {
                assert(ticks.take(k) =~= init.take(k));
            } else {
                assert(ticks.take(k) =~= ticks);
            }
        }
    }
}

/// A new tracker stays online and reports nothing through any `n` outcomes
/// in a row, failures or not, where `n` is below `degraded_threshold`.
pub proof fn lemma_new_tracker_stays_online(
    config: MonitorConfig,
    targets: Seq<TargetView>,
    ticks: Seq<Tick>,
)
    requires
        ticks.len() < config.degraded_threshold,
    ensures
        run(TrackerView::fresh(config, targets), ticks).state == ConnectivityState::Online,
        forall|i: int|
            0 <= i < ticks.len() ==> event_at(TrackerView::fresh(config, targets), ticks, i)
                is NoChange,
{
    lemma_stays_online(TrackerView::fresh(config, targets), ticks);
}

/// Whether every tick of `ticks` is a failure of an endpoint that `t`
/// tracks.
pub open spec fn all_tracked_failures(t: TrackerView, ticks: Seq<Tick>) -> bool {
    forall|i: int| 0 <= i < ticks.len() ==> is_tracked_failure(t, (#[trigger] ticks[i]).result)
}

/// Through failures of tracked endpoints, a tracker that is online with no
/// failing tick counted counts one failing tick per outcome until the count
/// reaches `degraded_threshold`; from then on it is not online.
pub proof fn lemma_failure_run(t: TrackerView, ticks: Seq<Tick>)
    requires
        t.wf(),
        t.state == ConnectivityState::Online,
        t.aggregate_failures == 0,
        t.config.degraded_threshold >= 1,
        all_tracked_failures(t, ticks),
    ensures
        run(t, ticks).wf(),
        run(t, ticks).config == t.config,
        ticks.len() < t.config.degraded_threshold ==> run(t, ticks).state
            == ConnectivityState::Online && run(t, ticks).aggregate_failures == ticks.len(),
        ticks.len() >= t.config.degraded_threshold ==> run(t, ticks).state
            != ConnectivityState::Online,
    decreases ticks.len(),
{
    lemma_run_keeps(t, ticks);
    if ticks.len() > 0 {
        let init = ticks.drop_last();
        lemma_failure_run(t, init);
        let before = run(t, init);
        let r = ticks.last().result;
        lemma_tracked_failure_fails(before, r);
    }
}

/// Through failures of tracked endpoints, a tracker that is online with no
/// failing tick counted reports `Degraded` exactly once: at the outcome with
/// which the number of failing ticks reaches `degraded_threshold`, not before
/// and not again.
pub proof fn lemma_degraded_once(t: TrackerView, ticks: Seq<Tick>)
    requires
        t.wf(),
        t.state == ConnectivityState::Online,
        t.aggregate_failures == 0,
        t.config.degraded_threshold >= 1,
        all_tracked_failures(t, ticks),
    ensures
        forall|i: int|
            0 <= i < ticks.len() ==> (event_at(t, ticks, i) is Degraded <==> i + 1
                == t.config.degraded_threshold),
{
    assert forall|i: int| 0 <= i < ticks.len() implies (event_at(t, ticks, i) is Degraded <==> i
        + 1 == t.config.degraded_threshold) by {
        let head = ticks.take(i);
        lemma_failure_run(t, head);
        lemma_run_keeps(t, head);
        let before = run(t, head);
        lemma_tracked_failure_fails(before, ticks[i].result);
    }
}

/// Through failures of tracked endpoints, a new tracker reports `Degraded`
/// exactly once: at the outcome with which the number of failing ticks
/// reaches `degraded_threshold`, not before and not again.
pub proof fn lemma_new_tracker_degrades_once(
    config: MonitorConfig,
    targets: Seq<TargetView>,
    ticks: Seq<Tick>,
)
    requires
        config.degraded_threshold >= 1,
        all_tracked_failures(TrackerView::fresh(config, targets), ticks),
    ensures
        forall|i: int|
            0 <= i < ticks.len() ==> (event_at(TrackerView::fresh(config, targets), ticks, i)
                is Degraded <==> i + 1 == config.degraded_threshold),
{
    lemma_roster_distinct(targets);
    lemma_degraded_once(TrackerView::fresh(config, targets), ticks);
}

/// A failure of a tracked endpoint sets the count of healthy ticks in a row
/// back to zero, whatever the state, and brings no tracker online.
pub proof fn lemma_failure_resets_streak(t: TrackerView, r: PingResultView, now: int)
    requires
        is_tracked_failure(t, r),
    ensures
        t.step(r, now).0.aggregate_successes == 0,
        t.step(r, now).0.state != ConnectivityState::Online || t.state
            == ConnectivityState::Online,
{
    lemma_tracked_failure_fails(t, r);
}

/// A tracker that is not online does not come back online before the healthy
/// ticks in a row reach `recovery_threshold`: not through `n` outcomes where
/// the healthy ticks counted before and `n` together stay below the
/// threshold. No outage ends on the way.
pub proof fn lemma_recovery_needs_streak(t: TrackerView, ticks: Seq<Tick>)
    requires
        t.state != ConnectivityState::Online,
        t.aggregate_successes + ticks.len() < t.config.recovery_threshold,
    ensures
        run(t, ticks).state != ConnectivityState::Online,
        run(t, ticks).config == t.config,
        run(t, ticks).aggregate_successes <= t.aggregate_successes + ticks.len(),
        forall|i: int| 0 <= i < ticks.len() ==> !(event_at(t, ticks, i) is Recovered),
    decreases ticks.len(),
{
    if ticks.len() > 0 {
        let init = ticks.drop_last();
        lemma_recovery_needs_streak(t, init);
        assert forall|i: int| 0 <= i < ticks.len() implies !(event_at(t, ticks, i) is Recovered) by {
            if i < init.len() {
                assert(ticks.take(i) =~= init.take(i));
                assert(!(event_at(t, init, i) is Recovered));
            }
        }
    }
}

/// Whether every tick of `ticks`, processed in turn from `t`, is a healthy
/// tick.
pub open spec fn all_healthy_ticks(t: TrackerView, ticks: Seq<Tick>) -> bool {
    forall|i: int|
        0 <= i < ticks.len() ==> (#[trigger] run(t, ticks.take(i))).healthy_after(ticks[i].result)
}

/// After a failure of a tracked endpoint, a tracker that is degraded and
/// does not go offline needs `recovery_threshold` healthy ticks in a row to
/// come back online, and with that many it does: the failure sets the count
/// to zero, fewer healthy ticks leave the tracker degraded, and the one that
/// completes the streak brings it online, with no outage on record.
pub proof fn lemma_degraded_recovery(t: TrackerView, failure: Tick, ticks: Seq<Tick>)
    requires
        t.wf(),
        t.state == ConnectivityState::Degraded,
        is_tracked_failure(t, failure.result),
        t.step(failure.result, failure.now).0.state == ConnectivityState::Degraded,
        t.config.thresholds_positive(),
        all_healthy_ticks(t.step(failure.result, failure.now).0, ticks),
    ensures
        ticks.len() < t.config.recovery_threshold ==> run(
            t.step(failure.result, failure.now).0,
            ticks,
        ).state == ConnectivityState::Degraded,
        ticks.len() >= t.config.recovery_threshold ==> run(
            t.step(failure.result, failure.now).0,
            ticks,
        ).state == ConnectivityState::Online,
        run(t.step(failure.result, failure.now).0, ticks).current_outage is None,
{
    let start = t.step(failure.result, failure.now).0;
    lemma_failure_resets_streak(t, failure.result, failure.now);
    lemma_healthy_run(start, ticks);
}

/// Through healthy ticks, a tracker that is degraded with no healthy tick
/// counted stays degraded until the count reaches `recovery_threshold`, and
/// is online from then on.
proof fn lemma_healthy_run(t: TrackerView, ticks: Seq<Tick>)
    requires
        t.wf(),
        t.state == ConnectivityState::Degraded,
        t.aggregate_successes == 0,
        t.config.thresholds_positive(),
        all_healthy_ticks(t, ticks),
    ensures
        run(t, ticks).wf(),
        run(t, ticks).config == t.config,
        run(t, ticks).current_outage is None,
        ticks.len() < t.config.recovery_threshold ==> run(t, ticks).state
            == ConnectivityState::Degraded && run(t, ticks).aggregate_successes == ticks.len(),
        ticks.len() >= t.config.recovery_threshold ==> run(t, ticks).state
            == ConnectivityState::Online && run(t, ticks).aggregate_failures == 0,
    decreases ticks.len(),
{
    if ticks.len() > 0 {
        let init = ticks.drop_last();
        assert forall|i: int| 0 <= i < init.len() implies (#[trigger] run(
            t,
            init.take(i),
        )).healthy_after(init[i].result) by {
            assert(init.take(i) =~= ticks.take(i));
        }
        lemma_healthy_run(t, init);
    }
}

} // verus!
