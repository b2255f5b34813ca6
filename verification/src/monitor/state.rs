//! The connectivity tracker: the state machine of `machine`, executable.

use crate::clock::Timestamp;
use crate::config::MonitorConfig;
use crate::models::{clone_texts, ConnectivityState, Outage, PingResult, Target, TracerouteResult};
use crate::monitor::machine::{
    bump, distinct, failing_of, failing_states, roster, state_of, touched, tracks, EventView,
    TargetStateView, TrackerView,
};
use crate::monitor::traceroute::HopAnalyzer;
use vstd::prelude::*;

verus! {

/// What processing an outcome tells the caller.
#[derive(Debug)]
pub enum StateEvent {
    /// The state became degraded; the addresses are those failing now.
    Degraded { failing_targets: Vec<String> },
    /// The state became offline and the outage opened. The caller traces the
    /// path to `ConnectivityTracker::diagnosis_target` and hands the trace
    /// to `ConnectivityTracker::record_diagnosis` before it processes the
    /// next outcome; a trace that comes after the next outcome is not taken.
    Offline { outage: Outage },
    /// The state became online again and the outage ended.
    Recovered { outage: Outage },
    /// Nothing to report.
    NoChange,
}

impl View for StateEvent {
    type V = EventView;

    open spec fn view(&self) -> EventView {
        match self {
            StateEvent::Degraded { failing_targets } => EventView::Degraded {
                failing_targets: failing_targets.deep_view(),
            },
            StateEvent::Offline { outage } => EventView::Offline { outage: outage@ },
            StateEvent::Recovered { outage } => EventView::Recovered { outage: outage@ },
            StateEvent::NoChange => EventView::NoChange,
        }
    }
}

impl Clone for StateEvent {
    fn clone(&self) -> (r: Self)
        ensures
            r@ == self@,
    {
        match self {
            StateEvent::Degraded { failing_targets } => StateEvent::Degraded {
                failing_targets: clone_texts(failing_targets),
            },
            StateEvent::Offline { outage } => StateEvent::Offline { outage: outage.clone() },
            StateEvent::Recovered { outage } => StateEvent::Recovered { outage: outage.clone() },
            StateEvent::NoChange => StateEvent::NoChange,
        }
    }
}

/// One more, but never past `u32::MAX` (see `bump`).
fn bumped(c: u32) -> (r: u32)
    ensures
        r == bump(c),
{
    if c < u32::MAX {
        c + 1
    } else {
        c
    }
}

/// What the tracker knows of one endpoint.
#[derive(Debug)]
pub struct TargetState {
    pub target: Target,
    /// The last outcome seen of the endpoint.
    pub last_result: Option<PingResult>,
    /// How many outcomes in a row, up to the last, were failures.
    pub consecutive_failures: u32,
    /// How many outcomes in a row, up to the last, were successes.
    pub consecutive_successes: u32,
}

impl View for TargetState {
    type V = TargetStateView;

    open spec fn view(&self) -> TargetStateView {
        TargetStateView {
            target: self.target@,
            last_result: self.last_result.deep_view(),
            consecutive_failures: self.consecutive_failures,
            consecutive_successes: self.consecutive_successes,
        }
    }
}

impl DeepView for TargetState {
    type V = TargetStateView;

    open spec fn deep_view(&self) -> TargetStateView {
        self@
    }
}

impl Clone for TargetState {
    fn clone(&self) -> (r: Self)
        ensures
            r == *self,
    {
        TargetState {
            target: self.target.clone(),
            last_result: match &self.last_result {
                Some(p) => Some(p.clone()),
                None => None,
            },
            consecutive_failures: self.consecutive_failures,
            consecutive_successes: self.consecutive_successes,
        }
    }
}

impl TargetState {
    /// The state of an endpoint of which no outcome has been seen.
    pub fn new(target: Target) -> (r: TargetState)
        ensures
            r@ == TargetStateView::fresh(target@),
    {
        TargetState {
            target,
            last_result: None,
            consecutive_failures: 0,
            consecutive_successes: 0,
        }
    }

    /// Takes in an outcome of this endpoint: a success ends the run of
    /// failures and lengthens the run of successes, a failure the reverse.
    pub fn update(&mut self, result: &PingResult)
        ensures
            final(self)@ == old(self)@.updated(result@),
            final(self).target == old(self).target,
    {
        if result.success {
            self.consecutive_failures = 0;
            self.consecutive_successes = bumped(self.consecutive_successes);
        } else {
            self.consecutive_successes = 0;
            self.consecutive_failures = bumped(self.consecutive_failures);
        }
        self.last_result = Some(result.clone());
    }

    /// Whether the endpoint's last outcome is a failure.
    pub fn is_failing(&self) -> (r: bool)
        ensures
            r == self@.is_failing(),
    {
        self.consecutive_failures > 0
    }
}

/// The state of the machine, with what belongs to it.
#[derive(Debug)]
enum Phase {
    Online,
    Degraded,
    Offline { outage: Outage, awaiting_diagnosis: bool },
}

/// Follows the connectivity of a set of endpoints through their probe
/// outcomes.
#[derive(Debug)]
pub struct ConnectivityTracker {
    config: MonitorConfig,
    target_states: Vec<TargetState>,
    phase: Phase,
    aggregate_failures: u32,
    aggregate_successes: u32,
    last_diagnosis: Option<TracerouteResult>,
}

impl View for ConnectivityTracker {
    type V = TrackerView;

    closed spec fn view(&self) -> TrackerView {
        TrackerView {
            state: match self.phase {
                Phase::Online => ConnectivityState::Online,
                Phase::Degraded => ConnectivityState::Degraded,
                Phase::Offline { .. } => ConnectivityState::Offline,
            },
            config: self.config,
            targets: self.target_states.deep_view(),
            current_outage: match self.phase {
                Phase::Offline { outage, .. } => Some(outage@),
                _ => None,
            },
            aggregate_failures: self.aggregate_failures,
            aggregate_successes: self.aggregate_successes,
            last_diagnosis: self.last_diagnosis.deep_view(),
            awaiting_diagnosis: match self.phase {
                Phase::Offline { awaiting_diagnosis, .. } => awaiting_diagnosis,
                _ => false,
            },
        }
    }
}

/// The position in `states` of the endpoint with the address `address`.
fn position_of(states: &Vec<TargetState>, address: &String) -> (r: Option<usize>)
    ensures
        match r {
            Some(i) => i < states.len() && states.deep_view()[i as int].target.ip == address@,
            None => !tracks(states.deep_view(), address@),
        },
{
    let mut i: usize = 0;
    while i < states.len()
        invariant
            i <= states.len(),
            forall|j: int| 0 <= j < i ==> (#[trigger] states.deep_view()[j]).target.ip != address@,
        decreases states.len() - i,
    {
        if states[i].target.ip == *address {
            return Some(i);
        }
        i += 1;
    }
    None
}

/// The addresses of the failing endpoints among `states`, in their order.
fn failing_addresses(states: &Vec<TargetState>) -> (r: Vec<String>)
    ensures
        r.deep_view() == failing_of(states.deep_view()),
{
    let mut r: Vec<String> = Vec::new();
    let mut i: usize = 0;
    while i < states.len()
        invariant
            i <= states.len(),
            r.deep_view() == failing_of(states.deep_view().take(i as int)),
        decreases states.len() - i,
    {
        proof {
            let next = states.deep_view().take(i + 1);
            assert(next.drop_last() =~= states.deep_view().take(i as int));
        }
        if states[i].is_failing() {
            r.push(states[i].target.ip.clone());
        }
        i += 1;
    }
    assert(states.deep_view().take(i as int) =~= states.deep_view());
    r
}

impl ConnectivityTracker {
    #[verifier::type_invariant]
    spec fn addresses_distinct(self) -> bool {
        distinct(self.target_states.deep_view())
    }

    /// A tracker of `targets` with the thresholds of `config`: online,
    /// nothing counted, no outage. Each address is tracked once.
    pub fn new(config: &MonitorConfig, targets: &[Target]) -> (r: ConnectivityTracker)
        ensures
            r@ == TrackerView::fresh(*config, targets.deep_view()),
            r@.wf(),
    {
        let mut states: Vec<TargetState> = Vec::new();
        let mut i: usize = 0;
        while i < targets.len()
            invariant
                i <= targets.len(),
                states.deep_view() == roster(targets.deep_view().take(i as int)),
                distinct(states.deep_view()),
            decreases targets.len() - i,
        {
            let target = targets[i].clone();
            proof {
                let next = targets.deep_view().take(i + 1);
                assert(next.drop_last() =~= targets.deep_view().take(i as int));
            }
            match position_of(&states, &target.ip) {
                Some(k) => {
                    states.set(k, TargetState::new(target));
                },
                None => {
                    states.push(TargetState::new(target));
                },
            }
            i += 1;
        }
        assert(targets.deep_view().take(i as int) =~= targets.deep_view());
        ConnectivityTracker {
            config: *config,
            target_states: states,
            phase: Phase::Online,
            aggregate_failures: 0,
            aggregate_successes: 0,
            last_diagnosis: None,
        }
    }

    /// Processes one outcome at the current time (see `process_at`).
    pub fn process(&mut self, result: &PingResult) -> (event: StateEvent)
        ensures
            old(self)@.wf(),
            final(self)@.wf(),
            exists|now: int| (final(self)@, event@) == #[trigger] old(self)@.step(result@, now),
    {
        let now = Timestamp::now();
        self.process_at(result, now)
    }

    /// Processes one outcome, at the time `now`: one step of the state
    /// machine (see `TrackerView::step`).
    ///
    /// The outcome updates the endpoint that has its address, if the tracker
    /// tracks it. Then the tick is counted: as a failing tick if any endpoint
    /// is failing now, else as a healthy tick. Then the state changes if a
    /// threshold is reached.
    pub fn process_at(&mut self, result: &PingResult, now: Timestamp) -> (event: StateEvent)
        ensures
            old(self)@.wf(),
            final(self)@.wf(),
            (final(self)@, event@) == old(self)@.step(result@, now@),
    {
        proof {
            use_type_invariant(&*self);
        }
        let ghost before = self@;
        let mut states: Vec<TargetState> = Vec::new();
        std::mem::swap(&mut self.target_states, &mut states);
        match position_of(&states, &result.target) {
            Some(k) => {
                let mut entry = states[k].clone();
                entry.update(result);
                states.set(k, entry);
                proof {
                    assert(states.deep_view() =~= touched(before.targets, result@));
                }
            },
            None => {
                assert(states.deep_view() =~= touched(before.targets, result@));
            },
        }
        let failing = failing_addresses(&states);
        std::mem::swap(&mut self.target_states, &mut states);
        let all_healthy = failing.len() == 0;
        if all_healthy {
            self.aggregate_failures = 0;
            self.aggregate_successes = bumped(self.aggregate_successes);
        } else {
            self.aggregate_successes = 0;
            self.aggregate_failures = bumped(self.aggregate_failures);
        }
        let recovers = all_healthy && self.aggregate_successes >= self.config.recovery_threshold;
        let open: Option<Outage> = match &self.phase {
            Phase::Offline { outage, .. } => Some(outage.clone()),
            _ => None,
        };
        match open {
            Some(mut outage) => {
                if recovers {
                    outage.end_at(now);
                    self.phase = Phase::Online;
                    self.aggregate_failures = 0;
                    StateEvent::Recovered { outage }
                } else {
                    self.phase = Phase::Offline { outage, awaiting_diagnosis: false };
                    StateEvent::NoChange
                }
            },
            None => {
                match self.state() {
                    ConnectivityState::Online => {
                        if self.aggregate_failures >= self.config.degraded_threshold {
                            self.phase = Phase::Degraded;
                            StateEvent::Degraded { failing_targets: failing }
                        } else {
                            StateEvent::NoChange
                        }
                    },
                    _ => {
                        if recovers {
                            self.phase = Phase::Online;
                            self.aggregate_failures = 0;
                            StateEvent::NoChange
                        } else if self.aggregate_failures >= self.config.offline_threshold {
                            let outage = Outage::started_at(failing, now);
                            self.phase = Phase::Offline {
                                outage: outage.clone(),
                                awaiting_diagnosis: true,
                            };
                            StateEvent::Offline { outage }
                        } else {
                            StateEvent::NoChange
                        }
                    },
                }
            },
        }
    }

    /// The connectivity state.
    pub fn state(&self) -> (r: ConnectivityState)
        ensures
            r == self@.state,
            self@.wf(),
    {
        proof {
            use_type_invariant(self);
        }
        match &self.phase {
            Phase::Online => ConnectivityState::Online,
            Phase::Degraded => ConnectivityState::Degraded,
            Phase::Offline { .. } => ConnectivityState::Offline,
        }
    }

    /// The outage that is open, if one is.
    pub fn current_outage(&self) -> (r: Option<&Outage>)
        ensures
            r.deep_view() == self@.current_outage,
            self@.wf(),
    {
        proof {
            use_type_invariant(self);
        }
        match &self.phase {
            Phase::Offline { outage, .. } => Some(outage),
            _ => None,
        }
    }

    /// What the tracker knows of each endpoint, in the order in which their
    /// addresses were first given.
    pub fn target_states(&self) -> (r: &Vec<TargetState>)
        ensures
            r.deep_view() == self@.targets,
            self@.wf(),
    {
        proof {
            use_type_invariant(self);
        }
        &self.target_states
    }

    /// The endpoints that are failing, in the order of `target_states`.
    pub fn failing_targets(&self) -> (r: Vec<&TargetState>)
        ensures
            r.deep_view() == failing_states(self@.targets),
            self@.wf(),
    {
        proof {
            use_type_invariant(self);
        }
        let mut r: Vec<&TargetState> = Vec::new();
        let mut i: usize = 0;
        while i < self.target_states.len()
            invariant
                i <= self.target_states.len(),
                r.deep_view() == failing_states(self.target_states.deep_view().take(i as int)),
            decreases self.target_states.len() - i,
        {
            proof {
                let next = self.target_states.deep_view().take(i + 1);
                assert(next.drop_last() =~= self.target_states.deep_view().take(i as int));
            }
            if self.target_states[i].is_failing() {
                r.push(&self.target_states[i]);
            }
            i += 1;
        }
        assert(self.target_states.deep_view().take(i as int) =~= self.target_states.deep_view());
        r
    }

    /// What the tracker knows of the endpoint with the address `address`.
    pub fn target_state(&self, address: &str) -> (r: Option<&TargetState>)
        ensures
            r.deep_view() == state_of(self@.targets, address@),
            self@.wf(),
    {
        proof {
            use_type_invariant(self);
        }
        let address = address.to_owned();
        match position_of(&self.target_states, &address) {
            Some(k) => {
                Some(&self.target_states[k])
            },
            None => None,
        }
    }

    /// The last path trace that was recorded for an outage.
    pub fn last_diagnosis(&self) -> (r: Option<&TracerouteResult>)
        ensures
            r.deep_view() == self@.last_diagnosis,
            self@.wf(),
    {
        proof {
            use_type_invariant(self);
        }
        self.last_diagnosis.as_ref()
    }

    /// Whether an outage is open that still waits for its path trace.
    pub fn awaiting_diagnosis(&self) -> (r: bool)
        ensures
            r == self@.awaiting_diagnosis,
            self@.wf(),
    {
        proof {
            use_type_invariant(self);
        }
        match &self.phase {
            Phase::Offline { awaiting_diagnosis, .. } => *awaiting_diagnosis,
            _ => false,
        }
    }

    /// The address to which the path is traced when an outage opens (see
    /// `TrackerView::diagnosis_target`).
    pub fn diagnosis_target(&self) -> (r: String)
        ensures
            r@ == self@.diagnosis_target(),
            self@.wf(),
    {
        proof {
            use_type_invariant(self);
        }
        if self.target_states.len() > 0 {
            self.target_states[0].target.ip.clone()
        } else {
            "8.8.8.8".to_owned()
        }
    }

    /// Hands in the path trace that was run because an outage opened (see
    /// `TrackerView::diagnosed`). Returns the outage as it stands then, or
    /// `None` where no outage waited for a trace.
    pub fn record_diagnosis(&mut self, trace: TracerouteResult) -> (r: Option<Outage>)
        ensures
            old(self)@.wf(),
            final(self)@.wf(),
            final(self)@ == old(self)@.diagnosed(trace@),
            r.deep_view() == if old(self)@.awaiting_diagnosis {
                final(self)@.current_outage
            } else {
                None
            },
    {
        proof {
            use_type_invariant(&*self);
        }
        let waiting: Option<Outage> = match &self.phase {
            Phase::Offline { outage, awaiting_diagnosis } => if *awaiting_diagnosis {
                Some(outage.clone())
            } else {
                None
            },
            _ => None,
        };
        match waiting {
            Some(mut outage) => {
                match HopAnalyzer::identify_failing_hop(&trace) {
                    Some((hop, address)) => {
                        outage.failing_hop = Some(hop);
                        outage.failing_hop_ip = Some(address);
                    },
                    None => {},
                }
                self.phase = Phase::Offline { outage: outage.clone(), awaiting_diagnosis: false };
                self.last_diagnosis = Some(trace);
                Some(outage)
            },
            None => None,
        }
    }

    /// Records that the open outage has been stored under `id`. Returns
    /// whether an outage is open.
    pub fn set_outage_id(&mut self, id: i64) -> (r: bool)
        ensures
            old(self)@.wf(),
            final(self)@.wf(),
            final(self)@ == old(self)@.stored_as(id),
            r == old(self)@.current_outage is Some,
    {
        proof {
            use_type_invariant(&*self);
        }
        let open: Option<(Outage, bool)> = match &self.phase {
            Phase::Offline { outage, awaiting_diagnosis } => Some(
                (outage.clone(), *awaiting_diagnosis),
            ),
            _ => None,
        };
        match open {
            Some((mut outage, awaiting_diagnosis)) => {
                outage.id = Some(id);
                self.phase = Phase::Offline { outage, awaiting_diagnosis };
                true
            },
            None => false,
        }
    }

    /// Closes the open outage by force, now (see `force_close_at`).
    pub fn force_close(&mut self, note: &str) -> (r: Option<Outage>)
        ensures
            old(self)@.wf(),
            final(self)@.wf(),
            exists|now: int| final(self)@ == #[trigger] old(self)@.force_closed(now, note@),
            r.deep_view() == final(self)@.current_outage,
            old(self)@.current_outage is None ==> r is None && final(self)@ == old(self)@,
    {
        let now = Timestamp::now();
        self.force_close_at(now, note)
    }

    /// Closes the open outage by force at `now`, as when the monitor is
    /// stopped while the endpoints cannot be reached: the outage gets its end
    /// and duration and the note `note`, and a copy is returned. Without an
    /// open outage nothing happens and `None` is returned.
    pub fn force_close_at(&mut self, now: Timestamp, note: &str) -> (r: Option<Outage>)
        ensures
            old(self)@.wf(),
            final(self)@.wf(),
            final(self)@ == old(self)@.force_closed(now@, note@),
            r.deep_view() == final(self)@.current_outage,
            old(self)@.current_outage is None ==> r is None && final(self)@ == old(self)@,
    {
        proof {
            use_type_invariant(&*self);
        }
        let open: Option<(Outage, bool)> = match &self.phase {
            Phase::Offline { outage, awaiting_diagnosis } => Some(
                (outage.clone(), *awaiting_diagnosis),
            ),
            _ => None,
        };
        match open {
            Some((mut outage, awaiting_diagnosis)) => {
                outage.end_at(now);
                outage.notes = Some(note.to_owned());
                self.phase = Phase::Offline { outage: outage.clone(), awaiting_diagnosis };
                Some(outage)
            },
            None => None,
        }
    }
}

} // verus!
