//! The records that the monitor produces and keeps, each with its view: the
//! same record with texts as character sequences and times as integers.

use crate::clock::Timestamp;
use crate::text::same_text;
use vstd::prelude::*;

verus! {

/// A copy of an optional text.
pub fn clone_text(o: &Option<String>) -> (r: Option<String>)
    ensures
        r == *o,
{
    match o {
        Some(s) => Some(s.clone()),
        None => None,
    }
}

/// A copy of a list of texts.
pub fn clone_texts(v: &Vec<String>) -> (r: Vec<String>)
    ensures
        r@ == v@,
{
    let mut r: Vec<String> = Vec::new();
    let mut i: usize = 0;
    while i < v.len()
        invariant
            i <= v.len(),
            r@ == v@.take(i as int),
        decreases v.len() - i,
    {
        r.push(v[i].clone());
        i += 1;
    }
    r
}

/// How well the monitored endpoints can be reached, taken together.
#[derive(Debug, Clone, Copy, PartialEq, Eq, Structural)]
pub enum ConnectivityState {
    Online,
    Degraded,
    Offline,
}

impl ConnectivityState {
    /// The state's name in capitals.
    pub open spec fn label(self) -> Seq<char> {
        match self {
            ConnectivityState::Online => "ONLINE"@,
            ConnectivityState::Degraded => "DEGRADED"@,
            ConnectivityState::Offline => "OFFLINE"@,
        }
    }

    /// The state's name in capitals.
    pub fn to_string(&self) -> (s: String)
        ensures
            s@ == self.label(),
    {
        match self {
            ConnectivityState::Online => "ONLINE".to_owned(),
            ConnectivityState::Degraded => "DEGRADED".to_owned(),
            ConnectivityState::Offline => "OFFLINE".to_owned(),
        }
    }
}

/// The outcome of one reachability check against one endpoint.
#[derive(Debug)]
pub struct PingResult {
    /// The address that was probed.
    pub target: String,
    pub target_name: String,
    pub timestamp: Timestamp,
    pub success: bool,
    /// The round-trip time in microseconds, where the check succeeded and
    /// reported one.
    pub latency_us: Option<u64>,
    /// Why the check failed, where it did.
    pub error: Option<String>,
}

/// The view of a `PingResult`.
pub struct PingResultView {
    pub target: Seq<char>,
    pub target_name: Seq<char>,
    pub timestamp: int,
    pub success: bool,
    pub latency_us: Option<u64>,
    pub error: Option<Seq<char>>,
}

impl View for PingResult {
    type V = PingResultView;

    open spec fn view(&self) -> PingResultView {
        PingResultView {
            target: self.target@,
            target_name: self.target_name@,
            timestamp: self.timestamp@,
            success: self.success,
            latency_us: self.latency_us,
            error: self.error.deep_view(),
        }
    }
}

impl DeepView for PingResult {
    type V = PingResultView;

    open spec fn deep_view(&self) -> PingResultView {
        self@
    }
}

impl Clone for PingResult {
    fn clone(&self) -> (r: Self)
        ensures
            r == *self,
    {
        PingResult {
            target: self.target.clone(),
            target_name: self.target_name.clone(),
            timestamp: self.timestamp,
            success: self.success,
            latency_us: self.latency_us,
            error: clone_text(&self.error),
        }
    }
}

/// One hop of a path trace.
#[derive(Debug)]
pub struct TracerouteHop {
    /// The hop's ordinal, counted from 1 at the probing host.
    pub hop_number: u8,
    /// The address that answered, if one did.
    pub ip: Option<String>,
    pub hostname: Option<String>,
    /// The hop's round-trip time in microseconds, where one was reported.
    pub latency_us: Option<u64>,
    /// Whether the hop did not answer in time.
    pub timeout: bool,
}

/// The view of a `TracerouteHop`.
pub struct HopView {
    pub hop_number: u8,
    pub ip: Option<Seq<char>>,
    pub hostname: Option<Seq<char>>,
    pub latency_us: Option<u64>,
    pub timeout: bool,
}

impl HopView {
    /// Whether the hop answered: it did not time out and has an address.
    pub open spec fn responded(self) -> bool {
        !self.timeout && self.ip is Some
    }
}

impl View for TracerouteHop {
    type V = HopView;

    open spec fn view(&self) -> HopView {
        HopView {
            hop_number: self.hop_number,
            ip: self.ip.deep_view(),
            hostname: self.hostname.deep_view(),
            latency_us: self.latency_us,
            timeout: self.timeout,
        }
    }
}

impl DeepView for TracerouteHop {
    type V = HopView;

    open spec fn deep_view(&self) -> HopView {
        self@
    }
}

impl Clone for TracerouteHop {
    fn clone(&self) -> (r: Self)
        ensures
            r == *self,
    {
        TracerouteHop {
            hop_number: self.hop_number,
            ip: clone_text(&self.ip),
            hostname: clone_text(&self.hostname),
            latency_us: self.latency_us,
            timeout: self.timeout,
        }
    }
}

/// A copy of a list of hops.
pub fn clone_hops(v: &Vec<TracerouteHop>) -> (r: Vec<TracerouteHop>)
    ensures
        r@ == v@,
{
    let mut r: Vec<TracerouteHop> = Vec::new();
    let mut i: usize = 0;
    while i < v.len()
        invariant
            i <= v.len(),
            r@ == v@.take(i as int),
        decreases v.len() - i,
    {
        r.push(v[i].clone());
        i += 1;
    }
    r
}

/// A whole path trace towards one target.
#[derive(Debug)]
pub struct TracerouteResult {
    pub target: String,
    pub timestamp: Timestamp,
    /// The hops in the order in which the trace reported them.
    pub hops: Vec<TracerouteHop>,
    /// Whether the trace reached the target.
    pub success: bool,
}

/// The view of a `TracerouteResult`.
pub struct TraceView {
    pub target: Seq<char>,
    pub timestamp: int,
    pub hops: Seq<HopView>,
    pub success: bool,
}

impl View for TracerouteResult {
    type V = TraceView;

    open spec fn view(&self) -> TraceView {
        TraceView {
            target: self.target@,
            timestamp: self.timestamp@,
            hops: self.hops.deep_view(),
            success: self.success,
        }
    }
}

impl DeepView for TracerouteResult {
    type V = TraceView;

    open spec fn deep_view(&self) -> TraceView {
        self@
    }
}

impl Clone for TracerouteResult {
    fn clone(&self) -> (r: Self)
        ensures
            r@ == self@,
    {
        TracerouteResult {
            target: self.target.clone(),
            timestamp: self.timestamp,
            hops: clone_hops(&self.hops),
            success: self.success,
        }
    }
}

/// An interval during which the endpoints could not be reached.
#[derive(Debug)]
pub struct Outage {
    /// The identifier under which the outage is stored, once it is.
    pub id: Option<i64>,
    pub start_time: Timestamp,
    /// When the outage ended; `None` while it is open.
    pub end_time: Option<Timestamp>,
    /// How long the outage lasted, in milliseconds; `None` while it is open.
    pub duration_ms: Option<i64>,
    /// The addresses that were failing when the outage was detected.
    pub affected_targets: Vec<String>,
    /// The ordinal of the last hop that answered when the path was traced.
    pub failing_hop: Option<u8>,
    /// The address of that hop.
    pub failing_hop_ip: Option<String>,
    pub notes: Option<String>,
}

/// The view of an `Outage`.
pub struct OutageView {
    pub id: Option<i64>,
    pub start_time: int,
    pub end_time: Option<int>,
    pub duration_ms: Option<int>,
    pub affected_targets: Seq<Seq<char>>,
    pub failing_hop: Option<u8>,
    pub failing_hop_ip: Option<Seq<char>>,
    pub notes: Option<Seq<char>>,
}

impl OutageView {
    /// The outage that opens at `start` with the given addresses affected:
    /// not stored, not ended, not diagnosed.
    pub open spec fn opened(affected_targets: Seq<Seq<char>>, start: int) -> OutageView {
        OutageView {
            id: None,
            start_time: start,
            end_time: None,
            duration_ms: None,
            affected_targets,
            failing_hop: None,
            failing_hop_ip: None,
            notes: None,
        }
    }

    /// This outage, ended at `now`: the duration is the time from its start
    /// to `now`.
    pub open spec fn closed(self, now: int) -> OutageView {
        OutageView { end_time: Some(now), duration_ms: Some(now - self.start_time), ..self }
    }
}

/// An outage that opened at `t0` and is closed at `t1`, not before `t0`, has
/// lasted `t1 - t0` milliseconds, which is not negative.
pub proof fn lemma_outage_round_trip(affected_targets: Seq<Seq<char>>, t0: int, t1: int)
    requires
        t0 <= t1,
    ensures
        OutageView::opened(affected_targets, t0).closed(t1).duration_ms == Some(t1 - t0),
        OutageView::opened(affected_targets, t0).closed(t1).duration_ms->0 >= 0,
        OutageView::opened(affected_targets, t0).closed(t1).start_time == t0,
        OutageView::opened(affected_targets, t0).closed(t1).end_time == Some(t1),
{
}

impl View for Outage {
    type V = OutageView;

    open spec fn view(&self) -> OutageView {
        OutageView {
            id: self.id,
            start_time: self.start_time@,
            end_time: self.end_time.deep_view(),
            duration_ms: match self.duration_ms {
                Some(d) => Some(d as int),
                None => None,
            },
            affected_targets: self.affected_targets.deep_view(),
            failing_hop: self.failing_hop,
            failing_hop_ip: self.failing_hop_ip.deep_view(),
            notes: self.notes.deep_view(),
        }
    }
}

impl DeepView for Outage {
    type V = OutageView;

    open spec fn deep_view(&self) -> OutageView {
        self@
    }
}

impl Clone for Outage {
    fn clone(&self) -> (r: Self)
        ensures
            r@ == self@,
    {
        Outage {
            id: self.id,
            start_time: self.start_time,
            end_time: self.end_time,
            duration_ms: self.duration_ms,
            affected_targets: clone_texts(&self.affected_targets),
            failing_hop: self.failing_hop,
            failing_hop_ip: clone_text(&self.failing_hop_ip),
            notes: clone_text(&self.notes),
        }
    }
}

impl Outage {
    /// An outage that opens now.
    pub fn new(affected_targets: Vec<String>) -> (r: Outage)
        ensures
            r@ == OutageView::opened(affected_targets.deep_view(), r.start_time@),
    {
        Outage::started_at(affected_targets, Timestamp::now())
    }

    /// An outage that opens at `start`.
    pub fn started_at(affected_targets: Vec<String>, start: Timestamp) -> (r: Outage)
        ensures
            r@ == OutageView::opened(affected_targets.deep_view(), start@),
            r.start_time == start,
    {
        Outage {
            id: None,
            start_time: start,
            end_time: None,
            duration_ms: None,
            affected_targets,
            failing_hop: None,
            failing_hop_ip: None,
            notes: None,
        }
    }

    /// Ends the outage now.
    pub fn end(&mut self)
        ensures
            final(self).end_time is Some,
            final(self)@ == old(self)@.closed(final(self).end_time->0@),
    {
        self.end_at(Timestamp::now());
    }

    /// Ends the outage at `now`.
    pub fn end_at(&mut self, now: Timestamp)
        ensures
            final(self)@ == old(self)@.closed(now@),
            final(self).end_time == Some(now),
    {
        let d = now.millis_since(&self.start_time);
        self.end_time = Some(now);
        self.duration_ms = Some(d);
    }
}

/// An endpoint to probe.
#[derive(Debug)]
pub struct Target {
    pub name: String,
    /// The endpoint's address, by which it is known.
    pub ip: String,
}

/// The view of a `Target`.
pub struct TargetView {
    pub name: Seq<char>,
    pub ip: Seq<char>,
}

impl View for Target {
    type V = TargetView;

    open spec fn view(&self) -> TargetView {
        TargetView { name: self.name@, ip: self.ip@ }
    }
}

impl DeepView for Target {
    type V = TargetView;

    open spec fn deep_view(&self) -> TargetView {
        self@
    }
}

impl Clone for Target {
    fn clone(&self) -> (r: Self)
        ensures
            r == *self,
    {
        Target { name: self.name.clone(), ip: self.ip.clone() }
    }
}

impl Target {
    /// The endpoint `name` at the address `ip`.
    pub fn new(name: &str, ip: &str) -> (r: Target)
        ensures
            r@ == (TargetView { name: name@, ip: ip@ }),
    {
        Target { name: name.to_owned(), ip: ip.to_owned() }
    }
}

/// A copy of a list of targets.
pub fn clone_targets(v: &Vec<Target>) -> (r: Vec<Target>)
    ensures
        r@ == v@,
{
    let mut r: Vec<Target> = Vec::new();
    let mut i: usize = 0;
    while i < v.len()
        invariant
            i <= v.len(),
            r@ == v@.take(i as int),
        decreases v.len() - i,
    {
        r.push(v[i].clone());
        i += 1;
    }
    r
}

/// An interval of degraded connectivity, which may or may not lead to an
/// outage.
#[derive(Debug)]
pub struct DegradedEvent {
    pub id: Option<i64>,
    pub start_time: Timestamp,
    pub end_time: Option<Timestamp>,
    /// How long the interval lasted, in milliseconds.
    pub duration_ms: Option<i64>,
    /// The identifier of the outage that the interval led to, if it did.
    pub escalated_to_outage_id: Option<i64>,
    pub affected_targets: Vec<String>,
    pub notes: Option<String>,
}

/// The view of a `DegradedEvent`.
pub struct DegradedView {
    pub id: Option<i64>,
    pub start_time: int,
    pub end_time: Option<int>,
    pub duration_ms: Option<int>,
    pub escalated_to_outage_id: Option<i64>,
    pub affected_targets: Seq<Seq<char>>,
    pub notes: Option<Seq<char>>,
}

impl DegradedView {
    /// The interval that begins at `start` with the given addresses affected.
    pub open spec fn opened(affected_targets: Seq<Seq<char>>, start: int) -> DegradedView {
        DegradedView {
            id: None,
            start_time: start,
            end_time: None,
            duration_ms: None,
            escalated_to_outage_id: None,
            affected_targets,
            notes: None,
        }
    }

    /// This interval, ended at `now`.
    pub open spec fn closed(self, now: int) -> DegradedView {
        DegradedView { end_time: Some(now), duration_ms: Some(now - self.start_time), ..self }
    }

    /// This interval, ended at `now` because the outage `outage_id` began.
    pub open spec fn escalated(self, outage_id: i64, now: int) -> DegradedView {
        DegradedView { escalated_to_outage_id: Some(outage_id), ..self }.closed(now)
    }
}

impl View for DegradedEvent {
    type V = DegradedView;

    open spec fn view(&self) -> DegradedView {
        DegradedView {
            id: self.id,
            start_time: self.start_time@,
            end_time: self.end_time.deep_view(),
            duration_ms: match self.duration_ms {
                Some(d) => Some(d as int),
                None => None,
            },
            escalated_to_outage_id: self.escalated_to_outage_id,
            affected_targets: self.affected_targets.deep_view(),
            notes: self.notes.deep_view(),
        }
    }
}

impl DeepView for DegradedEvent {
    type V = DegradedView;

    open spec fn deep_view(&self) -> DegradedView {
        self@
    }
}

impl Clone for DegradedEvent {
    fn clone(&self) -> (r: Self)
        ensures
            r@ == self@,
    {
        DegradedEvent {
            id: self.id,
            start_time: self.start_time,
            end_time: self.end_time,
            duration_ms: self.duration_ms,
            escalated_to_outage_id: self.escalated_to_outage_id,
            affected_targets: clone_texts(&self.affected_targets),
            notes: clone_text(&self.notes),
        }
    }
}

impl DegradedEvent {
    /// An interval of degraded connectivity that begins now.
    pub fn new(affected_targets: Vec<String>) -> (r: DegradedEvent)
        ensures
            r@ == DegradedView::opened(affected_targets.deep_view(), r.start_time@),
    {
        DegradedEvent::started_at(affected_targets, Timestamp::now())
    }

    /// An interval of degraded connectivity that begins at `start`.
    pub fn started_at(affected_targets: Vec<String>, start: Timestamp) -> (r: DegradedEvent)
        ensures
            r@ == DegradedView::opened(affected_targets.deep_view(), start@),
            r.start_time == start,
    {
        DegradedEvent {
            id: None,
            start_time: start,
            end_time: None,
            duration_ms: None,
            escalated_to_outage_id: None,
            affected_targets,
            notes: None,
        }
    }

    /// Ends the interval now.
    pub fn end(&mut self)
        ensures
            final(self).end_time is Some,
            final(self)@ == old(self)@.closed(final(self).end_time->0@),
    {
        self.end_at(Timestamp::now());
    }

    /// Ends the interval at `now`.
    pub fn end_at(&mut self, now: Timestamp)
        ensures
            final(self)@ == old(self)@.closed(now@),
            final(self).end_time == Some(now),
    {
        let d = now.millis_since(&self.start_time);
        self.end_time = Some(now);
        self.duration_ms = Some(d);
    }

    /// Ends the interval now, because the outage `outage_id` began.
    pub fn escalate(&mut self, outage_id: i64)
        ensures
            final(self).end_time is Some,
            final(self)@ == old(self)@.escalated(outage_id, final(self).end_time->0@),
    {
        self.escalate_at(outage_id, Timestamp::now());
    }

    /// Ends the interval at `now`, because the outage `outage_id` began.
    pub fn escalate_at(&mut self, outage_id: i64, now: Timestamp)
        ensures
            final(self)@ == old(self)@.escalated(outage_id, now@),
            final(self).end_time == Some(now),
    {
        self.escalated_to_outage_id = Some(outage_id);
        self.end_at(now);
    }
}

/// What caused a path trace to be run.
#[derive(Debug, Clone, Copy, PartialEq, Eq, Structural)]
pub enum TraceTrigger {
    StateChange,
    Periodic,
    Manual,
}

impl TraceTrigger {
    /// The trigger's name as it is stored.
    pub open spec fn label(self) -> Seq<char> {
        match self {
            TraceTrigger::StateChange => "state_change"@,
            TraceTrigger::Periodic => "periodic"@,
            TraceTrigger::Manual => "manual"@,
        }
    }

    /// The trigger that `s` names, if it names one.
    pub open spec fn named(s: Seq<char>) -> Option<TraceTrigger> {
        if s == "state_change"@ {
            Some(TraceTrigger::StateChange)
        } else if s == "periodic"@ {
            Some(TraceTrigger::Periodic)
        } else if s == "manual"@ {
            Some(TraceTrigger::Manual)
        } else {
            None
        }
    }

    /// The trigger's name as it is stored.
    pub fn to_string(&self) -> (s: String)
        ensures
            s@ == self.label(),
    {
        match self {
            TraceTrigger::StateChange => "state_change".to_owned(),
            TraceTrigger::Periodic => "periodic".to_owned(),
            TraceTrigger::Manual => "manual".to_owned(),
        }
    }

    /// The trigger that `s` names; for any other text an error that quotes
    /// it.
    pub fn from_str(s: &str) -> (r: Result<TraceTrigger, String>)
        ensures
            match r {
                Ok(t) => TraceTrigger::named(s@) == Some(t),
                Err(e) => TraceTrigger::named(s@) is None && e@ == "Unknown trace trigger: "@
                    + s@,
            },
    {
        if same_text(s, "state_change") {
            Ok(TraceTrigger::StateChange)
        } else if same_text(s, "periodic") {
            Ok(TraceTrigger::Periodic)
        } else if same_text(s, "manual") {
            Ok(TraceTrigger::Manual)
        } else {
            let mut e = "Unknown trace trigger: ".to_owned();
            e.append(s);
            Err(e)
        }
    }
}

/// The usual role of the hop with ordinal `hop` on the way out of a home
/// network.
pub open spec fn hop_role(hop: u8) -> Seq<char> {
    if hop == 1 {
        "Gateway"@
    } else if hop == 2 {
        "ISP Modem"@
    } else if hop == 3 {
        "ISP Router"@
    } else {
        "ISP Backbone"@
    }
}

/// The usual role of the hop with ordinal `hop`.
pub fn interpret_hop(hop: u8) -> (r: &'static str)
    ensures
        r@ == hop_role(hop),
{
    match hop {
        1 => "Gateway",
        2 => "ISP Modem",
        3 => "ISP Router",
        _ => "ISP Backbone",
    }
}

} // verus!
