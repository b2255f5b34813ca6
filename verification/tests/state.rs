use vigil::clock::Timestamp;
use vigil::config::MonitorConfig;
use vigil::models::{ConnectivityState, PingResult, Target, TracerouteHop, TracerouteResult};
use vigil::monitor::state::{ConnectivityTracker, StateEvent, TargetState};

fn make_config() -> MonitorConfig {
    MonitorConfig {
        ping_interval_ms: 1000,
        ping_timeout_ms: 2000,
        degraded_threshold: 3,
        offline_threshold: 5,
        recovery_threshold: 2,
    }
}

fn make_targets() -> Vec<Target> {
    vec![
        Target::new("Google DNS", "8.8.8.8"),
        Target::new("Cloudflare", "1.1.1.1"),
    ]
}

fn success_ping(target: &str) -> PingResult {
    PingResult {
        target: target.to_string(),
        target_name: "Test".to_string(),
        timestamp: Timestamp::now(),
        success: true,
        latency_us: Some(10_000),
        error: None,
    }
}

fn failure_ping(target: &str) -> PingResult {
    PingResult {
        target: target.to_string(),
        target_name: "Test".to_string(),
        timestamp: Timestamp::now(),
        success: false,
        latency_us: None,
        error: Some("timeout".to_string()),
    }
}

fn at(ms: i64) -> Timestamp {
    Timestamp::from_millis(ms).unwrap()
}

fn hop(n: u8, ip: Option<&str>) -> TracerouteHop {
    TracerouteHop {
        hop_number: n,
        ip: ip.map(|s| s.to_string()),
        hostname: None,
        latency_us: ip.map(|_| 1_000),
        timeout: ip.is_none(),
    }
}

#[test]
fn test_initial_state_online() {
    let config = make_config();
    let targets = make_targets();
    let tracker = ConnectivityTracker::new(&config, &targets);

    assert_eq!(tracker.state(), ConnectivityState::Online);
    assert!(tracker.current_outage().is_none());
}

#[test]
fn test_online_to_degraded() {
    let config = make_config();
    let targets = make_targets();
    let mut tracker = ConnectivityTracker::new(&config, &targets);

    for i in 0..3 {
        let event = tracker.process(&failure_ping("8.8.8.8"));
        if i < 2 {
            assert!(matches!(event, StateEvent::NoChange));
            assert_eq!(tracker.state(), ConnectivityState::Online);
        } else {
            assert!(matches!(event, StateEvent::Degraded { .. }));
            assert_eq!(tracker.state(), ConnectivityState::Degraded);
        }
    }
}

#[test]
fn test_degraded_to_offline() {
    let config = make_config();
    let targets = make_targets();
    let mut tracker = ConnectivityTracker::new(&config, &targets);

    for _ in 0..3 {
        tracker.process(&failure_ping("8.8.8.8"));
    }
    assert_eq!(tracker.state(), ConnectivityState::Degraded);

    for i in 3..5 {
        let event = tracker.process(&failure_ping("8.8.8.8"));
        if i < 4 {
            assert!(matches!(event, StateEvent::NoChange));
        } else {
            assert!(matches!(event, StateEvent::Offline { .. }));
            assert_eq!(tracker.state(), ConnectivityState::Offline);
        }
    }

    assert!(tracker.current_outage().is_some());
}

#[test]
fn test_offline_to_online_recovery() {
    let config = make_config();
    let targets = make_targets();
    let mut tracker = ConnectivityTracker::new(&config, &targets);

    for _ in 0..5 {
        tracker.process(&failure_ping("8.8.8.8"));
    }
    assert_eq!(tracker.state(), ConnectivityState::Offline);
    assert!(tracker.current_outage().is_some());

    tracker.process(&success_ping("8.8.8.8"));
    assert_eq!(tracker.state(), ConnectivityState::Offline);

    let event = tracker.process(&success_ping("8.8.8.8"));
    assert!(matches!(event, StateEvent::Recovered { .. }));
    assert_eq!(tracker.state(), ConnectivityState::Online);
    assert!(tracker.current_outage().is_none());

    if let StateEvent::Recovered { outage } = event {
        assert!(outage.duration_ms.is_some());
        assert!(outage.end_time.is_some());
    }
}

#[test]
fn test_degraded_recovery_without_outage() {
    let config = make_config();
    let targets = make_targets();
    let mut tracker = ConnectivityTracker::new(&config, &targets);

    for _ in 0..3 {
        tracker.process(&failure_ping("8.8.8.8"));
    }
    assert_eq!(tracker.state(), ConnectivityState::Degraded);

    for _ in 0..2 {
        tracker.process(&success_ping("8.8.8.8"));
    }

    assert_eq!(tracker.state(), ConnectivityState::Online);
    assert!(tracker.current_outage().is_none());
}

#[test]
fn test_single_failure_no_state_change() {
    let config = make_config();
    let targets = make_targets();
    let mut tracker = ConnectivityTracker::new(&config, &targets);

    let event = tracker.process(&failure_ping("8.8.8.8"));
    assert!(matches!(event, StateEvent::NoChange));
    assert_eq!(tracker.state(), ConnectivityState::Online);

    tracker.process(&success_ping("8.8.8.8"));
    assert_eq!(tracker.state(), ConnectivityState::Online);
}

#[test]
fn test_flap_prevention() {
    let config = make_config();
    let targets = make_targets();
    let mut tracker = ConnectivityTracker::new(&config, &targets);

    for _ in 0..3 {
        tracker.process(&failure_ping("8.8.8.8"));
    }
    assert_eq!(tracker.state(), ConnectivityState::Degraded);

    tracker.process(&success_ping("8.8.8.8"));
    tracker.process(&failure_ping("8.8.8.8"));

    assert_eq!(tracker.state(), ConnectivityState::Degraded);
}

#[test]
fn test_target_state_tracking() {
    let config = make_config();
    let targets = make_targets();
    let mut tracker = ConnectivityTracker::new(&config, &targets);

    tracker.process(&failure_ping("8.8.8.8"));

    let failing = tracker.failing_targets();
    assert_eq!(failing.len(), 1);
    assert_eq!(failing[0].target.ip, "8.8.8.8");

    let cloudflare = tracker.target_state("1.1.1.1").unwrap();
    assert!(!cloudflare.is_failing());
}

#[test]
fn single_endpoint_scenario_from_first_failure_to_recovery() {
    let config = make_config();
    let targets = vec![Target::new("Google DNS", "8.8.8.8")];
    let mut tracker = ConnectivityTracker::new(&config, &targets);

    let mut seen = Vec::new();
    for i in 0..5 {
        let event = tracker.process_at(&failure_ping("8.8.8.8"), at(1_000 * (i + 1)));
        seen.push(match event {
            StateEvent::NoChange => "none",
            StateEvent::Degraded { .. } => "degraded",
            StateEvent::Offline { .. } => "offline",
            StateEvent::Recovered { .. } => "recovered",
        });
    }
    assert_eq!(seen, vec!["none", "none", "degraded", "none", "offline"]);
    assert_eq!(tracker.state(), ConnectivityState::Offline);
    let open = tracker.current_outage().unwrap();
    assert_eq!(open.start_time, at(5_000));
    assert_eq!(open.affected_targets, vec!["8.8.8.8".to_string()]);
    assert!(open.end_time.is_none());

    let event = tracker.process_at(&success_ping("8.8.8.8"), at(6_000));
    assert!(matches!(event, StateEvent::NoChange));
    assert_eq!(tracker.state(), ConnectivityState::Offline);

    let event = tracker.process_at(&success_ping("8.8.8.8"), at(7_500));
    match event {
        StateEvent::Recovered { outage } => {
            assert_eq!(outage.start_time, at(5_000));
            assert_eq!(outage.end_time, Some(at(7_500)));
            assert_eq!(outage.duration_ms, Some(2_500));
            assert!(outage.duration_ms.unwrap() > 0);
        }
        other => panic!("expected a recovery, got {:?}", other),
    }
    assert_eq!(tracker.state(), ConnectivityState::Online);
    assert!(tracker.current_outage().is_none());
}

#[test]
fn fewer_failures_than_the_threshold_report_nothing() {
    let config = make_config();
    let targets = make_targets();
    let mut tracker = ConnectivityTracker::new(&config, &targets);
    for _ in 0..2 {
        let event = tracker.process(&failure_ping("1.1.1.1"));
        assert!(matches!(event, StateEvent::NoChange));
        assert_eq!(tracker.state(), ConnectivityState::Online);
    }
}

#[test]
fn degraded_is_reported_once_with_the_failing_addresses() {
    let config = make_config();
    let targets = make_targets();
    let mut tracker = ConnectivityTracker::new(&config, &targets);
    let mut degraded = 0;
    for i in 0..4 {
        let ping = if i % 2 == 0 { failure_ping("1.1.1.1") } else { failure_ping("8.8.8.8") };
        if let StateEvent::Degraded { failing_targets } = tracker.process(&ping) {
            degraded += 1;
            assert_eq!(i, 2);
            assert_eq!(failing_targets, vec!["8.8.8.8".to_string(), "1.1.1.1".to_string()]);
        }
    }
    assert_eq!(degraded, 1);
}

#[test]
fn one_failing_endpoint_keeps_the_tick_failing() {
    let config = make_config();
    let targets = make_targets();
    let mut tracker = ConnectivityTracker::new(&config, &targets);
    tracker.process(&failure_ping("8.8.8.8"));
    tracker.process(&success_ping("1.1.1.1"));
    let event = tracker.process(&success_ping("1.1.1.1"));
    assert!(matches!(event, StateEvent::Degraded { .. }));
}

#[test]
fn an_outcome_for_an_unknown_address_changes_no_endpoint() {
    let config = make_config();
    let targets = make_targets();
    let mut tracker = ConnectivityTracker::new(&config, &targets);
    for _ in 0..5 {
        let event = tracker.process(&failure_ping("9.9.9.9"));
        assert!(matches!(event, StateEvent::NoChange));
    }
    assert!(tracker.failing_targets().is_empty());
    assert!(tracker.target_state("9.9.9.9").is_none());
    assert_eq!(tracker.state(), ConnectivityState::Online);
}

#[test]
fn a_repeated_address_is_tracked_once_under_its_last_name() {
    let config = make_config();
    let targets = vec![
        Target::new("First", "8.8.8.8"),
        Target::new("Other", "1.1.1.1"),
        Target::new("Second", "8.8.8.8"),
    ];
    let tracker = ConnectivityTracker::new(&config, &targets);
    let states = tracker.target_states();
    assert_eq!(states.len(), 2);
    assert_eq!(states[0].target.ip, "8.8.8.8");
    assert_eq!(states[0].target.name, "Second");
    assert_eq!(states[1].target.ip, "1.1.1.1");
}

#[test]
fn target_state_counts_runs() {
    let mut state = TargetState::new(Target::new("Google DNS", "8.8.8.8"));
    assert!(!state.is_failing());
    state.update(&failure_ping("8.8.8.8"));
    state.update(&failure_ping("8.8.8.8"));
    assert_eq!(state.consecutive_failures, 2);
    assert_eq!(state.consecutive_successes, 0);
    assert!(state.is_failing());
    state.update(&success_ping("8.8.8.8"));
    assert_eq!(state.consecutive_failures, 0);
    assert_eq!(state.consecutive_successes, 1);
    assert!(state.last_result.as_ref().unwrap().success);
}

#[test]
fn target_state_counters_stop_at_the_largest_value() {
    let mut state = TargetState::new(Target::new("Google DNS", "8.8.8.8"));
    state.consecutive_failures = u32::MAX - 1;
    state.update(&failure_ping("8.8.8.8"));
    assert_eq!(state.consecutive_failures, u32::MAX);
    state.update(&failure_ping("8.8.8.8"));
    assert_eq!(state.consecutive_failures, u32::MAX);
}

fn offline_tracker() -> ConnectivityTracker {
    let config = make_config();
    let targets = make_targets();
    let mut tracker = ConnectivityTracker::new(&config, &targets);
    for i in 0..5 {
        tracker.process_at(&failure_ping("8.8.8.8"), at(1_000 * (i + 1)));
    }
    assert_eq!(tracker.state(), ConnectivityState::Offline);
    tracker
}

#[test]
fn the_diagnosis_is_written_into_the_open_outage_once() {
    let mut tracker = offline_tracker();
    assert!(tracker.awaiting_diagnosis());
    assert_eq!(tracker.diagnosis_target(), "8.8.8.8");
    assert!(tracker.last_diagnosis().is_none());

    let trace = TracerouteResult {
        target: "8.8.8.8".to_string(),
        timestamp: at(5_100),
        hops: vec![hop(1, Some("192.168.1.1")), hop(2, Some("10.0.0.1")), hop(3, None)],
        success: false,
    };
    let outage = tracker.record_diagnosis(trace).unwrap();
    assert_eq!(outage.failing_hop, Some(2));
    assert_eq!(outage.failing_hop_ip, Some("10.0.0.1".to_string()));
    assert!(!tracker.awaiting_diagnosis());
    assert_eq!(tracker.current_outage().unwrap().failing_hop, Some(2));
    assert_eq!(tracker.last_diagnosis().unwrap().hops.len(), 3);

    let second = TracerouteResult {
        target: "8.8.8.8".to_string(),
        timestamp: at(5_200),
        hops: vec![hop(1, Some("192.168.1.1"))],
        success: false,
    };
    assert!(tracker.record_diagnosis(second).is_none());
    assert_eq!(tracker.current_outage().unwrap().failing_hop, Some(2));
    assert_eq!(tracker.last_diagnosis().unwrap().hops.len(), 3);
}

#[test]
fn a_diagnosis_without_a_failing_hop_leaves_the_outage_as_it_is() {
    let mut tracker = offline_tracker();
    let trace = TracerouteResult {
        target: "8.8.8.8".to_string(),
        timestamp: at(5_100),
        hops: vec![hop(1, None), hop(2, None)],
        success: false,
    };
    let outage = tracker.record_diagnosis(trace).unwrap();
    assert_eq!(outage.failing_hop, None);
    assert_eq!(outage.failing_hop_ip, None);
    assert!(tracker.last_diagnosis().is_some());
}

#[test]
fn a_diagnosis_with_no_outage_open_is_dropped() {
    let config = make_config();
    let targets = make_targets();
    let mut tracker = ConnectivityTracker::new(&config, &targets);
    let trace = TracerouteResult {
        target: "8.8.8.8".to_string(),
        timestamp: at(1),
        hops: vec![hop(1, Some("192.168.1.1"))],
        success: false,
    };
    assert!(tracker.record_diagnosis(trace).is_none());
    assert!(tracker.last_diagnosis().is_none());
}

#[test]
fn the_diagnosis_target_without_endpoints_is_the_fallback() {
    let config = make_config();
    let tracker = ConnectivityTracker::new(&config, &[]);
    assert_eq!(tracker.diagnosis_target(), "8.8.8.8");
    let targets = vec![Target::new("Gateway", "192.168.1.1"), Target::new("Google DNS", "8.8.8.8")];
    let tracker = ConnectivityTracker::new(&config, &targets);
    assert_eq!(tracker.diagnosis_target(), "192.168.1.1");
}

#[test]
fn closing_without_an_open_outage_does_nothing() {
    let config = make_config();
    let targets = make_targets();
    let mut tracker = ConnectivityTracker::new(&config, &targets);
    assert!(tracker.force_close("Monitor shutdown during outage").is_none());
    assert!(tracker.force_close_at(at(10), "Monitor shutdown during outage").is_none());
    assert_eq!(tracker.state(), ConnectivityState::Online);
    assert!(tracker.current_outage().is_none());
    assert!(!tracker.set_outage_id(7));
}

#[test]
fn closing_by_force_ends_the_open_outage_with_a_note() {
    let mut tracker = offline_tracker();
    assert!(tracker.set_outage_id(42));
    let closed = tracker.force_close_at(at(9_000), "Monitor shutdown during outage").unwrap();
    assert_eq!(closed.id, Some(42));
    assert_eq!(closed.start_time, at(5_000));
    assert_eq!(closed.end_time, Some(at(9_000)));
    assert_eq!(closed.duration_ms, Some(4_000));
    assert_eq!(closed.notes, Some("Monitor shutdown during outage".to_string()));
    assert_eq!(tracker.state(), ConnectivityState::Offline);
    assert_eq!(tracker.current_outage().unwrap().end_time, Some(at(9_000)));
}

#[test]
fn a_second_outage_opens_only_after_the_first_has_ended() {
    let mut tracker = offline_tracker();
    for i in 0..10 {
        let event = tracker.process_at(&failure_ping("8.8.8.8"), at(6_000 + i));
        assert!(matches!(event, StateEvent::NoChange));
        assert_eq!(tracker.current_outage().unwrap().start_time, at(5_000));
    }
    tracker.process_at(&success_ping("8.8.8.8"), at(7_000));
    let event = tracker.process_at(&success_ping("8.8.8.8"), at(8_000));
    assert!(matches!(event, StateEvent::Recovered { .. }));
    assert!(tracker.current_outage().is_none());
    let mut opened = 0;
    for i in 0..5 {
        if let StateEvent::Offline { outage } = tracker.process_at(&failure_ping("8.8.8.8"), at(9_000 + i)) {
            opened += 1;
            assert_eq!(outage.start_time, at(9_000 + i));
        }
    }
    assert_eq!(opened, 1);
}

#[test]
fn a_clone_of_an_event_is_the_same_event() {
    let event = StateEvent::Degraded { failing_targets: vec!["8.8.8.8".to_string()] };
    match event.clone() {
        StateEvent::Degraded { failing_targets } => assert_eq!(failing_targets, vec!["8.8.8.8".to_string()]),
        other => panic!("unexpected {:?}", other),
    }
}

#[test]
fn a_diagnosis_that_comes_after_the_next_outcome_is_not_taken() {
    let mut tracker = offline_tracker();
    assert!(tracker.awaiting_diagnosis());
    let event = tracker.process_at(&failure_ping("8.8.8.8"), at(5_500));
    assert!(matches!(event, StateEvent::NoChange));
    assert!(!tracker.awaiting_diagnosis());
    let trace = TracerouteResult {
        target: "8.8.8.8".to_string(),
        timestamp: at(5_600),
        hops: vec![hop(1, Some("192.168.1.1"))],
        success: false,
    };
    assert!(tracker.record_diagnosis(trace).is_none());
    assert_eq!(tracker.current_outage().unwrap().failing_hop, None);
    assert!(tracker.last_diagnosis().is_none());
    assert_eq!(tracker.current_outage().unwrap().start_time, at(5_000));
}

#[test]
fn recovery_keeps_the_diagnosis_in_the_closed_outage() {
    let mut tracker = offline_tracker();
    let trace = TracerouteResult {
        target: "8.8.8.8".to_string(),
        timestamp: at(5_100),
        hops: vec![hop(1, Some("192.168.1.1")), hop(2, None)],
        success: false,
    };
    tracker.record_diagnosis(trace);
    tracker.set_outage_id(3);
    tracker.process_at(&success_ping("8.8.8.8"), at(6_000));
    match tracker.process_at(&success_ping("8.8.8.8"), at(7_000)) {
        StateEvent::Recovered { outage } => {
            assert_eq!(outage.id, Some(3));
            assert_eq!(outage.failing_hop, Some(1));
            assert_eq!(outage.failing_hop_ip, Some("192.168.1.1".to_string()));
            assert_eq!(outage.duration_ms, Some(2_000));
        }
        other => panic!("expected a recovery, got {:?}", other),
    }
    assert_eq!(tracker.last_diagnosis().unwrap().hops.len(), 2);
}

#[test]
fn thresholds_of_one_change_the_state_at_once() {
    let config = MonitorConfig {
        ping_interval_ms: 1000,
        ping_timeout_ms: 2000,
        degraded_threshold: 1,
        offline_threshold: 1,
        recovery_threshold: 1,
    };
    let targets = make_targets();
    let mut tracker = ConnectivityTracker::new(&config, &targets);
    assert!(matches!(tracker.process(&failure_ping("8.8.8.8")), StateEvent::Degraded { .. }));
    assert!(matches!(tracker.process(&failure_ping("8.8.8.8")), StateEvent::Offline { .. }));
    assert!(matches!(tracker.process(&failure_ping("1.1.1.1")), StateEvent::NoChange));
    assert!(matches!(tracker.process(&success_ping("8.8.8.8")), StateEvent::NoChange));
    assert!(matches!(tracker.process(&success_ping("1.1.1.1")), StateEvent::Recovered { .. }));
    assert_eq!(tracker.state(), ConnectivityState::Online);
}

#[test]
fn thresholds_of_zero_are_reached_by_every_tick() {
    let config = MonitorConfig {
        ping_interval_ms: 1000,
        ping_timeout_ms: 2000,
        degraded_threshold: 0,
        offline_threshold: 0,
        recovery_threshold: 0,
    };
    let targets = make_targets();
    let mut tracker = ConnectivityTracker::new(&config, &targets);
    match tracker.process(&success_ping("8.8.8.8")) {
        StateEvent::Degraded { failing_targets } => assert!(failing_targets.is_empty()),
        other => panic!("unexpected {:?}", other),
    }
    assert!(matches!(tracker.process(&success_ping("8.8.8.8")), StateEvent::NoChange));
    assert_eq!(tracker.state(), ConnectivityState::Online);
    assert!(matches!(tracker.process(&failure_ping("8.8.8.8")), StateEvent::Degraded { .. }));
    assert!(matches!(tracker.process(&failure_ping("8.8.8.8")), StateEvent::Offline { .. }));
    assert!(matches!(tracker.process(&success_ping("8.8.8.8")), StateEvent::Recovered { .. }));
}
