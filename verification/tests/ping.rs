use vigil::clock::Timestamp;
use vigil::config::Config;
use vigil::models::Target;
use vigil::monitor::ping::{
    parse_error, parse_latency, ping_args, ping_launch_failed, read_ping_report, PingMonitor,
    PING_PROGRAM,
};

fn millis(us: Option<u64>) -> Option<f64> {
    us.map(|us| us as f64 / 1000.0)
}

#[test]
fn test_parse_latency_success() {
    let output = r#"PING 8.8.8.8 (8.8.8.8): 56 data bytes
64 bytes from 8.8.8.8: icmp_seq=0 ttl=117 time=14.123 ms

--- 8.8.8.8 ping statistics ---
1 packets transmitted, 1 packets received, 0.0% packet loss
round-trip min/avg/max/stddev = 14.123/14.123/14.123/0.000 ms"#;

    let latency = parse_latency(output);
    assert_eq!(millis(latency), Some(14.123));
    assert_eq!(latency, Some(14_123));
}

#[test]
fn test_parse_latency_sub_millisecond() {
    let output = "64 bytes from 127.0.0.1: icmp_seq=0 ttl=64 time=0.042 ms";
    let latency = parse_latency(output);
    assert_eq!(millis(latency), Some(0.042));
    assert_eq!(latency, Some(42));
}

#[test]
fn test_parse_latency_no_match() {
    let output = "Request timeout for icmp_seq 0";
    let latency = parse_latency(output);
    assert!(latency.is_none());
}

#[test]
fn test_parse_error_timeout() {
    let stdout = r#"PING 8.8.8.8 (8.8.8.8): 56 data bytes

--- 8.8.8.8 ping statistics ---
1 packets transmitted, 0 packets received, 100.0% packet loss"#;

    let error = parse_error(stdout, "");
    assert_eq!(error, "Request timeout");
}

#[test]
fn test_parse_error_no_route() {
    let stdout = "ping: sendto: No route to host";
    let error = parse_error(stdout, "");
    assert_eq!(error, "No route to host");
}

#[test]
fn test_parse_error_network_unreachable() {
    let stdout = "ping: sendto: Network is unreachable";
    let error = parse_error(stdout, "");
    assert_eq!(error, "Network unreachable");
}

#[test]
fn test_ping_monitor_creation() {
    let config = Config::default();
    let monitor = PingMonitor::new(&config);
    assert!(!monitor.targets().is_empty());
}

#[test]
fn latency_of_several_digits_and_without_fraction() {
    assert_eq!(parse_latency("time=1234.5 ms"), Some(1_234_500));
    assert_eq!(parse_latency("time=7 ms"), Some(7_000));
    assert_eq!(parse_latency("time=7ms"), Some(7_000));
    assert_eq!(parse_latency("time=3."), Some(3_000));
    assert_eq!(parse_latency("time=.5 ms"), Some(500));
    assert_eq!(parse_latency("time=0.0429 ms"), Some(42));
}

#[test]
fn latency_is_taken_from_the_first_line_that_states_one() {
    assert_eq!(parse_latency("time=abc ms\ntime=2.5 ms\ntime=9 ms"), Some(2_500));
    assert_eq!(parse_latency("time=x time=2.5 ms\ntime=9 ms"), Some(9_000));
    assert_eq!(parse_latency("a time=1.5 ms time=2.5 ms"), Some(1_500));
    assert_eq!(parse_latency("time= 5 ms"), None);
    assert_eq!(parse_latency("time=-5 ms"), None);
    assert_eq!(parse_latency("time=1e3 ms"), None);
    assert_eq!(parse_latency("time=1.2.3 ms"), None);
    assert_eq!(parse_latency(""), None);
}

#[test]
fn latency_line_endings() {
    assert_eq!(parse_latency("x\r\ntime=1.5\r\ny"), Some(1_500));
    assert_eq!(parse_latency("time=1.5\r"), None);
    assert_eq!(parse_latency("time=1.5\n"), Some(1_500));
}

#[test]
fn latency_too_large_to_hold_is_not_read() {
    assert_eq!(parse_latency("time=18446744073709551.615 ms"), Some(u64::MAX));
    assert_eq!(parse_latency("time=18446744073709551.616 ms"), None);
    assert_eq!(parse_latency("time=99999999999999999999 ms"), None);
}

#[test]
fn error_of_all_packets_lost_without_decimals() {
    assert_eq!(parse_error("1 packets transmitted, 0 received, 100% packet loss", ""), "Request timeout");
}

#[test]
fn error_of_dns() {
    assert_eq!(parse_error("", "ping: cannot resolve example.invalid: Unknown host"), "DNS resolution failed");
    assert_eq!(parse_error("", "ping: cannot resolve x"), "DNS resolution failed");
    assert_eq!(parse_error("", "ping: Unknown host"), "DNS resolution failed");
}

#[test]
fn error_falls_back_to_the_first_line_of_the_error_output() {
    assert_eq!(parse_error("", "ping: permission denied\nsecond line"), "ping: permission denied");
    assert_eq!(parse_error("nothing of note", "boom\r\nmore"), "boom");
    assert_eq!(parse_error("", "\nsecond"), "");
    assert_eq!(parse_error("", ""), "Ping failed");
    assert_eq!(parse_error("some output", ""), "Ping failed");
}

#[test]
fn error_reasons_are_tried_in_order() {
    assert_eq!(
        parse_error("No route to host, 100% packet loss, Network is unreachable", "Unknown host"),
        "Request timeout"
    );
    assert_eq!(parse_error("Network is unreachable, No route to host", "Unknown host"), "No route to host");
    assert_eq!(parse_error("Network is unreachable", "Unknown host"), "Network unreachable");
    assert_eq!(parse_error("", "No route to host"), "No route to host");
}

#[test]
fn arguments_of_the_probe() {
    assert_eq!(PING_PROGRAM, "ping");
    assert_eq!(ping_args("8.8.8.8", 2000), vec!["-c", "1", "-W", "2000", "8.8.8.8"]);
    assert_eq!(ping_args("::1", 0), vec!["-c", "1", "-W", "0", "::1"]);
    assert_eq!(
        ping_args("h", u64::MAX),
        vec!["-c", "1", "-W", "18446744073709551615", "h"]
    );
}

#[test]
fn outcome_of_a_check_that_ended_well() {
    let t = Timestamp::from_millis(1_700_000_000_000).unwrap();
    let r = read_ping_report(
        "8.8.8.8",
        "Google DNS",
        t,
        true,
        "64 bytes from 8.8.8.8: icmp_seq=0 ttl=117 time=14.123 ms",
        "",
    );
    assert_eq!(r.target, "8.8.8.8");
    assert_eq!(r.target_name, "Google DNS");
    assert_eq!(r.timestamp, t);
    assert!(r.success);
    assert_eq!(r.latency_us, Some(14_123));
    assert_eq!(r.error, None);

    let r = read_ping_report("8.8.8.8", "Google DNS", t, true, "no time here", "");
    assert!(r.success);
    assert_eq!(r.latency_us, None);
    assert_eq!(r.error, None);
}

#[test]
fn outcome_of_a_check_that_failed() {
    let t = Timestamp::from_millis(5).unwrap();
    let r = read_ping_report(
        "192.0.2.1",
        "test",
        t,
        false,
        "time=3.0 ms\n1 packets transmitted, 0 packets received, 100.0% packet loss",
        "",
    );
    assert!(!r.success);
    assert_eq!(r.latency_us, None);
    assert_eq!(r.error, Some("Request timeout".to_string()));
}

#[test]
fn outcome_of_a_check_that_could_not_be_run() {
    let t = Timestamp::from_millis(5).unwrap();
    let r = ping_launch_failed("8.8.8.8", "Google DNS", t, "No such file or directory (os error 2)");
    assert_eq!(r.target, "8.8.8.8");
    assert_eq!(r.target_name, "Google DNS");
    assert_eq!(r.timestamp, t);
    assert!(!r.success);
    assert_eq!(r.latency_us, None);
    assert_eq!(
        r.error,
        Some("Failed to execute ping: No such file or directory (os error 2)".to_string())
    );
}

#[test]
fn monitor_settings() {
    let config = Config::default();
    let monitor = PingMonitor::new(&config);
    assert_eq!(monitor.targets().len(), 2);
    assert_eq!(monitor.targets()[0].ip, "8.8.8.8");
    assert_eq!(monitor.targets()[1].name, "Cloudflare");
    assert_eq!(monitor.interval_ms(), 1000);
    assert_eq!(monitor.timeout_ms(), 2000);
    assert_eq!(
        monitor.command_args(&monitor.targets()[1]),
        vec!["-c", "1", "-W", "2000", "1.1.1.1"]
    );

    let own = PingMonitor::with_settings(vec![Target::new("Local", "127.0.0.1")], 250, 900);
    assert_eq!(own.targets().len(), 1);
    assert_eq!(own.interval_ms(), 250);
    assert_eq!(own.timeout_ms(), 900);
    let copy = own.clone();
    assert_eq!(copy.targets()[0].ip, "127.0.0.1");
    assert_eq!(copy.timeout_ms(), 900);
}
