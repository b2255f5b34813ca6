use vigil::cli::helpers::{fits_truncation, parse_duration, truncate, MAX_DURATION_SECS};
use vigil::cli::service::{
    generate_plist, plist_path, plist_path_in, read_service_list, ServiceStatus, PLIST_LABEL,
};
use vigil::{log_expired, parse_gateway};
use std::path::PathBuf;

#[test]
fn test_truncate() {
    assert_eq!(truncate("hello", 10), "hello");
    assert_eq!(truncate("hello world", 8), "hello...");
    assert_eq!(truncate("hi", 2), "hi");
}

#[test]
fn test_generate_plist() {
    let plist = generate_plist("/usr/local/bin/networkmonitor");
    assert!(plist.contains("com.kapptec.networkmonitor"));
    assert!(plist.contains("RunAtLoad"));
    assert!(plist.contains("KeepAlive"));
    assert!(plist.contains("--foreground"));
}

#[test]
fn test_plist_path() {
    let path = plist_path().unwrap();
    assert!(path.to_str().unwrap().contains("LaunchAgents"));
    assert!(path.to_str().unwrap().ends_with(".plist"));
}

#[test]
fn test_parse_duration() {
    assert_eq!(parse_duration("24h").unwrap(), 24 * 3_600);
    assert_eq!(parse_duration("7d").unwrap(), 7 * 86_400);
    assert_eq!(parse_duration("30d").unwrap(), 30 * 86_400);
    assert_eq!(parse_duration("1w").unwrap(), 604_800);
    assert_eq!(parse_duration("60s").unwrap(), 60);
    assert_eq!(parse_duration("30m").unwrap(), 30 * 60);
}

#[test]
fn test_parse_duration_errors() {
    assert!(parse_duration("").is_err());
    assert!(parse_duration("abc").is_err());
    assert!(parse_duration("24x").is_err());
}

#[test]
fn truncation_at_the_edges() {
    assert_eq!(truncate("", 0), "");
    assert_eq!(truncate("abcd", 4), "abcd");
    assert_eq!(truncate("abcde", 4), "a...");
    assert_eq!(truncate("abcd", 3), "...");
    assert_eq!(truncate("abcd", 2), "..");
    assert_eq!(truncate("abcd", 1), ".");
    assert_eq!(truncate("abcd", 0), "");
    assert_eq!(truncate("192.168.100.200", 8), "192.1...");
    assert_eq!(truncate("8.8.8.8, 1.1.1.1, 9.9.9.9", 20), "8.8.8.8, 1.1.1.1,...");
}

#[test]
fn truncation_counts_bytes() {
    assert_eq!(truncate("héllo", 6), "héllo");
    assert!(fits_truncation("héllo wörld", 6));
    assert_eq!(truncate("héllo wörld", 6), "hé...");
    assert!(!fits_truncation("héllo wörld", 5));
    assert!(fits_truncation("héllo wörld", 4));
    assert_eq!(truncate("héllo wörld", 4), "h...");
    assert!(fits_truncation("héllo wörld", 3));
    assert_eq!(truncate("héllo wörld", 3), "...");
    assert!(fits_truncation("héllo", 100));
    assert!(!fits_truncation("✓✓✓", 4));
    assert!(!fits_truncation("✓✓✓", 5));
    assert!(fits_truncation("✓✓✓", 6));
    assert_eq!(truncate("✓✓✓", 6), "✓...");
}

#[test]
fn durations_with_signs_and_white_space() {
    assert_eq!(parse_duration("  24h \n"), Ok(86_400));
    assert_eq!(parse_duration("+2m"), Ok(120));
    assert_eq!(parse_duration("-2m"), Ok(-120));
    assert_eq!(parse_duration("0w"), Ok(0));
    assert_eq!(parse_duration("007s"), Ok(7));
}

#[test]
fn durations_that_are_refused() {
    assert_eq!(parse_duration("   "), Err("Empty duration string".to_string()));
    assert_eq!(parse_duration("abc"), Err("Invalid number in duration: ab".to_string()));
    assert_eq!(parse_duration("h"), Err("Invalid number in duration: ".to_string()));
    assert_eq!(parse_duration("2 h"), Err("Invalid number in duration: 2 ".to_string()));
    assert_eq!(parse_duration("1.5h"), Err("Invalid number in duration: 1.5".to_string()));
    assert_eq!(parse_duration("24"), Err("Invalid duration unit '4'. Use s, m, h, d, or w".to_string()));
    assert_eq!(parse_duration("24x"), Err("Invalid duration unit 'x'. Use s, m, h, d, or w".to_string()));
    assert_eq!(parse_duration("24H"), Err("Invalid duration unit 'H'. Use s, m, h, d, or w".to_string()));
    assert_eq!(parse_duration("24é"), Err("Invalid duration unit 'é'. Use s, m, h, d, or w".to_string()));
    assert_eq!(
        parse_duration("9223372036854775808s"),
        Err("Invalid number in duration: 9223372036854775808".to_string())
    );
    assert_eq!(parse_duration("xh"), Err("Invalid number in duration: x".to_string()));
}

#[test]
fn durations_at_the_limit() {
    assert_eq!(MAX_DURATION_SECS, i64::MAX / 1000);
    assert_eq!(parse_duration("9223372036854775s"), Ok(9_223_372_036_854_775));
    assert_eq!(parse_duration("-9223372036854775s"), Ok(-9_223_372_036_854_775));
    assert_eq!(parse_duration("9223372036854776s"), Err("Duration out of range".to_string()));
    assert_eq!(parse_duration("-9223372036854776s"), Err("Duration out of range".to_string()));
    assert_eq!(parse_duration("15250284452w"), Ok(15_250_284_452 * 604_800));
    assert_eq!(parse_duration("15250284453w"), Err("Duration out of range".to_string()));
    assert_eq!(parse_duration("9223372036854775807d"), Err("Duration out of range".to_string()));
    assert_eq!(parse_duration("153722867280912m"), Ok(153_722_867_280_912 * 60));
    assert_eq!(parse_duration("153722867280913m"), Err("Duration out of range".to_string()));
}

#[test]
fn the_service_description_in_full() {
    let expected = r#"<?xml version="1.0" encoding="UTF-8"?>
<!DOCTYPE plist PUBLIC "-//Apple//DTD PLIST 1.0//EN" "http://www.apple.com/DTDs/PropertyList-1.0.dtd">
<plist version="1.0">
<dict>
    <key>Label</key>
    <string>com.kapptec.networkmonitor</string>

    <key>ProgramArguments</key>
    <array>
        <string>/opt/vigil/bin/vigil</string>
        <string>start</string>
        <string>--foreground</string>
    </array>

    <key>RunAtLoad</key>
    <true/>

    <key>KeepAlive</key>
    <true/>

    <key>StandardOutPath</key>
    <string>/tmp/networkmonitor.out.log</string>

    <key>StandardErrorPath</key>
    <string>/tmp/networkmonitor.err.log</string>

    <key>EnvironmentVariables</key>
    <dict>
        <key>RUST_LOG</key>
        <string>info</string>
    </dict>
</dict>
</plist>
"#;
    assert_eq!(generate_plist("/opt/vigil/bin/vigil"), expected);
}

#[test]
fn the_place_of_the_service_description() {
    assert_eq!(PLIST_LABEL, "com.kapptec.networkmonitor");
    assert_eq!(
        plist_path_in(Some(PathBuf::from("/Users/alice"))),
        Some(PathBuf::from(
            "/Users/alice/Library/LaunchAgents/com.kapptec.networkmonitor.plist"
        ))
    );
    assert_eq!(plist_path_in(None), None);
}

#[test]
fn the_list_of_services() {
    let listing = "PID\tStatus\tLabel\n-\t0\tcom.apple.something\n4711\t0\tcom.kapptec.networkmonitor\n12\t0\tcom.kapptec.networkmonitor.helper\n";
    match read_service_list(listing) {
        ServiceStatus::Running { pid } => assert_eq!(pid, Some("4711".to_string())),
        other => panic!("unexpected {:?}", other),
    }
    match read_service_list("-\t78\tcom.kapptec.networkmonitor\n") {
        ServiceStatus::Running { pid } => assert_eq!(pid, None),
        other => panic!("unexpected {:?}", other),
    }
    match read_service_list("com.kapptec.networkmonitor") {
        ServiceStatus::Running { pid } => assert_eq!(pid, Some("com.kapptec.networkmonitor".to_string())),
        other => panic!("unexpected {:?}", other),
    }
    assert!(matches!(read_service_list(""), ServiceStatus::NotRunning));
    assert!(matches!(
        read_service_list("1\t0\tcom.kapptec.network\n2\t0\tmonitor"),
        ServiceStatus::NotRunning
    ));
}

#[test]
fn the_gateway_of_a_routing_report() {
    let report = "   route to: default\ndestination: default\n       mask: default\n    gateway: 192.168.1.1\n  interface: en0\n    gateway: 10.0.0.1\n";
    assert_eq!(parse_gateway(report), Some("192.168.1.1".to_string()));
    assert_eq!(parse_gateway("gateway:"), Some("".to_string()));
    assert_eq!(parse_gateway("gateway:fe80::1%en0  \r\n"), Some("fe80::1%en0".to_string()));
    assert_eq!(parse_gateway("the gateway: 1.2.3.4"), None);
    assert_eq!(parse_gateway("Gateway: 1.2.3.4"), None);
    assert_eq!(parse_gateway("gateway : 1.2.3.4"), None);
    assert_eq!(parse_gateway(""), None);
}

#[test]
fn the_age_at_which_a_log_is_deleted() {
    assert!(!log_expired(0, 0, 0));
    assert!(log_expired(0, 1, 0));
    assert!(!log_expired(86_400, 0, 1));
    assert!(log_expired(86_400, 1, 1));
    assert!(log_expired(86_401, 0, 1));
    assert!(!log_expired(86_399, 999_999_999, 1));
    assert!(!log_expired(90 * 86_400, 0, 90));
    assert!(log_expired(90 * 86_400 + 1, 0, 90));
    assert!(log_expired(u64::MAX, u32::MAX, u32::MAX));
    assert!(!log_expired(u32::MAX as u64 * 86_400, 0, u32::MAX));
}
