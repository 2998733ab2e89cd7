use nanonet_agent::health::HealthStatus;
use nanonet_agent::observe::{
    metrics_frame, process_matches, select_max_key, ObservationParts, TargetProcessParts,
};
use nanonet_agent::status::{agent_status, health_payload, status_payload, StatusSnapshot};
use nanonet_agent::text::{contains_sub, parse_u32, trim_str, u64_to_dec};

#[test]
fn process_matching_is_case_insensitive() {
    // Would fail if the lowercase step handed its argument back unchanged.
    assert!(process_matches("NGINX: worker", "", "nginx"));
    assert!(process_matches("nginx", "", "NGINX"));
    assert!(!process_matches("postgres", "pg_ctl start", "nginx"));
}

#[test]
fn process_matching_also_reads_the_command_line() {
    assert!(process_matches("python3", "/usr/bin/python3 /srv/MyService/run.py", "myservice"));
}

#[test]
fn pid_parsing_follows_std() {
    assert_eq!(parse_u32("12345"), Some(12345));
    assert_eq!(parse_u32("+7"), Some(7));
    assert_eq!(parse_u32("007"), Some(7));
    assert_eq!(parse_u32("4294967295"), Some(u32::MAX));
    assert_eq!(parse_u32("4294967296"), None);
    assert_eq!(parse_u32(""), None);
    assert_eq!(parse_u32("+"), None);
    assert_eq!(parse_u32("12a"), None);
    assert_eq!(parse_u32("nginx"), None);
    assert_eq!(parse_u32("-3"), None);
}

#[test]
fn max_key_selection_takes_the_last_greatest() {
    assert_eq!(select_max_key(&Vec::<(u32, u64)>::new()), None);
    assert_eq!(select_max_key(&vec![(10, 5)]), Some(0));
    assert_eq!(select_max_key(&vec![(1, 5), (2, 9), (3, 2)]), Some(1));
    assert_eq!(select_max_key(&vec![(1, 9), (2, 9), (3, 2)]), Some(1));
}

#[test]
fn decimal_rendering_and_parsing_helpers_agree() {
    assert_eq!(u64_to_dec(0), "0");
    assert_eq!(u64_to_dec(10), "10");
    assert_eq!(u64_to_dec(u64::MAX), u64::MAX.to_string());
    assert_eq!(trim_str("  padded\t\n"), "padded");
    assert_eq!(trim_str("   "), "");
    assert!(contains_sub("hello world", "lo wo"));
    assert!(!contains_sub("hello", "world"));
    assert!(contains_sub("anything", ""));
}

fn observation() -> ObservationParts {
    ObservationParts {
        agent_id: "a-1".to_string(),
        agent_version: "0.2.0".to_string(),
        service_id: "svc".to_string(),
        timestamp: "2026-01-01T00:00:00Z".to_string(),
        cpu_percent: "12.5".to_string(),
        memory_used_mb: "2048.0".to_string(),
        disk_used_gb: "100.25".to_string(),
        app_cpu_percent: None,
        app_memory_used_mb: Some("64.5".to_string()),
        health_status: HealthStatus::Up,
        latency_ms: "102.5".to_string(),
        http_status: Some(200),
        error_rate: "0".to_string(),
        pid: 4242,
        uptime_seconds: 60,
        restart_count: 1,
        target_process: None,
    }
}

#[test]
fn metrics_frame_round_trips_through_json() {
    let frame = metrics_frame(&observation());
    let v: serde_json::Value = serde_json::from_str(&frame).unwrap();
    assert_eq!(v["type"].as_str(), Some("metrics"));
    assert_eq!(v["agent_id"].as_str(), Some("a-1"));
    assert_eq!(v["agent_version"].as_str(), Some("0.2.0"));
    assert_eq!(v["service_id"].as_str(), Some("svc"));
    assert_eq!(v["timestamp"].as_str(), Some("2026-01-01T00:00:00Z"));
    assert_eq!(v["system"]["cpu_percent"].as_f64(), Some(12.5));
    assert_eq!(v["system"]["memory_used_mb"].as_f64(), Some(2048.0));
    assert_eq!(v["system"]["disk_used_gb"].as_f64(), Some(100.25));
    assert!(v["app"]["cpu_percent"].is_null());
    assert_eq!(v["app"]["memory_used_mb"].as_f64(), Some(64.5));
    assert_eq!(v["service"]["status"].as_str(), Some("up"));
    assert_eq!(v["service"]["latency_ms"].as_f64(), Some(102.5));
    assert_eq!(v["service"]["http_status"].as_u64(), Some(200));
    assert_eq!(v["service"]["error_rate"].as_u64(), Some(0));
    assert_eq!(v["process"]["pid"].as_u64(), Some(4242));
    assert_eq!(v["process"]["uptime_seconds"].as_u64(), Some(60));
    assert_eq!(v["process"]["restart_count"].as_u64(), Some(1));
    assert!(v.get("target_process").is_none());
}

#[test]
fn metrics_frame_includes_the_watched_process_when_present() {
    let mut o = observation();
    o.health_status = HealthStatus::Down;
    o.http_status = None;
    o.target_process = Some(TargetProcessParts {
        pid: 77,
        name: "worker \"a\"".to_string(),
        cpu_percent: "55.5".to_string(),
        memory_mb: "12.0".to_string(),
        status: "Sleeping".to_string(),
    });
    let frame = metrics_frame(&o);
    let v: serde_json::Value = serde_json::from_str(&frame).unwrap();
    assert_eq!(v["service"]["status"].as_str(), Some("down"));
    assert!(v["service"]["http_status"].is_null());
    assert_eq!(v["target_process"]["pid"].as_u64(), Some(77));
    assert_eq!(v["target_process"]["name"].as_str(), Some("worker \"a\""));
    assert_eq!(v["target_process"]["cpu_percent"].as_f64(), Some(55.5));
    assert_eq!(v["target_process"]["status"].as_str(), Some("Sleeping"));
}

#[test]
fn agent_status_follows_the_connected_flag() {
    assert_eq!(agent_status(true), "ok");
    assert_eq!(agent_status(false), "degraded");
}

#[test]
fn health_payload_reports_liveness() {
    let v: serde_json::Value =
        serde_json::from_str(&health_payload(true, "0.2.0", 42)).unwrap();
    assert_eq!(v["status"].as_str(), Some("ok"));
    assert_eq!(v["agent_version"].as_str(), Some("0.2.0"));
    assert_eq!(v["ws_connected"].as_bool(), Some(true));
    assert_eq!(v["uptime_seconds"].as_u64(), Some(42));
}

#[test]
fn status_payload_adds_the_counter_snapshot() {
    let s = StatusSnapshot { sent: 5, buffered: 2, dropped: 1, total_buffered: 8, handled: 3 };
    let v: serde_json::Value =
        serde_json::from_str(&status_payload(false, "0.2.0", 7, &s)).unwrap();
    assert_eq!(v["status"].as_str(), Some("degraded"));
    assert_eq!(v["ws_connected"].as_bool(), Some(false));
    assert_eq!(v["metrics"]["sent"].as_u64(), Some(5));
    assert_eq!(v["metrics"]["buffered"].as_u64(), Some(2));
    assert_eq!(v["metrics"]["dropped"].as_u64(), Some(1));
    assert_eq!(v["metrics"]["total_buffered"].as_u64(), Some(8));
    assert_eq!(v["commands"]["handled"].as_u64(), Some(3));
}
