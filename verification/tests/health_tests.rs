use nanonet_agent::health::{check_health, HealthStatus, ProbeOutcome};

#[test]
fn fast_success_is_up_and_not_an_error() {
    let r = check_health(ProbeOutcome::Responded { http_status: 200, latency_ms: 100 });
    assert_eq!(r.status, HealthStatus::Up);
    assert!(!r.is_error);
    assert_eq!(r.latency_ms, 100);
    assert_eq!(r.http_status, Some(200));
}

#[test]
fn slow_success_is_degraded_but_not_an_error() {
    let r = check_health(ProbeOutcome::Responded { http_status: 200, latency_ms: 3000 });
    assert_eq!(r.status, HealthStatus::Degraded);
    assert!(!r.is_error);
}

#[test]
fn latency_threshold_is_exclusive_at_two_seconds() {
    let fast = check_health(ProbeOutcome::Responded { http_status: 204, latency_ms: 1999 });
    assert_eq!(fast.status, HealthStatus::Up);
    let slow = check_health(ProbeOutcome::Responded { http_status: 204, latency_ms: 2000 });
    assert_eq!(slow.status, HealthStatus::Degraded);
}

#[test]
fn server_error_is_degraded_and_an_error() {
    let r = check_health(ProbeOutcome::Responded { http_status: 503, latency_ms: 50 });
    assert_eq!(r.status, HealthStatus::Degraded);
    assert!(r.is_error);
    assert_eq!(r.http_status, Some(503));
}

#[test]
fn client_error_is_degraded_but_not_an_error() {
    let r = check_health(ProbeOutcome::Responded { http_status: 404, latency_ms: 50 });
    assert_eq!(r.status, HealthStatus::Degraded);
    assert!(!r.is_error);
}

#[test]
fn redirect_is_degraded_but_not_an_error() {
    let r = check_health(ProbeOutcome::Responded { http_status: 302, latency_ms: 10 });
    assert_eq!(r.status, HealthStatus::Degraded);
    assert!(!r.is_error);
}

#[test]
fn transport_failure_is_down_with_zero_latency() {
    let r = check_health(ProbeOutcome::Failed);
    assert_eq!(r.status, HealthStatus::Down);
    assert!(r.is_error);
    assert_eq!(r.latency_ms, 0);
    assert_eq!(r.http_status, None);
}

#[test]
fn status_labels_match_the_wire_spelling() {
    assert_eq!(HealthStatus::Up.label(), "up");
    assert_eq!(HealthStatus::Degraded.label(), "degraded");
    assert_eq!(HealthStatus::Down.label(), "down");
}
