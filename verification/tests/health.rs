use tmux_gateway_core::health::{parse_server_info, HealthStatus};

#[test]
fn parse_server_info_valid() {
    let (pid, _uptime) = parse_server_info("12345\t1700000000\n");
    assert_eq!(pid, Some(12345));
    // uptime depends on current time, just check it's Some
}

#[test]
fn parse_server_info_invalid() {
    let (pid, uptime) = parse_server_info("bad\tdata");
    assert!(pid.is_none());
    assert!(uptime.is_none());
}

#[test]
fn parse_server_info_empty() {
    let (pid, uptime) = parse_server_info("");
    assert!(pid.is_none());
    assert!(uptime.is_none());
}

#[test]
fn display_healthy() {
    let status = HealthStatus {
        available: true,
        version: "tmux 3.4".to_string(),
        session_count: 2,
        client_count: 1,
        uptime_seconds: Some(3600),
        server_pid: Some(12345),
    };
    assert_eq!(
        status.to_string(),
        "healthy (tmux 3.4, 2 sessions, 1 clients)"
    );
}

#[test]
fn display_unavailable() {
    let status = HealthStatus::unavailable();
    assert_eq!(status.to_string(), "unavailable");
}
