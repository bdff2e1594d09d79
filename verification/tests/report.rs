use swatchdog::endpoint::heartbeat_url;
use swatchdog::probe::build_measurement;
use swatchdog::probe::get_uptime;
use swatchdog::probe::ping_text;
use swatchdog::probe::uptime_text;

#[test]
fn send_heartbeat_test() {
    let url = heartbeat_url("http://127.0.0.1/foo", "test_uptime", "test_ping")
        .expect("a valid base URL");
    assert_eq!(url, "http://127.0.0.1/foo?status=up&msg=test_uptime&ping=test_ping");
}

#[test]
fn heartbeat_query_is_fully_replaced() {
    let url = heartbeat_url("https://example.com/report?old=1&stale=2", "up 3m", "12ms")
        .expect("a valid base URL");
    assert_eq!(url, "https://example.com/report?status=up&msg=up+3m&ping=12ms");
}

#[test]
fn heartbeat_values_are_url_encoded() {
    let url = heartbeat_url("http://example.com/", "up 1h 2m", "1.5s & more")
        .expect("a valid base URL");
    assert_eq!(url, "http://example.com/?status=up&msg=up+1h+2m&ping=1.5s+%26+more");
}

#[test]
fn heartbeat_url_rejects_no_url() {
    assert!(heartbeat_url("not a url", "a", "b").is_none());
}

#[test]
fn get_uptime_test() {
    let uptime = get_uptime();
    assert!(uptime.starts_with("up "));
}

#[test]
fn uptime_text_formats_duration() {
    assert_eq!(uptime_text(180), "up 3m");
    assert_eq!(uptime_text(0), "up 0s");
    assert_eq!(uptime_text(3723), "up 1h 2m 3s");
}

#[test]
fn ping_text_formats_latency() {
    assert_eq!(ping_text(Some(12_000_000)), "12ms");
    assert_eq!(ping_text(Some(1_500_000_000)), "1.5s");
    assert_eq!(ping_text(None), "");
}

#[test]
fn measurement_substitutes_placeholder_on_probe_failure() {
    let failed = build_measurement("up 1s".to_string(), None);
    assert_eq!(failed.uptime, "up 1s");
    assert_eq!(failed.ping, "");
    let succeeded = build_measurement("up 1s".to_string(), Some(42_000_000));
    assert_eq!(succeeded.ping, "42ms");
}
