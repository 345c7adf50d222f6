use pingpong::method::Method;
use pingpong::reply::{handle_at, handle_now, Reply};
use pingpong::response::{json_object, HealthResponse, PingResponse, RootResponse};
use pingpong::timestamp::{Timestamp, TS_MAX_SECS};

fn epoch() -> Timestamp {
    Timestamp::from_secs(0)
}

fn timestamp_field(body: &str) -> &str {
    let key = "\"timestamp\":\"";
    let start = body.find(key).expect("body has a timestamp field") + key.len();
    let rest = &body[start..];
    let end = rest.find('"').expect("timestamp field is quoted");
    &rest[..end]
}

fn without_timestamp(body: &str) -> String {
    let ts = timestamp_field(body);
    body.replace(ts, "")
}

fn parsed_seconds(body: &str) -> i64 {
    let ts = timestamp_field(body);
    chrono::DateTime::parse_from_rfc3339(ts)
        .expect("timestamp parses as RFC 3339")
        .timestamp()
}

#[test]
fn clamp_keeps_values_in_range() {
    assert_eq!(Timestamp::from_secs(-5).secs, 0);
    assert_eq!(Timestamp::from_secs(0).secs, 0);
    assert_eq!(Timestamp::from_secs(1431648000).secs, 1431648000);
    assert_eq!(Timestamp::from_secs(i64::MAX).secs, TS_MAX_SECS);
}

#[test]
fn rfc3339_of_epoch_is_exact() {
    assert_eq!(epoch().rfc3339(), "1970-01-01T00:00:00+00:00");
}

#[test]
fn rfc3339_of_known_instant_is_exact() {
    let t = Timestamp::from_secs(1431648000);
    assert_eq!(t.rfc3339(), "2015-05-15T00:00:00+00:00");
}

#[test]
fn pong_body_at_epoch_is_exact() {
    let body = PingResponse::pong(epoch()).to_json();
    assert_eq!(
        body,
        "{\"message\":\"pong\",\"timestamp\":\"1970-01-01T00:00:00+00:00\",\"success\":true}"
    );
}

#[test]
fn not_found_body_at_epoch_is_exact() {
    let body = PingResponse::not_found(epoch()).to_json();
    assert_eq!(
        body,
        "{\"message\":\"Not Found\",\"timestamp\":\"1970-01-01T00:00:00+00:00\",\"success\":false}"
    );
}

#[test]
fn health_body_at_epoch_is_exact() {
    let body = HealthResponse::healthy(epoch()).to_json();
    assert_eq!(
        body,
        "{\"status\":\"healthy\",\"timestamp\":\"1970-01-01T00:00:00+00:00\"}"
    );
}

#[test]
fn welcome_body_is_exact() {
    let body = RootResponse::welcome().to_json();
    assert_eq!(
        body,
        "{\"message\":\"Welcome to the Ping-Pong Server Rust Actix!\",\"endpoints\":{\"ping\":\"/ping\",\"health\":\"/health\"}}"
    );
}

#[test]
fn json_object_of_nothing_is_empty() {
    let pairs: Vec<(String, String)> = Vec::new();
    assert_eq!(json_object(&pairs), "{}");
}

#[test]
fn json_object_of_one_pair_has_no_comma() {
    let pairs = vec![("a".to_string(), "b".to_string())];
    assert_eq!(json_object(&pairs), "{\"a\":\"b\"}");
}

#[test]
fn json_object_of_two_pairs_keeps_order() {
    let pairs = vec![
        ("a".to_string(), "b".to_string()),
        ("c".to_string(), "d".to_string()),
    ];
    assert_eq!(json_object(&pairs), "{\"a\":\"b\",\"c\":\"d\"}");
}

#[test]
fn statuses_follow_the_routing_table() {
    let t = epoch();
    assert_eq!(handle_at(Method::Get, "/", t).status, 200);
    assert_eq!(handle_at(Method::Get, "/ping", t).status, 200);
    assert_eq!(handle_at(Method::Get, "/health", t).status, 200);
    assert_eq!(handle_at(Method::Post, "/ping", t).status, 404);
    assert_eq!(handle_at(Method::Get, "/unknown", t).status, 404);
}

fn assert_standard_headers(rep: &Reply) {
    let has = |k: &str, v: &str| rep.headers.iter().any(|p| p.0 == k && p.1 == v);
    assert!(has("Content-Type", "application/json"));
    assert!(has("Access-Control-Allow-Origin", "*"));
    assert!(has("Access-Control-Allow-Methods", "*"));
    assert!(has("Access-Control-Allow-Headers", "*"));
    assert!(has("Access-Control-Max-Age", "3600"));
}

#[test]
fn every_reply_carries_the_cross_origin_headers() {
    let t = epoch();
    assert_standard_headers(&handle_at(Method::Get, "/", t));
    assert_standard_headers(&handle_at(Method::Get, "/ping", t));
    assert_standard_headers(&handle_at(Method::Get, "/health", t));
    assert_standard_headers(&handle_at(Method::Post, "/nowhere", t));
}

#[test]
fn root_reply_now_is_the_fixed_greeting() {
    let rep = handle_now(Method::Get, "/");
    assert_eq!(rep.status, 200);
    assert_eq!(
        rep.body,
        "{\"message\":\"Welcome to the Ping-Pong Server Rust Actix!\",\"endpoints\":{\"ping\":\"/ping\",\"health\":\"/health\"}}"
    );
}

#[test]
fn ping_reply_now_carries_a_current_timestamp() {
    let before = chrono::Utc::now().timestamp();
    let rep = handle_now(Method::Get, "/ping");
    let after = chrono::Utc::now().timestamp();
    assert_eq!(rep.status, 200);
    assert!(rep.body.contains("\"message\":\"pong\""));
    assert!(rep.body.contains("\"success\":true"));
    let secs = parsed_seconds(&rep.body);
    assert!(before - 1 <= secs && secs <= after + 1);
}

#[test]
fn health_reply_now_carries_a_current_timestamp() {
    let before = chrono::Utc::now().timestamp();
    let rep = handle_now(Method::Get, "/health");
    let after = chrono::Utc::now().timestamp();
    assert_eq!(rep.status, 200);
    assert!(rep.body.contains("\"status\":\"healthy\""));
    let secs = parsed_seconds(&rep.body);
    assert!(before - 1 <= secs && secs <= after + 1);
}

#[test]
fn unmatched_reply_now_is_not_found() {
    let rep = handle_now(Method::Post, "/ping");
    assert_eq!(rep.status, 404);
    assert!(rep.body.contains("\"message\":\"Not Found\""));
    assert!(rep.body.contains("\"success\":false"));
    let other = handle_now(Method::Get, "/unknown");
    assert_eq!(other.status, 404);
    assert!(other.body.contains("\"message\":\"Not Found\""));
}

#[test]
fn repeated_requests_differ_only_in_the_timestamp() {
    let first = handle_now(Method::Get, "/ping");
    let second = handle_now(Method::Get, "/ping");
    assert_eq!(first.status, second.status);
    assert_eq!(first.headers, second.headers);
    assert_eq!(without_timestamp(&first.body), without_timestamp(&second.body));
    assert!(parsed_seconds(&first.body) <= parsed_seconds(&second.body));
}
