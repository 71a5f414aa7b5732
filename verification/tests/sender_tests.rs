use live_metrics::sender::{
    interpret_response, SenderState, FALLBACK_INTERVAL_MS, PING_INTERVAL_MS, POST_INTERVAL_MS,
};
use live_metrics::uri::UriParts;

fn endpoint(path: &str) -> UriParts {
    UriParts {
        scheme: String::from("https"),
        authority: String::from("live.example.com"),
        path_and_query: String::from(path),
    }
}

fn state(now_ms: u64) -> SenderState {
    SenderState::new(endpoint("/post"), endpoint("/ping"), now_ms, 0x00c0ffee)
}

#[test]
fn stream_id_is_32_hex_digits() {
    let s = state(0);
    assert_eq!(s.stream_id.len(), 32);
    assert_eq!(s.stream_id, format!("{:032x}", 0x00c0ffee_u128));
    assert!(s.stream_id.chars().all(|c| c.is_ascii_hexdigit()));
}

#[test]
fn stream_id_stays_for_the_lifetime() {
    let mut s = state(0);
    let first = s.stream_id.clone();
    let res = interpret_response(200, Some("true"), Some("10000"), Some("https://r.example/")).unwrap();
    s.conclude(false, Some(res), 5_000);
    s.conclude(true, None, 6_000);
    assert_eq!(s.stream_id, first);
}

#[test]
fn non_2xx_is_a_failure() {
    assert!(interpret_response(500, Some("true"), None, None).is_none());
    assert!(interpret_response(199, Some("true"), None, None).is_none());
    assert!(interpret_response(300, Some("true"), None, None).is_none());
    assert!(interpret_response(204, None, None, None).is_some());
}

#[test]
fn subscribed_header_is_case_insensitive() {
    assert!(interpret_response(200, Some("true"), None, None).unwrap().should_post);
    assert!(interpret_response(200, Some("TRUE"), None, None).unwrap().should_post);
    assert!(interpret_response(200, Some("TrUe"), None, None).unwrap().should_post);
    assert!(!interpret_response(200, Some("false"), None, None).unwrap().should_post);
    assert!(!interpret_response(200, Some("truth"), None, None).unwrap().should_post);
    assert!(!interpret_response(200, None, None, None).unwrap().should_post);
}

#[test]
fn bad_hint_and_bad_redirect_are_ignored() {
    let res = interpret_response(200, Some("false"), Some("10s"), Some("::::")).unwrap();
    assert!(res.polling_interval_hint_ms.is_none());
    assert!(res.redirected_host.is_none());
}

#[test]
fn ping_only_steady_state() {
    // The server keeps answering subscribed=false without a hint: the loop
    // pings every five seconds and never collects.
    let mut s = state(0);
    for tick in 1..=3_u64 {
        let now = tick * PING_INTERVAL_MS;
        let res = interpret_response(200, Some("false"), None, None).unwrap();
        let (collecting, delay) = s.conclude(false, Some(res), now);
        assert!(!collecting);
        assert_eq!(delay, PING_INTERVAL_MS);
        assert_eq!(s.last_success_time_ms, now);
    }
}

#[test]
fn activation_switches_to_post_interval() {
    let mut s = state(0);
    let res = interpret_response(200, Some("true"), None, None).unwrap();
    let (collecting, delay) = s.conclude(false, Some(res), 5_000);
    assert!(collecting);
    assert_eq!(delay, POST_INTERVAL_MS);
}

#[test]
fn post_failure_within_wait_keeps_collecting() {
    let mut s = state(9_000);
    let (collecting, delay) = s.conclude(true, None, 10_000);
    assert!(collecting);
    assert_eq!(delay, POST_INTERVAL_MS);
    assert_eq!(s.last_success_time_ms, 9_000);
}

#[test]
fn post_failure_past_wait_falls_back_to_ping() {
    let mut s = state(9_000);
    let (collecting, delay) = s.conclude(true, None, 29_000);
    assert!(!collecting);
    assert_eq!(delay, FALLBACK_INTERVAL_MS);
}

#[test]
fn ping_failure_past_wait_slows_down() {
    let mut s = state(0);
    let (collecting, delay) = s.conclude(false, None, 60_000);
    assert!(!collecting);
    assert_eq!(delay, FALLBACK_INTERVAL_MS);
}

#[test]
fn ping_failure_within_wait_keeps_pace() {
    let mut s = state(0);
    let (collecting, delay) = s.conclude(false, None, 59_999);
    assert!(!collecting);
    assert_eq!(delay, PING_INTERVAL_MS);
}

#[test]
fn polling_hint_sets_the_idle_pace_and_sticks() {
    let mut s = state(0);
    let res = interpret_response(200, Some("false"), Some("10000"), None).unwrap();
    assert_eq!(res.polling_interval_hint_ms, Some(10_000));
    let (collecting, delay) = s.conclude(false, Some(res), 5_000);
    assert!(!collecting);
    assert_eq!(delay, 10_000);

    // A failure within the ping wait keeps the hinted pace.
    let (_, delay) = s.conclude(false, None, 6_000);
    assert_eq!(delay, 10_000);

    // A success without a hint leaves the sticky hint in place.
    let res = interpret_response(200, Some("false"), None, None).unwrap();
    let (_, delay) = s.conclude(false, Some(res), 16_000);
    assert_eq!(delay, 10_000);
}

#[test]
fn redirect_swaps_host_and_keeps_paths() {
    let mut s = state(0);
    let res = interpret_response(200, Some("false"), None, Some("https://r.example/")).unwrap();
    s.conclude(false, Some(res), 5_000);
    assert_eq!(s.post_endpoint.scheme, "https");
    assert_eq!(s.post_endpoint.authority, "r.example");
    assert_eq!(s.post_endpoint.path_and_query, "/post");
    assert_eq!(s.ping_endpoint.scheme, "https");
    assert_eq!(s.ping_endpoint.authority, "r.example");
    assert_eq!(s.ping_endpoint.path_and_query, "/ping");
}

#[test]
fn redirect_with_its_own_path_still_keeps_ours() {
    let mut s = state(0);
    let res = interpret_response(200, Some("false"), None, Some("https://r.example:8080/other")).unwrap();
    s.conclude(false, Some(res), 5_000);
    assert_eq!(s.post_endpoint.authority, "r.example:8080");
    assert_eq!(s.post_endpoint.path_and_query, "/post");
    assert_eq!(s.ping_endpoint.path_and_query, "/ping");
}

#[test]
fn relative_redirect_is_ignored() {
    // A redirect without scheme and authority cannot land on an endpoint.
    let res = interpret_response(200, Some("false"), None, Some("/just-a-path")).unwrap();
    assert!(res.redirected_host.is_none());
}

#[test]
fn endpoint_follows_the_mode() {
    let s = state(0);
    let post = s.endpoint_for(true);
    assert_eq!(post.path_and_query, "/post");
    let ping = s.endpoint_for(false);
    assert_eq!(ping.path_and_query, "/ping");
    assert_eq!(post.scheme, "https");
    assert_eq!(ping.authority, "live.example.com");
}

#[test]
fn clock_skew_counts_as_a_long_outage() {
    // The success clock sits in the future: a failure is treated as an old
    // outage, so the loop falls back rather than hammering.
    let mut s = state(100_000);
    let (collecting, delay) = s.conclude(true, None, 50_000);
    assert!(!collecting);
    assert_eq!(delay, FALLBACK_INTERVAL_MS);
}
