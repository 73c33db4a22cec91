use proxy_cache::msg::{InboundRequest, ProxyError, ProxyResponse, UpstreamError, error_response};
use proxy_cache::router::{Decision, ProxyState, complete_forward, handle_request};

fn b(s: &str) -> Vec<u8> {
    s.as_bytes().to_vec()
}

fn get(path: &str) -> InboundRequest {
    InboundRequest { method: b("GET"), path: b(path), query: None, body: Vec::new() }
}

fn respond_of(d: Decision) -> ProxyResponse {
    match d {
        Decision::Respond(r) => r,
        Decision::Forward { .. } => panic!("expected a finished response, got a forward"),
    }
}

#[test]
fn scenario_first_miss_then_hit() {
    let mut st = ProxyState::new();

    // First request to /a: a miss, forwarded upstream exactly once.
    let d1 = handle_request(&st, &get("/a"), 1_000);
    let keep = match d1 {
        Decision::Forward { send, keep } => {
            assert_eq!(send.uri, b("https://www.standard.tech/a"));
            assert_eq!(send.path, b("/a"));
            assert_eq!(keep.uri, send.uri);
            assert_eq!(keep.path, send.path);
            keep
        },
        Decision::Respond(_) => panic!("first request must be a miss"),
    };

    // The upstream answers "hello".
    let r1 = complete_forward(&mut st, &keep, Ok(b("hello")), 1_000);
    assert_eq!(r1.status, 200);
    assert_eq!(r1.body, b("hello"));
    assert_eq!(st.stats.snapshot(), 1);
    assert!(st.cache.lookup(&b("/a"), 1_000).is_some());

    // Second request to /a within 30s: served from the store, not forwarded.
    let r2 = respond_of(handle_request(&st, &get("/a"), 11_000));
    assert_eq!(r2.status, 200);
    assert_eq!(r2.body, b("hello"));
    assert_eq!(r2.max_age_seconds, Some(30));
    assert_eq!(st.stats.snapshot(), 1);
}

#[test]
fn status_reports_three() {
    let mut st = ProxyState::new();
    for path in ["/x", "/y", "/z"] {
        match handle_request(&st, &get(path), 500) {
            Decision::Forward { keep, .. } => {
                let r = complete_forward(&mut st, &keep, Ok(b("ok")), 500);
                assert_eq!(r.status, 200);
            },
            Decision::Respond(_) => panic!("fresh paths must be misses"),
        }
    }
    let r = respond_of(handle_request(&st, &get("/status"), 9_000));
    assert_eq!(r.status, 200);
    assert_eq!(r.body, b("proxied: 3"));
    assert_eq!(r.max_age_seconds, None);
}

#[test]
fn status_never_forwards_and_counts_nothing() {
    let st = ProxyState::new();
    let r = respond_of(handle_request(&st, &get("/status"), 0));
    assert_eq!(r.status, 200);
    assert_eq!(r.body, b("proxied: 0"));
    assert_eq!(st.stats.snapshot(), 0);
    // Asking again changes nothing either.
    let r2 = respond_of(handle_request(&st, &get("/status"), 60_000));
    assert_eq!(r2.body, b("proxied: 0"));
}

#[test]
fn failed_forward_changes_nothing() {
    let mut st = ProxyState::new();
    let keep = match handle_request(&st, &get("/b"), 2_000) {
        Decision::Forward { keep, .. } => keep,
        Decision::Respond(_) => panic!("fresh path must be a miss"),
    };
    let r = complete_forward(&mut st, &keep, Err(UpstreamError::ConnectFailed), 2_000);
    assert_eq!(r.status, 502);
    assert!(r.body.is_empty());
    assert_eq!(st.stats.snapshot(), 0);
    assert!(st.cache.lookup(&b("/b"), 2_000).is_none());
    // The next request to /b must be a miss again.
    assert!(matches!(handle_request(&st, &get("/b"), 2_500), Decision::Forward { .. }));
}

#[test]
fn repeat_after_expiry_forwards_again() {
    let mut st = ProxyState::new();
    let keep = match handle_request(&st, &get("/a"), 1_000) {
        Decision::Forward { keep, .. } => keep,
        Decision::Respond(_) => panic!("fresh path must be a miss"),
    };
    complete_forward(&mut st, &keep, Ok(b("hello")), 1_000);

    // One instant before expiry: still a hit.
    let r = respond_of(handle_request(&st, &get("/a"), 1_000 + 29_999));
    assert_eq!(r.body, b("hello"));

    // At expiry: a miss, reaching the forwarder again.
    assert!(matches!(
        handle_request(&st, &get("/a"), 1_000 + 30_000),
        Decision::Forward { .. }
    ));
}

#[test]
fn method_and_query_share_the_path_key() {
    let mut st = ProxyState::new();
    let first = InboundRequest { method: b("GET"), path: b("/a"), query: Some(b("x=1")), body: Vec::new() };
    let keep = match handle_request(&st, &first, 100) {
        Decision::Forward { send, keep } => {
            assert_eq!(send.uri, b("https://www.standard.tech/a?x=1"));
            keep
        },
        Decision::Respond(_) => panic!("fresh path must be a miss"),
    };
    complete_forward(&mut st, &keep, Ok(b("hello")), 100);

    // A different method without the query collides on the path-only key.
    let second = InboundRequest { method: b("POST"), path: b("/a"), query: None, body: b("data") };
    let r = respond_of(handle_request(&st, &second, 200));
    assert_eq!(r.body, b("hello"));
    assert_eq!(st.stats.snapshot(), 1);
}

#[test]
fn exactly_one_outcome_per_request() {
    let mut st = ProxyState::new();
    // Miss: the one outcome is a forward instruction.
    let d1 = handle_request(&st, &get("/p"), 0);
    let keep = match d1 {
        Decision::Forward { keep, .. } => keep,
        Decision::Respond(_) => panic!("a miss must forward"),
    };
    // Served-from-upstream-and-cached.
    let r = complete_forward(&mut st, &keep, Ok(b("v")), 0);
    assert_eq!(r.status, 200);
    // Served-from-cache.
    assert!(matches!(handle_request(&st, &get("/p"), 1), Decision::Respond(_)));
    // Status: answered at once, never forwarded.
    assert!(matches!(handle_request(&st, &get("/status"), 1), Decision::Respond(_)));
}

#[test]
fn error_responses_by_kind() {
    let body_read = error_response(&ProxyError::BodyRead);
    assert_eq!(body_read.status, 500);
    assert!(body_read.body.is_empty());
    assert_eq!(body_read.max_age_seconds, None);

    let upstream = error_response(&ProxyError::Upstream(UpstreamError::TimedOut));
    assert_eq!(upstream.status, 502);
    assert!(upstream.body.is_empty());
}
