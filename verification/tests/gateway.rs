use grenze::forward::{
    build_plan, relay_headers, relay_outcome, resolve_method, FetchOutcome, ProxyRequest,
};
use grenze::gateway::{quota_verdict, screen_request, AdmissionGate, GatewayReply};

fn pairs(items: &[(&str, &str)]) -> Vec<(String, String)> {
    items.iter().map(|(a, b)| (a.to_string(), b.to_string())).collect()
}

#[test]
fn empty_key_is_rejected_before_anything_runs() {
    match screen_request("") {
        AdmissionGate::Reject { reply } => {
            assert_eq!(reply.status(), 400);
            match reply {
                GatewayReply::ClientError { err } => {
                    assert_eq!(err.error, "missing_key");
                    assert_eq!(err.message, "Request must include non-empty 'key'");
                }
                _ => panic!("an empty key must be a client error"),
            }
        }
        AdmissionGate::Quota { .. } => panic!("an empty key must never reach the limiter"),
    }
}

#[test]
fn whitespace_only_key_is_rejected() {
    match screen_request(" \t\n  ") {
        AdmissionGate::Reject { reply } => assert_eq!(reply.status(), 400),
        AdmissionGate::Quota { .. } => panic!("a whitespace key must never reach the limiter"),
    }
}

#[test]
fn key_is_trimmed_before_indexing() {
    match screen_request("  client-1\t") {
        AdmissionGate::Quota { key } => assert_eq!(key, "client-1"),
        AdmissionGate::Reject { .. } => panic!("a non-empty key must pass screening"),
    }
}

#[test]
fn quota_denial_is_a_429_policy_reply() {
    match quota_verdict(false) {
        Some(GatewayReply::RateLimited { err }) => {
            assert_eq!(err.error, "rate_limited");
            assert_eq!(err.message, "Too many requests");
        }
        _ => panic!("a denied check must produce the rate_limited reply"),
    }
    assert_eq!(quota_verdict(false).unwrap().status(), 429);
}

#[test]
fn quota_admission_forwards() {
    assert!(quota_verdict(true).is_none());
}

#[test]
fn method_is_uppercased() {
    assert_eq!(resolve_method("get"), "GET");
    assert_eq!(resolve_method("Delete"), "DELETE");
    assert_eq!(resolve_method("PATCH"), "PATCH");
    assert_eq!(resolve_method("purge"), "PURGE");
}

#[test]
fn invalid_method_falls_back_to_post() {
    assert_eq!(resolve_method(""), "POST");
    assert_eq!(resolve_method("not a method"), "POST");
}

#[test]
fn only_allow_listed_headers_are_relayed() {
    let hs = pairs(&[
        ("content-type", "application/json"),
        ("x-internal-debug", "trace-me"),
        ("cache-control", "no-store"),
        ("set-cookie", "a=b"),
        ("content-length", "12"),
    ]);
    let relayed = relay_headers(&hs);
    assert_eq!(
        relayed,
        pairs(&[
            ("content-type", "application/json"),
            ("cache-control", "no-store"),
            ("content-length", "12"),
        ])
    );
}

#[test]
fn debug_header_is_never_relayed() {
    let hs = pairs(&[("x-internal-debug", "1"), ("X-Internal-Debug", "2")]);
    assert!(relay_headers(&hs).is_empty());
}

#[test]
fn transport_failure_maps_to_gateway_error() {
    let r = relay_outcome(FetchOutcome::Transport { detail: "connect refused".to_string() });
    assert_eq!(r.status(), 502);
    match r {
        GatewayReply::DownstreamFailure { err } => {
            assert_eq!(err.error, "downstream_error");
            assert_eq!(err.message, "connect refused");
        }
        _ => panic!("a transport failure must be a downstream failure"),
    }
}

#[test]
fn body_read_failure_maps_to_gateway_error() {
    let r = relay_outcome(FetchOutcome::BodyRead { detail: "reset mid-body".to_string() });
    assert_eq!(r.status(), 502);
    match r {
        GatewayReply::DownstreamFailure { err } => {
            assert_eq!(err.error, "downstream_read_error");
            assert_eq!(err.message, "reset mid-body");
        }
        _ => panic!("a read failure must be a downstream failure"),
    }
}

#[test]
fn completed_call_is_relayed_with_filtered_headers() {
    let outcome = FetchOutcome::Completed {
        status: 203,
        headers: pairs(&[("x-internal-debug", "s"), ("content-type", "text/plain")]),
        body: b"hello".to_vec(),
    };
    match relay_outcome(outcome) {
        GatewayReply::Relay { status, headers, body } => {
            assert_eq!(status, 203);
            assert_eq!(headers, pairs(&[("content-type", "text/plain")]));
            assert_eq!(body, b"hello".to_vec());
        }
        _ => panic!("a completed call must be relayed"),
    }
}

#[test]
fn unrepresentable_status_becomes_gateway_error_status() {
    let outcome = FetchOutcome::Completed { status: 1000, headers: vec![], body: vec![] };
    match relay_outcome(outcome) {
        GatewayReply::Relay { status, .. } => assert_eq!(status, 502),
        _ => panic!("a completed call must be relayed"),
    }
}

#[test]
fn plan_passes_everything_through_and_appends_accept() {
    let req = ProxyRequest {
        key: "k".to_string(),
        url: "http://example.test/x".to_string(),
        method: "put".to_string(),
        headers: pairs(&[("x-custom", "1")]),
        query: pairs(&[("q", "v")]),
        body: Some(b"{\"a\":1}".to_vec()),
        timeout_ms: Some(50),
    };
    let plan = build_plan(req, Some("application/json".to_string()));
    assert_eq!(plan.url, "http://example.test/x");
    assert_eq!(plan.method, "PUT");
    assert_eq!(plan.query, pairs(&[("q", "v")]));
    assert_eq!(plan.headers, pairs(&[("x-custom", "1"), ("accept", "application/json")]));
    assert_eq!(plan.body, Some(b"{\"a\":1}".to_vec()));
    assert_eq!(plan.timeout_ms, Some(50));
}

#[test]
fn plan_without_inbound_accept_keeps_headers_verbatim() {
    let req = ProxyRequest {
        key: "k".to_string(),
        url: "http://example.test/".to_string(),
        method: "GET".to_string(),
        headers: pairs(&[("x-caller", "one")]),
        query: vec![],
        body: None,
        timeout_ms: None,
    };
    let plan = build_plan(req, None);
    assert_eq!(plan.method, "GET");
    assert_eq!(plan.headers, pairs(&[("x-caller", "one")]));
    assert_eq!(plan.body, None);
    assert_eq!(plan.timeout_ms, None);
}
