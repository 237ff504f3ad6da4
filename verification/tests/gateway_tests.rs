use metrics_gateway::gateway::{
    index_reply, negotiated_compression, plan_scrape, translate, MetricsResponse, RpcError,
    RpcErrorKind,
};

#[test]
fn every_scrape_call_declares_compression_both_ways() {
    let plan = plan_scrape();
    assert!(plan.send_compressed);
    assert!(plan.accept_compressed);
}

#[test]
fn index_always_fixed_body() {
    let r = index_reply();
    assert_eq!(r.status, 200);
    assert_eq!(
        r.body,
        "# Use /metrics to obtain Prometheus metrics from this service."
    );
}

#[test]
fn ok_outcome_passes_payload_through_verbatim() {
    let payload = String::from("# HELP x\nx 1\nscrape_requests_total 3\n");
    let expected = payload.clone();
    let r = translate(Ok(MetricsResponse { text: payload }));
    assert_eq!(r.status, 200);
    assert_eq!(r.body, expected);
}

#[test]
fn payload_bytes_survive_unchanged() {
    let payload = String::from("caf\u{e9} \u{2615} 1\n\u{3c0} 3\n");
    let expected_bytes = payload.clone().into_bytes();
    let r = translate(Ok(MetricsResponse { text: payload }));
    assert_eq!(r.status, 200);
    assert_eq!(r.body.into_bytes(), expected_bytes);
}

#[test]
fn transport_failure_becomes_bad_gateway() {
    let r = translate(Err(RpcError {
        kind: RpcErrorKind::Transport,
        message: String::from("connection refused"),
    }));
    assert_eq!(r.status, 502);
    assert_eq!(
        r.body,
        "metrics scrape failed: transport error: connection refused"
    );
}

#[test]
fn timeout_failure_becomes_bad_gateway() {
    let r = translate(Err(RpcError {
        kind: RpcErrorKind::Timeout,
        message: String::from("deadline exceeded"),
    }));
    assert_eq!(r.status, 502);
    assert_eq!(r.body, "metrics scrape failed: timeout: deadline exceeded");
}

#[test]
fn remote_failure_becomes_bad_gateway() {
    let r = translate(Err(RpcError {
        kind: RpcErrorKind::Remote,
        message: String::from("serialization failed"),
    }));
    assert_eq!(r.status, 502);
    assert_eq!(
        r.body,
        "metrics scrape failed: upstream error: serialization failed"
    );
}

#[test]
fn unsupported_peer_falls_back_to_uncompressed() {
    assert!(!negotiated_compression(true, false));
    assert!(negotiated_compression(true, true));
    assert!(!negotiated_compression(false, true));
}

#[test]
fn two_listeners_serve_identical_content() {
    let make = || {
        translate(Ok(MetricsResponse {
            text: String::from("scrape_requests_total 7\n"),
        }))
    };
    let first = make();
    let second = make();
    assert_eq!(first.status, second.status);
    assert_eq!(first.body, second.body);
}
