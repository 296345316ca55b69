use gateway_core::http::HeaderEntry;
use gateway_core::proxy::{
    handle_inbound, relay_response, Decision, ForwardPlan, InboundRequest, RelayedResponse,
    UpstreamOutcome, UpstreamReply,
};
use gateway_core::routes::{RouteRule, RouteTable};

fn header(name: &str, value: &str) -> HeaderEntry {
    HeaderEntry { name: name.as_bytes().to_vec(), value: value.as_bytes().to_vec() }
}

fn two_rule_table() -> RouteTable {
    RouteTable {
        strip: b"/api".to_vec(),
        rules: vec![
            RouteRule { prefix: b"/api/auth".to_vec(), upstream: b"http://u1.example".to_vec() },
            RouteRule { prefix: b"/api/tasks".to_vec(), upstream: b"http://u2.example".to_vec() },
        ],
    }
}

fn request(method: &str, path: &str, query: Option<&str>, headers: Vec<HeaderEntry>, body: &[u8])
    -> InboundRequest {
    InboundRequest {
        method: method.as_bytes().to_vec(),
        path: path.as_bytes().to_vec(),
        query: query.map(|q| q.as_bytes().to_vec()),
        headers,
        body: body.to_vec(),
    }
}

fn expect_forward(d: Decision) -> ForwardPlan {
    match d {
        Decision::Forward(plan) => plan,
        Decision::Respond(resp) => panic!("expected a forward, got status {}", resp.status),
    }
}

fn expect_respond(d: Decision) -> RelayedResponse {
    match d {
        Decision::Respond(resp) => resp,
        Decision::Forward(_) => panic!("expected a direct response, got a forward"),
    }
}

#[test]
fn unknown_route_is_answered_directly_with_not_found() {
    let table = two_rule_table();
    let req = request("GET", "/api/unknown", None, vec![], b"");
    // A `Respond` decision means no upstream is ever contacted.
    let resp = expect_respond(handle_inbound(&table, req));
    assert_eq!(resp.status, 404);
    assert_eq!(resp.body, b"Unknown route".to_vec());
    assert!(resp.headers.is_empty());
}

#[test]
fn path_outside_gateway_prefix_is_not_found() {
    let table = RouteTable::standard(b"http://u1.example", b"http://u2.example");
    let req = request("GET", "/health", None, vec![], b"");
    let resp = expect_respond(handle_inbound(&table, req));
    assert_eq!(resp.status, 404);
}

#[test]
fn matching_request_is_forwarded_with_rewritten_url() {
    let table = two_rule_table();
    let req = request("POST", "/api/tasks/42", None, vec![], b"the body");
    let plan = expect_forward(handle_inbound(&table, req));
    assert_eq!(plan.target_url, b"http://u2.example/tasks/42".to_vec());
    assert_eq!(plan.method, b"POST".to_vec());
    assert_eq!(plan.body, b"the body".to_vec());
}

#[test]
fn auth_prefix_routes_to_first_upstream() {
    let table = two_rule_table();
    let req = request("POST", "/api/auth/login", None, vec![], b"{}");
    let plan = expect_forward(handle_inbound(&table, req));
    assert_eq!(plan.target_url, b"http://u1.example/auth/login".to_vec());
}

#[test]
fn standard_table_routes_users_and_settings() {
    let table = RouteTable::standard(b"http://auth.example", b"http://tasks.example");
    let plan = expect_forward(handle_inbound(&table, request("GET", "/api/users/7", None, vec![], b"")));
    assert_eq!(plan.target_url, b"http://auth.example/users/7".to_vec());
    let plan = expect_forward(handle_inbound(&table, request("GET", "/api/settings", None, vec![], b"")));
    assert_eq!(plan.target_url, b"http://tasks.example/settings".to_vec());
}

#[test]
fn query_string_is_preserved() {
    let table = two_rule_table();
    let req = request("GET", "/api/tasks", Some("status=active&priority=high"), vec![], b"");
    let plan = expect_forward(handle_inbound(&table, req));
    assert_eq!(
        plan.target_url,
        b"http://u2.example/tasks?status=active&priority=high".to_vec()
    );
}

#[test]
fn headers_pass_through_except_host() {
    let table = two_rule_table();
    let req = request(
        "GET",
        "/api/tasks",
        None,
        vec![
            header("authorization", "Bearer abc"),
            header("Host", "gateway.example"),
            header("content-type", "application/json"),
            header("x-custom", "kept"),
        ],
        b"",
    );
    let plan = expect_forward(handle_inbound(&table, req));
    let names: Vec<Vec<u8>> = plan.headers.iter().map(|h| h.name.clone()).collect();
    assert_eq!(
        names,
        vec![
            b"authorization".to_vec(),
            b"content-type".to_vec(),
            b"x-custom".to_vec(),
        ]
    );
    assert_eq!(plan.headers[0].value, b"Bearer abc".to_vec());
    assert_eq!(plan.headers[2].value, b"kept".to_vec());
}

#[test]
fn malformed_method_is_a_server_error() {
    let table = two_rule_table();
    let req = request("GE T", "/api/tasks", None, vec![], b"");
    let resp = expect_respond(handle_inbound(&table, req));
    assert_eq!(resp.status, 500);
    assert_eq!(resp.body, b"Invalid method".to_vec());
}

#[test]
fn upstream_status_codes_relay_exactly() {
    for status in [200u16, 201, 204, 401, 404, 409, 500] {
        let outcome = UpstreamOutcome::Reply(UpstreamReply {
            status,
            headers: vec![],
            body: b"payload".to_vec(),
        });
        let resp = relay_response(outcome);
        assert_eq!(resp.status, status);
        assert_eq!(resp.body, b"payload".to_vec());
    }
}

#[test]
fn upstream_headers_relay_and_malformed_names_are_dropped() {
    let outcome = UpstreamOutcome::Reply(UpstreamReply {
        status: 200,
        headers: vec![
            header("content-type", "text/plain"),
            header("bad name", "dropped"),
            HeaderEntry { name: vec![], value: b"dropped too".to_vec() },
            header("x-kept", "yes"),
        ],
        body: vec![],
    });
    let resp = relay_response(outcome);
    let names: Vec<Vec<u8>> = resp.headers.iter().map(|h| h.name.clone()).collect();
    assert_eq!(names, vec![b"content-type".to_vec(), b"x-kept".to_vec()]);
}

#[test]
fn transport_failure_is_bad_gateway_with_error_text() {
    let outcome = UpstreamOutcome::TransportError(b"connection refused".to_vec());
    let resp = relay_response(outcome);
    assert_eq!(resp.status, 502);
    assert_eq!(resp.body, b"connection refused".to_vec());
    assert!(resp.headers.is_empty());
}

#[test]
fn unreadable_upstream_body_is_bad_gateway() {
    let outcome = UpstreamOutcome::TransportError(b"body read failed".to_vec());
    let resp = relay_response(outcome);
    assert_eq!(resp.status, 502);
}

#[test]
fn burst_of_independent_requests_sees_no_cross_talk() {
    let table = two_rule_table();
    let mut plans = Vec::new();
    for i in 0..100 {
        let body = format!("payload-{}", i).into_bytes();
        let path = if i % 2 == 0 { "/api/tasks/item" } else { "/api/auth/item" };
        let req = request("POST", path, None, vec![header("x-request", &format!("{}", i))], &body);
        plans.push(expect_forward(handle_inbound(&table, req)));
    }
    for (i, plan) in plans.iter().enumerate() {
        assert_eq!(plan.body, format!("payload-{}", i).into_bytes());
        let upstream = if i % 2 == 0 { &b"http://u2.example"[..] } else { &b"http://u1.example"[..] };
        assert!(plan.target_url.starts_with(upstream));
        assert_eq!(plan.headers[0].value, format!("{}", i).into_bytes());
        // Each relayed answer belongs to its own request alone.
        let resp = relay_response(UpstreamOutcome::Reply(UpstreamReply {
            status: 200,
            headers: vec![],
            body: plan.body.clone(),
        }));
        assert_eq!(resp.body, format!("payload-{}", i).into_bytes());
    }
}
