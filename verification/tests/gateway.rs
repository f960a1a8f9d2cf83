use edge_gateway::forward::{
    build_target_url, failure_response, finish_forward, health_response, plan, Action, Config,
    FailureKind, GatewayRequest, UpstreamOutcome,
};
use edge_gateway::router::{route, Target};

fn config() -> Config {
    Config {
        api_base: b"http://api:3000".to_vec(),
        ai_base: b"http://ai:5000".to_vec(),
    }
}

fn request(method: &[u8], path: &[u8], query: &[u8]) -> GatewayRequest {
    GatewayRequest {
        method: method.to_vec(),
        path: path.to_vec(),
        query: query.to_vec(),
        headers: vec![],
        body: vec![],
    }
}

#[test]
fn health_routes_locally() {
    let d = route(&b"/health".to_vec());
    assert_eq!(d.target, Target::Health);
}

#[test]
fn api_path_unchanged() {
    let d = route(&b"/api/users/7".to_vec());
    assert_eq!(d.target, Target::Api);
    assert_eq!(d.forward_path, b"/api/users/7".to_vec());
}

#[test]
fn ai_path_stripped() {
    let d = route(&b"/ai/predict".to_vec());
    assert_eq!(d.target, Target::Ai);
    assert_eq!(d.forward_path, b"/predict".to_vec());
}

#[test]
fn bare_ai_path_becomes_empty() {
    let d = route(&b"/ai".to_vec());
    assert_eq!(d.target, Target::Ai);
    assert_eq!(d.forward_path, b"".to_vec());
}

#[test]
fn ai_without_slash_is_not_ai_route() {
    // `/aify` has neither the `/ai/` prefix nor is it the bare `/ai`.
    let d = route(&b"/aify".to_vec());
    assert_eq!(d.target, Target::Api);
    assert_eq!(d.forward_path, b"/aify".to_vec());
}

#[test]
fn unmatched_paths_fall_back_to_api() {
    for path in [&b"/"[..], b"/dashboard", b"/healthz", b"/api", b"/Health"] {
        let d = route(&path.to_vec());
        assert_eq!(d.target, Target::Api);
        assert_eq!(d.forward_path, path.to_vec());
    }
}

#[test]
fn url_keeps_query_byte_for_byte() {
    let u = build_target_url(
        &b"http://api:3000".to_vec(),
        &b"/search".to_vec(),
        &b"q=a%20b".to_vec(),
    );
    assert_eq!(u, b"http://api:3000/search?q=a%20b".to_vec());
}

#[test]
fn url_without_query_has_no_question_mark() {
    let u = build_target_url(&b"http://api:3000".to_vec(), &b"/users".to_vec(), &b"".to_vec());
    assert_eq!(u, b"http://api:3000/users".to_vec());
}

#[test]
fn url_for_empty_path_is_root() {
    let u = build_target_url(&b"http://ai:5000".to_vec(), &b"".to_vec(), &b"".to_vec());
    assert_eq!(u, b"http://ai:5000/".to_vec());
}

#[test]
fn health_response_is_fixed() {
    let r = health_response();
    assert_eq!(r.status, 200);
    assert!(r.headers.is_empty());
    assert_eq!(r.body, b"Edge Gateway Operational".to_vec());
}

#[test]
fn plan_answers_health_locally() {
    let a = plan(&config(), request(b"GET", b"/health", b""));
    match a {
        Action::Respond(r) => {
            assert_eq!(r.status, 200);
            assert_eq!(r.body, b"Edge Gateway Operational".to_vec());
        }
        Action::Forward(_) => panic!("health must not be forwarded"),
    }
}

#[test]
fn plan_forwards_api_request_verbatim() {
    let mut req = request(b"POST", b"/api/search", b"q=a%20b");
    req.headers = vec![
        (b"content-type".to_vec(), b"application/json".to_vec()),
        (b"x-custom".to_vec(), b"one".to_vec()),
        (b"x-custom".to_vec(), b"two".to_vec()),
    ];
    req.body = b"{\"q\":1}".to_vec();
    let a = plan(&config(), req);
    match a {
        Action::Forward(o) => {
            assert_eq!(o.url, b"http://api:3000/api/search?q=a%20b".to_vec());
            assert_eq!(o.method, b"POST".to_vec());
            assert_eq!(
                o.headers,
                vec![
                    (b"content-type".to_vec(), b"application/json".to_vec()),
                    (b"x-custom".to_vec(), b"one".to_vec()),
                    (b"x-custom".to_vec(), b"two".to_vec()),
                ]
            );
            assert_eq!(o.body, b"{\"q\":1}".to_vec());
        }
        Action::Respond(_) => panic!("an API path must be forwarded"),
    }
}

#[test]
fn plan_forwards_ai_request_with_stripped_path() {
    let a = plan(&config(), request(b"GET", b"/ai/predict", b""));
    match a {
        Action::Forward(o) => {
            assert_eq!(o.url, b"http://ai:5000/predict".to_vec());
            assert_eq!(o.method, b"GET".to_vec());
        }
        Action::Respond(_) => panic!("an AI path must be forwarded"),
    }
}

#[test]
fn plan_sends_bare_ai_as_root() {
    let a = plan(&config(), request(b"GET", b"/ai", b""));
    match a {
        Action::Forward(o) => assert_eq!(o.url, b"http://ai:5000/".to_vec()),
        Action::Respond(_) => panic!("the bare AI path must be forwarded"),
    }
}

#[test]
fn plan_falls_back_to_api() {
    let a = plan(&config(), request(b"DELETE", b"/dashboard", b""));
    match a {
        Action::Forward(o) => {
            assert_eq!(o.url, b"http://api:3000/dashboard".to_vec());
            assert_eq!(o.method, b"DELETE".to_vec());
        }
        Action::Respond(_) => panic!("an unmatched path must be forwarded"),
    }
}

#[test]
fn reply_is_relayed_verbatim() {
    let r = finish_forward(UpstreamOutcome::Reply {
        status: 418,
        headers: vec![
            (b"x-upstream".to_vec(), b"yes".to_vec()),
            (b"set-cookie".to_vec(), b"a=1".to_vec()),
            (b"set-cookie".to_vec(), b"b=2".to_vec()),
        ],
        body: b"teapot".to_vec(),
    });
    assert_eq!(r.status, 418);
    assert_eq!(
        r.headers,
        vec![
            (b"x-upstream".to_vec(), b"yes".to_vec()),
            (b"set-cookie".to_vec(), b"a=1".to_vec()),
            (b"set-cookie".to_vec(), b"b=2".to_vec()),
        ]
    );
    assert_eq!(r.body, b"teapot".to_vec());
}

#[test]
fn transport_error_becomes_502() {
    let r = finish_forward(UpstreamOutcome::TransportError {
        detail: b"connection refused".to_vec(),
    });
    assert_eq!(r.status, 502);
    assert!(!r.body.is_empty());
    assert_eq!(r.body, b"Proxy Error: connection refused".to_vec());
}

#[test]
fn unreachable_upstream_gives_502() {
    let r = failure_response(FailureKind::UpstreamUnreachable, &b"dns failure".to_vec());
    assert_eq!(r.status, 502);
    assert_eq!(r.body, b"Proxy Error: dns failure".to_vec());
}

#[test]
fn client_construction_failure_gives_500() {
    let r = failure_response(FailureKind::ClientConstruction, &b"no sockets".to_vec());
    assert_eq!(r.status, 500);
    assert_eq!(r.body, b"Gateway Error: no sockets".to_vec());
}

#[test]
fn response_assembly_failure_gives_500() {
    let r = failure_response(FailureKind::ResponseAssembly, &b"bad header".to_vec());
    assert_eq!(r.status, 500);
    assert_eq!(r.body, b"Gateway Error: bad header".to_vec());
}

#[test]
fn failure_body_is_never_empty() {
    for kind in [
        FailureKind::UpstreamUnreachable,
        FailureKind::ClientConstruction,
        FailureKind::ResponseAssembly,
    ] {
        let r = failure_response(kind, &b"".to_vec());
        assert!(!r.body.is_empty());
    }
}

#[test]
fn round_trip_preserves_everything() {
    // The gateway's half of the round trip: what it sends upstream is the
    // inbound request verbatim, and what it returns is the upstream reply
    // verbatim.
    let mut req = request(b"PUT", b"/api/items/3", b"v=2");
    req.headers = vec![(b"host".to_vec(), b"edge".to_vec())];
    req.body = b"payload".to_vec();
    let a = plan(&config(), req);
    let o = match a {
        Action::Forward(o) => o,
        Action::Respond(_) => panic!("must forward"),
    };
    assert_eq!(o.method, b"PUT".to_vec());
    assert_eq!(o.headers, vec![(b"host".to_vec(), b"edge".to_vec())]);
    assert_eq!(o.body, b"payload".to_vec());
    // The mock upstream echoes what it got.
    let echoed = UpstreamOutcome::Reply {
        status: 200,
        headers: o.headers.clone(),
        body: o.body.clone(),
    };
    let r = finish_forward(echoed);
    assert_eq!(r.status, 200);
    assert_eq!(r.headers, vec![(b"host".to_vec(), b"edge".to_vec())]);
    assert_eq!(r.body, b"payload".to_vec());
}
