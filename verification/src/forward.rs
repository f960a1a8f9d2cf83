//! The forwarder: planning of the single upstream round trip that every
//! non-health request makes, and the mapping of its outcome back to the
//! caller.
//!
//! `plan` turns an inbound request into either a local response (for
//! `/health`) or an outbound request whose method, headers and body are
//! the inbound ones unchanged, and whose URL is the target's base URL,
//! the forward path (an empty rewritten path is sent as `/`), and the
//! query string reattached verbatim behind a `?`. `finish_forward` turns
//! the outcome of the round trip into the final response: an upstream
//! reply is relayed with its exact status, headers and body; a transport
//! failure becomes a 502 with a descriptive plain-text body. Failures to
//! set the round trip up at all, or to assemble the final response, map
//! to 500 through `failure_response`.
//!
//! Exactly one upstream call is planned per inbound request: `plan`
//! yields one `Action`, and a `Forward` action holds one request.

use vstd::prelude::*;
use crate::bytes::push_all;
use crate::router::{route, Target, target_of, rewritten_path};

verus! {

/// The gateway's immutable configuration: where the two backends live.
pub struct Config {
    /// Base URL of the application API backend, e.g. `http://api:3000`.
    pub api_base: Vec<u8>,
    /// Base URL of the AI backend, e.g. `http://ai:5000`.
    pub ai_base: Vec<u8>,
}

/// An inbound request, reduced to the plain values the gateway relays.
pub struct GatewayRequest {
    /// The HTTP method, as its bytes on the wire.
    pub method: Vec<u8>,
    /// The path of the request URI.
    pub path: Vec<u8>,
    /// The query string without its leading `?`; empty when there is none.
    pub query: Vec<u8>,
    /// All headers in order, names and values as raw bytes; repeated
    /// names stay repeated.
    pub headers: Vec<(Vec<u8>, Vec<u8>)>,
    /// The request body, fully buffered.
    pub body: Vec<u8>,
}

/// The one outbound request a forwarded inbound request becomes.
pub struct OutboundRequest {
    /// The destination URL: base URL, forward path, query string.
    pub url: Vec<u8>,
    /// The inbound method, unchanged.
    pub method: Vec<u8>,
    /// The inbound headers, unchanged: nothing added, dropped or rewritten.
    pub headers: Vec<(Vec<u8>, Vec<u8>)>,
    /// The inbound body, unchanged.
    pub body: Vec<u8>,
}

/// The response the gateway hands back to its caller.
pub struct GatewayResponse {
    /// The HTTP status code.
    pub status: u16,
    /// The response headers, names and values as raw bytes.
    pub headers: Vec<(Vec<u8>, Vec<u8>)>,
    /// The response body.
    pub body: Vec<u8>,
}

/// What `plan` decides for an inbound request.
pub enum Action {
    /// Answer locally with this response; no upstream call is made.
    Respond(GatewayResponse),
    /// Make exactly one upstream call with this request.
    Forward(OutboundRequest),
}

/// What the one upstream call came back with.
pub enum UpstreamOutcome {
    /// The upstream answered; its status, headers and body, fully buffered.
    Reply {
        /// The upstream's status code.
        status: u16,
        /// The upstream's headers, in order, as raw bytes.
        headers: Vec<(Vec<u8>, Vec<u8>)>,
        /// The upstream's body.
        body: Vec<u8>,
    },
    /// The transport failed before any response was had (connection
    /// refused, name resolution, a malformed reply); the bytes describe
    /// the failure.
    TransportError {
        /// A human-readable description of the failure.
        detail: Vec<u8>,
    },
}

/// The ways a round trip can fail without an upstream reply.
#[derive(Clone, Copy, Debug, PartialEq, Eq, Structural)]
pub enum FailureKind {
    /// The upstream could not be reached or answered malformed; 502.
    UpstreamUnreachable,
    /// The outbound call could not even be constructed; 500.
    ClientConstruction,
    /// The final response could not be assembled from the reply; 500.
    ResponseAssembly,
}

/// The base URL the configuration gives a forwarded target. Every
/// target but AI forwards to the API backend.
pub open spec fn base_for(c: Config, t: Target) -> Seq<u8> {
    if t == Target::Ai {
        c.ai_base@
    } else {
        c.api_base@
    }
}

/// The path as it is sent: a rewritten path that came out empty (the
/// bare `/ai`) is sent as `/`.
pub open spec fn sent_path(p: Seq<u8>) -> Seq<u8> {
    if p.len() == 0 {
        seq![47u8]
    } else {
        p
    }
}

/// The query string as it is reattached: untouched behind a `?`, or
/// nothing at all when it is empty. It is never parsed or re-encoded.
pub open spec fn query_suffix(q: Seq<u8>) -> Seq<u8> {
    if q.len() == 0 {
        Seq::<u8>::empty()
    } else {
        seq![63u8] + q
    }
}

/// The destination URL of a forwarded request.
pub open spec fn target_url(base: Seq<u8>, path: Seq<u8>, query: Seq<u8>) -> Seq<u8> {
    base + sent_path(path) + query_suffix(query)
}

/// The fixed body of the local health response, `Edge Gateway Operational`.
pub open spec fn health_body() -> Seq<u8> {
    seq![
        69u8, 100u8, 103u8, 101u8, 32u8, 71u8, 97u8, 116u8, 101u8, 119u8, 97u8, 121u8, 32u8,
        79u8, 112u8, 101u8, 114u8, 97u8, 116u8, 105u8, 111u8, 110u8, 97u8, 108u8,
    ]
}

/// The body prefix of a 502, `Proxy Error: `.
pub open spec fn proxy_error_prefix() -> Seq<u8> {
    seq![80u8, 114u8, 111u8, 120u8, 121u8, 32u8, 69u8, 114u8, 114u8, 111u8, 114u8, 58u8, 32u8]
}

/// The body prefix of a 500, `Gateway Error: `.
pub open spec fn gateway_error_prefix() -> Seq<u8> {
    seq![
        71u8, 97u8, 116u8, 101u8, 119u8, 97u8, 121u8, 32u8, 69u8, 114u8, 114u8, 111u8, 114u8,
        58u8, 32u8,
    ]
}

/// The status a failure maps to: 502 for an unreachable upstream, 500
/// for the gateway's own failures.
pub open spec fn failure_status(k: FailureKind) -> u16 {
    if k == FailureKind::UpstreamUnreachable {
        502
    } else {
        500
    }
}

/// The plain-text body of a failure response: a fixed prefix naming the
/// failure, then the description.
pub open spec fn failure_body(k: FailureKind, detail: Seq<u8>) -> Seq<u8> {
    if k == FailureKind::UpstreamUnreachable {
        proxy_error_prefix() + detail
    } else {
        gateway_error_prefix() + detail
    }
}

/// Builds the destination URL: base URL, then the path (an empty path
/// becomes `/`), then the query string behind a `?` when there is one.
pub fn build_target_url(base: &Vec<u8>, path: &Vec<u8>, query: &Vec<u8>) -> (u: Vec<u8>)
    ensures
        u@ == target_url(base@, path@, query@),
{
    let mut u: Vec<u8> = Vec::new();
    push_all(&mut u, base);
    if path.len() == 0 {
        u.push(47u8);
    } else {
        push_all(&mut u, path);
    }
    if query.len() > 0 {
        u.push(63u8);
        push_all(&mut u, query);
    }
    proof {
        assert(u@ =~= target_url(base@, path@, query@));
    }
    u
}

/// The local health response: 200 with the fixed body, no headers of
/// its own. It involves no upstream call and cannot fail.
pub fn health_response() -> (r: GatewayResponse)
    ensures
        r.status == 200,
        r.headers@ == Seq::<(Vec<u8>, Vec<u8>)>::empty(),
        r.body@ == health_body(),
{
    let body = vec![
        69u8, 100u8, 103u8, 101u8, 32u8, 71u8, 97u8, 116u8, 101u8, 119u8, 97u8, 121u8, 32u8,
        79u8, 112u8, 101u8, 114u8, 97u8, 116u8, 105u8, 111u8, 110u8, 97u8, 108u8,
    ];
    proof {
        assert(body@ =~= health_body());
    }
    let headers: Vec<(Vec<u8>, Vec<u8>)> = Vec::new();
    GatewayResponse { status: 200, headers, body }
}

/// Decides what to do with an inbound request: answer `/health`
/// locally, and turn every other request into the one outbound request
/// that forwards it — method, headers and body the inbound values
/// themselves, URL built from the routed target's base, the rewritten
/// path and the untouched query string.
pub fn plan(config: &Config, req: GatewayRequest) -> (a: Action)
    ensures
        target_of(req.path@) == Target::Health ==> (a matches Action::Respond(r)
            && r.status == 200
            && r.headers@ == Seq::<(Vec<u8>, Vec<u8>)>::empty()
            && r.body@ == health_body()),
        target_of(req.path@) != Target::Health ==> (a matches Action::Forward(o)
            && o.method == req.method
            && o.headers == req.headers
            && o.body == req.body
            && o.url@ == target_url(
                base_for(*config, target_of(req.path@)),
                rewritten_path(req.path@),
                req.query@,
            )),
{
    let GatewayRequest { method, path, query, headers, body } = req;
    let d = route(&path);
    match d.target {
        Target::Health => Action::Respond(health_response()),
        Target::Ai => {
            let url = build_target_url(&config.ai_base, &d.forward_path, &query);
            Action::Forward(OutboundRequest { url, method, headers, body })
        },
        Target::Api => {
            let url = build_target_url(&config.api_base, &d.forward_path, &query);
            Action::Forward(OutboundRequest { url, method, headers, body })
        },
    }
}

/// Synthesizes the response for a round trip that failed without an
/// upstream reply: the failure's status and its descriptive body.
pub fn failure_response(kind: FailureKind, detail: &Vec<u8>) -> (r: GatewayResponse)
    ensures
        r.status == failure_status(kind),
        r.headers@ == Seq::<(Vec<u8>, Vec<u8>)>::empty(),
        r.body@ == failure_body(kind, detail@),
        r.body@.len() > 0,
{
    let mut body: Vec<u8> = match kind {
        FailureKind::UpstreamUnreachable => vec![
            80u8, 114u8, 111u8, 120u8, 121u8, 32u8, 69u8, 114u8, 114u8, 111u8, 114u8, 58u8, 32u8,
        ],
        FailureKind::ClientConstruction | FailureKind::ResponseAssembly => vec![
            71u8, 97u8, 116u8, 101u8, 119u8, 97u8, 121u8, 32u8, 69u8, 114u8, 114u8, 111u8, 114u8,
            58u8, 32u8,
        ],
    };
    proof {
        if kind == FailureKind::UpstreamUnreachable {
            assert(body@ =~= proxy_error_prefix());
        } else {
            assert(body@ =~= gateway_error_prefix());
        }
    }
    push_all(&mut body, detail);
    let status: u16 = match kind {
        FailureKind::UpstreamUnreachable => 502,
        FailureKind::ClientConstruction | FailureKind::ResponseAssembly => 500,
    };
    let headers: Vec<(Vec<u8>, Vec<u8>)> = Vec::new();
    GatewayResponse { status, headers, body }
}

/// Turns the outcome of the one upstream call into the final response:
/// a reply is relayed verbatim — its exact status, its exact header
/// set, its exact body — and a transport failure becomes a 502 whose
/// body describes it.
pub fn finish_forward(outcome: UpstreamOutcome) -> (r: GatewayResponse)
    ensures
        outcome matches UpstreamOutcome::Reply { status, headers, body } ==> (r.status == status
            && r.headers == headers
            && r.body == body),
        outcome matches UpstreamOutcome::TransportError { detail } ==> (r.status == 502
            && r.headers@ == Seq::<(Vec<u8>, Vec<u8>)>::empty()
            && r.body@ == failure_body(FailureKind::UpstreamUnreachable, detail@)
            && r.body@.len() > 0),
{
    match outcome {
        UpstreamOutcome::Reply { status, headers, body } => GatewayResponse {
            status,
            headers,
            body,
        },
        UpstreamOutcome::TransportError { detail } => failure_response(
            FailureKind::UpstreamUnreachable,
            &detail,
        ),
    }
}

} // verus!
