//! The per-request forwarding pipeline: rewrite the inbound request to
//! address the downstream target, pick the transport, and map the outcome of
//! the one outbound send to the one response the caller receives.

use vstd::prelude::*;
use crate::config::Config;
use crate::uri::{TargetUri, scheme_sep, valid_path_and_query, check_path_and_query};

verus! {

/// One header field, carried through verbatim in both directions.
pub struct Header {
    pub name: String,
    pub value: Vec<u8>,
}

/// A header field reduced to its mathematical content.
pub open spec fn header_view(h: Header) -> (Seq<char>, Seq<u8>) {
    (h.name@, h.value@)
}

/// A header list reduced to its mathematical content, order kept.
pub open spec fn headers_view(hs: Seq<Header>) -> Seq<(Seq<char>, Seq<u8>)> {
    hs.map_values(|h: Header| header_view(h))
}

/// An inbound request as the server hands it over: its scheme and authority
/// are irrelevant (it addressed this proxy) and only the path-and-query,
/// method, headers and body are kept.
pub struct InboundRequest {
    pub method: String,
    /// The request target's path-and-query, `None` when the request carried
    /// none.
    pub path_and_query: Option<String>,
    pub headers: Vec<Header>,
    pub body: Vec<u8>,
}

/// The outbound request: the inbound request readdressed to the downstream
/// target, everything else carried through verbatim.
pub struct OutboundRequest {
    /// Scheme and authority, taken from the configuration's downstream target.
    pub target: TargetUri,
    /// Path-and-query, taken from the inbound request (or `/` if it had none).
    pub path_and_query: String,
    pub method: String,
    pub headers: Vec<Header>,
    pub body: Vec<u8>,
}

impl OutboundRequest {
    /// The full URI the outbound request addresses:
    /// scheme "://" authority path-and-query.
    pub fn uri_string(&self) -> (r: String)
        ensures
            r@ == self.target.scheme@ + scheme_sep() + self.target.authority@
                + self.path_and_query@,
    {
        proof {
            reveal_strlit("://");
            assert("://"@ =~= scheme_sep());
        }
        let mut r = self.target.scheme.clone();
        r.append("://");
        r.append(self.target.authority.as_str());
        r.append(self.path_and_query.as_str());
        proof {
            assert(r@ =~= self.target.scheme@ + scheme_sep() + self.target.authority@
                + self.path_and_query@);
        }
        r
    }
}

/// A response: the downstream's own, or the synthesized error response.
pub struct ProxyResponse {
    pub status: u16,
    pub headers: Vec<Header>,
    pub body: Vec<u8>,
}

/// A response reduced to its mathematical content.
pub ghost struct ResponseView {
    pub status: int,
    pub headers: Seq<(Seq<char>, Seq<u8>)>,
    pub body: Seq<u8>,
}

impl View for ProxyResponse {
    type V = ResponseView;

    open spec fn view(&self) -> ResponseView {
        ResponseView {
            status: self.status as int,
            headers: headers_view(self.headers@),
            body: self.body@,
        }
    }
}

/// The status returned whenever the pipeline fails.
pub const INTERNAL_SERVER_ERROR: u16 = 500;

/// The synthesized failure response: status 500, no headers, empty body.
pub open spec fn error_response_view() -> ResponseView {
    ResponseView { status: 500, headers: Seq::empty(), body: Seq::empty() }
}

/// The rewrite stage's one failure: an inbound path-and-query with which no
/// valid outbound URI can be formed.
#[derive(Debug)]
pub enum RewriteError {
    InvalidPathAndQuery,
}

/// The path-and-query the outbound request carries: the inbound request's
/// own, or `/` when it had none.
pub open spec fn spec_effective_pq(req: InboundRequest) -> Seq<char> {
    match req.path_and_query {
        Some(p) => p@,
        None => seq!['/'],
    }
}

/// Whether the inbound request's path-and-query can stand in an outbound
/// URI. A request without one is always acceptable: `/` stands in for it.
pub open spec fn pq_acceptable(req: InboundRequest) -> bool {
    match req.path_and_query {
        Some(p) => valid_path_and_query(p@),
        None => true,
    }
}

/// Rewrite an inbound request to address the configured downstream target.
///
/// Scheme and authority of the outbound request come from the configuration;
/// path-and-query, method, headers and body come from the inbound request
/// unchanged (path-and-query `/` when it had none). Fails exactly when the
/// inbound path-and-query cannot stand in a URI.
pub fn rewrite_request(req: InboundRequest, config: &Config) -> (r: Result<
    OutboundRequest,
    RewriteError,
>)
    ensures
        r is Ok <==> pq_acceptable(req),
        match r {
            Ok(o) => {
                &&& o.target == config.downstream
                &&& o.path_and_query@ == spec_effective_pq(req)
                &&& valid_path_and_query(o.path_and_query@)
                &&& o.method@ == req.method@
                &&& headers_view(o.headers@) == headers_view(req.headers@)
                &&& o.body@ == req.body@
            },
            Err(_) => !pq_acceptable(req),
        },
{
    let InboundRequest { method, path_and_query, headers, body } = req;
    let pq: String = match path_and_query {
        Some(p) => {
            if !check_path_and_query(p.as_str()) {
                return Err(RewriteError::InvalidPathAndQuery);
            }
            p
        },
        None => {
            proof {
                reveal_strlit("/");
                assert("/"@ =~= seq!['/']);
            }
            "/".to_owned()
        },
    };
    Ok(
        OutboundRequest {
            target: config.downstream.dup(),
            path_and_query: pq,
            method,
            headers,
            body,
        },
    )
}

/// The outbound transport for one request: straight to the downstream, or
/// through the configured via-proxy.
#[derive(Clone, Copy, PartialEq, Eq, Structural, Debug)]
pub enum Transport {
    Direct,
    Via,
}

/// The transport the configuration calls for: through the via-proxy exactly
/// when one is configured.
pub open spec fn spec_transport(c: Config) -> Transport {
    if c.via_proxy is Some {
        Transport::Via
    } else {
        Transport::Direct
    }
}

/// Select the transport for one outbound send: a pure branch on whether the
/// configuration holds a via-proxy.
pub fn select_transport(config: &Config) -> (t: Transport)
    ensures
        t == spec_transport(*config),
{
    match &config.via_proxy {
        Some(_) => Transport::Via,
        None => Transport::Direct,
    }
}

/// Transport selection depends on the configuration alone: under two
/// configurations that agree on whether a via-proxy is present, every send
/// uses the same transport — the choice never varies per request.
pub proof fn lemma_transport_solely_config(c1: Config, c2: Config)
    requires
        c1.via_proxy is Some <==> c2.via_proxy is Some,
    ensures
        spec_transport(c1) == spec_transport(c2),
{
}

/// How one trip through the pipeline ended: the rewrite stage failed, the
/// send failed at the transport, or the downstream's response arrived. The
/// string of a failure is its description, kept for observability.
pub enum PipelineOutcome {
    RewriteFailed(String),
    SendFailed(String),
    Delivered(ProxyResponse),
}

/// The one response a pipeline outcome maps to: the downstream's response
/// unaltered on delivery, the synthesized error response on either failure.
pub open spec fn spec_conclude(o: PipelineOutcome) -> ResponseView {
    match o {
        PipelineOutcome::Delivered(resp) => resp@,
        PipelineOutcome::RewriteFailed(_) => error_response_view(),
        PipelineOutcome::SendFailed(_) => error_response_view(),
    }
}

/// `r` is the response the pipeline outcome `o` maps to.
pub open spec fn is_response_of(r: ResponseView, o: PipelineOutcome) -> bool {
    r == spec_conclude(o)
}

/// The synthesized failure response: status 500, no headers, empty body.
pub fn error_response() -> (r: ProxyResponse)
    ensures
        r@ == error_response_view(),
        r.status == 500,
        r.headers@.len() == 0,
        r.body@.len() == 0,
{
    let r = ProxyResponse { status: INTERNAL_SERVER_ERROR, headers: Vec::new(), body: Vec::new() };
    proof {
        assert(headers_view(r.headers@) =~= Seq::<(Seq<char>, Seq<u8>)>::empty());
    }
    r
}

/// Map the pipeline's outcome to the response the caller receives: the
/// downstream's response passed through unmodified, or, on any failure, the
/// fixed internal-server-error response with an empty body.
pub fn conclude(outcome: PipelineOutcome) -> (r: ProxyResponse)
    ensures
        r@ == spec_conclude(outcome),
        outcome matches PipelineOutcome::Delivered(resp) ==> r@ == resp@,
        !(outcome matches PipelineOutcome::Delivered(_)) ==> r.status == 500 && r.headers@.len()
            == 0 && r.body@.len() == 0,
{
    match outcome {
        PipelineOutcome::Delivered(resp) => resp,
        PipelineOutcome::RewriteFailed(_) => error_response(),
        PipelineOutcome::SendFailed(_) => error_response(),
    }
}

/// Exactly one response is produced for every trip through the pipeline:
/// whatever its outcome — rewrite failure, send failure, or delivery — a
/// response exists for it (never zero), and no two distinct responses map to
/// it (never more than one).
pub proof fn lemma_exactly_one_response(o: PipelineOutcome)
    ensures
        exists|r: ResponseView| #[trigger] is_response_of(r, o),
        forall|r1: ResponseView, r2: ResponseView|
            is_response_of(r1, o) && is_response_of(r2, o) ==> r1 == r2,
{
    assert(is_response_of(spec_conclude(o), o));
}

} // verus!
