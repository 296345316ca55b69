//! The reverse proxy: turning an inbound request into a forwarding plan, and
//! relaying an upstream's outcome back to the caller.
//!
//! The proxy is a pure request/response transformation. Deciding what to do
//! with an inbound request — match the path, rewrite the URL, copy the
//! headers except `Host`, copy the body — is `handle_inbound`; turning what
//! came back from the upstream into the response the caller sees is
//! `relay_response`. The network call between the two is the caller's
//! affair: a request that matches no route is answered directly, and the
//! caller contacts an upstream only when `handle_inbound` hands it a
//! forwarding plan.

use vstd::prelude::*;
use vstd::string::*;
use crate::http::{
    headers_view, is_host_name, is_token_text, is_valid_header_name, token_text, valid_header_name,
    HeaderEntry, HeaderView,
};
use crate::routes::{matched_at, no_rule_matches, target_url_spec, RouteTable};

verus! {

/// An inbound HTTP request, as the gateway sees it: the method and path, the
/// query when one is present, the headers, and the whole body.
pub struct InboundRequest {
    pub method: Vec<u8>,
    pub path: Vec<u8>,
    pub query: Option<Vec<u8>>,
    pub headers: Vec<HeaderEntry>,
    pub body: Vec<u8>,
}

/// The mathematical value of an inbound request.
pub ghost struct InboundRequestView {
    pub method: Seq<u8>,
    pub path: Seq<u8>,
    pub query: Option<Seq<u8>>,
    pub headers: Seq<HeaderView>,
    pub body: Seq<u8>,
}

impl View for InboundRequest {
    type V = InboundRequestView;

    open spec fn view(&self) -> InboundRequestView {
        InboundRequestView {
            method: self.method@,
            path: self.path@,
            query: match self.query {
                Some(q) => Some(q@),
                None => None,
            },
            headers: headers_view(self.headers@),
            body: self.body@,
        }
    }
}

/// The request sent upstream: the same method and body, the rewritten target
/// URL, and every inbound header except `Host`.
pub struct ForwardPlan {
    pub method: Vec<u8>,
    pub target_url: Vec<u8>,
    pub headers: Vec<HeaderEntry>,
    pub body: Vec<u8>,
}

/// The mathematical value of a forwarding plan.
pub ghost struct ForwardPlanView {
    pub method: Seq<u8>,
    pub target_url: Seq<u8>,
    pub headers: Seq<HeaderView>,
    pub body: Seq<u8>,
}

impl View for ForwardPlan {
    type V = ForwardPlanView;

    open spec fn view(&self) -> ForwardPlanView {
        ForwardPlanView {
            method: self.method@,
            target_url: self.target_url@,
            headers: headers_view(self.headers@),
            body: self.body@,
        }
    }
}

/// The response the gateway's caller receives.
pub struct RelayedResponse {
    pub status: u16,
    pub headers: Vec<HeaderEntry>,
    pub body: Vec<u8>,
}

/// The mathematical value of a relayed response.
pub ghost struct RelayedResponseView {
    pub status: u16,
    pub headers: Seq<HeaderView>,
    pub body: Seq<u8>,
}

impl View for RelayedResponse {
    type V = RelayedResponseView;

    open spec fn view(&self) -> RelayedResponseView {
        RelayedResponseView {
            status: self.status,
            headers: headers_view(self.headers@),
            body: self.body@,
        }
    }
}

/// What the gateway does with an inbound request: answer it directly, or
/// forward it as planned and relay what comes back.
pub enum Decision {
    Respond(RelayedResponse),
    Forward(ForwardPlan),
}

/// An upstream response, read to completion.
pub struct UpstreamReply {
    pub status: u16,
    pub headers: Vec<HeaderEntry>,
    pub body: Vec<u8>,
}

/// What came back from the upstream: a response read to completion, or a
/// transport failure (connection refused or reset, timeout, or a body that
/// could not be read), with its diagnostic text.
pub enum UpstreamOutcome {
    Reply(UpstreamReply),
    TransportError(Vec<u8>),
}

/// The status code of the route-miss answer.
pub const STATUS_NOT_FOUND: u16 = 404;

/// The status code answered when the inbound method is not a well-formed
/// HTTP token, and the fallback for an unrepresentable upstream status.
pub const STATUS_INTERNAL_ERROR: u16 = 500;

/// The status code answered on any transport failure towards the upstream.
pub const STATUS_BAD_GATEWAY: u16 = 502;

/// The diagnostic body of the route-miss answer.
pub open spec fn unknown_route_body() -> Seq<u8> {
    "Unknown route".spec_bytes()
}

/// The diagnostic body answered for a malformed method.
pub open spec fn bad_method_body() -> Seq<u8> {
    "Invalid method".spec_bytes()
}

/// The headers the proxy forwards: every inbound header except `Host`. The
/// `Host` of the outbound request must name the upstream, so it is left for
/// the HTTP client to set; everything else — `Authorization` included —
/// passes through unchanged.
pub open spec fn forward_header_list(hs: Seq<HeaderView>) -> Seq<HeaderView> {
    hs.filter(|h: HeaderView| !is_host_name(h.name))
}

/// The headers relayed back from an upstream reply: those whose names are
/// syntactically valid; a malformed name is silently dropped, not corrected.
pub open spec fn relay_header_list(hs: Seq<HeaderView>) -> Seq<HeaderView> {
    hs.filter(|h: HeaderView| is_valid_header_name(h.name))
}

/// The status the caller sees for an upstream status `s`: `s` itself
/// whenever `s` is inside the representable range of HTTP status codes, and
/// a generic server error otherwise.
pub open spec fn relayed_status(s: u16) -> u16 {
    if 100 <= s && s <= 999 {
        s
    } else {
        STATUS_INTERNAL_ERROR
    }
}

/// Copies every header except `Host`, in order. (internal helper)
fn filter_headers_forward(headers: &Vec<HeaderEntry>) -> (r: Vec<HeaderEntry>)
    ensures
        headers_view(r@) == forward_header_list(headers_view(headers@)),
{
    let ghost all = headers_view(headers@);
    let ghost pred = |h: HeaderView| !is_host_name(h.name);
    let mut out: Vec<HeaderEntry> = Vec::new();
    let mut i: usize = 0;
    proof {
        reveal_with_fuel(Seq::<_>::filter, 1);
        assert(all.take(0) =~= Seq::<HeaderView>::empty());
    }
    while i < headers.len()
        invariant
            i <= headers@.len(),
            all == headers_view(headers@),
            pred == (|h: HeaderView| !is_host_name(h.name)),
            headers_view(out@) == all.take(i as int).filter(pred),
        decreases headers@.len() - i,
    {
        proof {
            reveal_with_fuel(Seq::<_>::filter, 2);
            assert(all.take(i + 1).drop_last() =~= all.take(i as int));
            assert(all.take(i + 1).last() == all[i as int]);
        }
        if !crate::http::is_host_header(headers[i].name.as_slice()) {
            let h = headers[i].duplicate();
            let ghost prev = out@;
            out.push(h);
            proof {
                assert(headers_view(out@) =~= headers_view(prev).push(all[i as int]));
            }
        }
        i = i + 1;
    }
    proof {
        assert(all.take(headers@.len() as int) =~= all);
    }
    out
}

/// Copies every header whose name is syntactically valid, in order.
/// (internal helper)
fn filter_headers_relay(headers: &Vec<HeaderEntry>) -> (r: Vec<HeaderEntry>)
    ensures
        headers_view(r@) == relay_header_list(headers_view(headers@)),
{
    let ghost all = headers_view(headers@);
    let ghost pred = |h: HeaderView| is_valid_header_name(h.name);
    let mut out: Vec<HeaderEntry> = Vec::new();
    let mut i: usize = 0;
    proof {
        reveal_with_fuel(Seq::<_>::filter, 1);
        assert(all.take(0) =~= Seq::<HeaderView>::empty());
    }
    while i < headers.len()
        invariant
            i <= headers@.len(),
            all == headers_view(headers@),
            pred == (|h: HeaderView| is_valid_header_name(h.name)),
            headers_view(out@) == all.take(i as int).filter(pred),
        decreases headers@.len() - i,
    {
        proof {
            reveal_with_fuel(Seq::<_>::filter, 2);
            assert(all.take(i + 1).drop_last() =~= all.take(i as int));
            assert(all.take(i + 1).last() == all[i as int]);
        }
        if valid_header_name(headers[i].name.as_slice()) {
            let h = headers[i].duplicate();
            let ghost prev = out@;
            out.push(h);
            proof {
                assert(headers_view(out@) =~= headers_view(prev).push(all[i as int]));
            }
        }
        i = i + 1;
    }
    proof {
        assert(all.take(headers@.len() as int) =~= all);
    }
    out
}

/// Decides what the gateway does with an inbound request.
///
/// A path matching no rule is answered directly with a route-miss response
/// and no upstream is contacted; a malformed method is answered with a
/// generic server error; otherwise the request is turned into a forwarding
/// plan for the first matching rule: same method, same body, every header
/// except `Host`, and the target URL rewritten onto that rule's upstream.
pub fn handle_inbound(table: &RouteTable, req: InboundRequest) -> (r: Decision)
    ensures
        no_rule_matches(table@, req.path@) ==> (r matches Decision::Respond(resp)
            && resp@.status == STATUS_NOT_FOUND && resp@.body == unknown_route_body()
            && resp@.headers =~= Seq::<HeaderView>::empty()),
        forall|i: int|
            matched_at(table@, req.path@, i) && !is_token_text(req.method@) ==> (
            r matches Decision::Respond(resp) && resp@.status == STATUS_INTERNAL_ERROR
                && resp@.body == bad_method_body()),
        forall|i: int|
            matched_at(table@, req.path@, i) && is_token_text(req.method@) ==> (
            r matches Decision::Forward(plan) && plan@.method == req.method@ && plan@.body
                == req.body@ && plan@.headers == forward_header_list(req@.headers)
                && plan@.target_url == target_url_spec(
                table@.rules[i].upstream,
                table@.strip,
                req.path@,
                req@.query,
            )),
        r is Forward ==> exists|i: int| matched_at(table@, req.path@, i),
{
    let matched = crate::routes::match_route(table, req.path.as_slice());
    match matched {
        None => Decision::Respond(
            RelayedResponse {
                status: STATUS_NOT_FOUND,
                headers: Vec::new(),
                body: "Unknown route".as_bytes_vec(),
            },
        ),
        Some(i) => {
            if !token_text(req.method.as_slice()) {
                return Decision::Respond(
                    RelayedResponse {
                        status: STATUS_INTERNAL_ERROR,
                        headers: Vec::new(),
                        body: "Invalid method".as_bytes_vec(),
                    },
                );
            }
            let target_url = crate::routes::build_target_url(
                table.rules[i].upstream.as_slice(),
                table.strip.as_slice(),
                req.path.as_slice(),
                &req.query,
            );
            let headers = filter_headers_forward(&req.headers);
            Decision::Forward(
                ForwardPlan { method: req.method, target_url, headers, body: req.body },
            )
        },
    }
}

/// The response the caller receives for an upstream outcome: on a reply, the
/// upstream's own status, its validly-named headers and its body, copied
/// without transformation; on a transport failure, a bad-gateway status with
/// the failure's text as the body.
pub fn relay_response(outcome: UpstreamOutcome) -> (r: RelayedResponse)
    ensures
        outcome matches UpstreamOutcome::Reply(u) ==> r@.status == relayed_status(u.status)
            && r@.headers == relay_header_list(headers_view(u.headers@)) && r@.body == u.body@,
        outcome matches UpstreamOutcome::TransportError(m) ==> r@.status == STATUS_BAD_GATEWAY
            && r@.body == m@ && r@.headers =~= Seq::<HeaderView>::empty(),
{
    match outcome {
        UpstreamOutcome::Reply(u) => {
            let status: u16 = if u.status >= 100 && u.status <= 999 {
                u.status
            } else {
                STATUS_INTERNAL_ERROR
            };
            let headers = filter_headers_relay(&u.headers);
            RelayedResponse { status, headers, body: u.body }
        },
        UpstreamOutcome::TransportError(m) => RelayedResponse {
            status: STATUS_BAD_GATEWAY,
            headers: Vec::new(),
            body: m,
        },
    }
}

// ---------------------------------------------------------------------------
// Laws of the proxy.
// ---------------------------------------------------------------------------

/// Every element of a filtered header list comes from the original list.
proof fn lemma_filter_is_subset(s: Seq<HeaderView>, pred: spec_fn(HeaderView) -> bool, j: int)
    requires
        0 <= j < s.filter(pred).len(),
    ensures
        s.contains(s.filter(pred)[j]),
    decreases s.len(),
{
    reveal_with_fuel(Seq::<_>::filter, 2);
    if s.len() > 0 {
        let sub = s.drop_last().filter(pred);
        if j < sub.len() {
            lemma_filter_is_subset(s.drop_last(), pred, j);
            let k = choose|k: int| 0 <= k < s.drop_last().len() && s.drop_last()[k] == sub[j];
            assert(s[k] == s.filter(pred)[j]);
        } else {
            assert(s.filter(pred)[j] == s.last());
            assert(s[s.len() - 1] == s.last());
        }
    }
}

/// Every inbound header other than `Host` is present, with the same name and
/// value, on the forwarded request; and the forwarded request carries no
/// header that the inbound request did not, nor any `Host` header.
pub proof fn lemma_forwarding_keeps_headers(hs: Seq<HeaderView>)
    ensures
        forall|i: int|
            0 <= i < hs.len() && !is_host_name(hs[i].name) ==> forward_header_list(hs).contains(
                hs[i],
            ),
        forall|j: int|
            0 <= j < forward_header_list(hs).len() ==> hs.contains(
                #[trigger] forward_header_list(hs)[j],
            ) && !is_host_name(forward_header_list(hs)[j].name),
{
    let pred = |h: HeaderView| !is_host_name(h.name);
    assert forall|i: int|
        0 <= i < hs.len() && !is_host_name(hs[i].name) implies forward_header_list(hs).contains(
        hs[i],
    ) by {
        hs.lemma_filter_contains(pred, i);
    }
    assert forall|j: int|
        0 <= j < forward_header_list(hs).len() implies hs.contains(
        #[trigger] forward_header_list(hs)[j],
    ) && !is_host_name(forward_header_list(hs)[j].name) by {
        hs.lemma_filter_pred(pred, j);
        lemma_filter_is_subset(hs, pred, j);
    }
}

/// Every upstream header with a syntactically valid name is present, with
/// the same name and value, on the relayed response; a header with a
/// malformed name is dropped, never corrected, and nothing else is added.
pub proof fn lemma_relay_drops_only_malformed_names(hs: Seq<HeaderView>)
    ensures
        forall|i: int|
            0 <= i < hs.len() && is_valid_header_name(hs[i].name) ==> relay_header_list(
                hs,
            ).contains(hs[i]),
        forall|j: int|
            0 <= j < relay_header_list(hs).len() ==> hs.contains(
                #[trigger] relay_header_list(hs)[j],
            ) && is_valid_header_name(relay_header_list(hs)[j].name),
{
    let pred = |h: HeaderView| is_valid_header_name(h.name);
    assert forall|i: int|
        0 <= i < hs.len() && is_valid_header_name(hs[i].name) implies relay_header_list(
        hs,
    ).contains(hs[i]) by {
        hs.lemma_filter_contains(pred, i);
    }
    assert forall|j: int|
        0 <= j < relay_header_list(hs).len() implies hs.contains(
        #[trigger] relay_header_list(hs)[j],
    ) && is_valid_header_name(relay_header_list(hs)[j].name) by {
        hs.lemma_filter_pred(pred, j);
        lemma_filter_is_subset(hs, pred, j);
    }
}

/// A relayed response reports the upstream's status code itself for every
/// status in the representable range — in particular for every standard
/// success and error code.
pub proof fn lemma_status_relayed_exactly(s: u16)
    requires
        100 <= s <= 999,
    ensures
        relayed_status(s) == s,
{
}

} // verus!
