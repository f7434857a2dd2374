//! The forwarder: turning an admitted request into exactly one outbound call
//! and relaying a bounded view of what came back.
//!
//! The rules here are pure: method resolution with the documented POST
//! fallback, pass-through of query parameters, headers, timeout and body,
//! the fixed allow-list of relayed response headers, and the mapping of the
//! downstream outcome to a caller-facing reply. Performing the call itself
//! is the unverified shell's job; it hands the outcome back as a
//! `FetchOutcome` value.

use vstd::prelude::*;
use vstd::string::StringExecFns;
use crate::gateway::ErrorBody;
use crate::gateway::GatewayReply;

verus! {

/// What an uppercased method string is.
pub uninterp spec fn upper_of(s: Seq<char>) -> Seq<char>;

/// Relies on str::to_uppercase: the result is the Unicode uppercase
/// equivalent of the input, a function of the characters alone.
#[verifier::external_body]
fn upper_str(s: &str) -> (r: String)
    ensures
        r@ == upper_of(s@),
{
    s.to_uppercase()
}

/// Whether a string is a well-formed HTTP method token.
pub uninterp spec fn method_token_ok(s: Seq<char>) -> bool;

/// Relies on http::Method::from_bytes: it returns Ok exactly on well-formed
/// method tokens — a function of the bytes alone — and errs on empty input.
#[verifier::external_body]
fn is_method_token(s: &str) -> (r: bool)
    ensures
        r == method_token_ok(s@),
        s@.len() == 0 ==> !r,
{
    http::Method::from_bytes(s.as_bytes()).is_ok()
}

/// The method the outbound call is made with: the caller's method,
/// uppercased; or POST — the documented fallback, not an error — when the
/// uppercased string is no valid method token.
pub open spec fn spec_resolved_method(m: Seq<char>) -> Seq<char> {
    if method_token_ok(upper_of(m)) {
        upper_of(m)
    } else {
        "POST"@
    }
}

/// The fallback selection on its own: given the uppercased method and
/// whether it parsed as a method token, pick it or POST.
pub fn choose_method(upper: String, valid: bool) -> (r: String)
    ensures
        r@ == if valid {
            upper@
        } else {
            "POST"@
        },
{
    if valid {
        upper
    } else {
        String::from_str("POST")
    }
}

/// Resolve the caller-supplied method string.
pub fn resolve_method(m: &str) -> (r: String)
    ensures
        r@ == spec_resolved_method(m@),
{
    let upper = upper_str(m);
    let valid = is_method_token(upper.as_str());
    choose_method(upper, valid)
}

/// The caller's envelope, as the gateway works on it: plain string pairs for
/// headers and query parameters, the JSON body already as raw bytes.
pub struct ProxyRequest {
    pub key: String,
    pub url: String,
    pub method: String,
    pub headers: Vec<(String, String)>,
    pub query: Vec<(String, String)>,
    pub body: Option<Vec<u8>>,
    pub timeout_ms: Option<u64>,
}

/// Everything the outbound call is built from, fully resolved.
pub struct ForwardPlan {
    pub url: String,
    pub method: String,
    pub headers: Vec<(String, String)>,
    pub query: Vec<(String, String)>,
    pub body: Option<Vec<u8>>,
    pub timeout_ms: Option<u64>,
}

/// Build the outbound plan for an admitted request: the destination and the
/// query parameters pass through unchanged, every caller-supplied header is
/// forwarded verbatim, and an `Accept` header on the inbound request itself
/// is forwarded too, after the caller's own headers. The body, if present,
/// is sent as given; if absent, no body is sent regardless of method.
pub fn build_plan(req: ProxyRequest, inbound_accept: Option<String>) -> (p: ForwardPlan)
    ensures
        p.url == req.url,
        p.method@ == spec_resolved_method(req.method@),
        p.query == req.query,
        p.body == req.body,
        p.timeout_ms == req.timeout_ms,
        inbound_accept is None ==> p.headers == req.headers,
        inbound_accept matches Some(a) ==> p.headers@.len() == req.headers@.len() + 1
            && p.headers@.subrange(0, req.headers@.len() as int) == req.headers@
            && p.headers@.last().0@ == "accept"@ && p.headers@.last().1 == a,
{
    let method = resolve_method(req.method.as_str());
    let ProxyRequest { url, mut headers, query, body, timeout_ms, .. } = req;
    match inbound_accept {
        Option::Some(a) => {
            headers.push((String::from_str("accept"), a));
            proof {
                assert(headers@.subrange(0, req.headers@.len() as int) =~= req.headers@);
            }
        },
        Option::None => {},
    }
    ForwardPlan { url, method, headers, query, body, timeout_ms }
}

/// Whether a downstream response header, by its canonical lowercase name, is
/// on the fixed allow-list that may be relayed to the caller.
pub open spec fn relayable_name(n: Seq<char>) -> bool {
    n == "content-type"@ || n == "content-length"@ || n == "cache-control"@
}

/// The relayed headers: exactly the allow-listed ones, in order.
pub open spec fn spec_relay_headers(hs: Seq<(String, String)>) -> Seq<(String, String)> {
    hs.filter(|p: (String, String)| relayable_name(p.0@))
}

proof fn lemma_relay_headers_push(s: Seq<(String, String)>, x: (String, String))
    ensures
        spec_relay_headers(s.push(x)) == if relayable_name(x.0@) {
            spec_relay_headers(s).push(x)
        } else {
            spec_relay_headers(s)
        },
{
    reveal(Seq::filter);
    assert(s.push(x).drop_last() =~= s);
}

/// Keep only the allow-listed response headers. Downstream header names are
/// given in their canonical lowercase form, which is how the HTTP layer
/// hands them over.
pub fn relay_headers(hs: &Vec<(String, String)>) -> (r: Vec<(String, String)>)
    ensures
        r@ == spec_relay_headers(hs@),
{
    let ct = String::from_str("content-type");
    let cl = String::from_str("content-length");
    let cc = String::from_str("cache-control");
    let mut r: Vec<(String, String)> = Vec::new();
    let mut i: usize = 0;
    while i < hs.len()
        invariant
            i <= hs.len(),
            ct@ == "content-type"@,
            cl@ == "content-length"@,
            cc@ == "cache-control"@,
            r@ == spec_relay_headers(hs@.subrange(0, i as int)),
        decreases hs.len() - i,
    {
        let keep = hs[i].0 == ct || hs[i].0 == cl || hs[i].0 == cc;
        proof {
            assert(hs@.subrange(0, i + 1 as int) =~= hs@.subrange(0, i as int).push(hs@[i as int]));
            lemma_relay_headers_push(hs@.subrange(0, i as int), hs@[i as int]);
        }
        if keep {
            let pair = (hs[i].0.clone(), hs[i].1.clone());
            assert(pair == hs@[i as int]);
            r.push(pair);
        }
        i = i + 1;
    }
    proof {
        assert(hs@.subrange(0, hs@.len() as int) =~= hs@);
    }
    r
}

/// The downstream header `x-internal-debug` is never relayed, whatever value
/// it carries: its name is not on the allow-list.
pub proof fn lemma_debug_header_never_relayed(hs: Seq<(String, String)>, i: int)
    requires
        0 <= i < spec_relay_headers(hs).len(),
    ensures
        spec_relay_headers(hs)[i].0@ != "x-internal-debug"@,
{
    broadcast use vstd::seq_lib::group_filter_ensures;

    reveal_strlit("x-internal-debug");
    reveal_strlit("content-type");
    reveal_strlit("content-length");
    reveal_strlit("cache-control");
    let name = spec_relay_headers(hs)[i].0@;
    assert(relayable_name(name));
    assert("content-type"@.len() == 12);
    assert("content-length"@.len() == 14);
    assert("cache-control"@.len() == 13);
    assert("x-internal-debug"@.len() == 16);
}

/// The status the caller sees for a relayed downstream response: the
/// downstream status unchanged whenever it is a representable HTTP status,
/// else the generic gateway-error status.
pub open spec fn spec_relay_status(s: u16) -> u16 {
    if 100 <= s < 1000 {
        s
    } else {
        502
    }
}

/// How the single outbound call ended, as the unverified shell reports it.
pub enum FetchOutcome {
    /// The call never completed: connect, timeout or transport failure.
    Transport { detail: String },
    /// The call completed but the response body could not be read.
    BodyRead { detail: String },
    /// The call completed; its status, headers and raw body.
    Completed { status: u16, headers: Vec<(String, String)>, body: Vec<u8> },
}

/// Map the downstream outcome to the caller-facing reply: a transport
/// failure and a body-read failure each become the structured gateway-error
/// reply naming the failure; a completed call is relayed — its status passed
/// through, only allow-listed headers kept, the body byte for byte.
pub fn relay_outcome(o: FetchOutcome) -> (r: GatewayReply)
    ensures
        o matches FetchOutcome::Transport { detail } ==> (r
            matches GatewayReply::DownstreamFailure { err } && err.error@ == "downstream_error"@
            && err.message == detail),
        o matches FetchOutcome::BodyRead { detail } ==> (r
            matches GatewayReply::DownstreamFailure { err } && err.error@
            == "downstream_read_error"@ && err.message == detail),
        o matches FetchOutcome::Completed { status, headers, body } ==> (r
            matches GatewayReply::Relay { status: rs, headers: rh, body: rb } && rs
            == spec_relay_status(status) && rh@ == spec_relay_headers(headers@) && rb == body),
{
    match o {
        FetchOutcome::Transport { detail } => GatewayReply::DownstreamFailure {
            err: ErrorBody { error: String::from_str("downstream_error"), message: detail },
        },
        FetchOutcome::BodyRead { detail } => GatewayReply::DownstreamFailure {
            err: ErrorBody { error: String::from_str("downstream_read_error"), message: detail },
        },
        FetchOutcome::Completed { status, headers, body } => {
            let relayed = relay_headers(&headers);
            let st: u16 = if 100 <= status && status < 1000 {
                status
            } else {
                502
            };
            GatewayReply::Relay { status: st, headers: relayed, body }
        },
    }
}

} // verus!
