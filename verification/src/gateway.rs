//! The gateway's sequencing and error shaping.
//!
//! One forwarding operation runs in three steps: screen the caller-supplied
//! rate-limit key, consult the limiter, then relay the downstream outcome
//! (the relay itself is in `forward`). A rejected step produces a structured
//! error reply; a denied request never reaches the forwarder, and the reply
//! types below carry exactly what the caller is shown.

use vstd::prelude::*;
use vstd::string::StringExecFns;

verus! {

/// The structured error payload shown to the caller: a stable error code and
/// a human-readable message.
pub struct ErrorBody {
    pub error: String,
    pub message: String,
}

/// Everything the gateway can answer with.
pub enum GatewayReply {
    /// The request itself was unusable (missing key): status 400.
    ClientError { err: ErrorBody },
    /// The limiter denied admission: status 429.
    RateLimited { err: ErrorBody },
    /// The downstream call could not be completed or read: status 502.
    DownstreamFailure { err: ErrorBody },
    /// The downstream response, relayed: its status, the allow-listed
    /// headers, and the body byte for byte.
    Relay { status: u16, headers: Vec<(String, String)>, body: Vec<u8> },
}

impl GatewayReply {
    /// The HTTP status each reply is sent with.
    pub open spec fn spec_status(self) -> u16 {
        match self {
            GatewayReply::ClientError { .. } => 400,
            GatewayReply::RateLimited { .. } => 429,
            GatewayReply::DownstreamFailure { .. } => 502,
            GatewayReply::Relay { status, .. } => status,
        }
    }

    pub fn status(&self) -> (s: u16)
        ensures
            s == self.spec_status(),
    {
        match self {
            GatewayReply::ClientError { .. } => 400,
            GatewayReply::RateLimited { .. } => 429,
            GatewayReply::DownstreamFailure { .. } => 502,
            GatewayReply::Relay { status, .. } => *status,
        }
    }
}

/// What the caller's `key` field trims to.
pub uninterp spec fn trimmed_of(s: Seq<char>) -> Seq<char>;

/// Relies on str::trim: it returns the input with leading and trailing
/// whitespace removed, a function of the characters alone.
#[verifier::external_body]
fn trim_str<'a>(s: &'a str) -> (r: &'a str)
    ensures
        r@ == trimmed_of(s@),
{
    s.trim()
}

/// What screening decides: reject the request outright, or carry the
/// trimmed key into an admission check.
pub enum AdmissionGate {
    Reject { reply: GatewayReply },
    Quota { key: String },
}

/// Screen the caller-supplied rate-limit key: a key that is empty after
/// trimming is rejected with the `missing_key` error before anything else
/// happens — no limiter check and no store access. Otherwise the trimmed
/// key is what indexes the bucket.
pub fn screen_request(raw_key: &str) -> (g: AdmissionGate)
    ensures
        trimmed_of(raw_key@).len() == 0 ==> (g matches AdmissionGate::Reject { reply }
            && reply matches GatewayReply::ClientError { err } && err.error@ == "missing_key"@
            && err.message@ == "Request must include non-empty 'key'"@),
        trimmed_of(raw_key@).len() != 0 ==> (g matches AdmissionGate::Quota { key } && key@
            == trimmed_of(raw_key@)),
{
    let trimmed = trim_str(raw_key);
    if trimmed.is_empty() {
        AdmissionGate::Reject {
            reply: GatewayReply::ClientError {
                err: ErrorBody {
                    error: String::from_str("missing_key"),
                    message: String::from_str("Request must include non-empty 'key'"),
                },
            },
        }
    } else {
        AdmissionGate::Quota { key: trimmed.to_owned() }
    }
}

/// Turn the limiter's decision into either leave to proceed (the forwarder
/// then runs exactly once) or the `rate_limited` reply.
/// Denial by the limiter — including its fail-closed answer when the counter
/// store is unreachable — is a policy outcome, status 429, never a 5xx.
pub fn quota_verdict(allowed: bool) -> (r: Option<GatewayReply>)
    ensures
        allowed ==> r is None,
        !allowed ==> (r matches Some(reply) && reply matches GatewayReply::RateLimited { err }
            && err.error@ == "rate_limited"@ && err.message@ == "Too many requests"@),
{
    if allowed {
        Option::None
    } else {
        Option::Some(
            GatewayReply::RateLimited {
                err: ErrorBody {
                    error: String::from_str("rate_limited"),
                    message: String::from_str("Too many requests"),
                },
            },
        )
    }
}

} // verus!
