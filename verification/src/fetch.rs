//! The fetch operation's decisions: proxy configuration from an optional
//! (protocol, ip, port) triple, and classification of a request's outcome
//! into a normalized response.
//!
//! The request itself is network work and is performed by the caller; it
//! reports what happened as a [`FetchOutcome`], and [`response_of`] turns
//! that into the [`FetchResponse`] handed to the front end.

use vstd::prelude::*;
use vstd::string::StringExecFns;
use crate::digits::{dec_digits, u16_decimal};

verus! {

/// The normalized result of one fetch: an HTTP status code and a body.
///
/// `status_code == 0` is a sentinel meaning the request failed before any
/// HTTP status was obtained; `content` then describes the failure instead of
/// holding a body.
pub struct FetchResponse {
    pub status_code: u16,
    pub content: String,
}

/// What happened when the single GET request was attempted.
///
/// `Transport` means no HTTP response was received at all (DNS, connect,
/// TLS, proxy negotiation, timeout). `Body` means a response arrived with
/// the given status but its body could not be read as text. `Success` means
/// the body was read in full.
pub enum FetchOutcome {
    Transport { error: String },
    Body { status: u16, error: String },
    Success { status: u16, body: String },
}

/// An outcome is well formed when its HTTP status, if a response was
/// received, is a real one: never the sentinel `0`.
pub open spec fn outcome_wf(o: FetchOutcome) -> bool {
    match o {
        FetchOutcome::Transport { .. } => true,
        FetchOutcome::Body { status, .. } => status != 0,
        FetchOutcome::Success { status, .. } => status != 0,
    }
}

/// The status code that the normalized response carries for an outcome.
pub open spec fn status_of(o: FetchOutcome) -> u16 {
    match o {
        FetchOutcome::Transport { .. } => 0,
        FetchOutcome::Body { status, .. } => status,
        FetchOutcome::Success { status, .. } => status,
    }
}

/// The content that the normalized response carries for an outcome.
pub open spec fn content_of(o: FetchOutcome) -> Seq<char> {
    match o {
        FetchOutcome::Transport { error } => "Request error: "@ + error@,
        FetchOutcome::Body { error, .. } => "Content error: "@ + error@,
        FetchOutcome::Success { body, .. } => body@,
    }
}

/// Turns the outcome of the attempted request into the response returned to
/// the front end. All failure modes are encoded in the response: a transport
/// failure becomes status `0` with a `"Request error: "` description, a
/// body-read failure keeps the received status with a `"Content error: "`
/// description, and a success carries the body through unchanged.
pub fn response_of(outcome: FetchOutcome) -> (r: FetchResponse)
    requires
        outcome_wf(outcome),
    ensures
        r.status_code == status_of(outcome),
        r.content@ == content_of(outcome),
        r.status_code == 0 <==> outcome is Transport,
{
    match outcome {
        FetchOutcome::Transport { error } => {
            let mut c = String::from_str("Request error: ");
            c.append(error.as_str());
            FetchResponse { status_code: 0, content: c }
        },
        FetchOutcome::Body { status, error } => {
            let mut c = String::from_str("Content error: ");
            c.append(error.as_str());
            FetchResponse { status_code: status, content: c }
        },
        FetchOutcome::Success { status, body } => {
            FetchResponse { status_code: status, content: body }
        },
    }
}

/// A response carries the sentinel status `0` exactly when no HTTP response
/// was received at all, and its content then begins with `"Request error: "`.
pub proof fn lemma_transport_classification(o: FetchOutcome)
    requires
        outcome_wf(o),
    ensures
        status_of(o) == 0 <==> (o is Transport && ("Request error: "@).is_prefix_of(
            content_of(o),
        )),
        o is Transport ==> ("Request error: "@).is_prefix_of(content_of(o)),
{
    if o is Transport {
        assert(content_of(o).subrange(0, ("Request error: "@).len() as int) =~= "Request error: "@);
    }
}

/// A non-sentinel status whose content begins with `"Content error: "` marks
/// exactly an outcome whose response arrived but whose body could not be
/// read — provided a body that was read in full does not itself begin with
/// that marker.
pub proof fn lemma_body_error_classification(o: FetchOutcome)
    requires
        outcome_wf(o),
        o matches FetchOutcome::Success { body, .. } ==> !("Content error: "@).is_prefix_of(body@),
    ensures
        (status_of(o) != 0 && ("Content error: "@).is_prefix_of(content_of(o))) <==> o is Body,
{
    if o is Body {
        assert(content_of(o).subrange(0, ("Content error: "@).len() as int) =~= "Content error: "@);
    }
}

/// The proxy URL composed from a full (protocol, ip, port) triple.
pub open spec fn proxy_url_chars(protocol: Seq<char>, ip: Seq<char>, port: nat) -> Seq<char> {
    protocol + "://"@ + ip + ":"@ + dec_digits(port)
}

/// Decides the proxy configuration for one fetch. Only a full triple
/// configures a proxy, composed as `"{protocol}://{ip}:{port}"`; a partial
/// triple is silently ignored, exactly as if no proxy had been requested,
/// and the client then connects directly.
pub fn proxy_url(protocol: Option<String>, ip: Option<String>, port: Option<u16>) -> (r: Option<
    String,
>)
    ensures
        r is Some <==> (protocol is Some && ip is Some && port is Some),
        protocol is Some && ip is Some && port is Some ==> (r is Some && r->Some_0@
            == proxy_url_chars(protocol->Some_0@, ip->Some_0@, port->Some_0 as nat)),
{
    match (protocol, ip, port) {
        (Some(p), Some(i), Some(q)) => {
            let ghost protocol_chars = p@;
            let mut s = p;
            s.append("://");
            s.append(i.as_str());
            s.append(":");
            let port_digits = u16_decimal(q);
            s.append(port_digits.as_str());
            proof {
                assert(s@ =~= proxy_url_chars(protocol_chars, i@, q as nat));
            }
            Some(s)
        },
        _ => None,
    }
}

} // verus!
