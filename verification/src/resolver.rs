//! The WHOIS resolver: from transport outcome to payload or boundary message.
//!
//! The transport hands back either a response (status and body) or its own
//! failure message. Interpretation is the same for every provider: a
//! success-range status means the body is parsed as JSON and passed through
//! verbatim; any other status is an upstream status error; a body that is not
//! JSON is a parse error; a transport failure is a transport error. Every
//! failure leaves in exactly one of the three boundary string forms, and no
//! input faults: a lookup always returns, success or error.

use vstd::prelude::*;
use crate::error::{error_message, error_message_spec, parse_prefix, WhoisError};
use crate::json::{json_parse_failure, parse_json};
use crate::request::{Provider, WhoisRequest};

verus! {

/// What the transport produced for one request: a response, or the message of
/// a transport-level failure.
pub struct HttpResponse {
    pub status: u16,
    pub body: String,
}

/// The statuses both adapters count as success.
pub open spec fn is_success_status(status: u16) -> bool {
    200 <= status < 300
}

/// Interpret one upstream response: the verbatim JSON payload on a
/// success-range status with a well-formed body, otherwise the classified
/// error — the status code when the status is outside the success range, the
/// parser's message when the body is not JSON.
pub fn interpret_response(status: u16, body: &str) -> (r: Result<serde_json::Value, WhoisError>)
    ensures
        !is_success_status(status) ==> r == Err::<serde_json::Value, WhoisError>(
            WhoisError::UpstreamStatus(status),
        ),
        is_success_status(status) ==> (r is Ok <==> json_parse_failure(body@) is None),
        is_success_status(status) && r is Err ==> (r->Err_0 matches WhoisError::Parse(m)
            && json_parse_failure(body@) matches Some(f) && m@ == f),
{
    if 200 <= status && status < 300 {
        match parse_json(body) {
            Ok(v) => Ok(v),
            Err(m) => Err(WhoisError::Parse(m)),
        }
    } else {
        Err(WhoisError::UpstreamStatus(status))
    }
}

/// The boundary message a lookup must end with, given what the transport
/// produced — or `None` when it must succeed with the payload.
pub open spec fn resolved_failure(event: Result<HttpResponse, String>) -> Option<Seq<char>> {
    match event {
        Err(t) => Some(error_message_spec(WhoisError::Transport(t))),
        Ok(resp) => if !is_success_status(resp.status) {
            Some(error_message_spec(WhoisError::UpstreamStatus(resp.status)))
        } else {
            match json_parse_failure(resp.body@) {
                Some(f) => Some(parse_prefix() + f),
                None => None,
            }
        },
    }
}

/// Complete one lookup from what the transport produced: the verbatim JSON
/// payload, or the single boundary string of the classified error. No retry,
/// no fallback to the other provider.
pub fn resolve(event: Result<HttpResponse, String>) -> (r: Result<serde_json::Value, String>)
    ensures
        r is Ok <==> resolved_failure(event) is None,
        r matches Err(s) ==> resolved_failure(event) matches Some(m) && s@ == m,
{
    match event {
        Ok(resp) => match interpret_response(resp.status, resp.body.as_str()) {
            Ok(v) => Ok(v),
            Err(e) => Err(error_message(&e)),
        },
        Err(t) => Err(error_message(&WhoisError::Transport(t))),
    }
}

/// A string in one of the three boundary template forms: a transport
/// message, a status-code message, or a parse message.
pub open spec fn is_boundary_message(m: Seq<char>) -> bool {
    ||| exists|t: Seq<char>| m == crate::error::transport_prefix() + t
    ||| exists|c: u16| m == crate::error::status_prefix() + crate::decimal::decimal_digits(c as nat)
    ||| exists|t: Seq<char>| m == parse_prefix() + t
}

/// A lookup always completes, success or classified error: whatever the
/// transport produced, the outcome the resolver owes is either the verbatim
/// payload or a message in one of the three boundary template forms — no
/// event is left without a prescribed outcome.
pub proof fn lemma_every_event_resolves(event: Result<HttpResponse, String>)
    ensures
        resolved_failure(event) matches Some(m) ==> is_boundary_message(m),
{
    if let Some(m) = resolved_failure(event) {
        match event {
            Err(t) => {
                assert(m == crate::error::transport_prefix() + t@);
            },
            Ok(resp) => {
                if !is_success_status(resp.status) {
                    assert(m == crate::error::status_prefix() + crate::decimal::decimal_digits(
                        resp.status as nat,
                    ));
                } else {
                    let f = json_parse_failure(resp.body@)->Some_0;
                    assert(m == parse_prefix() + f);
                }
            },
        }
    }
}

/// The single entry point's configuration: which provider adapter is active.
/// Exactly one is live in a running process; there is no runtime fallback
/// between the two.
pub struct Resolver {
    pub provider: Provider,
}

impl Resolver {
    /// A resolver statically configured with `provider`.
    pub fn new(provider: Provider) -> (r: Resolver)
        ensures
            r.provider == provider,
    {
        Resolver { provider }
    }

    /// The request the active provider prescribes for `domain`.
    pub fn request_for(&self, domain: &str) -> (r: WhoisRequest)
        ensures
            r.is_for(self.provider, domain@),
    {
        self.provider.build_request(domain)
    }

    /// Finish the lookup from what the transport produced.
    pub fn complete(&self, event: Result<HttpResponse, String>) -> (r: Result<
        serde_json::Value,
        String,
    >)
        ensures
            r is Ok <==> resolved_failure(event) is None,
            r matches Err(s) ==> resolved_failure(event) matches Some(m) && s@ == m,
    {
        resolve(event)
    }
}

} // verus!
