//! Classified lookup failures and their boundary string forms.
//!
//! Internally every failure is a tagged variant; only at the outermost
//! boundary is it rendered as a string, one fixed template per kind, so the
//! taxonomy survives in the message.

use vstd::prelude::*;
use vstd::string::StringExecFns;
use crate::decimal::{decimal_digits, u16_decimal};

verus! {

/// One failed WHOIS lookup, classified.
#[derive(Debug, PartialEq, Eq)]
pub enum WhoisError {
    /// The request could not be sent or no response was received; carries the
    /// transport's own message.
    Transport(String),
    /// A response arrived whose HTTP status is outside the success range;
    /// carries the numeric status code.
    UpstreamStatus(u16),
    /// A success-status response whose body is not valid JSON; carries the
    /// parser's message.
    Parse(String),
}

/// Template head for a transport failure.
pub open spec fn transport_prefix() -> Seq<char> {
    "request send failed: "@
}

/// Template head for a non-success upstream status.
pub open spec fn status_prefix() -> Seq<char> {
    "request failed, status code: "@
}

/// Template head for a JSON parse failure.
pub open spec fn parse_prefix() -> Seq<char> {
    "JSON parse failed: "@
}

/// The one string form in which an error of each kind crosses the boundary.
pub open spec fn error_message_spec(e: WhoisError) -> Seq<char> {
    match e {
        WhoisError::Transport(m) => transport_prefix() + m@,
        WhoisError::UpstreamStatus(c) => status_prefix() + decimal_digits(c as nat),
        WhoisError::Parse(m) => parse_prefix() + m@,
    }
}

/// Render an error in its boundary string form.
pub fn error_message(e: &WhoisError) -> (r: String)
    ensures
        r@ == error_message_spec(*e),
{
    match e {
        WhoisError::Transport(m) => String::from_str("request send failed: ").concat(m.as_str()),
        WhoisError::UpstreamStatus(c) => String::from_str("request failed, status code: ").concat(
            u16_decimal(*c).as_str(),
        ),
        WhoisError::Parse(m) => String::from_str("JSON parse failed: ").concat(m.as_str()),
    }
}

/// The three templates never collide: a boundary message identifies its error
/// kind, whatever the carried transport message, status code or parser
/// message, so a caller holding only the string can still tell the kinds
/// apart.
pub proof fn lemma_error_kinds_distinguishable(e1: WhoisError, e2: WhoisError)
    requires
        !(e1 is Transport && e2 is Transport),
        !(e1 is UpstreamStatus && e2 is UpstreamStatus),
        !(e1 is Parse && e2 is Parse),
    ensures
        error_message_spec(e1) != error_message_spec(e2),
{
    reveal_strlit("request send failed: ");
    reveal_strlit("request failed, status code: ");
    reveal_strlit("JSON parse failed: ");
    let s1 = error_message_spec(e1);
    let s2 = error_message_spec(e2);
    assert(e1 is Transport ==> s1[0] == 'r' && s1[8] == 's');
    assert(e1 is UpstreamStatus ==> s1[0] == 'r' && s1[8] == 'f');
    assert(e1 is Parse ==> s1[0] == 'J');
    assert(e2 is Transport ==> s2[0] == 'r' && s2[8] == 's');
    assert(e2 is UpstreamStatus ==> s2[0] == 'r' && s2[8] == 'f');
    assert(e2 is Parse ==> s2[0] == 'J');
}

} // verus!
