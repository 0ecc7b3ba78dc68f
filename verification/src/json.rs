//! The JSON payload and its parser.
//!
//! The upstream's response body is parsed once and passed through verbatim as
//! an opaque `serde_json::Value`; nothing here reads inside the payload. The
//! parser itself is outside code, so its verdict on a text is given a name,
//! `json_parse_failure`, that the resolver's contracts speak of.

use vstd::prelude::*;

verus! {

#[verifier::external_type_specification]
#[verifier::external_body]
pub struct ExValue(serde_json::Value);

/// What serde_json's parser says of a text: `None` when the text is valid
/// JSON, otherwise `Some` of the parser's message. The verdict and the
/// message depend on the text alone.
pub uninterp spec fn json_parse_failure(s: Seq<char>) -> Option<Seq<char>>;

/// Relies on `serde_json::from_str::<Value>`: it returns the parsed value
/// exactly when the text is valid JSON, and otherwise an error whose message
/// describes the parse failure; both depend only on the text.
#[verifier::external_body]
pub(crate) fn parse_json(body: &str) -> (r: Result<serde_json::Value, String>)
    ensures
        r is Ok <==> json_parse_failure(body@) is None,
        r matches Err(m) ==> json_parse_failure(body@) matches Some(f) && m@ == f,
{
    serde_json::from_str::<serde_json::Value>(body).map_err(|e| e.to_string())
}

} // verus!
