//! JSON values that the library carries without reading them, and the one
//! field of a raw websocket message that it does read.

use vstd::prelude::*;

verus! {

/// A JSON value (`serde_json::Value`), carried through unread.
#[verifier::external_type_specification]
#[verifier::external_body]
pub struct ExJsonValue(serde_json::Value);

/// The text at `payload.session.id` of the JSON document `text`: `None`
/// when `text` is not JSON or that member is missing or not a string.
pub uninterp spec fn json_payload_session_id(text: Seq<char>) -> Option<Seq<char>>;

/// Text of an optional string.
pub open spec fn opt_text(s: Option<String>) -> Option<Seq<char>> {
    match s {
        Some(t) => Some(t@),
        None => None,
    }
}

/// Trusted: parses `text` with `serde_json::from_str` into a
/// `serde_json::Value`, indexes it by `["payload"]["session"]["id"]` and
/// takes `as_str`. The contract claims only that the outcome is a function of
/// the text alone, named `json_payload_session_id`.
#[verifier::external_body]
pub(crate) fn payload_session_id(text: &str) -> (r: Option<String>)
    ensures
        opt_text(r) == json_payload_session_id(text@),
{
    match serde_json::from_str::<serde_json::Value>(text) {
        Ok(v) => v["payload"]["session"]["id"].as_str().map(|s| s.to_string()),
        Err(_) => None,
    }
}

} // verus!
