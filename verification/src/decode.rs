//! Decoding of the request side of the wire envelope.
//!
//! A request arrives as arbitrary JSON text.  The library does not parse
//! JSON itself: it hands the text to `serde_json` behind one trusted
//! wrapper and only names the result, since the wrapper's outcome is a
//! function of the text alone.  Everything the registry then does with the
//! two extracted members is verified.

use vstd::prelude::*;

verus! {

/// The two envelope members the registry reads from a request: its command
/// and its correlation identifier, each absent when the document does not
/// carry it as a string.
pub struct RawEnvelope {
    pub cmd: Option<String>,
    pub request_id: Option<String>,
}

/// What decoding a request text yields: `None` when the text is not a JSON
/// document, otherwise the `cmd` and `requestId` string members in that
/// order, each `None` when absent or not a string.
pub uninterp spec fn spec_envelope_fields(text: Seq<char>) -> Option<(Option<Seq<char>>, Option<
    Seq<char>,
>)>;

/// The view of an optional string.
pub open spec fn spec_opt_view(o: Option<String>) -> Option<Seq<char>> {
    match o {
        Some(s) => Some(s@),
        None => None,
    }
}

/// The correlation identifier a response echoes: the request's own, or
/// empty when the request carried none.
pub open spec fn spec_rid(o: Option<Seq<char>>) -> Seq<char> {
    match o {
        Some(s) => s,
        None => Seq::empty(),
    }
}

/// Relies on `serde_json::from_str::<Value>`, `Value::get` and
/// `Value::as_str`: parsing a JSON document fails exactly when the text is
/// not JSON, and reading the `"cmd"` and `"requestId"` members yields their
/// string values when present; all of it depends on the text alone.
#[verifier::external_body]
pub(crate) fn decode_envelope(raw: &str) -> (r: Option<RawEnvelope>)
    ensures
        match spec_envelope_fields(raw@) {
            None => r is None,
            Some(f) => {
                &&& r matches Some(e)
                &&& spec_opt_view(e.cmd) == f.0
                &&& spec_opt_view(e.request_id) == f.1
            },
        },
{
    let value: serde_json::Value = match serde_json::from_str(raw) {
        Ok(v) => v,
        Err(_) => return None,
    };
    let cmd = value.get("cmd").and_then(|m| m.as_str()).map(|s| s.to_string());
    let request_id = value.get("requestId").and_then(|m| m.as_str()).map(|s| s.to_string());
    Some(RawEnvelope { cmd, request_id })
}

} // verus!
