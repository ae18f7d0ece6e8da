//! Trusted boundary to `serde_json`.
//!
//! The engine carries subscription payloads as opaque `serde_json::Value`s
//! and never looks inside them; the only structure it reads from an incoming
//! frame is the envelope: the `type` tag, the `id`, whether a payload is
//! present, and whether that payload is an array.  Each of those parts is a
//! function of the frame text alone, so each gets a name below, and the one
//! trusted reader ties the envelope it returns to those names.

use vstd::prelude::*;

use crate::protocol::Envelope;

verus! {

/// The type of JSON documents, used opaquely: the engine stores and forwards
/// values of this type but never inspects them.
#[verifier::external_type_specification]
#[verifier::external_body]
pub struct ExValue(serde_json::Value);

/// Whether `serde_json::from_str::<Value>` accepts this text, i.e. whether it
/// is one well-formed JSON document.  The parser decides this from the text
/// alone.
pub uninterp spec fn json_valid(s: Seq<char>) -> bool;

/// The `type` field of the parsed document, when the document has one and it
/// is a string.
pub uninterp spec fn env_type_of(s: Seq<char>) -> Option<Seq<char>>;

/// The `id` field of the parsed document, when the document has one and it
/// is a string.
pub uninterp spec fn env_id_of(s: Seq<char>) -> Option<Seq<char>>;

/// Whether the parsed document has a `payload` field.
pub uninterp spec fn env_has_payload_of(s: Seq<char>) -> bool;

/// Whether the parsed document's `payload` field is a JSON array.
pub uninterp spec fn env_payload_is_array_of(s: Seq<char>) -> bool;

/// Relies on `serde_json::from_str::<Value>` and the `Value` accessors
/// `get`, `as_str` and `is_array`: parses one JSON document, succeeding
/// exactly on well-formed input, and reads its envelope.  The envelope's
/// fields are functions of the text alone, named by the spec functions
/// above; the payload itself is carried opaquely.  On failure the parser's
/// own message is returned.
#[verifier::external_body]
pub(crate) fn read_envelope(s: &str) -> (r: Result<Envelope, String>)
    ensures
        r is Ok <==> json_valid(s@),
        r matches Ok(env) ==> {
            &&& env.event_type.deep_view() == env_type_of(s@)
            &&& env.id.deep_view() == env_id_of(s@)
            &&& (env.payload is Some <==> env_has_payload_of(s@))
            &&& env.payload_is_array == env_payload_is_array_of(s@)
        },
{
    let v: serde_json::Value = match serde_json::from_str(s) {
        Ok(v) => v,
        Err(e) => return Err(e.to_string()),
    };
    let event_type = v.get("type").and_then(|t| t.as_str()).map(|t| t.to_owned());
    let id = v.get("id").and_then(|t| t.as_str()).map(|t| t.to_owned());
    let payload = v.get("payload").cloned();
    let payload_is_array = match &payload {
        Some(p) => p.is_array(),
        None => false,
    };
    Ok(Envelope { event_type, id, payload, payload_is_array })
}

/// Relies on `serde_json::Map::insert`: builds the object `{"errors": payload}`
/// in which a server `error` payload is forwarded to the consumer.
#[verifier::external_body]
pub(crate) fn wrap_errors(payload: serde_json::Value) -> (r: serde_json::Value) {
    let mut map = serde_json::Map::new();
    map.insert("errors".to_string(), payload);
    serde_json::Value::Object(map)
}

} // verus!
