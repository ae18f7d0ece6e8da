//! The operation abstraction supplied by callers.
//!
//! An operation knows how to serialize itself as the `payload` of a
//! `subscribe` frame and how to decode a raw response into the caller's
//! domain type.  The engine never inspects the decoded shape.

use vstd::prelude::*;

use crate::Error;

verus! {

/// An abstraction over GraphQL operations, implemented by callers (or by an
/// adapter for their GraphQL client library).
pub trait GraphqlOperation {
    /// The decoded response type of this operation.
    type Response;

    /// The operation serialized as JSON text, to be embedded as the `payload`
    /// of the `subscribe` frame; an error describes why serialization failed.
    fn serialize_json(&self) -> Result<String, String>;

    /// Decodes a raw response into the caller's domain type; an error
    /// describes why decoding failed.
    fn decode(&self, data: serde_json::Value) -> Result<Self::Response, String>;
}

/// Decodes one delivered item with the subscription's operation.  A decode
/// failure is surfaced to the consumer as a [`Error::Decode`] item; it never
/// terminates the subscription or the connection.
pub fn decode_item<Op: GraphqlOperation>(op: &Op, data: serde_json::Value) -> (r: Result<
    Op::Response,
    Error,
>)
    ensures
        r is Err ==> r->Err_0 is Decode,
{
    match op.decode(data) {
        Ok(v) => Ok(v),
        Err(e) => Err(Error::Decode(e)),
    }
}

} // verus!
