//! The transport-level message type.
//!
//! A websocket adapter translates its library's frames into this enum and
//! back; the engine itself only ever sees these four shapes.

use vstd::prelude::*;

use crate::protocol::{
    complete_text, init_text, pong_text, ping_text, ConnectionInit,
};

verus! {

/// A websocket message.
///
/// Websocket client libraries usually provide their own version of this
/// struct.  An adapter for a given client translates to and from this enum;
/// binary frames are dropped by the adapter and never reach the engine.
pub enum Message {
    /// A message containing the given text payload
    Text(String),
    /// A message that closes the connection with the given code & reason
    Close {
        /// The status code for this close message
        code: Option<u16>,
        /// Some text explaining the reason the connection is being closed
        reason: Option<String>,
    },
    /// A ping
    Ping,
    /// A reply to a ping
    Pong,
}

impl Message {
    /// The `connection_init` frame; the payload, when present, must already be
    /// serialized JSON.
    pub fn init(payload: Option<String>) -> (r: Message)
        ensures
            r matches Message::Text(t) && t@ == init_text(payload.deep_view()),
    {
        Message::Text(ConnectionInit::new(payload).to_json())
    }

    /// The application-level `pong` frame.
    pub fn graphql_pong() -> (r: Message)
        ensures
            r matches Message::Text(t) && t@ == pong_text(),
    {
        Message::Text(crate::protocol::pong_message())
    }

    /// The application-level `ping` frame.
    pub fn graphql_ping() -> (r: Message)
        ensures
            r matches Message::Text(t) && t@ == ping_text(),
    {
        Message::Text(crate::protocol::ping_message())
    }

    /// The `complete` frame that ends the subscription with the given id.
    pub fn complete(id: u64) -> (r: Message)
        ensures
            r matches Message::Text(t) && t@ == complete_text(id as nat),
    {
        Message::Text(crate::protocol::complete_message(id))
    }
}

} // verus!
