//! An abstraction over websocket messages.
//!
//! The engine does not implement the websocket protocol itself.  This trait
//! is implemented by adapters for websocket client libraries, which map
//! their own message type onto these accessors.

use vstd::prelude::*;

verus! {

/// An abstraction around websocket messages, implemented by transport
/// adapters.
pub trait WebsocketMessage: Sized {
    /// The error type of the underlying websocket client.
    type Error;

    /// Constructs a new text message.
    fn new(text: String) -> Self;

    /// The text contained in this message, if it is a text message.
    fn text(&self) -> Option<&str>;

    /// The text of the error, if this message carries one.
    fn error_message(&self) -> Option<String>;

    /// Whether this message is a websocket ping.
    fn is_ping(&self) -> bool;

    /// Whether this message is a websocket pong.
    fn is_pong(&self) -> bool;

    /// Whether this message is a websocket close.
    fn is_close(&self) -> bool;
}

} // verus!
