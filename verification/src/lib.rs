//! A verified client-side engine for the graphql-transport-ws subprotocol.
//!
//! The engine multiplexes many GraphQL subscriptions over a single WebSocket
//! connection.  This crate holds the protocol codec, the connection actor's
//! state machine, the keep-alive scheduler, the handshake, and the client-side
//! id allocation, each with a machine-checked contract.  The asynchronous
//! transport itself is supplied by the caller.
//!
//! Beyond the per-function contracts, the crate states and proves:
//! - every registered subscription has exactly one `subscribe` frame and at
//!   most one `complete` frame ([`actor::lemma_registered_id_frames`],
//!   [`actor::lemma_at_most_one_complete`]);
//! - after a close frame nothing further is emitted
//!   ([`actor::lemma_no_frame_after_close`]);
//! - for a fixed subscription, deliveries equal the server's `next`/`error`
//!   order for it, whatever is interleaved
//!   ([`actor::lemma_per_id_delivery_order`]);
//! - subscription ids never repeat within one client
//!   ([`client::lemma_subscription_ids_never_repeat`]);
//! - the handshake accepts exactly one acknowledgement, and the actor never
//!   emits a `connection_init` ([`builder::lemma_handshake_single_ack`],
//!   [`actor::lemma_actor_never_sends_init`]);
//! - a disabled keep-alive never pings, and an enabled one survives exactly
//!   its retry budget ([`keepalive::lemma_keepalive_disabled_is_silent`],
//!   [`keepalive::lemma_keepalive_timeout_bound`]).

use vstd::prelude::*;

pub mod actor;
pub mod builder;
pub mod client;
pub mod connection;
pub mod graphql;
pub mod json;
pub mod keepalive;
pub mod protocol;
pub mod websockets;

use crate::protocol::dec_rep;

verus! {

/// Errors surfaced to callers of the engine.
#[derive(Debug, PartialEq, Eq)]
pub enum Error {
    /// Unknown error
    Unknown(String),
    /// Custom error
    Custom(String, String),
    /// Unexpected close frame
    Close(u16, String),
    /// Decoding / parsing error
    Decode(String),
    /// Serializing error
    Serializing(String),
    /// Sending error
    Send(String),
    /// Futures spawn error
    SpawnHandle(String),
    /// Sender shutdown error
    SenderShutdown(String),
    /// Too many subscription ids have been handed out by one client.
    ConnectionIdsExhausted,
}

/// The human-readable text of each error, used when an error is embedded in a
/// close reason.
pub open spec fn spec_error_message(e: Error) -> Seq<char> {
    match e {
        Error::Unknown(s) => "unknown: "@ + s@,
        Error::Custom(kind, detail) => kind@ + ": "@ + detail@,
        Error::Close(code, reason) => "got close frame. code: "@ + dec_rep(code as nat) + ", reason: "@
            + reason@,
        Error::Decode(s) => "message decode error, reason: "@ + s@,
        Error::Serializing(s) => "couldn't serialize message, reason: "@ + s@,
        Error::Send(s) => "message sending error, reason: "@ + s@,
        Error::SpawnHandle(s) => "futures spawn error, reason: "@ + s@,
        Error::SenderShutdown(s) => "sender shutdown error, reason: "@ + s@,
        Error::ConnectionIdsExhausted => "connection ID space exhausted.  please restart the client"@,
    }
}

impl Error {
    /// Renders the error as text.
    pub fn message(&self) -> (r: String)
        ensures
            r@ == spec_error_message(*self),
    {
        match self {
            Error::Unknown(s) => {
                let mut r = String::from_str("unknown: ");
                r.append(s.as_str());
                proof {
                    assert(r@ =~= spec_error_message(*self));
                }
                r
            },
            Error::Custom(kind, detail) => {
                let mut r = kind.clone();
                r.append(": ");
                r.append(detail.as_str());
                proof {
                    assert(r@ =~= spec_error_message(*self));
                }
                r
            },
            Error::Close(code, reason) => {
                let mut r = String::from_str("got close frame. code: ");
                crate::protocol::push_dec(&mut r, *code as u64);
                r.append(", reason: ");
                r.append(reason.as_str());
                proof {
                    assert(r@ =~= spec_error_message(*self));
                }
                r
            },
            Error::Decode(s) => {
                let mut r = String::from_str("message decode error, reason: ");
                r.append(s.as_str());
                proof {
                    assert(r@ =~= spec_error_message(*self));
                }
                r
            },
            Error::Serializing(s) => {
                let mut r = String::from_str("couldn't serialize message, reason: ");
                r.append(s.as_str());
                proof {
                    assert(r@ =~= spec_error_message(*self));
                }
                r
            },
            Error::Send(s) => {
                let mut r = String::from_str("message sending error, reason: ");
                r.append(s.as_str());
                proof {
                    assert(r@ =~= spec_error_message(*self));
                }
                r
            },
            Error::SpawnHandle(s) => {
                let mut r = String::from_str("futures spawn error, reason: ");
                r.append(s.as_str());
                proof {
                    assert(r@ =~= spec_error_message(*self));
                }
                r
            },
            Error::SenderShutdown(s) => {
                let mut r = String::from_str("sender shutdown error, reason: ");
                r.append(s.as_str());
                proof {
                    assert(r@ =~= spec_error_message(*self));
                }
                r
            },
            Error::ConnectionIdsExhausted => String::from_str(
                "connection ID space exhausted.  please restart the client",
            ),
        }
    }
}

} // verus!
