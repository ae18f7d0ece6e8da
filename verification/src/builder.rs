//! The builder and its handshake.
//!
//! The builder configures a connection (init payload, queue depth,
//! keep-alive) and performs the `connection_init` / `connection_ack`
//! exchange.  The surrounding runtime sends [`ClientBuilder::init_message`]
//! once, then feeds every received transport message to
//! [`Handshake::step`] until it answers `Complete` or `Failed`.

use vstd::prelude::*;

use crate::actor::is_close_msg;
use crate::connection::Message;
use crate::json::json_valid;
use crate::keepalive::KeepAliveSettings;
use crate::protocol::{
    init_text, lemma_event_matches_tag, spec_event_type, spec_wire_event, wire_event_tag, Event,
    WireEvent,
};
use crate::Error;

verus! {

/// Builder for GraphQL-over-websocket clients.
#[derive(Debug)]
pub struct ClientBuilder {
    /// The serialized `connection_init` payload, if any.
    pub payload: Option<String>,
    /// The per-subscription delivery queue depth; five when unset.
    pub subscription_buffer_size: Option<usize>,
    /// The keep-alive configuration.
    pub keep_alive: KeepAliveSettings,
}

impl ClientBuilder {
    /// A builder with no payload, the default queue depth, and keep-alive
    /// disabled.
    pub fn new() -> (r: ClientBuilder)
        ensures
            r.payload is None,
            r.subscription_buffer_size is None,
            r.keep_alive.interval is None,
            r.keep_alive.retries == 3,
    {
        ClientBuilder {
            payload: None,
            subscription_buffer_size: None,
            keep_alive: KeepAliveSettings::default(),
        }
    }

    /// Sets the `connection_init` payload, already serialized as JSON.
    pub fn payload(self, payload: String) -> (r: ClientBuilder)
        ensures
            r.payload == Some(payload),
            r.subscription_buffer_size == self.subscription_buffer_size,
            r.keep_alive == self.keep_alive,
    {
        ClientBuilder { payload: Some(payload), ..self }
    }

    /// Sets the per-subscription delivery queue depth.
    pub fn subscription_buffer_size(self, new: usize) -> (r: ClientBuilder)
        ensures
            r.payload == self.payload,
            r.subscription_buffer_size == Some(new),
            r.keep_alive == self.keep_alive,
    {
        ClientBuilder { subscription_buffer_size: Some(new), ..self }
    }

    /// Sets the keep-alive interval, in milliseconds.
    pub fn keep_alive_interval(self, interval_ms: u64) -> (r: ClientBuilder)
        ensures
            r.payload == self.payload,
            r.subscription_buffer_size == self.subscription_buffer_size,
            r.keep_alive.interval == Some(interval_ms),
            r.keep_alive.retries == self.keep_alive.retries,
    {
        ClientBuilder {
            keep_alive: KeepAliveSettings {
                interval: Some(interval_ms),
                retries: self.keep_alive.retries,
            },
            ..self
        }
    }

    /// Sets the number of keep-alive retries.
    pub fn keep_alive_retries(self, count: usize) -> (r: ClientBuilder)
        ensures
            r.payload == self.payload,
            r.subscription_buffer_size == self.subscription_buffer_size,
            r.keep_alive.interval == self.keep_alive.interval,
            r.keep_alive.retries == count,
    {
        ClientBuilder {
            keep_alive: KeepAliveSettings {
                interval: self.keep_alive.interval,
                retries: count,
            },
            ..self
        }
    }

    /// The configured queue depth, or the default of five.
    pub fn buffer_size_or_default(&self) -> (r: usize)
        ensures
            r == (match self.subscription_buffer_size {
                Some(n) => n,
                None => 5usize,
            }),
    {
        match self.subscription_buffer_size {
            Some(n) => n,
            None => 5,
        }
    }

    /// The `connection_init` frame that opens the handshake.  It is sent
    /// exactly once per connection, before any other frame.
    pub fn init_message(&self) -> (r: Message)
        ensures
            r matches Message::Text(t) && t@ == init_text(self.payload.deep_view()),
    {
        let payload = match &self.payload {
            Some(p) => Some(p.clone()),
            None => None,
        };
        Message::init(payload)
    }
}

// ---------------------------------------------------------------------------
// The handshake machine
// ---------------------------------------------------------------------------

/// What the handshake asks of the runtime after one received message.
pub enum HandshakeStep {
    /// Keep reading.
    AwaitMore,
    /// Send an application-level pong, then keep reading.
    ReplyPong,
    /// The `connection_ack` arrived: the handshake is complete.
    Complete,
    /// The handshake failed; when `close` is set, that frame is sent
    /// (best-effort) before giving up.
    Failed {
        /// The close frame to send before failing, if any.
        close: Option<Message>,
        /// The error returned to the caller.
        error: Error,
    },
}

/// The handshake phase: whether the acknowledgement has been accepted.
pub struct Handshake {
    /// Whether the `connection_ack` has been accepted.
    pub done: bool,
}

/// Whether the machine is done after seeing one event.
pub open spec fn spec_hs_step(done: bool, e: Event) -> bool {
    done || e is ConnectionAck
}

/// How many acknowledgements a handshake run accepts over `events`.
pub open spec fn spec_hs_completions(done: bool, events: Seq<Event>) -> nat
    decreases events.len(),
{
    if events.len() == 0 {
        0
    } else {
        (if !done && events.first() is ConnectionAck {
            1nat
        } else {
            0nat
        }) + spec_hs_completions(spec_hs_step(done, events.first()), events.drop_first())
    }
}

proof fn lemma_hs_done_completes_nothing(events: Seq<Event>)
    ensures
        spec_hs_completions(true, events) == 0,
    decreases events.len(),
{
    if events.len() > 0 {
        lemma_hs_done_completes_nothing(events.drop_first());
    }
}

/// The builder accepts exactly one `connection_ack`: over any sequence of
/// events, a handshake run completes at most once — it completes exactly at
/// the first acknowledgement and consumes nothing after it.
pub proof fn lemma_handshake_single_ack(events: Seq<Event>)
    ensures
        spec_hs_completions(false, events) <= 1,
    decreases events.len(),
{
    if events.len() > 0 {
        if events.first() is ConnectionAck {
            lemma_hs_done_completes_nothing(events.drop_first());
        } else {
            lemma_handshake_single_ack(events.drop_first());
        }
    }
}

impl Handshake {
    /// A fresh handshake, awaiting the acknowledgement.
    pub fn new() -> (r: Handshake)
        ensures
            !r.done,
    {
        Handshake { done: false }
    }

    /// Handles one decoded event while waiting for the acknowledgement: a
    /// ping is answered, a pong is ignored, the acknowledgement completes the
    /// handshake, and anything else closes with 4950 and fails with a decode
    /// error naming the unexpected event.
    pub fn on_event(&mut self, event: Event) -> (r: HandshakeStep)
        requires
            !old(self).done,
        ensures
            final(self).done == spec_hs_step(old(self).done, event),
            match event {
                Event::ConnectionAck { .. } => r is Complete,
                Event::Ping { .. } => r is ReplyPong,
                Event::Pong { .. } => r is AwaitMore,
                _ => r matches HandshakeStep::Failed { close, error } && (close matches Some(m)
                    && is_close_msg(m, 4950, "Unexpected message while waiting for ack"@)) && (error
                    matches Error::Decode(d) && d@ == "expected a connection_ack or ping, got "@
                    + spec_event_type(&event)),
            },
    {
        match event {
            Event::ConnectionAck { .. } => {
                self.done = true;
                HandshakeStep::Complete
            },
            Event::Ping { .. } => HandshakeStep::ReplyPong,
            Event::Pong { .. } => HandshakeStep::AwaitMore,
            other => {
                let mut detail = String::from_str("expected a connection_ack or ping, got ");
                detail.append(other.event_type());
                proof {
                    assert(detail@ =~= "expected a connection_ack or ping, got "@
                        + spec_event_type(&other));
                }
                HandshakeStep::Failed {
                    close: Some(
                        Message::Close {
                            code: Some(4950),
                            reason: Some(
                                String::from_str("Unexpected message while waiting for ack"),
                            ),
                        },
                    ),
                    error: Error::Decode(detail),
                }
            },
        }
    }

    /// Handles one transport message while waiting for the acknowledgement.
    /// The end of the transport fails with `Unknown`, a close frame fails
    /// with `Close`, transport pings and pongs are ignored, and a text frame
    /// is decoded and handed to [`Handshake::on_event`]; text that does not
    /// decode fails with a decode error.
    pub fn step(&mut self, message: Option<Message>) -> (r: HandshakeStep)
        requires
            !old(self).done,
        ensures
            match message {
                None => !final(self).done && (r matches HandshakeStep::Failed { close, error }
                    && close is None && (error matches Error::Unknown(u) && u@
                    == "connection dropped"@)),
                Some(Message::Close { code, reason }) => !final(self).done && (r matches
                    HandshakeStep::Failed { close, error } && close is None && (error matches
                    Error::Close(c, re) && c == (if code is Some {
                    code->0
                } else {
                    0u16
                }) && re@ == (if reason is Some {
                    reason->0@
                } else {
                    Seq::<char>::empty()
                }))),
                Some(Message::Ping) | Some(Message::Pong) => r is AwaitMore && !final(self).done,
                Some(Message::Text(s)) => {
                    &&& !json_valid(s@) ==> !final(self).done && (r matches HandshakeStep::Failed {
                        close,
                        error,
                    } && close is None && error is Decode)
                    &&& json_valid(s@) ==> (match spec_wire_event(s@) {
                        Err(msg) => !final(self).done && (r matches HandshakeStep::Failed {
                            close,
                            error,
                        } && close is None && (error matches Error::Decode(d) && d@ == msg)),
                        Ok(w) => match w {
                            WireEvent::ConnectionAck => r is Complete && final(self).done,
                            WireEvent::Ping => r is ReplyPong && !final(self).done,
                            WireEvent::Pong => r is AwaitMore && !final(self).done,
                            _ => !final(self).done && (r matches HandshakeStep::Failed {
                                close,
                                error,
                            } && (close matches Some(m) && is_close_msg(
                                m,
                                4950,
                                "Unexpected message while waiting for ack"@,
                            )) && (error matches Error::Decode(d) && d@
                                == "expected a connection_ack or ping, got "@ + wire_event_tag(
                                w,
                            ))),
                        },
                    })
                },
            },
    {
        let ghost gmsg = message;
        let message = match message {
            None => {
                return HandshakeStep::Failed {
                    close: None,
                    error: Error::Unknown(String::from_str("connection dropped")),
                };
            },
            Some(m) => m,
        };
        match crate::actor::extract_event(message) {
            Err(e) => HandshakeStep::Failed { close: None, error: e },
            Ok(None) => HandshakeStep::AwaitMore,
            Ok(Some(event)) => {
                let ghost ev = event;
                let r = self.on_event(event);
                proof {
                    match gmsg {
                        Some(Message::Text(s)) => match spec_wire_event(s@) {
                            Ok(w) => {
                                lemma_event_matches_tag(ev, w);
                            },
                            Err(_) => {},
                        },
                        _ => {},
                    }
                }
                r
            },
        }
    }
}

} // verus!
