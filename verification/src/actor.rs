//! The connection actor's state machine.
//!
//! The actor owns the subscription table and decides, for every command from
//! a client handle and every message from the transport, what to send and how
//! the table changes.  The surrounding runtime performs the actual channel
//! and socket operations and feeds the results back in; every decision here
//! is verified.
//!
//! A ghost trace records the protocol frames the actor has decided to emit,
//! and the well-formedness invariant [`ConnectionActor::wf`] ties the trace
//! to the table: a registered id has exactly one `subscribe` frame and no
//! `complete` frame yet, no id ever gets a second `subscribe` or `complete`,
//! and once a close frame is emitted nothing follows it.

use vstd::prelude::*;

use std::collections::HashMap;

use crate::connection::Message;
use crate::json::{json_valid, wrap_errors};
use crate::keepalive::KeepAliveSettings;
use crate::protocol::{
    classify_event, complete_text, dec_val, event_matches_wire, is_dec_string,
    lemma_classify_of_envelope, parse_dec_u64, parse_envelope, pong_text, spec_wire_event, Event,
};
use crate::Error;

verus! {

broadcast use vstd::std_specs::hash::group_hash_axioms;

/// The sending half of a delivery queue, used opaquely: the actor stores one
/// per subscription and hands it back out for the runtime to send on.
#[verifier::external_type_specification]
#[verifier::external_body]
#[verifier::reject_recursive_types(T)]
pub struct ExSender<T>(async_channel::Sender<T>);

/// A command sent from a client handle to the actor.
pub enum ConnectionCommand {
    /// Start an operation.
    Subscribe {
        /// The full subscribe frame as JSON text, built by the client.
        request: String,
        /// The sending half of the delivery queue for this subscription.
        sender: async_channel::Sender<serde_json::Value>,
        /// The subscription id.
        id: u64,
    },
    /// Send a keep-alive ping frame.
    Ping,
    /// End the operation with the given id, if it is still live.
    Cancel(u64),
    /// Close the connection with the given code and reason.
    Close(u16, String),
}

/// One protocol frame the actor has decided to emit, as recorded in the ghost
/// trace.  A `Subscribe(id)` entry stands for the subscribe frame whose text
/// the client built for that id; the remaining entries stand for the frames
/// the actor builds itself.
pub enum Frame {
    /// A `connection_init` frame.  The actor never emits one; only the
    /// handshake does, before the actor exists.
    Init,
    /// The subscribe frame for the given id.
    Subscribe(u64),
    /// The complete frame for the given id.
    Complete(u64),
    /// A transport ping frame.
    Ping,
    /// An application-level pong frame.
    Pong,
    /// A close frame (any code).
    Close,
}

/// How many times frame `f` occurs in trace `t`.
pub open spec fn count_frame(t: Seq<Frame>, f: Frame) -> nat
    decreases t.len(),
{
    if t.len() == 0 {
        0
    } else {
        count_frame(t.drop_last(), f) + (if t.last() == f {
            1nat
        } else {
            0nat
        })
    }
}

/// How many subscribe frames for `id` the trace holds.
#[verifier::inline]
pub open spec fn count_subscribe(t: Seq<Frame>, id: u64) -> nat {
    count_frame(t, Frame::Subscribe(id))
}

/// How many complete frames for `id` the trace holds.
#[verifier::inline]
pub open spec fn count_complete(t: Seq<Frame>, id: u64) -> nat {
    count_frame(t, Frame::Complete(id))
}

/// Whether the trace holds a close frame.
pub open spec fn has_close(t: Seq<Frame>) -> bool {
    exists|i: int| 0 <= i < t.len() && t[i] is Close
}

proof fn lemma_count_frame_push(t: Seq<Frame>, x: Frame, f: Frame)
    ensures
        count_frame(t.push(x), f) == count_frame(t, f) + (if x == f {
            1nat
        } else {
            0nat
        }),
{
    assert(t.push(x).drop_last() =~= t);
    assert(t.push(x).last() == x);
}

proof fn lemma_counts_push_all(t: Seq<Frame>, x: Frame)
    ensures
        forall|f: Frame| #[trigger] count_frame(t.push(x), f) == count_frame(t, f) + (if x == f {
            1nat
        } else {
            0nat
        }),
        has_close(t.push(x)) <==> has_close(t) || x is Close,
{
    assert forall|f: Frame| #[trigger] count_frame(t.push(x), f) == count_frame(t, f) + (if x == f {
        1nat
    } else {
        0nat
    }) by {
        lemma_count_frame_push(t, x, f);
    }
    if x is Close {
        assert(t.push(x)[t.len() as int] is Close);
        assert(has_close(t.push(x)));
    }
    if has_close(t) {
        let i = choose|i: int| 0 <= i < t.len() && t[i] is Close;
        assert(t.push(x)[i] is Close);
    }
    if has_close(t.push(x)) && !(x is Close) {
        let i = choose|i: int| 0 <= i < t.push(x).len() && t.push(x)[i] is Close;
        assert(i < t.len());
        assert(t[i] is Close);
    }
}

proof fn lemma_count_frame_empty(f: Frame)
    ensures
        count_frame(Seq::<Frame>::empty(), f) == 0,
{
}

// ---------------------------------------------------------------------------
// The specification machine
// ---------------------------------------------------------------------------

/// The mathematical state of the actor: the set of registered ids and whether
/// a terminal close frame has been emitted.
#[verifier::ext_equal]
pub struct ActorModel {
    /// The registered subscription ids.
    pub ops: Set<u64>,
    /// Whether a close frame has been emitted.
    pub closed: bool,
}

/// What the actor does in reaction to one event, in the model.
pub enum SpecOutput {
    /// No frame, no delivery.
    Nothing,
    /// Reply with an application-level pong frame.
    ReplyPong,
    /// Forward a payload to the delivery queue of subscription `id`; for an
    /// `error` event the forwarded value is the payload wrapped as
    /// `{"errors": payload}`.
    Deliver {
        /// The target subscription.
        id: u64,
        /// The event's own payload.
        payload: serde_json::Value,
        /// Whether the forwarded value is the wrapped form.
        wrapped: bool,
    },
    /// Close 4856: the event referenced a malformed subscription id.
    CloseUnknownSubscription,
    /// Close 4855: a `connection_ack` arrived after the handshake.
    CloseUnexpectedAck,
}

/// The numeric value of a wire id, when it is a well-formed decimal that fits.
pub open spec fn spec_id_of(id: Seq<char>) -> Option<u64> {
    if is_dec_string(id) && dec_val(id) <= u64::MAX {
        Some(dec_val(id) as u64)
    } else {
        None
    }
}

/// One step of the actor on a decoded event.
pub open spec fn spec_event_step(m: ActorModel, e: Event) -> (ActorModel, SpecOutput) {
    if m.closed {
        (m, SpecOutput::Nothing)
    } else {
        match e {
            Event::Next { id, payload } => match spec_id_of(id@) {
                None => (
                    ActorModel { ops: m.ops, closed: true },
                    SpecOutput::CloseUnknownSubscription,
                ),
                Some(n) => if m.ops.contains(n) {
                    (m, SpecOutput::Deliver { id: n, payload, wrapped: false })
                } else {
                    (m, SpecOutput::Nothing)
                },
            },
            Event::Error { id, payload } => match spec_id_of(id@) {
                None => (
                    ActorModel { ops: m.ops, closed: true },
                    SpecOutput::CloseUnknownSubscription,
                ),
                Some(n) => if m.ops.contains(n) {
                    (m, SpecOutput::Deliver { id: n, payload, wrapped: true })
                } else {
                    (m, SpecOutput::Nothing)
                },
            },
            Event::Complete { id } => match spec_id_of(id@) {
                None => (
                    ActorModel { ops: m.ops, closed: true },
                    SpecOutput::CloseUnknownSubscription,
                ),
                Some(n) => (ActorModel { ops: m.ops.remove(n), closed: false }, SpecOutput::Nothing),
            },
            Event::ConnectionAck { .. } => (
                ActorModel { ops: m.ops, closed: true },
                SpecOutput::CloseUnexpectedAck,
            ),
            Event::Ping { .. } => (m, SpecOutput::ReplyPong),
            Event::Pong { .. } => (m, SpecOutput::Nothing),
        }
    }
}

/// The frames the actor emits for one model output.
pub open spec fn frames_of_output(o: SpecOutput) -> Seq<Frame> {
    match o {
        SpecOutput::Nothing => Seq::empty(),
        SpecOutput::ReplyPong => seq![Frame::Pong],
        SpecOutput::Deliver { .. } => Seq::empty(),
        SpecOutput::CloseUnknownSubscription => seq![Frame::Close],
        SpecOutput::CloseUnexpectedAck => seq![Frame::Close],
    }
}

/// What the actor may answer for one handled message.
pub enum Handled {
    /// No frame to send.
    Nothing,
    /// A frame to send on the transport; if it is a close frame, the actor
    /// terminates after sending it.
    Reply(Message),
    /// A payload to send into the delivery queue of subscription `id`.
    Forward {
        /// The target subscription.
        id: u64,
        /// The value to deliver (already wrapped for error events).
        payload: serde_json::Value,
    },
}

/// Whether `m` is a text frame with exactly this text.
pub open spec fn is_text_msg(m: Message, text: Seq<char>) -> bool {
    m matches Message::Text(t) && t@ == text
}

/// Whether `m` is a close frame with exactly this code and reason.
pub open spec fn is_close_msg(m: Message, code: u16, reason: Seq<char>) -> bool {
    m matches Message::Close { code: c, reason: re } && c == Some(code) && (re matches Some(r)
        && r@ == reason)
}

/// How an executable answer realises a model output.  For an unwrapped
/// delivery the forwarded value is the event payload itself; the wrapped form
/// is produced by the trusted `{"errors": …}` constructor and is not pinned
/// down further.
pub open spec fn output_matches(h: Handled, o: SpecOutput) -> bool {
    match o {
        SpecOutput::Nothing => h is Nothing,
        SpecOutput::ReplyPong => h matches Handled::Reply(m) && is_text_msg(m, pong_text()),
        SpecOutput::Deliver { id, payload, wrapped } => h matches Handled::Forward {
            id: hid,
            payload: hp,
        } && hid == id && (!wrapped ==> hp == payload),
        SpecOutput::CloseUnknownSubscription => h matches Handled::Reply(m) && is_close_msg(
            m,
            4856,
            "unknown subscription"@,
        ),
        SpecOutput::CloseUnexpectedAck => h matches Handled::Reply(m) && is_close_msg(
            m,
            4855,
            "too many acknowledges"@,
        ),
    }
}

// ---------------------------------------------------------------------------
// The executable actor
// ---------------------------------------------------------------------------

/// The state the connection actor owns: the subscription table, the phase
/// flags, the keep-alive configuration, and the ghost trace of emitted
/// frames.
pub struct ConnectionActor {
    /// The registered subscriptions: id to the sending half of the delivery
    /// queue.
    pub operations: HashMap<u64, async_channel::Sender<serde_json::Value>>,
    /// Whether the command channel from the client handles is still open.
    pub client_open: bool,
    /// Whether a terminal close frame has been emitted.
    pub closed: bool,
    /// The keep-alive configuration this actor runs with.
    pub keep_alive: KeepAliveSettings,
    /// The protocol frames this actor has decided to emit, in order.
    pub trace: Ghost<Seq<Frame>>,
}

impl ConnectionActor {
    /// The model state of this actor.
    pub open spec fn model(&self) -> ActorModel {
        ActorModel { ops: self.operations@.dom(), closed: self.closed }
    }

    /// The well-formedness invariant tying the table to the trace.
    pub open spec fn wf(&self) -> bool {
        &&& forall|id: u64|
            #[trigger] self.operations@.dom().contains(id) ==> count_subscribe(self.trace@, id)
                == 1 && count_complete(self.trace@, id) == 0
        &&& forall|id: u64|
            #![trigger count_frame(self.trace@, Frame::Subscribe(id))]
            count_frame(self.trace@, Frame::Subscribe(id)) <= 1
        &&& forall|id: u64|
            #![trigger count_frame(self.trace@, Frame::Complete(id))]
            count_frame(self.trace@, Frame::Complete(id)) <= count_frame(
                self.trace@,
                Frame::Subscribe(id),
            )
        &&& count_frame(self.trace@, Frame::Init) == 0
        &&& (self.closed <==> has_close(self.trace@))
        &&& forall|i: int|
            #![trigger self.trace@[i]]
            0 <= i < self.trace@.len() && self.trace@[i] is Close ==> i == self.trace@.len() - 1
    }

    /// A fresh actor with an empty table and an empty trace.
    pub fn new(keep_alive: KeepAliveSettings) -> (r: ConnectionActor)
        ensures
            r.wf(),
            r.operations@ =~= Map::<u64, async_channel::Sender<serde_json::Value>>::empty(),
            r.client_open,
            !r.closed,
            r.keep_alive == keep_alive,
            r.trace@ =~= Seq::<Frame>::empty(),
    {
        let r = ConnectionActor {
            operations: HashMap::new(),
            client_open: true,
            closed: false,
            keep_alive,
            trace: Ghost(Seq::empty()),
        };
        proof {
            assert forall|f: Frame| #[trigger] count_frame(r.trace@, f) == 0 by {
                lemma_count_frame_empty(f);
            }
        }
        r
    }

    /// Handles one command from a client handle, returning the frame to send,
    /// if any.  A duplicate subscribe for a live or already-used id is a
    /// programming error on the caller's side and is excluded here; the
    /// client's monotone id allocation guarantees it never happens.
    pub fn handle_command(&mut self, cmd: ConnectionCommand) -> (r: Option<Message>)
        requires
            old(self).wf(),
            !old(self).closed,
            cmd matches ConnectionCommand::Subscribe { id, .. } ==> !old(
                self,
            ).operations@.dom().contains(id) && count_subscribe(old(self).trace@, id) == 0,
        ensures
            final(self).wf(),
            final(self).client_open == old(self).client_open,
            final(self).keep_alive == old(self).keep_alive,
            match cmd {
                ConnectionCommand::Subscribe { request, sender, id } => {
                    &&& r == Some(Message::Text(request))
                    &&& final(self).operations@ =~= old(self).operations@.insert(id, sender)
                    &&& final(self).trace@ =~= old(self).trace@.push(Frame::Subscribe(id))
                    &&& !final(self).closed
                },
                ConnectionCommand::Cancel(id) => {
                    &&& !final(self).closed
                    &&& if old(self).operations@.dom().contains(id) {
                        &&& r matches Some(m) && is_text_msg(m, complete_text(id as nat))
                        &&& final(self).operations@ =~= old(self).operations@.remove(id)
                        &&& final(self).trace@ =~= old(self).trace@.push(Frame::Complete(id))
                    } else {
                        &&& r is None
                        &&& final(self).operations@ =~= old(self).operations@
                        &&& final(self).trace@ =~= old(self).trace@
                    }
                },
                ConnectionCommand::Close(code, reason) => {
                    &&& r == Some(Message::Close { code: Some(code), reason: Some(reason) })
                    &&& final(self).closed
                    &&& final(self).operations@ =~= old(self).operations@
                    &&& final(self).trace@ =~= old(self).trace@.push(Frame::Close)
                },
                ConnectionCommand::Ping => {
                    &&& r == Some(Message::Ping)
                    &&& !final(self).closed
                    &&& final(self).operations@ =~= old(self).operations@
                    &&& final(self).trace@ =~= old(self).trace@.push(Frame::Ping)
                },
            },
    {
        match cmd {
            ConnectionCommand::Subscribe { request, sender, id } => {
                self.operations.insert(id, sender);
                proof {
                    lemma_counts_push_all(self.trace@, Frame::Subscribe(id));
                    self.trace@ = self.trace@.push(Frame::Subscribe(id));
                }
                Some(Message::Text(request))
            },
            ConnectionCommand::Cancel(id) => {
                if self.operations.contains_key(&id) {
                    self.operations.remove(&id);
                    proof {
                        lemma_counts_push_all(self.trace@, Frame::Complete(id));
                        self.trace@ = self.trace@.push(Frame::Complete(id));
                    }
                    Some(Message::Text(crate::protocol::complete_message(id)))
                } else {
                    None
                }
            },
            ConnectionCommand::Close(code, reason) => {
                self.closed = true;
                proof {
                    lemma_counts_push_all(self.trace@, Frame::Close);
                    self.trace@ = self.trace@.push(Frame::Close);
                }
                Some(Message::Close { code: Some(code), reason: Some(reason) })
            },
            ConnectionCommand::Ping => {
                proof {
                    lemma_counts_push_all(self.trace@, Frame::Ping);
                    self.trace@ = self.trace@.push(Frame::Ping);
                }
                Some(Message::Ping)
            },
        }
    }

    /// Handles one decoded protocol event, exactly as the specification
    /// machine [`spec_event_step`] prescribes: a `next`/`error` for a
    /// registered id is forwarded, for an unknown id it is dropped, a
    /// malformed id closes with 4856, a late `connection_ack` closes with
    /// 4855, a server `complete` retires the id, and an application ping is
    /// answered with a pong.
    pub fn handle_event(&mut self, event: Event) -> (r: Handled)
        requires
            old(self).wf(),
            !old(self).closed,
        ensures
            final(self).wf(),
            final(self).client_open == old(self).client_open,
            final(self).keep_alive == old(self).keep_alive,
            final(self).model() == spec_event_step(old(self).model(), event).0,
            output_matches(r, spec_event_step(old(self).model(), event).1),
            final(self).trace@ =~= old(self).trace@ + frames_of_output(
                spec_event_step(old(self).model(), event).1,
            ),
            forall|i: u64|
                #[trigger] final(self).operations@.dom().contains(i) ==> final(self).operations@[i]
                    == old(self).operations@[i],
    {
        let ghost pre = *self;
        let ghost ev = event;
        let ghost step = spec_event_step(pre.model(), ev);
        let r = match event {
            Event::Next { id, payload } => {
                match parse_dec_u64(id.as_str()) {
                    None => self.close_unknown_subscription(),
                    Some(n) => {
                        if self.operations.contains_key(&n) {
                            Handled::Forward { id: n, payload }
                        } else {
                            Handled::Nothing
                        }
                    },
                }
            },
            Event::Error { id, payload } => {
                match parse_dec_u64(id.as_str()) {
                    None => self.close_unknown_subscription(),
                    Some(n) => {
                        if self.operations.contains_key(&n) {
                            Handled::Forward { id: n, payload: wrap_errors(payload) }
                        } else {
                            Handled::Nothing
                        }
                    },
                }
            },
            Event::Complete { id } => {
                match parse_dec_u64(id.as_str()) {
                    None => self.close_unknown_subscription(),
                    Some(n) => {
                        self.operations.remove(&n);
                        Handled::Nothing
                    },
                }
            },
            Event::ConnectionAck { .. } => {
                self.closed = true;
                proof {
                    lemma_counts_push_all(self.trace@, Frame::Close);
                    self.trace@ = self.trace@.push(Frame::Close);
                }
                Handled::Reply(
                    Message::Close {
                        code: Some(4855),
                        reason: Some(String::from_str("too many acknowledges")),
                    },
                )
            },
            Event::Ping { .. } => {
                proof {
                    lemma_counts_push_all(self.trace@, Frame::Pong);
                    self.trace@ = self.trace@.push(Frame::Pong);
                }
                Handled::Reply(Message::Text(crate::protocol::pong_message()))
            },
            Event::Pong { .. } => Handled::Nothing,
        };
        proof {
            assert(self.model() =~= step.0);
            assert(self.trace@ =~= pre.trace@ + frames_of_output(step.1));
        }
        r
    }

    /// Closes with 4856 after an event referenced a malformed id.
    fn close_unknown_subscription(&mut self) -> (r: Handled)
        requires
            old(self).wf(),
            !old(self).closed,
        ensures
            final(self).wf(),
            final(self).operations@ =~= old(self).operations@,
            final(self).client_open == old(self).client_open,
            final(self).keep_alive == old(self).keep_alive,
            final(self).closed,
            final(self).trace@ =~= old(self).trace@.push(Frame::Close),
            r matches Handled::Reply(m) && is_close_msg(m, 4856, "unknown subscription"@),
    {
        self.closed = true;
        proof {
            lemma_counts_push_all(self.trace@, Frame::Close);
            self.trace@ = self.trace@.push(Frame::Close);
        }
        Handled::Reply(
            Message::Close {
                code: Some(4856),
                reason: Some(String::from_str("unknown subscription")),
            },
        )
    }

    /// Handles one transport message: decodes it and dispatches the event.
    /// Undecodable text closes with 4857; a transport close frame is mirrored
    /// back; transport pings and pongs need no reaction (receiving them is
    /// enough to reset the keep-alive, which the runtime does).
    pub fn handle_message(&mut self, message: Message) -> (r: Handled)
        requires
            old(self).wf(),
            !old(self).closed,
        ensures
            final(self).wf(),
            final(self).client_open == old(self).client_open,
            final(self).keep_alive == old(self).keep_alive,
            match message {
                Message::Ping | Message::Pong => r is Nothing && *final(self) == *old(self),
                Message::Close { code, reason } => {
                    &&& r matches Handled::Reply(m) && is_close_msg(
                        m,
                        if code is Some {
                            code->0
                        } else {
                            0u16
                        },
                        if reason is Some {
                            reason->0@
                        } else {
                            Seq::<char>::empty()
                        },
                    )
                    &&& final(self).closed
                    &&& final(self).operations@ =~= old(self).operations@
                    &&& final(self).trace@ =~= old(self).trace@.push(Frame::Close)
                },
                Message::Text(s) => {
                    &&& !json_valid(s@) ==> (exists|d: Seq<char>|
                        close_4857_with(*old(self), *final(self), r, d))
                    &&& json_valid(s@) ==> (match spec_wire_event(s@) {
                        Err(msg) => close_4857_with(*old(self), *final(self), r, msg),
                        Ok(w) => (exists|e: Event|
                            {
                                &&& #[trigger] event_matches_wire(e, w)
                                &&& final(self).model() == spec_event_step(
                                    old(self).model(),
                                    e,
                                ).0
                                &&& output_matches(r, spec_event_step(old(self).model(), e).1)
                                &&& final(self).trace@ =~= old(self).trace@ + frames_of_output(
                                    spec_event_step(old(self).model(), e).1,
                                )
                            }),
                    })
                },
            },
    {
        let ghost pre = *self;
        match extract_event(message) {
            Err(e) => {
                match e {
                    Error::Close(code, reason) => {
                        self.closed = true;
                        proof {
                            lemma_counts_push_all(self.trace@, Frame::Close);
                            self.trace@ = self.trace@.push(Frame::Close);
                        }
                        Handled::Reply(
                            Message::Close { code: Some(code), reason: Some(reason) },
                        )
                    },
                    other => {
                        self.closed = true;
                        proof {
                            lemma_counts_push_all(self.trace@, Frame::Close);
                            self.trace@ = self.trace@.push(Frame::Close);
                        }
                        let mut reason = String::from_str("Error while decoding event: ");
                        let tail = other.message();
                        reason.append(tail.as_str());
                        proof {
                            assert(reason@ =~= "Error while decoding event: "@
                                + crate::spec_error_message(other));
                            assert(other is Decode);
                        }
                        let reply = Handled::Reply(
                            Message::Close { code: Some(4857), reason: Some(reason) },
                        );
                        proof {
                            assert(close_4857_with(pre, *self, reply, other->Decode_0@));
                        }
                        reply
                    },
                }
            },
            Ok(None) => Handled::Nothing,
            Ok(Some(event)) => self.handle_event(event),
        }
    }

    /// Removes a subscription whose consumer disappeared (its delivery queue
    /// rejected a send) and returns the complete frame to emit for it.
    pub fn delivery_failed(&mut self, id: u64) -> (r: Message)
        requires
            old(self).wf(),
            !old(self).closed,
            old(self).operations@.dom().contains(id),
        ensures
            final(self).wf(),
            !final(self).closed,
            final(self).client_open == old(self).client_open,
            final(self).keep_alive == old(self).keep_alive,
            final(self).operations@ =~= old(self).operations@.remove(id),
            final(self).trace@ =~= old(self).trace@.push(Frame::Complete(id)),
            r matches Message::Text(t) && t@ == complete_text(id as nat),
    {
        self.operations.remove(&id);
        proof {
            lemma_counts_push_all(self.trace@, Frame::Complete(id));
            self.trace@ = self.trace@.push(Frame::Complete(id));
        }
        Message::Text(crate::protocol::complete_message(id))
    }

    /// The sending half of the delivery queue for a registered id.
    pub fn sender_for(&self, id: u64) -> (r: Option<&async_channel::Sender<serde_json::Value>>)
        ensures
            match r {
                Some(s) => self.operations@.dom().contains(id) && *s == self.operations@[id],
                None => !self.operations@.dom().contains(id),
            },
    {
        self.operations.get(&id)
    }

    /// Notes that the command channel has closed: all client handles are
    /// gone.
    pub fn client_disconnected(&mut self)
        requires
            old(self).wf(),
        ensures
            final(self).wf(),
            !final(self).client_open,
            final(self).operations@ =~= old(self).operations@,
            final(self).closed == old(self).closed,
            final(self).keep_alive == old(self).keep_alive,
            final(self).trace@ =~= old(self).trace@,
    {
        self.client_open = false;
    }

    /// Whether the actor should shut down gracefully: no client can reach it
    /// any more and no subscription is live.  Neither condition alone
    /// suffices.
    pub fn should_exit(&self) -> (r: bool)
        ensures
            r <==> (!self.client_open && self.operations@.len() == 0),
    {
        !self.client_open && self.operations.len() == 0
    }

    /// The best-effort close frame sent on an exit path; nothing is sent when
    /// a close frame already went out.
    pub fn close_on_exit(&mut self) -> (r: Option<Message>)
        requires
            old(self).wf(),
        ensures
            final(self).wf(),
            final(self).closed,
            final(self).operations@ =~= old(self).operations@,
            final(self).client_open == old(self).client_open,
            final(self).keep_alive == old(self).keep_alive,
            if old(self).closed {
                r is None && final(self).trace@ =~= old(self).trace@
            } else {
                r matches Some(m) && m matches Message::Close { code, reason } && code == Some(
                    100u16,
                ) && reason is None && final(self).trace@ =~= old(self).trace@.push(Frame::Close)
            },
    {
        if self.closed {
            None
        } else {
            self.closed = true;
            proof {
                lemma_counts_push_all(self.trace@, Frame::Close);
                self.trace@ = self.trace@.push(Frame::Close);
            }
            Some(Message::Close { code: Some(100), reason: None })
        }
    }
}

/// The close emitted when a text frame cannot be decoded: code 4857, the
/// reason naming the decode failure's detail.
pub open spec fn close_4857_with(
    pre: ConnectionActor,
    post: ConnectionActor,
    r: Handled,
    detail: Seq<char>,
) -> bool {
    &&& r matches Handled::Reply(m) && is_close_msg(
        m,
        4857,
        "Error while decoding event: "@ + ("message decode error, reason: "@ + detail),
    )
    &&& post.closed
    &&& post.operations@ =~= pre.operations@
    &&& post.trace@ =~= pre.trace@.push(Frame::Close)
}

// ---------------------------------------------------------------------------
// Laws
// ---------------------------------------------------------------------------

/// For every id in the subscription table, the actor has emitted exactly one
/// subscribe frame and no complete frame for that id.
pub proof fn lemma_registered_id_frames(a: &ConnectionActor, id: u64)
    requires
        a.wf(),
        a.operations@.dom().contains(id),
    ensures
        count_subscribe(a.trace@, id) == 1,
        count_complete(a.trace@, id) == 0,
{
}

/// Cancellation is idempotent: however many cancels arrive for an id, the
/// actor emits at most one complete frame — and at most one subscribe frame —
/// for it, ever.
pub proof fn lemma_at_most_one_complete(a: &ConnectionActor, id: u64)
    requires
        a.wf(),
    ensures
        count_complete(a.trace@, id) <= 1,
        count_subscribe(a.trace@, id) <= 1,
{
}

/// Close is terminal: once the actor has decided to emit a close frame, it
/// decides no further frame; a close frame can only stand last in the trace.
pub proof fn lemma_no_frame_after_close(a: &ConnectionActor, i: int)
    requires
        a.wf(),
        0 <= i < a.trace@.len() - 1,
    ensures
        !(a.trace@[i] is Close),
{
}

/// The actor never emits a `connection_init` frame: the single one of a
/// connection's lifetime is sent by the handshake, before the actor exists.
pub proof fn lemma_actor_never_sends_init(a: &ConnectionActor)
    requires
        a.wf(),
    ensures
        count_frame(a.trace@, Frame::Init) == 0,
{
}

/// What demultiplexing does with one per-subscription event, given how its
/// wire id resolved.
pub open spec fn demux_ok(m: ActorModel, idop: Option<u64>, step: (ActorModel, SpecOutput)) -> bool {
    match idop {
        Some(n) => if m.ops.contains(n) {
            (step.1 matches SpecOutput::Deliver { id, .. } && id == n) && step.0 == m
        } else {
            step.1 is Nothing && step.0 == m
        },
        None => step.1 is CloseUnknownSubscription && step.0.closed,
    }
}

/// Every received `next` or `error` event is either forwarded to the queue
/// of its registered id, or silently ignored when the id is unknown (the
/// caller cancelled); a malformed id closes the connection.  In neither of
/// the first two cases does the table change.
pub proof fn lemma_event_demultiplexing(m: ActorModel, e: Event)
    requires
        !m.closed,
    ensures
        match e {
            Event::Next { id, .. } => demux_ok(m, spec_id_of(id@), spec_event_step(m, e)),
            Event::Error { id, .. } => demux_ok(m, spec_id_of(id@), spec_event_step(m, e)),
            _ => true,
        },
{
}

// ---------------------------------------------------------------------------
// Runs of the specification machine, and per-subscription ordering
// ---------------------------------------------------------------------------

/// The model state after feeding `events`, in order, to the machine.
pub open spec fn spec_run(m: ActorModel, events: Seq<Event>) -> ActorModel
    decreases events.len(),
{
    if events.len() == 0 {
        m
    } else {
        spec_run(spec_event_step(m, events.first()).0, events.drop_first())
    }
}

/// The deliveries the machine makes while feeding `events`, in order.
pub open spec fn spec_run_deliveries(m: ActorModel, events: Seq<Event>) -> Seq<SpecOutput>
    decreases events.len(),
{
    if events.len() == 0 {
        Seq::empty()
    } else {
        let o = spec_event_step(m, events.first()).1;
        (if o is Deliver {
            seq![o]
        } else {
            Seq::empty()
        }) + spec_run_deliveries(spec_event_step(m, events.first()).0, events.drop_first())
    }
}

/// The deliveries in `outs` addressed to subscription `id`.
pub open spec fn deliveries_for(outs: Seq<SpecOutput>, id: u64) -> Seq<SpecOutput>
    decreases outs.len(),
{
    if outs.len() == 0 {
        Seq::empty()
    } else {
        (if outs.first() matches SpecOutput::Deliver { id: did, .. } && did == id {
            seq![outs.first()]
        } else {
            Seq::empty()
        }) + deliveries_for(outs.drop_first(), id)
    }
}

/// The deliveries subscription `id` is owed for `events`: one per `next` or
/// `error` event bearing its id, in server order.
pub open spec fn expected_deliveries(events: Seq<Event>, id: u64) -> Seq<SpecOutput>
    decreases events.len(),
{
    if events.len() == 0 {
        Seq::empty()
    } else {
        (match events.first() {
            Event::Next { id: eid, payload } => if spec_id_of(eid@) == Some(id) {
                seq![SpecOutput::Deliver { id, payload, wrapped: false }]
            } else {
                Seq::empty()
            },
            Event::Error { id: eid, payload } => if spec_id_of(eid@) == Some(id) {
                seq![SpecOutput::Deliver { id, payload, wrapped: true }]
            } else {
                Seq::empty()
            },
            _ => Seq::empty(),
        }) + expected_deliveries(events.drop_first(), id)
    }
}

/// Whether an event leaves the machine running and subscription `id` alive:
/// its wire id (if it carries one) parses, it is not a stray
/// `connection_ack`, and it does not complete `id` itself.
pub open spec fn keeps_alive(e: Event, id: u64) -> bool {
    match e {
        Event::Next { id: eid, .. } => spec_id_of(eid@) is Some,
        Event::Error { id: eid, .. } => spec_id_of(eid@) is Some,
        Event::Complete { id: eid } => spec_id_of(eid@) is Some && spec_id_of(eid@) != Some(id),
        Event::ConnectionAck { .. } => false,
        Event::Ping { .. } => true,
        Event::Pong { .. } => true,
    }
}

/// Ordering and isolation of deliveries.
///
/// While subscription `id` is registered and the connection stays up, the
/// sequence of deliveries addressed to `id` equals, value for value and in
/// order, the sequence of the server's `next` and `error` events for `id` —
/// however the server interleaves events for other subscriptions, and
/// whatever those do (register nothing, complete, or go unknown).  Events
/// that would close the connection (a stray `connection_ack`, a malformed
/// id) or end `id` itself are excluded by [`keeps_alive`].
pub proof fn lemma_per_id_delivery_order(m: ActorModel, events: Seq<Event>, id: u64)
    requires
        !m.closed,
        m.ops.contains(id),
        forall|i: int| 0 <= i < events.len() ==> keeps_alive(#[trigger] events[i], id),
    ensures
        deliveries_for(spec_run_deliveries(m, events), id) =~= expected_deliveries(events, id),
        !spec_run(m, events).closed,
        spec_run(m, events).ops.contains(id),
    decreases events.len(),
{
    if events.len() > 0 {
        let e = events.first();
        let (m2, o) = spec_event_step(m, e);
        assert(keeps_alive(e, id)) by {
            assert(events[0] == e);
        }
        assert(!m2.closed);
        assert(m2.ops.contains(id));
        assert(forall|i: int|
            0 <= i < events.drop_first().len() ==> keeps_alive(
                #[trigger] events.drop_first()[i],
                id,
            )) by {
            assert(forall|i: int|
                0 <= i < events.drop_first().len() ==> events.drop_first()[i] == events[i + 1]);
        }
        lemma_per_id_delivery_order(m2, events.drop_first(), id);
        let rest = spec_run_deliveries(m2, events.drop_first());
        let erest = expected_deliveries(events.drop_first(), id);
        let head: Seq<SpecOutput> = if o is Deliver {
            seq![o]
        } else {
            Seq::empty()
        };
        let ehead: Seq<SpecOutput> = match e {
            Event::Next { id: eid, payload } => if spec_id_of(eid@) == Some(id) {
                seq![SpecOutput::Deliver { id, payload, wrapped: false }]
            } else {
                Seq::empty()
            },
            Event::Error { id: eid, payload } => if spec_id_of(eid@) == Some(id) {
                seq![SpecOutput::Deliver { id, payload, wrapped: true }]
            } else {
                Seq::empty()
            },
            _ => Seq::empty(),
        };
        assert(spec_run_deliveries(m, events) == head + rest);
        assert(expected_deliveries(events, id) == ehead + erest);
        if head.len() == 0 {
            assert(head + rest =~= rest);
            assert(ehead =~= Seq::<SpecOutput>::empty());
            assert(ehead + erest =~= erest);
        } else {
            let hr = head + rest;
            assert(hr.first() == o);
            assert(hr.drop_first() =~= rest);
            assert(deliveries_for(hr.drop_first(), id) == deliveries_for(rest, id));
            match o {
                SpecOutput::Deliver { id: did, payload, wrapped } => {
                    if did == id {
                        assert(deliveries_for(hr, id) == seq![o] + deliveries_for(rest, id));
                        assert(ehead =~= seq![o]);
                        assert(seq![o] + deliveries_for(rest, id) =~= ehead + erest);
                    } else {
                        assert(deliveries_for(hr, id) == Seq::<SpecOutput>::empty()
                            + deliveries_for(rest, id));
                        assert(ehead =~= Seq::<SpecOutput>::empty());
                        assert(Seq::<SpecOutput>::empty() + deliveries_for(rest, id) =~= ehead
                            + erest);
                    }
                },
                _ => {
                    assert(false);
                },
            }
        }
    }
}

impl KeepAliveSettings {
    /// The command the actor synthesizes when the keep-alive scheduler ends:
    /// close 4503, service unavailable.
    pub fn report_timeout(&self) -> (r: ConnectionCommand)
        ensures
            r matches ConnectionCommand::Close(code, reason) && code == 4503u16 && reason@
                == "Service unavailable. keep-alive failure"@,
    {
        ConnectionCommand::Close(
            4503,
            String::from_str("Service unavailable. keep-alive failure"),
        )
    }
}

/// Decodes one transport message into a protocol event: text frames are
/// parsed and classified, close frames become a [`Error::Close`], transport
/// pings and pongs decode to nothing.
pub fn extract_event(message: Message) -> (r: Result<Option<Event>, Error>)
    ensures
        match message {
            Message::Ping | Message::Pong => r matches Ok(o) && o is None,
            Message::Close { code, reason } => r matches Err(e) && (e matches Error::Close(c, re)
                && c == (if code is Some {
                code->0
            } else {
                0u16
            }) && re@ == (if reason is Some {
                reason->0@
            } else {
                Seq::<char>::empty()
            })),
            Message::Text(s) => {
                &&& r matches Err(e) ==> e is Decode
                &&& r matches Ok(o) ==> o is Some
                &&& !json_valid(s@) ==> r is Err
                &&& json_valid(s@) ==> (match spec_wire_event(s@) {
                    Ok(w) => r matches Ok(o) && (o matches Some(ev) && event_matches_wire(ev, w)),
                    Err(msg) => r matches Err(e) && (e matches Error::Decode(d) && d@ == msg),
                })
            },
        },
{
    match message {
        Message::Text(s) => {
            match parse_envelope(s.as_str()) {
                Err(e) => Err(Error::Decode(e)),
                Ok(env) => {
                    let ghost genv = env;
                    proof {
                        lemma_classify_of_envelope(genv, s@);
                    }
                    match classify_event(env) {
                        Err(e) => Err(Error::Decode(e)),
                        Ok(ev) => Ok(Some(ev)),
                    }
                },
            }
        },
        Message::Close { code, reason } => {
            let c = match code {
                Some(c) => c,
                None => 0,
            };
            let re = match reason {
                Some(x) => x,
                None => String::new(),
            };
            Err(Error::Close(c, re))
        },
        Message::Ping | Message::Pong => Ok(None),
    }
}

} // verus!
