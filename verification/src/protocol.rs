//! Message definitions and codec for the graphql-transport-ws subprotocol.
//!
//! Outgoing frames are built here as JSON text with exact contracts over the
//! produced character sequence.  Incoming frames are split into an [`Envelope`]
//! (via the trusted `serde_json` boundary) and classified into an [`Event`]
//! by fully verified code.

use vstd::prelude::*;

use crate::json::{
    env_has_payload_of, env_id_of, env_payload_is_array_of, env_type_of, json_valid,
    read_envelope,
};

verus! {

// ---------------------------------------------------------------------------
// Decimal rendering and parsing of subscription ids
// ---------------------------------------------------------------------------

/// The character for one decimal digit.
pub open spec fn dec_digit_char(d: nat) -> char {
    if d == 0 {
        '0'
    } else if d == 1 {
        '1'
    } else if d == 2 {
        '2'
    } else if d == 3 {
        '3'
    } else if d == 4 {
        '4'
    } else if d == 5 {
        '5'
    } else if d == 6 {
        '6'
    } else if d == 7 {
        '7'
    } else if d == 8 {
        '8'
    } else {
        '9'
    }
}

/// The canonical decimal rendering of a number (no sign, no leading zeros).
pub open spec fn dec_rep(n: nat) -> Seq<char>
    decreases n,
{
    if n < 10 {
        seq![dec_digit_char(n)]
    } else {
        dec_rep(n / 10).push(dec_digit_char(n % 10))
    }
}

/// Whether a character is a decimal digit.
pub open spec fn is_dec_digit(c: char) -> bool {
    48 <= c as int && c as int <= 57
}

/// The numeric value of a decimal digit character.
pub open spec fn digit_val(c: char) -> nat {
    ((c as int) - 48) as nat
}

/// Whether every character of the sequence is a decimal digit.
pub open spec fn all_dec_digits(s: Seq<char>) -> bool {
    forall|i: int| 0 <= i < s.len() ==> is_dec_digit(#[trigger] s[i])
}

/// Whether the sequence is a non-empty run of decimal digits.
pub open spec fn is_dec_string(s: Seq<char>) -> bool {
    s.len() > 0 && all_dec_digits(s)
}

/// The number denoted by a digit sequence (most significant digit first).
pub open spec fn dec_val(s: Seq<char>) -> nat
    decreases s.len(),
{
    if s.len() == 0 {
        0
    } else {
        dec_val(s.drop_last()) * 10 + digit_val(s.last())
    }
}

proof fn lemma_dec_val_step(s: Seq<char>, i: int)
    requires
        0 <= i < s.len(),
    ensures
        dec_val(s.subrange(0, i + 1)) == dec_val(s.subrange(0, i)) * 10 + digit_val(s[i]),
{
    assert(s.subrange(0, i + 1).drop_last() =~= s.subrange(0, i));
    assert(s.subrange(0, i + 1).last() == s[i]);
}

proof fn lemma_dec_val_mono(s: Seq<char>, i: int, j: int)
    requires
        0 <= i <= j <= s.len(),
    ensures
        dec_val(s.subrange(0, i)) <= dec_val(s.subrange(0, j)),
    decreases j - i,
{
    if i < j {
        lemma_dec_val_mono(s, i, j - 1);
        lemma_dec_val_step(s, j - 1);
    }
}

/// The canonical rendering is a digit string that denotes the number it was
/// made from.
pub proof fn lemma_dec_rep_val(n: nat)
    ensures
        is_dec_string(dec_rep(n)),
        dec_val(dec_rep(n)) == n,
    decreases n,
{
    if n < 10 {
        let s1 = dec_rep(n);
        assert(is_dec_digit(dec_digit_char(n)));
        assert(digit_val(dec_digit_char(n)) == n);
        assert(s1.drop_last() =~= Seq::<char>::empty());
        assert(dec_val(s1.drop_last()) == 0);
        assert(s1.last() == dec_digit_char(n));
        assert(dec_val(s1) == dec_val(s1.drop_last()) * 10 + digit_val(s1.last()));
    } else {
        lemma_dec_rep_val(n / 10);
        let prefix = dec_rep(n / 10);
        let whole = prefix.push(dec_digit_char(n % 10));
        assert(whole.drop_last() =~= prefix);
        assert(whole.last() == dec_digit_char(n % 10));
        assert(digit_val(dec_digit_char(n % 10)) == n % 10);
        assert(dec_val(whole) == (n / 10) * 10 + n % 10);
        assert((n / 10) * 10 + n % 10 == n) by {
            vstd::arithmetic::div_mod::lemma_fundamental_div_mod(n as int, 10);
        }
        assert(forall|i: int|
            0 <= i < whole.len() ==> is_dec_digit(#[trigger] whole[i]));
    }
}

/// One decimal digit as a string slice.
fn digit_str(d: u64) -> (r: &'static str)
    requires
        d < 10,
    ensures
        r@ == seq![dec_digit_char(d as nat)],
{
    proof {
        reveal_strlit("0");
        reveal_strlit("1");
        reveal_strlit("2");
        reveal_strlit("3");
        reveal_strlit("4");
        reveal_strlit("5");
        reveal_strlit("6");
        reveal_strlit("7");
        reveal_strlit("8");
        reveal_strlit("9");
    }
    let r = if d == 0 {
        "0"
    } else if d == 1 {
        "1"
    } else if d == 2 {
        "2"
    } else if d == 3 {
        "3"
    } else if d == 4 {
        "4"
    } else if d == 5 {
        "5"
    } else if d == 6 {
        "6"
    } else if d == 7 {
        "7"
    } else if d == 8 {
        "8"
    } else {
        "9"
    };
    proof {
        assert(r@ =~= seq![dec_digit_char(d as nat)]);
    }
    r
}

/// Appends the decimal rendering of `n` to `s`.
pub fn push_dec(s: &mut String, n: u64)
    ensures
        final(s)@ == old(s)@ + dec_rep(n as nat),
    decreases n,
{
    if n >= 10 {
        push_dec(s, n / 10);
        let d = digit_str(n % 10);
        s.append(d);
        proof {
            assert(dec_rep(n as nat) == dec_rep((n as nat) / 10).push(dec_digit_char((n as nat) % 10)));
            assert(final(s)@ =~= old(s)@ + dec_rep(n as nat));
        }
    } else {
        let d = digit_str(n);
        s.append(d);
        proof {
            assert(final(s)@ =~= old(s)@ + dec_rep(n as nat));
        }
    }
}

/// The decimal rendering of `n` as an owned string.
pub fn u64_to_dec(n: u64) -> (r: String)
    ensures
        r@ == dec_rep(n as nat),
{
    let mut s = String::new();
    push_dec(&mut s, n);
    proof {
        assert(s@ =~= dec_rep(n as nat));
    }
    s
}

/// Parses a non-empty, all-digit string into a number; rejects anything else,
/// including values that do not fit in a `u64`.
pub fn parse_dec_u64(s: &str) -> (r: Option<u64>)
    ensures
        r is Some <==> is_dec_string(s@) && dec_val(s@) <= u64::MAX,
        r is Some ==> r->0 == dec_val(s@),
{
    let len = s.unicode_len();
    if len == 0 {
        return None;
    }
    let mut i: usize = 0;
    let mut acc: u64 = 0;
    while i < len
        invariant
            0 <= i <= len,
            len == s@.len(),
            all_dec_digits(s@.subrange(0, i as int)),
            acc == dec_val(s@.subrange(0, i as int)),
        decreases len - i,
    {
        let c = s.get_char(i);
        let cv = c as u32;
        if cv < 48 || cv > 57 {
            proof {
                assert(!is_dec_digit(s@[i as int]));
            }
            return None;
        }
        let d = (cv - 48) as u64;
        proof {
            lemma_dec_val_step(s@, i as int);
        }
        let next = match acc.checked_mul(10) {
            Some(a) => a.checked_add(d),
            None => None,
        };
        match next {
            Some(a) => {
                acc = a;
            },
            None => {
                proof {
                    lemma_dec_val_mono(s@, i as int + 1, s@.len() as int);
                    assert(s@.subrange(0, s@.len() as int) =~= s@);
                }
                return None;
            },
        }
        i += 1;
    }
    proof {
        assert(s@.subrange(0, s@.len() as int) =~= s@);
    }
    Some(acc)
}

// ---------------------------------------------------------------------------
// Outgoing frame texts
// ---------------------------------------------------------------------------

/// The wire text of a `connection_init` frame; the payload, when present, is
/// already serialized JSON and is embedded verbatim.
pub open spec fn init_text(payload: Option<Seq<char>>) -> Seq<char> {
    match payload {
        None => "{\"type\":\"connection_init\"}"@,
        Some(p) => "{\"type\":\"connection_init\",\"payload\":"@ + p + "}"@,
    }
}

/// The wire text of a `subscribe` frame with an already-rendered id.
pub open spec fn subscribe_frame_text(id: Seq<char>, payload: Seq<char>) -> Seq<char> {
    "{\"type\":\"subscribe\",\"id\":\""@ + id + "\",\"payload\":"@ + payload + "}"@
}

/// The wire text of a `subscribe` frame for a numeric id.
pub open spec fn subscribe_text(id: nat, payload: Seq<char>) -> Seq<char> {
    subscribe_frame_text(dec_rep(id), payload)
}

/// The wire text of a `complete` frame with an already-rendered id.
pub open spec fn complete_frame_text(id: Seq<char>) -> Seq<char> {
    "{\"type\":\"complete\",\"id\":\""@ + id + "\"}"@
}

/// The wire text of a `complete` frame for a numeric id.
pub open spec fn complete_text(id: nat) -> Seq<char> {
    complete_frame_text(dec_rep(id))
}

/// The wire text of an application-level `ping` frame.
pub open spec fn ping_text() -> Seq<char> {
    "{\"type\":\"ping\"}"@
}

/// The wire text of an application-level `pong` frame.
pub open spec fn pong_text() -> Seq<char> {
    "{\"type\":\"pong\"}"@
}

/// Builds the `subscribe` frame text for a numeric id and a serialized payload.
pub fn subscribe_message(id: u64, payload: &str) -> (r: String)
    ensures
        r@ == subscribe_text(id as nat, payload@),
{
    let mut s = String::from_str("{\"type\":\"subscribe\",\"id\":\"");
    push_dec(&mut s, id);
    s.append("\",\"payload\":");
    s.append(payload);
    s.append("}");
    proof {
        assert(s@ =~= subscribe_text(id as nat, payload@));
    }
    s
}

/// Builds the `complete` frame text for a numeric id.
pub fn complete_message(id: u64) -> (r: String)
    ensures
        r@ == complete_text(id as nat),
{
    let mut s = String::from_str("{\"type\":\"complete\",\"id\":\"");
    push_dec(&mut s, id);
    s.append("\"}");
    proof {
        assert(s@ =~= complete_text(id as nat));
    }
    s
}

/// Builds the application-level `pong` frame text.
pub fn pong_message() -> (r: String)
    ensures
        r@ == pong_text(),
{
    String::from_str("{\"type\":\"pong\"}")
}

/// Builds the application-level `ping` frame text.
pub fn ping_message() -> (r: String)
    ensures
        r@ == ping_text(),
{
    String::from_str("{\"type\":\"ping\"}")
}

/// The first frame of the handshake.
///
/// The payload, when present, must already be serialized JSON; it is embedded
/// in the frame verbatim, and omitted entirely when absent.
#[derive(Debug)]
pub struct ConnectionInit {
    /// The serialized `connection_init` payload, if any.
    pub payload: Option<String>,
}

impl ConnectionInit {
    /// Wraps an optional, already-serialized payload.
    pub fn new(payload: Option<String>) -> (r: ConnectionInit)
        ensures
            r.payload == payload,
    {
        ConnectionInit { payload }
    }

    /// Renders the `connection_init` frame text.
    pub fn to_json(&self) -> (r: String)
        ensures
            r@ == init_text(self.payload.deep_view()),
    {
        match &self.payload {
            None => String::from_str("{\"type\":\"connection_init\"}"),
            Some(p) => {
                let mut s = String::from_str("{\"type\":\"connection_init\",\"payload\":");
                s.append(p.as_str());
                s.append("}");
                proof {
                    assert(s@ =~= init_text(self.payload.deep_view()));
                }
                s
            },
        }
    }
}

/// An outgoing protocol frame, before rendering to JSON text.
pub enum Message {
    /// Starts the operation with the given (already rendered) id; the payload
    /// is the serialized operation.
    Subscribe {
        /// The decimal rendering of the subscription id.
        id: String,
        /// The serialized operation payload.
        payload: String,
    },
    /// Ends the operation with the given (already rendered) id.
    Complete {
        /// The decimal rendering of the subscription id.
        id: String,
    },
    /// An application-level heartbeat request.
    Ping,
    /// An application-level heartbeat reply.
    Pong,
}

impl Message {
    /// Renders the frame to its JSON wire text.
    pub fn to_json(&self) -> (r: String)
        ensures
            match self {
                Message::Subscribe { id, payload } => r@ == subscribe_frame_text(id@, payload@),
                Message::Complete { id } => r@ == complete_frame_text(id@),
                Message::Ping => r@ == ping_text(),
                Message::Pong => r@ == pong_text(),
            },
    {
        match self {
            Message::Subscribe { id, payload } => {
                let mut s = String::from_str("{\"type\":\"subscribe\",\"id\":\"");
                s.append(id.as_str());
                s.append("\",\"payload\":");
                s.append(payload.as_str());
                s.append("}");
                proof {
                    assert(s@ =~= subscribe_frame_text(id@, payload@));
                }
                s
            },
            Message::Complete { id } => {
                let mut s = String::from_str("{\"type\":\"complete\",\"id\":\"");
                s.append(id.as_str());
                s.append("\"}");
                proof {
                    assert(s@ =~= complete_frame_text(id@));
                }
                s
            },
            Message::Ping => ping_message(),
            Message::Pong => pong_message(),
        }
    }
}

// ---------------------------------------------------------------------------
// Incoming events
// ---------------------------------------------------------------------------

/// A decoded incoming protocol event.
#[derive(Debug)]
#[allow(inconsistent_fields)]
pub enum Event {
    /// One value for the subscription with the given id.
    Next {
        /// The id as it appeared on the wire.
        id: String,
        /// The full GraphQL response object, carried opaquely.
        payload: serde_json::Value,
    },
    /// A terminal error for the subscription with the given id; the payload is
    /// the array of GraphQL error objects, carried opaquely.
    Error {
        /// The id as it appeared on the wire.
        id: String,
        /// The array of GraphQL error objects.
        payload: serde_json::Value,
    },
    /// Terminal success for the subscription with the given id.
    Complete {
        /// The id as it appeared on the wire.
        id: String,
    },
    /// Handshake success.
    ConnectionAck {
        /// The optional acknowledgement payload.
        payload: Option<serde_json::Value>,
    },
    /// An application-level heartbeat request.
    Ping {
        /// The optional heartbeat payload.
        payload: Option<serde_json::Value>,
    },
    /// An application-level heartbeat reply.
    Pong {
        /// The optional heartbeat payload.
        payload: Option<serde_json::Value>,
    },
}

/// The tag string of each event variant.
pub open spec fn spec_event_type(e: &Event) -> Seq<char> {
    match e {
        Event::Next { .. } => "next"@,
        Event::Error { .. } => "error"@,
        Event::Complete { .. } => "complete"@,
        Event::ConnectionAck { .. } => "connection_ack"@,
        Event::Ping { .. } => "ping"@,
        Event::Pong { .. } => "pong"@,
    }
}

impl Event {
    /// The id carried by the event, for the per-subscription events.
    pub fn id(&self) -> (r: Option<&String>)
        ensures
            match self {
                Event::Next { id, .. } => r == Some(id),
                Event::Complete { id } => r == Some(id),
                Event::Error { id, .. } => r == Some(id),
                _ => r is None,
            },
    {
        match self {
            Event::Next { id, .. } => Some(id),
            Event::Complete { id } => Some(id),
            Event::Error { id, .. } => Some(id),
            Event::Ping { .. } | Event::Pong { .. } | Event::ConnectionAck { .. } => None,
        }
    }

    /// The tag string of the event, as it appears on the wire.
    pub fn event_type(&self) -> (r: &'static str)
        ensures
            r@ == spec_event_type(self),
    {
        match self {
            Event::Next { .. } => "next",
            Event::Complete { .. } => "complete",
            Event::Error { .. } => "error",
            Event::Ping { .. } => "ping",
            Event::Pong { .. } => "pong",
            Event::ConnectionAck { .. } => "connection_ack",
        }
    }
}

/// The envelope of an incoming frame: the parts of the JSON document that the
/// engine reads.  The payload itself stays opaque.
pub struct Envelope {
    /// The `type` field, when present as a string.
    pub event_type: Option<String>,
    /// The `id` field, when present as a string.
    pub id: Option<String>,
    /// The `payload` field, carried opaquely.
    pub payload: Option<serde_json::Value>,
    /// Whether the `payload` field is a JSON array.
    pub payload_is_array: bool,
}

/// What event an envelope denotes, or the decode error it is rejected with.
pub open spec fn spec_classify(env: Envelope) -> Result<Event, Seq<char>> {
    match env.event_type {
        None => Err("missing or non-string field `type`"@),
        Some(t) => if t@ == "next"@ {
            if env.id is None {
                Err("missing field `id`"@)
            } else if env.payload is None {
                Err("missing field `payload`"@)
            } else {
                Ok(Event::Next { id: env.id->0, payload: env.payload->0 })
            }
        } else if t@ == "error"@ {
            if env.id is None {
                Err("missing field `id`"@)
            } else if env.payload is None {
                Err("missing field `payload`"@)
            } else if !env.payload_is_array {
                Err("the payload of an error event must be an array"@)
            } else {
                Ok(Event::Error { id: env.id->0, payload: env.payload->0 })
            }
        } else if t@ == "complete"@ {
            if env.id is None {
                Err("missing field `id`"@)
            } else {
                Ok(Event::Complete { id: env.id->0 })
            }
        } else if t@ == "connection_ack"@ {
            Ok(Event::ConnectionAck { payload: env.payload })
        } else if t@ == "ping"@ {
            Ok(Event::Ping { payload: env.payload })
        } else if t@ == "pong"@ {
            Ok(Event::Pong { payload: env.payload })
        } else {
            Err("unknown event type `"@ + t@ + "`"@)
        },
    }
}

/// Relies on `str::eq`: equality of two strings is equality of their
/// character sequences.
#[verifier::external_body]
fn str_eq(a: &str, b: &str) -> (r: bool)
    ensures
        r <==> a@ == b@,
{
    a == b
}

/// Turns an envelope into the event it denotes, rejecting envelopes that the
/// protocol grammar does not admit.  The result is pinned down exactly by
/// [`spec_classify`].
pub fn classify_event(env: Envelope) -> (r: Result<Event, String>)
    ensures
        r is Ok <==> spec_classify(env) is Ok,
        r is Ok ==> r->Ok_0 == spec_classify(env)->Ok_0,
        r is Err ==> r->Err_0@ == spec_classify(env)->Err_0,
{
    let Envelope { event_type, id, payload, payload_is_array } = env;
    let t = match event_type {
        None => {
            return Err(String::from_str("missing or non-string field `type`"));
        },
        Some(t) => t,
    };
    if str_eq(t.as_str(), "next") {
        match (id, payload) {
            (Some(id), Some(payload)) => Ok(Event::Next { id, payload }),
            (None, _) => Err(String::from_str("missing field `id`")),
            (_, None) => Err(String::from_str("missing field `payload`")),
        }
    } else if str_eq(t.as_str(), "error") {
        match (id, payload) {
            (Some(id), Some(payload)) => {
                if payload_is_array {
                    Ok(Event::Error { id, payload })
                } else {
                    Err(String::from_str("the payload of an error event must be an array"))
                }
            },
            (None, _) => Err(String::from_str("missing field `id`")),
            (_, None) => Err(String::from_str("missing field `payload`")),
        }
    } else if str_eq(t.as_str(), "complete") {
        match id {
            Some(id) => Ok(Event::Complete { id }),
            None => Err(String::from_str("missing field `id`")),
        }
    } else if str_eq(t.as_str(), "connection_ack") {
        Ok(Event::ConnectionAck { payload })
    } else if str_eq(t.as_str(), "ping") {
        Ok(Event::Ping { payload })
    } else if str_eq(t.as_str(), "pong") {
        Ok(Event::Pong { payload })
    } else {
        let mut s = String::from_str("unknown event type `");
        s.append(t.as_str());
        s.append("`");
        proof {
            assert(s@ =~= "unknown event type `"@ + t@ + "`"@);
        }
        Err(s)
    }
}

/// Splits one incoming text frame into its envelope.  Succeeds exactly on
/// well-formed JSON, and the envelope's fields are the parsed document's:
/// the error is the parser's own message.
pub fn parse_envelope(text: &str) -> (r: Result<Envelope, String>)
    ensures
        r is Ok <==> json_valid(text@),
        r matches Ok(env) ==> {
            &&& env.event_type.deep_view() == env_type_of(text@)
            &&& env.id.deep_view() == env_id_of(text@)
            &&& (env.payload is Some <==> env_has_payload_of(text@))
            &&& env.payload_is_array == env_payload_is_array_of(text@)
        },
{
    read_envelope(text)
}

// ---------------------------------------------------------------------------
// The event a text frame denotes
// ---------------------------------------------------------------------------

/// The event a well-formed text frame denotes, with the opaque payload left
/// out: everything the engine's dispatch depends on.
pub enum WireEvent {
    /// A `next` event for the given wire id.
    Next {
        /// The id as it appears on the wire.
        id: Seq<char>,
    },
    /// An `error` event for the given wire id.
    Error {
        /// The id as it appears on the wire.
        id: Seq<char>,
    },
    /// A `complete` event for the given wire id.
    Complete {
        /// The id as it appears on the wire.
        id: Seq<char>,
    },
    /// A `connection_ack` event.
    ConnectionAck,
    /// An application-level `ping` event.
    Ping,
    /// An application-level `pong` event.
    Pong,
}

/// The tag string of a wire event.
pub open spec fn wire_event_tag(w: WireEvent) -> Seq<char> {
    match w {
        WireEvent::Next { .. } => "next"@,
        WireEvent::Error { .. } => "error"@,
        WireEvent::Complete { .. } => "complete"@,
        WireEvent::ConnectionAck => "connection_ack"@,
        WireEvent::Ping => "ping"@,
        WireEvent::Pong => "pong"@,
    }
}

/// What event a well-formed text frame decodes to, or the decode error it is
/// rejected with — as a function of the frame text alone, through the named
/// envelope fields.
pub open spec fn spec_wire_event(s: Seq<char>) -> Result<WireEvent, Seq<char>> {
    match env_type_of(s) {
        None => Err("missing or non-string field `type`"@),
        Some(t) => if t == "next"@ {
            if env_id_of(s) is None {
                Err("missing field `id`"@)
            } else if !env_has_payload_of(s) {
                Err("missing field `payload`"@)
            } else {
                Ok(WireEvent::Next { id: env_id_of(s)->0 })
            }
        } else if t == "error"@ {
            if env_id_of(s) is None {
                Err("missing field `id`"@)
            } else if !env_has_payload_of(s) {
                Err("missing field `payload`"@)
            } else if !env_payload_is_array_of(s) {
                Err("the payload of an error event must be an array"@)
            } else {
                Ok(WireEvent::Error { id: env_id_of(s)->0 })
            }
        } else if t == "complete"@ {
            if env_id_of(s) is None {
                Err("missing field `id`"@)
            } else {
                Ok(WireEvent::Complete { id: env_id_of(s)->0 })
            }
        } else if t == "connection_ack"@ {
            Ok(WireEvent::ConnectionAck)
        } else if t == "ping"@ {
            Ok(WireEvent::Ping)
        } else if t == "pong"@ {
            Ok(WireEvent::Pong)
        } else {
            Err("unknown event type `"@ + t + "`"@)
        },
    }
}

/// Whether a decoded event realises a wire event: same tag, same id; only
/// the opaque payload is not determined by the text.
pub open spec fn event_matches_wire(e: Event, w: WireEvent) -> bool {
    match w {
        WireEvent::Next { id } => e matches Event::Next { id: eid, .. } && eid@ == id,
        WireEvent::Error { id } => e matches Event::Error { id: eid, .. } && eid@ == id,
        WireEvent::Complete { id } => e matches Event::Complete { id: eid } && eid@ == id,
        WireEvent::ConnectionAck => e is ConnectionAck,
        WireEvent::Ping => e is Ping,
        WireEvent::Pong => e is Pong,
    }
}

/// An event that realises a wire event carries its tag.
pub proof fn lemma_event_matches_tag(e: Event, w: WireEvent)
    requires
        event_matches_wire(e, w),
    ensures
        spec_event_type(&e) == wire_event_tag(w),
{
}

/// Classification reads only the envelope's plain fields, so an envelope
/// whose fields are those of a frame text classifies exactly as the text's
/// wire event says: same success, same event tag and id, same error text.
pub proof fn lemma_classify_of_envelope(env: Envelope, s: Seq<char>)
    requires
        env.event_type.deep_view() == env_type_of(s),
        env.id.deep_view() == env_id_of(s),
        env.payload is Some <==> env_has_payload_of(s),
        env.payload_is_array == env_payload_is_array_of(s),
    ensures
        match spec_wire_event(s) {
            Ok(w) => spec_classify(env) matches Ok(e) && event_matches_wire(e, w),
            Err(msg) => spec_classify(env) matches Err(m) && m == msg,
        },
{
    match env.event_type {
        None => {
            assert(env_type_of(s) is None);
        },
        Some(t) => {
            assert(env_type_of(s) == Some(t@));
            match env.id {
                None => {
                    assert(env_id_of(s) is None);
                },
                Some(id) => {
                    assert(env_id_of(s) == Some(id@));
                },
            }
        },
    }
}

} // verus!
