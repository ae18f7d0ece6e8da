use graphql_ws_client::builder::{ClientBuilder, Handshake, HandshakeStep};
use graphql_ws_client::client::{command_send_failed, Client, SubscriptionId};
use graphql_ws_client::connection::Message;
use graphql_ws_client::graphql::{decode_item, GraphqlOperation};
use graphql_ws_client::keepalive::{KeepAlive, KeepAliveSettings, KeepAliveSignal};
use graphql_ws_client::Error;

struct FixedOperation {
    payload: Result<String, String>,
    fail_decode: bool,
}

impl GraphqlOperation for FixedOperation {
    type Response = serde_json::Value;

    fn serialize_json(&self) -> Result<String, String> {
        self.payload.clone()
    }

    fn decode(&self, data: serde_json::Value) -> Result<Self::Response, String> {
        if self.fail_decode {
            Err("decode failed".to_string())
        } else {
            Ok(data)
        }
    }
}

fn query_op(payload: &str) -> FixedOperation {
    FixedOperation { payload: Ok(payload.to_string()), fail_decode: false }
}

#[test]
fn subscribe_requests_use_fresh_increasing_ids() {
    let mut client = Client::new_internal(5);
    let (id1, request1) = client.prepare_subscribe(&query_op("{\"query\":\"a\"}")).unwrap();
    let (id2, request2) = client.prepare_subscribe(&query_op("{\"query\":\"b\"}")).unwrap();
    assert_eq!(id1, 1);
    assert_eq!(id2, 2);
    assert_ne!(id1, id2);
    assert_eq!(
        request1,
        "{\"type\":\"subscribe\",\"id\":\"1\",\"payload\":{\"query\":\"a\"}}"
    );
    assert_eq!(
        request2,
        "{\"type\":\"subscribe\",\"id\":\"2\",\"payload\":{\"query\":\"b\"}}"
    );
}

#[test]
fn serialization_failure_is_surfaced() {
    let mut client = Client::new_internal(5);
    let op = FixedOperation { payload: Err("no json".to_string()), fail_decode: false };
    match client.prepare_subscribe(&op) {
        Err(Error::Serializing(msg)) => assert_eq!(msg, "no json"),
        _ => panic!("a failing serialization must surface as Serializing"),
    }
}

#[test]
fn exhausted_id_space_is_refused() {
    let mut client = Client { next_id: u64::MAX, subscription_buffer_size: 5 };
    match client.allocate_id() {
        Err(Error::ConnectionIdsExhausted) => {},
        _ => panic!("the last id must not be handed out"),
    }
}

#[test]
fn rejected_command_send_becomes_send_error() {
    // subscribing when the actor has shut down surfaces as Send
    let err = command_send_failed("channel closed".to_string());
    assert_eq!(err, Error::Send("channel closed".to_string()));
}

#[test]
fn decode_item_wraps_failures_only() {
    let op = query_op("{}");
    let value: serde_json::Value = serde_json::from_str("{\"data\":{\"x\":1}}").unwrap();
    assert_eq!(decode_item(&op, value.clone()).unwrap(), value);

    let failing = FixedOperation { payload: Ok("{}".to_string()), fail_decode: true };
    match decode_item(&failing, value) {
        Err(Error::Decode(msg)) => assert_eq!(msg, "decode failed"),
        _ => panic!("a failing decode must surface as Decode"),
    }
}

#[test]
fn subscription_id_round_trip() {
    assert!(SubscriptionId::new(0).is_none());
    let id = SubscriptionId::new(42).unwrap();
    assert_eq!(id.to_string(), "42");
    assert_eq!(SubscriptionId::from_str("42"), Some(id));
    assert_eq!(SubscriptionId::from_str("0"), None);
    assert_eq!(SubscriptionId::from_str("x"), None);
    assert_eq!(SubscriptionId::from_str(""), None);
}

#[test]
fn error_messages() {
    assert_eq!(Error::Unknown("u".to_string()).message(), "unknown: u");
    assert_eq!(Error::Custom("a".to_string(), "b".to_string()).message(), "a: b");
    assert_eq!(
        Error::Close(4503, "down".to_string()).message(),
        "got close frame. code: 4503, reason: down"
    );
    assert_eq!(Error::Decode("d".to_string()).message(), "message decode error, reason: d");
    assert_eq!(
        Error::Serializing("s".to_string()).message(),
        "couldn't serialize message, reason: s"
    );
    assert_eq!(Error::Send("s".to_string()).message(), "message sending error, reason: s");
    assert_eq!(
        Error::SpawnHandle("s".to_string()).message(),
        "futures spawn error, reason: s"
    );
    assert_eq!(
        Error::SenderShutdown("s".to_string()).message(),
        "sender shutdown error, reason: s"
    );
    assert_eq!(
        Error::ConnectionIdsExhausted.message(),
        "connection ID space exhausted.  please restart the client"
    );
}

#[test]
fn builder_defaults_and_settings() {
    let builder = ClientBuilder::new();
    assert!(builder.payload.is_none());
    assert_eq!(builder.buffer_size_or_default(), 5);
    assert!(builder.keep_alive.interval.is_none());
    assert_eq!(builder.keep_alive.retries, 3);

    let builder = builder
        .payload("{\"token\":\"t\"}".to_string())
        .subscription_buffer_size(3)
        .keep_alive_interval(50)
        .keep_alive_retries(2);
    assert_eq!(builder.buffer_size_or_default(), 3);
    assert_eq!(builder.keep_alive.interval, Some(50));
    assert_eq!(builder.keep_alive.retries, 2);
    match builder.init_message() {
        Message::Text(t) => {
            assert_eq!(t, "{\"type\":\"connection_init\",\"payload\":{\"token\":\"t\"}}")
        },
        _ => panic!("the init message must be a text frame"),
    }
}

#[test]
fn handshake_completes_on_ack() {
    let mut handshake = Handshake::new();
    assert!(matches!(handshake.step(Some(Message::Ping)), HandshakeStep::AwaitMore));
    assert!(matches!(
        handshake.step(Some(Message::Text("{\"type\":\"pong\"}".to_string()))),
        HandshakeStep::AwaitMore
    ));
    assert!(matches!(
        handshake.step(Some(Message::Text("{\"type\":\"ping\"}".to_string()))),
        HandshakeStep::ReplyPong
    ));
    assert!(matches!(
        handshake.step(Some(Message::Text("{\"type\":\"connection_ack\"}".to_string()))),
        HandshakeStep::Complete
    ));
    assert!(handshake.done);
}

#[test]
fn handshake_rejects_unexpected_event() {
    // the server answers the init with a next frame: close 4950 and fail
    let mut handshake = Handshake::new();
    let step = handshake.step(Some(Message::Text(
        "{\"type\":\"next\",\"id\":\"0\",\"payload\":{}}".to_string(),
    )));
    match step {
        HandshakeStep::Failed { close, error } => {
            match close {
                Some(Message::Close { code, reason }) => {
                    assert_eq!(code, Some(4950));
                    assert_eq!(reason.as_deref(), Some("Unexpected message while waiting for ack"));
                },
                _ => panic!("the handshake must close with 4950"),
            }
            assert_eq!(
                error,
                Error::Decode("expected a connection_ack or ping, got next".to_string())
            );
        },
        _ => panic!("an unexpected event must fail the handshake"),
    }
}

#[test]
fn handshake_failures_without_close() {
    let mut handshake = Handshake::new();
    match handshake.step(None) {
        HandshakeStep::Failed { close: None, error } => {
            assert_eq!(error, Error::Unknown("connection dropped".to_string()));
        },
        _ => panic!("a dropped transport must fail the handshake"),
    }

    let mut handshake = Handshake::new();
    match handshake.step(Some(Message::Close { code: Some(4401), reason: Some("no".to_string()) }))
    {
        HandshakeStep::Failed { close: None, error } => {
            assert_eq!(error, Error::Close(4401, "no".to_string()));
        },
        _ => panic!("a close during the handshake must fail it"),
    }

    let mut handshake = Handshake::new();
    match handshake.step(Some(Message::Text("not json".to_string()))) {
        HandshakeStep::Failed { close: None, error: Error::Decode(_) } => {},
        _ => panic!("undecodable text must fail the handshake"),
    }
}

#[test]
fn keepalive_pings_then_times_out() {
    let mut ka = KeepAlive::new(KeepAliveSettings { interval: Some(50), retries: 2 });
    assert_eq!(ka.interval(), Some(50));
    // one ping per missed interval while the budget lasts
    assert!(matches!(ka.tick(), KeepAliveSignal::Ping));
    assert_eq!(ka.state.failure_count(), 0);
    assert!(matches!(ka.tick(), KeepAliveSignal::Ping));
    assert_eq!(ka.state.failure_count(), 1);
    assert!(matches!(ka.tick(), KeepAliveSignal::Ping));
    assert_eq!(ka.state.failure_count(), 2);
    assert!(matches!(ka.tick(), KeepAliveSignal::Timeout));
}

#[test]
fn keepalive_zero_retries_times_out_on_first_miss() {
    let mut ka = KeepAlive::new(KeepAliveSettings { interval: Some(50), retries: 0 });
    assert!(matches!(ka.tick(), KeepAliveSignal::Ping));
    assert!(matches!(ka.tick(), KeepAliveSignal::Timeout));
}

#[test]
fn keepalive_resets_on_traffic() {
    let mut ka = KeepAlive::new(KeepAliveSettings { interval: Some(50), retries: 0 });
    assert!(matches!(ka.tick(), KeepAliveSignal::Ping));
    ka.kick();
    assert!(matches!(ka.tick(), KeepAliveSignal::Ping));
    ka.received_pong();
    assert!(matches!(ka.tick(), KeepAliveSignal::Ping));
    assert!(matches!(ka.tick(), KeepAliveSignal::Timeout));
}

#[test]
fn keepalive_disabled_by_default() {
    let settings = KeepAliveSettings::default();
    assert!(settings.interval.is_none());
    assert_eq!(settings.retries, 3);
    // with no interval the timer is never armed, so the scheduler is never
    // ticked and no ping is ever emitted
    let ka = KeepAlive::new(settings);
    assert!(ka.interval().is_none());
}
