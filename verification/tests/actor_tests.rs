use graphql_ws_client::actor::{ConnectionActor, ConnectionCommand, Handled};
use graphql_ws_client::connection::Message;
use graphql_ws_client::keepalive::KeepAliveSettings;

fn settings() -> KeepAliveSettings {
    KeepAliveSettings { interval: None, retries: 3 }
}

fn delivery_sender() -> async_channel::Sender<serde_json::Value> {
    let (sender, receiver) = async_channel::bounded(5);
    // keep the receiving half alive for the duration of the test
    std::mem::forget(receiver);
    sender
}

fn subscribe(actor: &mut ConnectionActor, id: u64, query: &str) {
    let request = graphql_ws_client::protocol::subscribe_message(id, query);
    let reply = actor.handle_command(ConnectionCommand::Subscribe {
        request: request.clone(),
        sender: delivery_sender(),
        id,
    });
    match reply {
        Some(Message::Text(t)) => assert_eq!(t, request),
        _ => panic!("subscribe must emit the request text"),
    }
}

fn forwarded(actor: &mut ConnectionActor, frame: &str) -> (u64, serde_json::Value) {
    match actor.handle_message(Message::Text(frame.to_string())) {
        Handled::Forward { id, payload } => (id, payload),
        _ => panic!("expected the frame to be forwarded"),
    }
}

fn json(text: &str) -> serde_json::Value {
    serde_json::from_str(text).unwrap()
}

#[test]
fn single_subscription_happy_path() {
    // subscribe with id 1, receive two next frames and a complete
    let mut actor = ConnectionActor::new(settings());
    subscribe(&mut actor, 1, "{\"query\":\"q\"}");

    let (id, payload) =
        forwarded(&mut actor, "{\"type\":\"next\",\"id\":\"1\",\"payload\":{\"data\":{\"x\":1}}}");
    assert_eq!(id, 1);
    assert_eq!(payload, json("{\"data\":{\"x\":1}}"));

    let (id, payload) =
        forwarded(&mut actor, "{\"type\":\"next\",\"id\":\"1\",\"payload\":{\"data\":{\"x\":2}}}");
    assert_eq!(id, 1);
    assert_eq!(payload, json("{\"data\":{\"x\":2}}"));

    // the server's complete retires the id: the delivery queue is dropped and
    // the consumer sees end-of-stream
    let handled = actor.handle_message(Message::Text(
        "{\"type\":\"complete\",\"id\":\"1\"}".to_string(),
    ));
    assert!(matches!(handled, Handled::Nothing));
    assert!(actor.sender_for(1).is_none());

    // a late next for the retired id is silently dropped
    let handled = actor.handle_message(Message::Text(
        "{\"type\":\"next\",\"id\":\"1\",\"payload\":{\"data\":{\"x\":3}}}".to_string(),
    ));
    assert!(matches!(handled, Handled::Nothing));
}

#[test]
fn concurrent_subscriptions_are_demultiplexed() {
    // two subscriptions; interleaved next frames reach their own queues in order
    let mut actor = ConnectionActor::new(settings());
    subscribe(&mut actor, 1, "{\"query\":\"a\"}");
    subscribe(&mut actor, 2, "{\"query\":\"b\"}");

    let frames = [
        ("{\"type\":\"next\",\"id\":\"1\",\"payload\":{\"data\":1}}", 1, "{\"data\":1}"),
        ("{\"type\":\"next\",\"id\":\"2\",\"payload\":{\"data\":10}}", 2, "{\"data\":10}"),
        ("{\"type\":\"next\",\"id\":\"1\",\"payload\":{\"data\":2}}", 1, "{\"data\":2}"),
        ("{\"type\":\"next\",\"id\":\"2\",\"payload\":{\"data\":20}}", 2, "{\"data\":20}"),
    ];
    for (frame, want_id, want_payload) in frames {
        let (id, payload) = forwarded(&mut actor, frame);
        assert_eq!(id, want_id);
        assert_eq!(payload, json(want_payload));
    }
}

#[test]
fn cancel_emits_one_complete_and_drops_late_frames() {
    // caller cancels after one next; engine emits complete and discards the rest
    let mut actor = ConnectionActor::new(settings());
    subscribe(&mut actor, 1, "{\"query\":\"q\"}");

    let (id, _) =
        forwarded(&mut actor, "{\"type\":\"next\",\"id\":\"1\",\"payload\":{\"data\":1}}");
    assert_eq!(id, 1);

    let reply = actor.handle_command(ConnectionCommand::Cancel(1));
    match reply {
        Some(Message::Text(t)) => assert_eq!(t, "{\"type\":\"complete\",\"id\":\"1\"}"),
        _ => panic!("cancel of a live id must emit a complete frame"),
    }
    assert!(actor.sender_for(1).is_none());

    // any further next for id 1 is silently discarded
    let handled = actor.handle_message(Message::Text(
        "{\"type\":\"next\",\"id\":\"1\",\"payload\":{\"data\":2}}".to_string(),
    ));
    assert!(matches!(handled, Handled::Nothing));

    // a second cancel for the same id emits nothing
    assert!(actor.handle_command(ConnectionCommand::Cancel(1)).is_none());
}

#[test]
fn server_error_is_wrapped_and_forwarded() {
    // the error payload reaches the consumer as {"errors": [...]} and the
    // subscription stays registered until the server's complete
    let mut actor = ConnectionActor::new(settings());
    subscribe(&mut actor, 1, "{\"query\":\"q\"}");

    let (id, payload) = forwarded(
        &mut actor,
        "{\"type\":\"error\",\"id\":\"1\",\"payload\":[{\"message\":\"bad\"}]}",
    );
    assert_eq!(id, 1);
    assert_eq!(payload, json("{\"errors\":[{\"message\":\"bad\"}]}"));
    assert!(actor.sender_for(1).is_some());

    let handled = actor.handle_message(Message::Text(
        "{\"type\":\"complete\",\"id\":\"1\"}".to_string(),
    ));
    assert!(matches!(handled, Handled::Nothing));
    assert!(actor.sender_for(1).is_none());
}

#[test]
fn late_ack_closes_4855() {
    let mut actor = ConnectionActor::new(settings());
    let handled =
        actor.handle_message(Message::Text("{\"type\":\"connection_ack\"}".to_string()));
    match handled {
        Handled::Reply(Message::Close { code, reason }) => {
            assert_eq!(code, Some(4855));
            assert_eq!(reason.as_deref(), Some("too many acknowledges"));
        },
        _ => panic!("a late connection_ack must close the connection"),
    }
}

#[test]
fn malformed_id_closes_4856() {
    let mut actor = ConnectionActor::new(settings());
    let handled = actor.handle_message(Message::Text(
        "{\"type\":\"next\",\"id\":\"one\",\"payload\":{}}".to_string(),
    ));
    match handled {
        Handled::Reply(Message::Close { code, reason }) => {
            assert_eq!(code, Some(4856));
            assert_eq!(reason.as_deref(), Some("unknown subscription"));
        },
        _ => panic!("a malformed id must close the connection"),
    }
}

#[test]
fn undecodable_text_closes_4857() {
    let mut actor = ConnectionActor::new(settings());
    let handled = actor.handle_message(Message::Text("{\"type\":".to_string()));
    match handled {
        Handled::Reply(Message::Close { code, reason }) => {
            assert_eq!(code, Some(4857));
            let reason = reason.unwrap();
            assert!(reason.starts_with(
                "Error while decoding event: message decode error, reason: "
            ));
        },
        _ => panic!("undecodable text must close the connection"),
    }
}

#[test]
fn transport_close_is_mirrored() {
    let mut actor = ConnectionActor::new(settings());
    let handled = actor.handle_message(Message::Close {
        code: Some(4400),
        reason: Some("bye".to_string()),
    });
    match handled {
        Handled::Reply(Message::Close { code, reason }) => {
            assert_eq!(code, Some(4400));
            assert_eq!(reason.as_deref(), Some("bye"));
        },
        _ => panic!("a transport close must be mirrored"),
    }
}

#[test]
fn transport_ping_pong_need_no_reaction() {
    let mut actor = ConnectionActor::new(settings());
    assert!(matches!(actor.handle_message(Message::Ping), Handled::Nothing));
    assert!(matches!(actor.handle_message(Message::Pong), Handled::Nothing));
}

#[test]
fn application_ping_gets_application_pong() {
    let mut actor = ConnectionActor::new(settings());
    let handled = actor.handle_message(Message::Text("{\"type\":\"ping\"}".to_string()));
    match handled {
        Handled::Reply(Message::Text(t)) => assert_eq!(t, "{\"type\":\"pong\"}"),
        _ => panic!("an application ping must be answered with a pong"),
    }
    let handled = actor.handle_message(Message::Text("{\"type\":\"pong\"}".to_string()));
    assert!(matches!(handled, Handled::Nothing));
}

#[test]
fn binary_less_commands_ping_and_close() {
    let mut actor = ConnectionActor::new(settings());
    assert!(matches!(
        actor.handle_command(ConnectionCommand::Ping),
        Some(Message::Ping)
    ));
    let reply = actor.handle_command(ConnectionCommand::Close(1000, "done".to_string()));
    match reply {
        Some(Message::Close { code, reason }) => {
            assert_eq!(code, Some(1000));
            assert_eq!(reason.as_deref(), Some("done"));
        },
        _ => panic!("a close command must emit a close frame"),
    }
    // after a close went out, the exit path sends nothing more
    assert!(actor.close_on_exit().is_none());
}

#[test]
fn exit_path_sends_close_100_once() {
    let mut actor = ConnectionActor::new(settings());
    match actor.close_on_exit() {
        Some(Message::Close { code, reason }) => {
            assert_eq!(code, Some(100));
            assert_eq!(reason, None);
        },
        _ => panic!("the exit path must send a best-effort close"),
    }
    assert!(actor.close_on_exit().is_none());
}

#[test]
fn graceful_shutdown_needs_both_conditions() {
    let mut actor = ConnectionActor::new(settings());
    assert!(!actor.should_exit());
    subscribe(&mut actor, 1, "{\"query\":\"q\"}");
    actor.client_disconnected();
    // a subscription is still live: keep running
    assert!(!actor.should_exit());
    actor.handle_command(ConnectionCommand::Cancel(1));
    assert!(actor.should_exit());
}

#[test]
fn dropped_consumer_is_cancelled() {
    let mut actor = ConnectionActor::new(settings());
    subscribe(&mut actor, 1, "{\"query\":\"q\"}");
    let frame = actor.delivery_failed(1);
    match frame {
        Message::Text(t) => assert_eq!(t, "{\"type\":\"complete\",\"id\":\"1\"}"),
        _ => panic!("a failed delivery must emit a complete frame"),
    }
    assert!(actor.sender_for(1).is_none());
}

#[test]
fn keepalive_timeout_synthesizes_close_4503() {
    let settings = KeepAliveSettings { interval: Some(50), retries: 2 };
    let cmd = settings.report_timeout();
    match cmd {
        ConnectionCommand::Close(code, reason) => {
            assert_eq!(code, 4503);
            assert_eq!(reason, "Service unavailable. keep-alive failure");
        },
        _ => panic!("the keep-alive timeout must synthesize a close command"),
    }
    let mut actor = ConnectionActor::new(settings);
    let reply = actor.handle_command(settings.report_timeout());
    match reply {
        Some(Message::Close { code, reason }) => {
            assert_eq!(code, Some(4503));
            assert_eq!(reason.as_deref(), Some("Service unavailable. keep-alive failure"));
        },
        _ => panic!("the close command must emit a close frame"),
    }
}
