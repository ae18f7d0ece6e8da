use graphql_ws_client::protocol::{
    classify_event, complete_message, parse_dec_u64, parse_envelope, ping_message, pong_message,
    subscribe_message, u64_to_dec, ConnectionInit, Event, Message,
};

#[test]
fn init_text_without_payload() {
    let init = ConnectionInit::new(None);
    assert_eq!(init.to_json(), "{\"type\":\"connection_init\"}");
}

#[test]
fn init_text_with_payload() {
    let init = ConnectionInit::new(Some("{\"token\":\"abc\"}".to_string()));
    assert_eq!(
        init.to_json(),
        "{\"type\":\"connection_init\",\"payload\":{\"token\":\"abc\"}}"
    );
}

#[test]
fn subscribe_text_embeds_id_and_payload() {
    let text = subscribe_message(1, "{\"query\":\"subscription { x }\"}");
    assert_eq!(
        text,
        "{\"type\":\"subscribe\",\"id\":\"1\",\"payload\":{\"query\":\"subscription { x }\"}}"
    );
}

#[test]
fn complete_text_embeds_id() {
    assert_eq!(complete_message(1), "{\"type\":\"complete\",\"id\":\"1\"}");
    assert_eq!(complete_message(907), "{\"type\":\"complete\",\"id\":\"907\"}");
}

#[test]
fn ping_and_pong_texts() {
    assert_eq!(ping_message(), "{\"type\":\"ping\"}");
    assert_eq!(pong_message(), "{\"type\":\"pong\"}");
}

#[test]
fn protocol_message_to_json() {
    let sub = Message::Subscribe {
        id: "7".to_string(),
        payload: "{\"query\":\"q\"}".to_string(),
    };
    assert_eq!(
        sub.to_json(),
        "{\"type\":\"subscribe\",\"id\":\"7\",\"payload\":{\"query\":\"q\"}}"
    );
    let complete = Message::Complete { id: "7".to_string() };
    assert_eq!(complete.to_json(), "{\"type\":\"complete\",\"id\":\"7\"}");
    assert_eq!(Message::Ping.to_json(), "{\"type\":\"ping\"}");
    assert_eq!(Message::Pong.to_json(), "{\"type\":\"pong\"}");
}

#[test]
fn decimal_rendering() {
    assert_eq!(u64_to_dec(0), "0");
    assert_eq!(u64_to_dec(7), "7");
    assert_eq!(u64_to_dec(10), "10");
    assert_eq!(u64_to_dec(906), "906");
    assert_eq!(u64_to_dec(u64::MAX), "18446744073709551615");
}

#[test]
fn decimal_parsing() {
    assert_eq!(parse_dec_u64("0"), Some(0));
    assert_eq!(parse_dec_u64("1"), Some(1));
    assert_eq!(parse_dec_u64("007"), Some(7));
    assert_eq!(parse_dec_u64("18446744073709551615"), Some(u64::MAX));
    assert_eq!(parse_dec_u64("18446744073709551616"), None);
    assert_eq!(parse_dec_u64(""), None);
    assert_eq!(parse_dec_u64("12a"), None);
    assert_eq!(parse_dec_u64("-1"), None);
    assert_eq!(parse_dec_u64("+1"), None);
    assert_eq!(parse_dec_u64(" 1"), None);
}

#[test]
fn envelope_of_next_event() {
    let env = parse_envelope("{\"type\":\"next\",\"id\":\"1\",\"payload\":{\"data\":{\"x\":1}}}")
        .unwrap_or_else(|e| panic!("expected an envelope, got error: {e}"));
    match classify_event(env) {
        Ok(Event::Next { id, payload }) => {
            assert_eq!(id, "1");
            let expected: serde_json::Value =
                serde_json::from_str("{\"data\":{\"x\":1}}").unwrap();
            assert_eq!(payload, expected);
        },
        _ => panic!("expected a next event"),
    }
}

#[test]
fn envelope_of_error_event() {
    let env =
        parse_envelope("{\"type\":\"error\",\"id\":\"1\",\"payload\":[{\"message\":\"bad\"}]}")
            .unwrap_or_else(|e| panic!("expected an envelope, got error: {e}"));
    match classify_event(env) {
        Ok(Event::Error { id, payload }) => {
            assert_eq!(id, "1");
            let expected: serde_json::Value =
                serde_json::from_str("[{\"message\":\"bad\"}]").unwrap();
            assert_eq!(payload, expected);
        },
        _ => panic!("expected an error event"),
    }
}

#[test]
fn envelope_of_complete_ack_ping_pong() {
    let env = parse_envelope("{\"type\":\"complete\",\"id\":\"2\"}").unwrap();
    assert!(matches!(classify_event(env), Ok(Event::Complete { .. })));

    let env = parse_envelope("{\"type\":\"connection_ack\"}").unwrap();
    assert!(matches!(classify_event(env), Ok(Event::ConnectionAck { .. })));

    let env = parse_envelope("{\"type\":\"ping\",\"payload\":null}").unwrap();
    assert!(matches!(classify_event(env), Ok(Event::Ping { .. })));

    let env = parse_envelope("{\"type\":\"pong\"}").unwrap();
    assert!(matches!(classify_event(env), Ok(Event::Pong { .. })));
}

#[test]
fn classify_rejects_bad_envelopes() {
    // no type field
    let env = parse_envelope("{\"id\":\"1\"}").unwrap();
    assert_eq!(
        classify_event(env).unwrap_err(),
        "missing or non-string field `type`"
    );
    // next without id
    let env = parse_envelope("{\"type\":\"next\",\"payload\":{}}").unwrap();
    assert_eq!(classify_event(env).unwrap_err(), "missing field `id`");
    // next without payload
    let env = parse_envelope("{\"type\":\"next\",\"id\":\"1\"}").unwrap();
    assert_eq!(classify_event(env).unwrap_err(), "missing field `payload`");
    // error with a non-array payload
    let env = parse_envelope("{\"type\":\"error\",\"id\":\"1\",\"payload\":{}}").unwrap();
    assert_eq!(
        classify_event(env).unwrap_err(),
        "the payload of an error event must be an array"
    );
    // unknown tag
    let env = parse_envelope("{\"type\":\"subscribe\",\"id\":\"1\",\"payload\":{}}").unwrap();
    assert_eq!(
        classify_event(env).unwrap_err(),
        "unknown event type `subscribe`"
    );
}

#[test]
fn parse_envelope_rejects_invalid_json() {
    assert!(parse_envelope("{\"type\":").is_err());
    assert!(parse_envelope("").is_err());
    assert!(parse_envelope("{\"type\":\"next\"").is_err());
}

#[test]
fn event_accessors() {
    let ev = Event::Complete { id: "3".to_string() };
    assert_eq!(ev.event_type(), "complete");
    assert_eq!(ev.id(), Some(&"3".to_string()));
    let ev = Event::ConnectionAck { payload: None };
    assert_eq!(ev.event_type(), "connection_ack");
    assert_eq!(ev.id(), None);
}
