use open_lark::bot::CustomBot;
use open_lark::connection::{backoff_delay, ConnAction, ConnEvent, ConnState, ConnectionManager};
use open_lark::event::{Dispatch, EventDispatcherHandler};
use open_lark::json::{to_json_text, Json};

#[test]
fn dispatch_registered_and_unregistered() {
    let mut b = EventDispatcherHandler::builder();
    assert_eq!(b.register("p2.im.message.receive_v1".to_string()), Some(0));
    assert_eq!(b.register("p2.im.message.message_read_v1".to_string()), Some(1));
    assert_eq!(b.register("p2.im.message.receive_v1".to_string()), None);
    let h = b.build();
    let frame = br#"{"schema":"2.0","header":{"event_type":"p2.im.message.receive_v1"},"event":{"message":{"text":"hi"}}}"#;
    match h.dispatch(frame) {
        Dispatch::Handler(i, j) => {
            assert_eq!(i, 0);
            assert!(to_json_text(&j).contains("\"text\":\"hi\""));
        }
        other => panic!("unexpected {:?}", other),
    }
    let unknown = br#"{"schema":"2.0","header":{"event_type":"p2.unknown.event"},"event":{}}"#;
    assert!(matches!(h.dispatch(unknown), Dispatch::Unregistered(t) if t == "p2.unknown.event"));
    assert!(matches!(h.dispatch(b"{}"), Dispatch::Malformed));
    assert_eq!(h.handler_for("p2.im.message.message_read_v1"), Some(1));
}

#[test]
fn reconnect_with_growing_capped_backoff() {
    let mut m = ConnectionManager::new(1000, 30000);
    assert_eq!(m.step(ConnEvent::Start), ConnAction::Handshake);
    assert_eq!(m.step(ConnEvent::HandshakeOk), ConnAction::StartReading);
    assert_eq!(m.state, ConnState::Connected);
    let mut last = 0u64;
    let mut delays = vec![];
    let mut a = m.step(ConnEvent::ReadFailed);
    for _ in 0..8 {
        assert_eq!(m.state, ConnState::Disconnected);
        let d = match a {
            ConnAction::WaitThenReconnect(d) => d,
            other => panic!("unexpected {:?}", other),
        };
        assert!(d > 0 && d >= last && d <= 30000);
        last = d;
        delays.push(d);
        assert_eq!(m.step(ConnEvent::RetryTimerFired), ConnAction::Handshake);
        assert_eq!(m.state, ConnState::Connecting);
        a = m.step(ConnEvent::HandshakeFailed);
    }
    assert_eq!(delays, vec![1000, 2000, 4000, 8000, 16000, 30000, 30000, 30000]);
    assert_eq!(m.step(ConnEvent::Shutdown), ConnAction::Release);
    assert_eq!(m.step(ConnEvent::Start), ConnAction::Nothing);
    assert_eq!(m.state, ConnState::Closed);
}

#[test]
fn backoff_values() {
    assert_eq!(backoff_delay(1000, 30000, 0), 1000);
    assert_eq!(backoff_delay(1000, 30000, 3), 4000);
    assert_eq!(backoff_delay(1000, 30000, 4000000000), 30000);
    assert_eq!(backoff_delay(7, 7, 9), 7);
}

#[test]
fn webhook_sign_fixed_vector() {
    assert_eq!(CustomBot::sign(1700000000, "s3cr3t"), "CNNNRL0wSY2j+cKcY98lQAfVvb21u/iW3phZyXRkmcY=");
}

#[test]
fn webhook_body_with_and_without_secret() {
    let plain = CustomBot::new("https://hook".to_string(), None);
    let content = Json::Object(vec![("text".to_string(), Json::Str("hi".to_string()))]);
    let b = plain.body("text".to_string(), "content".to_string(), content, 1700000000);
    assert_eq!(to_json_text(&b), r#"{"content":{"text":"hi"},"msg_type":"text"}"#);
    let signed = CustomBot::new("https://hook".to_string(), Some("s3cr3t".to_string()));
    assert_eq!(signed.check_sign(1700000000), Some((1700000000, "CNNNRL0wSY2j+cKcY98lQAfVvb21u/iW3phZyXRkmcY=".to_string())));
    let c = signed.body("interactive".to_string(), "card".to_string(), Json::Null, 1700000000);
    let t = to_json_text(&c);
    assert!(t.contains(r#""timestamp":1700000000"#));
    assert!(t.contains(r#""sign":"CNNNRL0wSY2j+cKcY98lQAfVvb21u/iW3phZyXRkmcY=""#));
    assert!(t.contains(r#""card":null"#));
}
