use wsgator::engine::error::{WsError, WsErrorKind};
use wsgator::message::Message;
use wsgator::mini_server::{
    after_ping, react_to_client, server_ping, ConnectionCounter, ServerReaction, PONG_TIMEOUT_MILLIS,
};

#[test]
fn server_echoes_texts_and_answers_pings() {
    match react_to_client(Ok(Message::Text("hello".into()))) {
        ServerReaction::Reply(Message::Text(t)) => assert_eq!(t, "Server response: hello"),
        other => panic!("unexpected {:?}", other),
    }
    assert!(matches!(react_to_client(Ok(Message::Ping(vec![7]))), ServerReaction::Reply(Message::Pong(b)) if b == vec![7]));
    assert!(matches!(react_to_client(Ok(Message::Pong(vec![]))), ServerReaction::PongReceived));
    assert!(matches!(react_to_client(Ok(Message::Close(None))), ServerReaction::Shutdown));
    assert!(matches!(react_to_client(Ok(Message::Binary(vec![1]))), ServerReaction::Ignore));
    let error = WsError { kind: WsErrorKind::Protocol, text: "bad frame".into() };
    assert!(matches!(react_to_client(Err(error)), ServerReaction::Ignore));
}

#[test]
fn server_pings_with_ping() {
    assert!(matches!(server_ping(), Message::Ping(b) if b == b"ping".to_vec()));
}

#[test]
fn counter_counts_connections() {
    let mut c = ConnectionCounter::new();
    assert_eq!(c.current(), 0);
    c.opened();
    c.opened();
    assert_eq!(c.current(), 2);
    c.closed();
    assert_eq!(c.current(), 1);
}

#[test]
fn server_drops_a_client_whose_pong_is_late() {
    assert!(matches!(after_ping(true), ServerReaction::Shutdown));
    assert!(matches!(after_ping(false), ServerReaction::Ignore));
    assert_eq!(PONG_TIMEOUT_MILLIS, 10_000);
}
