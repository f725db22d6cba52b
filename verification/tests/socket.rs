use webhook_manager::server::socket::{
    echo_continues, echo_reply, stream_pattern, stream_step, MessageKind,
    StreamAction, StreamEvent, ECHO_GREETING, STREAM_GREETING,
};

#[test]
fn stream_follows_the_pattern_the_client_sends() {
    assert_eq!(stream_pattern(Some("alice:*")).unwrap(), "alice:*");
    assert_eq!(stream_pattern(Some("guest:*")).unwrap(), "guest:*");
}

#[test]
fn stream_needs_an_accepted_pattern_in_a_text() {
    assert!(stream_pattern(None).is_none());
    assert!(stream_pattern(Some("alice")).is_none());
    assert!(stream_pattern(Some("a:b:*")).is_none());
    assert!(stream_pattern(Some(":*")).is_none());
    assert!(stream_pattern(Some("alice:x")).is_none());
}

#[test]
fn stream_reactions() {
    assert_eq!(stream_step(StreamEvent::Tick), StreamAction::Fetch);
    assert_eq!(stream_step(StreamEvent::Fetched(true)), StreamAction::Send);
    assert_eq!(stream_step(StreamEvent::Fetched(false)), StreamAction::Wait);
    assert_eq!(stream_step(StreamEvent::Sent(true)), StreamAction::Wait);
    assert_eq!(stream_step(StreamEvent::Sent(false)), StreamAction::Stop);
    assert_eq!(stream_step(StreamEvent::Received(MessageKind::Close)), StreamAction::Stop);
    assert_eq!(stream_step(StreamEvent::Received(MessageKind::Text)), StreamAction::Wait);
    assert_eq!(stream_step(StreamEvent::Received(MessageKind::Other)), StreamAction::Wait);
}

#[test]
fn echo_endpoint() {
    assert_eq!(echo_reply("hi"), "Echo: hi");
    assert!(echo_continues(MessageKind::Text));
    assert!(echo_continues(MessageKind::Other));
    assert!(!echo_continues(MessageKind::Close));
    assert_eq!(ECHO_GREETING, "Hello from the server!");
    assert_eq!(STREAM_GREETING, "{\"status\": \"PING\"}");
}
