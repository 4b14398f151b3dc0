use roger::{
    ChannelEvent, Frame, Group, GroupState, HeaderField, PeerEvent, ReadStep, SessionPhase,
    SocketStep, User, WriteStep, channel_subscribe, echo_response, group_chat_gate,
    parse_group_header, parse_receiver_header, publish_group_message, session_read_step,
    session_write_step, socket_reply, welcome_message, ws_gate,
};

fn user(id: &str, name: &str) -> User {
    User {
        user_id: String::from(id),
        user_name: String::from(name),
        email: format!("{}@example.com", name),
    }
}

fn group(id: &str, name: &str) -> Group {
    Group { group_id: String::from(id), name: String::from(name), description: None }
}

#[test]
fn test_read_step_decisions() {
    assert!(matches!(
        session_read_step(PeerEvent::Frame(Frame::Text(String::from("hi")))),
        ReadStep::Relay(t) if t == "hi"
    ));
    assert!(matches!(session_read_step(PeerEvent::Frame(Frame::Close)), ReadStep::Finish));
    assert!(matches!(session_read_step(PeerEvent::TransportError), ReadStep::Finish));
    assert!(matches!(session_read_step(PeerEvent::Disconnected), ReadStep::Finish));
    assert!(matches!(
        session_read_step(PeerEvent::Frame(Frame::Binary(vec![1, 2]))),
        ReadStep::Ignore
    ));
    assert!(matches!(session_read_step(PeerEvent::Frame(Frame::Ping(vec![]))), ReadStep::Ignore));
}

#[test]
fn test_write_step_decisions() {
    assert!(matches!(
        session_write_step(ChannelEvent::Received(String::from("payload"))),
        WriteStep::Forward(t) if t == "payload"
    ));
    assert!(matches!(session_write_step(ChannelEvent::Lagged(3)), WriteStep::Finish));
    assert!(matches!(session_write_step(ChannelEvent::Closed), WriteStep::Finish));
}

#[test]
fn test_parse_receiver_header_cases() {
    assert_eq!(
        parse_receiver_header(&HeaderField::Value(String::from("b-1"))).unwrap(),
        "b-1"
    );
    let e = parse_receiver_header(&HeaderField::Missing).err().unwrap();
    assert_eq!((e.code, e.message.as_str()), (400, "Missing receiver_id header"));
    let e = parse_receiver_header(&HeaderField::Malformed).err().unwrap();
    assert_eq!((e.code, e.message.as_str()), (400, "Invalid recevier_id header format"));
}

#[test]
fn test_parse_group_header_cases() {
    assert_eq!(parse_group_header(&HeaderField::Value(String::from("g-1"))).unwrap(), "g-1");
    let e = parse_group_header(&HeaderField::Missing).err().unwrap();
    assert_eq!((e.code, e.message.as_str()), (400, "Missing group_id header"));
    let e = parse_group_header(&HeaderField::Malformed).err().unwrap();
    assert_eq!((e.code, e.message.as_str()), (400, "Invalid group_id header"));
}

#[test]
fn test_group_gate_cases() {
    let e = group_chat_gate(&HeaderField::Missing, None, None).err().unwrap();
    assert_eq!((e.code, e.message.as_str()), (400, "Missing group_id header"));
    let e = group_chat_gate(
        &HeaderField::Value(String::from("g-1")),
        Some(user("a-1", "Alice")),
        None,
    )
    .err()
    .unwrap();
    assert_eq!((e.code, e.message.as_str()), (400, "Invalid group_id or user_id"));
    let s = group_chat_gate(
        &HeaderField::Value(String::from("g-1")),
        Some(user("a-1", "Alice")),
        Some(group("g-1", "Team")),
    )
    .unwrap();
    assert_eq!(s.user.user_id, "a-1");
    assert_eq!(s.group.name, "Team");
    assert!(matches!(s.phase, SessionPhase::Connecting));
}

#[test]
fn test_join_announcement_reaches_every_subscriber() {
    // one process-wide channel: participants who named different groups at
    // connect time still share it
    let state = GroupState::new();
    let mut rx_bob = channel_subscribe(&state.tx);
    let mut rx_carol = channel_subscribe(&state.tx);

    let mut session = group_chat_gate(
        &HeaderField::Value(String::from("team-1")),
        Some(user("alice-1", "Alice")),
        Some(group("team-1", "Team")),
    )
    .unwrap();
    let mut rx_alice = session.activate(&state);
    let announcement = session.join_announcement();
    assert_eq!(announcement.id, "team-1");
    assert_eq!(announcement.name, "Team");
    assert_eq!(announcement.message, "Welcome Alice to Team");

    let (payload, had_receivers) = publish_group_message(&state, &announcement);
    assert!(had_receivers);
    // Bob supplied "Team", Carol supplied some other group: both see it,
    // and so does Alice herself
    assert_eq!(rx_bob.try_recv().unwrap(), payload);
    assert_eq!(rx_carol.try_recv().unwrap(), payload);
    assert_eq!(rx_alice.try_recv().unwrap(), payload);
    assert_eq!(
        payload,
        "{\"id\":\"team-1\",\"name\":\"Team\",\"message\":\"Welcome Alice to Team\"}"
    );
}

#[test]
fn test_group_relay_attributes_to_sender() {
    let state = GroupState::new();
    let mut session = group_chat_gate(
        &HeaderField::Value(String::from("g-2")),
        Some(user("alice-2", "Alice")),
        Some(group("g-2", "Team")),
    )
    .unwrap();
    let mut rx = session.activate(&state);
    let envelope = session.relay(String::from("hello all"));
    assert_eq!(envelope.id, "alice-2");
    assert_eq!(envelope.name, "Alice");
    assert_eq!(envelope.message, "hello all");
    let (payload, _) = publish_group_message(&state, &envelope);
    assert_eq!(rx.try_recv().unwrap(), payload);
    session.finish();
    assert!(matches!(session.phase, SessionPhase::Closed));
}

#[test]
fn test_group_channel_backlog_is_100() {
    // the shared room is configured with a backlog of one hundred, which
    // tokio rounds up to 128 retained slots; a slow subscriber loses the
    // oldest messages, the publisher never fails
    let state = GroupState::new();
    let mut rx = channel_subscribe(&state.tx);
    for i in 0..200u32 {
        state.tx.send(format!("g{}", i)).unwrap();
    }
    match rx.try_recv() {
        Err(tokio::sync::broadcast::error::TryRecvError::Lagged(n)) => assert_eq!(n, 72),
        other => panic!("expected a lagged receiver, got {:?}", other),
    }
    assert_eq!(rx.try_recv().unwrap(), "g72");
}

#[test]
fn test_ws_gate_cases() {
    let u = user("u-1", "Uma");
    assert_eq!(ws_gate(Some(u)).unwrap().user_id, "u-1");
    let e = ws_gate(None).err().unwrap();
    assert_eq!((e.code, e.message.as_str()), (401, "Unauthorized: Invalid user_id"));
}

#[test]
fn test_welcome_message_text() {
    assert_eq!(welcome_message("u-42"), "Welcome, user_id: u-42!");
}

#[test]
fn test_echo_response_splices_debug_text() {
    let u = user("u-1", "Uma");
    let expected = format!(
        "{{\"type\":\"echo\",\"data\":\"{:?}\",\"message\":\"{}\"}}",
        u, "hello"
    );
    assert_eq!(echo_response(&u, "hello"), expected);
}

#[test]
fn test_socket_reply_decisions() {
    let u = user("u-2", "Uma");
    assert!(matches!(
        socket_reply(&u, PeerEvent::Frame(Frame::Text(String::from("x")))),
        SocketStep::ReplyBinary(_)
    ));
    assert!(matches!(
        socket_reply(&u, PeerEvent::Frame(Frame::Binary(vec![9, 8]))),
        SocketStep::ReplyPong(d) if d == vec![9, 8]
    ));
    assert!(matches!(
        socket_reply(&u, PeerEvent::Frame(Frame::Ping(vec![1]))),
        SocketStep::ReplyPong(d) if d == vec![1]
    ));
    assert!(matches!(
        socket_reply(&u, PeerEvent::Frame(Frame::Pong(vec![]))),
        SocketStep::Ignore
    ));
    assert!(matches!(socket_reply(&u, PeerEvent::Frame(Frame::Close)), SocketStep::Finish));
    assert!(matches!(socket_reply(&u, PeerEvent::TransportError), SocketStep::Finish));
}
