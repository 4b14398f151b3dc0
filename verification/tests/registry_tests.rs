use roger::{
    HeaderField, PrivateChatState, SessionPhase, User, channel_subscribe, new_channel,
    now_seconds, private_chat_gate, send_to_user,
};

fn user(id: &str, name: &str) -> User {
    User {
        user_id: String::from(id),
        user_name: String::from(name),
        email: format!("{}@example.com", name),
    }
}

#[test]
fn test_lookup_follows_register_and_deregister() {
    let mut reg = PrivateChatState::new();
    let (tx, mut rx) = new_channel(10);
    assert!(reg.lookup(&String::from("A")).is_none());
    reg.register(String::from("A"), tx);
    // the looked-up channel is the very channel that was registered: a send
    // through it reaches the receiver created with it
    let found = reg.lookup(&String::from("A")).expect("registered entry");
    found.send(String::from("hello")).unwrap();
    assert_eq!(rx.try_recv().unwrap(), "hello");
    reg.deregister(&String::from("A"));
    assert!(reg.lookup(&String::from("A")).is_none());
}

#[test]
fn test_register_twice_overwrites() {
    let mut reg = PrivateChatState::new();
    let (tx1, mut rx1) = new_channel(10);
    let (tx2, mut rx2) = new_channel(10);
    reg.register(String::from("A"), tx1);
    reg.register(String::from("A"), tx2);
    // last writer wins: the registry now reaches only the second channel
    let found = reg.lookup(&String::from("A")).expect("registered entry");
    found.send(String::from("ping")).unwrap();
    assert_eq!(rx2.try_recv().unwrap(), "ping");
    assert!(rx1.try_recv().is_err());
}

#[test]
fn test_send_to_user_delivers_once_to_each_party() {
    let mut reg = PrivateChatState::new();
    let alice = user("a-1", "Alice");
    let bob = user("b-1", "Bob");
    let (tx_a, mut rx_a) = new_channel(10);
    let (tx_b, mut rx_b) = new_channel(10);
    reg.register(String::from("a-1"), tx_a);
    reg.register(String::from("b-1"), tx_b);

    let before = now_seconds();
    let report = send_to_user(&reg, &alice, &bob, "hi bob");
    let after = now_seconds();

    assert!(report.receiver_found && report.receiver_accepted);
    assert!(report.sender_found && report.sender_accepted);
    assert!(before <= report.timestamp && report.timestamp <= after);

    // exactly one envelope lands at each end, and it is the same envelope
    let to_bob = rx_b.try_recv().unwrap();
    assert!(rx_b.try_recv().is_err());
    let to_alice = rx_a.try_recv().unwrap();
    assert!(rx_a.try_recv().is_err());
    assert_eq!(to_bob, report.payload);
    assert_eq!(to_alice, report.payload);

    let parsed: serde_json::Value = serde_json::from_str(&to_bob).unwrap();
    assert_eq!(parsed["message"], "hi bob");
    assert_eq!(parsed["sender_user"]["user_id"], "a-1");
    assert_eq!(parsed["receiver_user"]["user_id"], "b-1");
    let ts = parsed["timestamp"].as_u64().unwrap();
    assert!(before <= ts && ts <= after);
}

#[test]
fn test_send_to_unregistered_receiver_is_silent() {
    let reg = PrivateChatState::new();
    let alice = user("a-2", "Alice");
    let bob = user("b-2", "Bob");
    // neither end is registered: no delivery happens and nothing fails
    let report = send_to_user(&reg, &alice, &bob, "anyone there?");
    assert!(!report.receiver_found && !report.receiver_accepted);
    assert!(!report.sender_found && !report.sender_accepted);
}

#[test]
fn test_echo_still_sent_when_receiver_absent() {
    let mut reg = PrivateChatState::new();
    let alice = user("a-3", "Alice");
    let bob = user("b-3", "Bob");
    let (tx_a, mut rx_a) = new_channel(10);
    reg.register(String::from("a-3"), tx_a);
    let report = send_to_user(&reg, &alice, &bob, "hello?");
    assert!(!report.receiver_found);
    assert!(report.sender_found && report.sender_accepted);
    assert_eq!(rx_a.try_recv().unwrap(), report.payload);
}

#[test]
fn test_rejected_upgrade_adds_no_entry() {
    let mut reg = PrivateChatState::new();
    let (tx_c, _rx_c) = new_channel(10);
    reg.register(String::from("c-1"), tx_c);

    let r = private_chat_gate(&mut reg, &HeaderField::Missing, None, None);
    let e = r.err().expect("missing header is rejected");
    assert_eq!(e.code, 400);
    assert_eq!(e.message, "Missing receiver_id header");

    let r = private_chat_gate(&mut reg, &HeaderField::Malformed, None, None);
    let e = r.err().expect("malformed header is rejected");
    assert_eq!(e.code, 400);
    assert_eq!(e.message, "Invalid recevier_id header format");

    let r = private_chat_gate(
        &mut reg,
        &HeaderField::Value(String::from("b-9")),
        Some(user("a-9", "Alice")),
        None,
    );
    let e = r.err().expect("unknown receiver is rejected");
    assert_eq!(e.code, 400);
    assert_eq!(e.message, "Invalid user_id or receiver_id");

    // the registry is exactly as it was: the old entry, nothing else
    assert!(reg.lookup(&String::from("c-1")).is_some());
    assert!(reg.lookup(&String::from("a-9")).is_none());
    assert!(reg.lookup(&String::from("b-9")).is_none());
}

#[test]
fn test_session_cleanup_runs_exactly_once() {
    let mut reg = PrivateChatState::new();
    let (tx_c, _rx_c) = new_channel(10);
    reg.register(String::from("c-2"), tx_c);

    let mut session = private_chat_gate(
        &mut reg,
        &HeaderField::Value(String::from("b-4")),
        Some(user("a-4", "Alice")),
        Some(user("b-4", "Bob")),
    )
    .expect("both ends exist");
    assert!(matches!(session.phase, SessionPhase::Connecting));

    let _channel = session.activate(&mut reg);
    assert!(matches!(session.phase, SessionPhase::Active));
    assert!(reg.lookup(&String::from("a-4")).is_some());

    // both loops end at once: cleanup runs once, removing exactly the
    // session's own entry
    session.finish(&mut reg);
    assert!(matches!(session.phase, SessionPhase::Closed));
    assert!(reg.lookup(&String::from("a-4")).is_none());
    assert!(reg.lookup(&String::from("c-2")).is_some());

    session.finish(&mut reg);
    assert!(matches!(session.phase, SessionPhase::Closed));
    assert!(reg.lookup(&String::from("c-2")).is_some());
}

#[test]
fn test_private_session_backlog_is_100() {
    let mut reg = PrivateChatState::new();
    let mut session = private_chat_gate(
        &mut reg,
        &HeaderField::Value(String::from("b-5")),
        Some(user("a-5", "Alice")),
        Some(user("b-5", "Bob")),
    )
    .expect("both ends exist");
    let (tx, mut rx) = session.activate(&mut reg);
    // a publisher past the backlog never blocks and never errors; the
    // receiver loses exactly the oldest messages instead. The configured
    // bound of one hundred is rounded up to 128 retained slots by tokio.
    for i in 0..200u32 {
        tx.send(format!("m{}", i)).unwrap();
    }
    match rx.try_recv() {
        Err(tokio::sync::broadcast::error::TryRecvError::Lagged(n)) => assert_eq!(n, 72),
        other => panic!("expected a lagged receiver, got {:?}", other),
    }
    assert_eq!(rx.try_recv().unwrap(), "m72");
}

#[test]
fn test_channel_send_without_receiver_reports_nobody() {
    let (tx, rx) = new_channel(10);
    drop(rx);
    assert!(tx.send(String::from("nobody")).is_err());
    let rx2 = channel_subscribe(&tx);
    assert!(tx.send(String::from("somebody")).is_ok());
    drop(rx2);
}
