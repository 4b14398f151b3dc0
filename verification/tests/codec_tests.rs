use roger::{
    ChatMessage, GroupMessage, User, chat_fallback_msg, encode_chat_message, group_fallback_msg,
    i64_to_string, serde_msg, u64_to_string,
};

fn user(id: &str, name: &str, email: &str) -> User {
    User { user_id: String::from(id), user_name: String::from(name), email: String::from(email) }
}

#[test]
fn test_encode_chat_message_exact() {
    let m = ChatMessage {
        sender_user: user("a-1", "Alice", "alice@example.com"),
        receiver_user: user("b-1", "Bob", "bob@example.com"),
        message: String::from("hi"),
        timestamp: 1700000000,
    };
    let payload = encode_chat_message(&m);
    assert_eq!(
        payload,
        "{\"sender_user\":{\"user_id\":\"a-1\",\"user_name\":\"Alice\",\"email\":\"alice@example.com\"},\
         \"receiver_user\":{\"user_id\":\"b-1\",\"user_name\":\"Bob\",\"email\":\"bob@example.com\"},\
         \"message\":\"hi\",\"timestamp\":1700000000}"
    );
}

#[test]
fn test_encode_chat_message_escapes() {
    let m = ChatMessage {
        sender_user: user("a", "A\"quote", "a@x"),
        receiver_user: user("b", "B\\slash", "b@x"),
        message: String::from("line1\nline2\ttab\r\u{8}\u{c}\u{1f}"),
        timestamp: 0,
    };
    let payload = encode_chat_message(&m);
    // the payload is valid JSON and decodes back to the texts that went in
    let parsed: serde_json::Value = serde_json::from_str(&payload).unwrap();
    assert_eq!(parsed["sender_user"]["user_name"], "A\"quote");
    assert_eq!(parsed["receiver_user"]["user_name"], "B\\slash");
    assert_eq!(parsed["message"], "line1\nline2\ttab\r\u{8}\u{c}\u{1f}");
    assert_eq!(parsed["timestamp"], 0);
    // and the escapes themselves are the conventional ones
    assert!(payload.contains("A\\\"quote"));
    assert!(payload.contains("B\\\\slash"));
    assert!(payload.contains("line1\\nline2\\ttab\\r\\b\\f\\u001f"));
}

#[test]
fn test_encode_keeps_unicode_unescaped() {
    let m = GroupMessage {
        id: String::from("g"),
        name: String::from("naïve"),
        message: String::from("héllo ✓"),
    };
    let payload = serde_msg(&m);
    assert_eq!(payload, "{\"id\":\"g\",\"name\":\"naïve\",\"message\":\"héllo ✓\"}");
}

#[test]
fn test_serde_msg_exact() {
    let m = GroupMessage {
        id: String::from("group-1"),
        name: String::from("Team"),
        message: String::from("Welcome Alice to Team"),
    };
    assert_eq!(
        serde_msg(&m),
        "{\"id\":\"group-1\",\"name\":\"Team\",\"message\":\"Welcome Alice to Team\"}"
    );
}

#[test]
fn test_fallback_envelopes() {
    assert_eq!(
        chat_fallback_msg("Failed to serialize message: boom"),
        "{\"error\":\"Failed to serialize message: boom\"}"
    );
    assert_eq!(
        group_fallback_msg("Failed to serialize message: boom", "the \"text\""),
        "{\"error\":\"Failed to serialize message: boom\",\"message\":\"the \\\"text\\\"\"}"
    );
}

#[test]
fn test_decimal_rendering() {
    assert_eq!(u64_to_string(0), "0");
    assert_eq!(u64_to_string(7), "7");
    assert_eq!(u64_to_string(1700000000), "1700000000");
    assert_eq!(u64_to_string(u64::MAX), "18446744073709551615");
    assert_eq!(i64_to_string(0), "0");
    assert_eq!(i64_to_string(-1), "-1");
    assert_eq!(i64_to_string(i64::MIN), "-9223372036854775808");
    assert_eq!(i64_to_string(i64::MAX), "9223372036854775807");
}
