//! Message envelope codec: the wire text format of chat events.
//!
//! Envelopes are serialized to JSON text. The encoding is specified down to
//! the character: member order follows field order, string values are
//! escaped as JSON requires (quote, backslash, and control characters), and
//! timestamps are rendered in decimal. A fallback envelope carrying an
//! explicit error field stands in when a caller's own serialization of some
//! other payload fails.

use vstd::prelude::*;
use vstd::string::{StrSliceExecFns, StringExecFns};

use crate::strutil::{push_char, spec_decimal, u64_to_string};
use crate::users::User;

verus! {

/// A private-chat envelope: one relayed message between two users.
#[derive(Debug)]
pub struct ChatMessage {
    pub sender_user: User,
    pub receiver_user: User,
    pub message: String,
    pub timestamp: u64,
}

/// A group-chat envelope: the originator and the text.
#[derive(Debug)]
pub struct GroupMessage {
    pub id: String,
    pub name: String,
    pub message: String,
}

/// The lowercase hexadecimal digit character for a value below sixteen.
pub open spec fn hex_char(d: int) -> char {
    if d < 10 {
        crate::strutil::digit_char(d)
    } else if d == 10 {
        'a'
    } else if d == 11 {
        'b'
    } else if d == 12 {
        'c'
    } else if d == 13 {
        'd'
    } else if d == 14 {
        'e'
    } else {
        'f'
    }
}

/// How one character appears inside a JSON string value: quote and
/// backslash are escaped, the named control characters use their short
/// escapes, all other control characters use a `\u00..` escape, and every
/// other character stands for itself.
pub open spec fn json_escape_char(c: char) -> Seq<char> {
    if c == '"' {
        seq!['\\', '"']
    } else if c == '\\' {
        seq!['\\', '\\']
    } else if c == '\u{8}' {
        seq!['\\', 'b']
    } else if c == '\t' {
        seq!['\\', 't']
    } else if c == '\n' {
        seq!['\\', 'n']
    } else if c == '\u{c}' {
        seq!['\\', 'f']
    } else if c == '\r' {
        seq!['\\', 'r']
    } else if (c as u32) < 0x20 {
        seq!['\\', 'u', '0', '0', hex_char(c as u32 as int / 16), hex_char(c as u32 as int % 16)]
    } else {
        seq![c]
    }
}

/// A whole string value escaped for JSON, character by character.
pub open spec fn json_escape(s: Seq<char>) -> Seq<char>
    decreases s.len(),
{
    if s.len() == 0 {
        Seq::<char>::empty()
    } else {
        json_escape_char(s[0]) + json_escape(s.drop_first())
    }
}

/// Escaping a string one character longer appends that character's escape.
pub proof fn lemma_json_escape_snoc(s: Seq<char>, c: char)
    ensures
        json_escape(s.push(c)) == json_escape(s) + json_escape_char(c),
    decreases s.len(),
{
    if s.len() == 0 {
        assert(s.push(c)[0] == c);
        assert(s.push(c).drop_first() =~= Seq::<char>::empty());
        assert(json_escape(s.push(c)) == json_escape_char(c) + json_escape(
            Seq::<char>::empty(),
        ));
        assert(json_escape_char(c) + Seq::<char>::empty() =~= json_escape_char(c));
        assert(json_escape(s) + json_escape_char(c) =~= json_escape_char(c));
    } else {
        lemma_json_escape_snoc(s.drop_first(), c);
        assert(s.push(c).drop_first() =~= s.drop_first().push(c));
        assert(s.push(c)[0] == s[0]);
        assert(json_escape(s.push(c)) =~= json_escape(s) + json_escape_char(c));
    }
}

fn hex_char_exec(d: u32) -> (c: char)
    requires
        d < 16,
    ensures
        c == hex_char(d as int),
{
    if d == 10 {
        'a'
    } else if d == 11 {
        'b'
    } else if d == 12 {
        'c'
    } else if d == 13 {
        'd'
    } else if d == 14 {
        'e'
    } else if d == 15 {
        'f'
    } else {
        crate::strutil::digit_char_exec(d as u64)
    }
}

/// Appends the JSON escape of `s` to `out`.
fn append_escaped(out: &mut String, s: &str)
    ensures
        final(out)@ == old(out)@ + json_escape(s@),
{
    let len = s.unicode_len();
    let mut i: usize = 0;
    while i < len
        invariant
            i <= len,
            len == s@.len(),
            out@ == old(out)@ + json_escape(s@.subrange(0, i as int)),
        decreases len - i,
    {
        let c = s.get_char(i);
        if c == '"' {
            out.append("\\\"");
            proof {
                reveal_strlit("\\\"");
            }
        } else if c == '\\' {
            out.append("\\\\");
            proof {
                reveal_strlit("\\\\");
            }
        } else if c == '\u{8}' {
            out.append("\\b");
            proof {
                reveal_strlit("\\b");
            }
        } else if c == '\t' {
            out.append("\\t");
            proof {
                reveal_strlit("\\t");
            }
        } else if c == '\n' {
            out.append("\\n");
            proof {
                reveal_strlit("\\n");
            }
        } else if c == '\u{c}' {
            out.append("\\f");
            proof {
                reveal_strlit("\\f");
            }
        } else if c == '\r' {
            out.append("\\r");
            proof {
                reveal_strlit("\\r");
            }
        } else if (c as u32) < 0x20 {
            out.append("\\u00");
            proof {
                reveal_strlit("\\u00");
            }
            push_char(out, hex_char_exec((c as u32) / 16));
            push_char(out, hex_char_exec((c as u32) % 16));
        } else {
            push_char(out, c);
        }
        proof {
            lemma_json_escape_snoc(s@.subrange(0, i as int), c);
            assert(s@.subrange(0, i + 1 as int) =~= s@.subrange(0, i as int).push(c));
            assert(out@ =~= old(out)@ + json_escape(s@.subrange(0, i + 1 as int)));
        }
        i = i + 1;
    }
    proof {
        assert(s@.subrange(0, len as int) =~= s@);
    }
}

/// The JSON text of a user record.
pub open spec fn json_of_user(u: User) -> Seq<char> {
    "{\"user_id\":\""@ + json_escape(u.user_id@) + "\",\"user_name\":\""@ + json_escape(
        u.user_name@,
    ) + "\",\"email\":\""@ + json_escape(u.email@) + "\"}"@
}

/// The JSON text of a private-chat envelope, over its parts.
pub open spec fn json_of_chat_parts(
    sender: User,
    receiver: User,
    message: Seq<char>,
    timestamp: nat,
) -> Seq<char> {
    "{\"sender_user\":"@ + json_of_user(sender) + ",\"receiver_user\":"@ + json_of_user(receiver)
        + ",\"message\":\""@ + json_escape(message) + "\",\"timestamp\":"@ + spec_decimal(
        timestamp,
    ) + "}"@
}

/// The JSON text of a private-chat envelope.
pub open spec fn json_of_chat(m: ChatMessage) -> Seq<char> {
    json_of_chat_parts(m.sender_user, m.receiver_user, m.message@, m.timestamp as nat)
}

/// The JSON text of a group-chat envelope.
pub open spec fn json_of_group(g: GroupMessage) -> Seq<char> {
    "{\"id\":\""@ + json_escape(g.id@) + "\",\"name\":\""@ + json_escape(g.name@)
        + "\",\"message\":\""@ + json_escape(g.message@) + "\"}"@
}

fn append_user(out: &mut String, u: &User)
    ensures
        final(out)@ == old(out)@ + json_of_user(*u),
{
    out.append("{\"user_id\":\"");
    append_escaped(out, u.user_id.as_str());
    out.append("\",\"user_name\":\"");
    append_escaped(out, u.user_name.as_str());
    out.append("\",\"email\":\"");
    append_escaped(out, u.email.as_str());
    out.append("\"}");
    proof {
        assert(out@ =~= old(out)@ + json_of_user(*u));
    }
}

/// Serializes a private-chat envelope.
pub fn encode_chat_message(m: &ChatMessage) -> (r: String)
    ensures
        r@ == json_of_chat(*m),
{
    let mut out = String::from_str("{\"sender_user\":");
    append_user(&mut out, &m.sender_user);
    out.append(",\"receiver_user\":");
    append_user(&mut out, &m.receiver_user);
    out.append(",\"message\":\"");
    append_escaped(&mut out, m.message.as_str());
    out.append("\",\"timestamp\":");
    let ts = u64_to_string(m.timestamp);
    out.append(ts.as_str());
    out.append("}");
    proof {
        assert(out@ =~= json_of_chat(*m));
    }
    out
}

/// Serializes a group-chat envelope.
pub fn serde_msg(group_msg: &GroupMessage) -> (r: String)
    ensures
        r@ == json_of_group(*group_msg),
{
    let mut out = String::from_str("{\"id\":\"");
    append_escaped(&mut out, group_msg.id.as_str());
    out.append("\",\"name\":\"");
    append_escaped(&mut out, group_msg.name.as_str());
    out.append("\",\"message\":\"");
    append_escaped(&mut out, group_msg.message.as_str());
    out.append("\"}");
    proof {
        assert(out@ =~= json_of_group(*group_msg));
    }
    out
}

/// The fallback envelope of the private chat: only an error field.
pub open spec fn json_of_chat_fallback(error_text: Seq<char>) -> Seq<char> {
    "{\"error\":\""@ + json_escape(error_text) + "\"}"@
}

/// The fallback envelope of the group chat: the error beside the message
/// text that could not travel in its usual shape.
pub open spec fn json_of_group_fallback(error_text: Seq<char>, message: Seq<char>) -> Seq<char> {
    "{\"error\":\""@ + json_escape(error_text) + "\",\"message\":\""@ + json_escape(message)
        + "\"}"@
}

/// Builds the private-chat fallback envelope around an error description.
pub fn chat_fallback_msg(error_text: &str) -> (r: String)
    ensures
        r@ == json_of_chat_fallback(error_text@),
{
    let mut out = String::from_str("{\"error\":\"");
    append_escaped(&mut out, error_text);
    out.append("\"}");
    proof {
        assert(out@ =~= json_of_chat_fallback(error_text@));
    }
    out
}

/// Builds the group-chat fallback envelope around an error description and
/// the undeliverable message text.
pub fn group_fallback_msg(error_text: &str, message: &str) -> (r: String)
    ensures
        r@ == json_of_group_fallback(error_text@, message@),
{
    let mut out = String::from_str("{\"error\":\"");
    append_escaped(&mut out, error_text);
    out.append("\",\"message\":\"");
    append_escaped(&mut out, message);
    out.append("\"}");
    proof {
        assert(out@ =~= json_of_group_fallback(error_text@, message@));
    }
    out
}

} // verus!
