//! The plain websocket endpoint: a best-effort echo and keepalive handler.
//! Text frames are answered with a binary frame that echoes the text beside
//! the user's record; binary and ping frames are answered with a pong; a
//! close frame or transport trouble ends the connection.

use vstd::prelude::*;
use vstd::string::{StrSliceExecFns, StringExecFns};

use crate::session::{Frame, PeerEvent, Rejection};
use crate::users::User;

verus! {

/// The text that std's derived debug formatting gives a user record; it
/// depends on the three fields alone.
pub uninterp spec fn user_debug(user_id: Seq<char>, user_name: Seq<char>, email: Seq<char>) -> Seq<
    char,
>;

/// Relies on std's derived `Debug` formatting of the user record, named by
/// `user_debug`: the same fields always format to the same text.
#[verifier::external_body]
fn debug_user(u: &User) -> (r: String)
    ensures
        r@ == user_debug(u.user_id@, u.user_name@, u.email@),
{
    format!("{:?}", u)
}

/// The payload echoed back for a text frame: the user's debug text and the
/// received message, spliced as they are into a JSON-shaped template.
pub open spec fn echo_payload(user: User, text: Seq<char>) -> Seq<char> {
    "{\"type\":\"echo\",\"data\":\""@ + user_debug(user.user_id@, user.user_name@, user.email@)
        + "\",\"message\":\""@ + text + "\"}"@
}

/// Builds the echo payload for one received text.
pub fn echo_response(user: &User, text: &str) -> (r: String)
    ensures
        r@ == echo_payload(*user, text@),
{
    let mut out = String::from_str("{\"type\":\"echo\",\"data\":\"");
    let dbg = debug_user(user);
    out.append(dbg.as_str());
    out.append("\",\"message\":\"");
    out.append(text);
    out.append("\"}");
    proof {
        assert(out@ =~= echo_payload(*user, text@));
    }
    out
}

/// The greeting sent right after the connection is established.
pub fn welcome_message(user_id: &str) -> (r: String)
    ensures
        r@ == "Welcome, user_id: "@ + user_id@ + "!"@,
{
    let mut out = String::from_str("Welcome, user_id: ");
    out.append(user_id);
    out.append("!");
    proof {
        assert(out@ =~= "Welcome, user_id: "@ + user_id@ + "!"@);
    }
    out
}

/// Pre-upgrade check of the plain websocket route: the caller's user id
/// must exist in the directory, or the upgrade is refused as unauthorized.
pub fn ws_gate(user_lookup: Option<User>) -> (r: Result<User, Rejection>)
    ensures
        user_lookup matches Some(u) ==> (r matches Ok(v) && v == u),
        user_lookup is None ==> (r matches Err(e) && e.code == 401 && e.message@
            == "Unauthorized: Invalid user_id"@),
{
    match user_lookup {
        Some(u) => Ok(u),
        None => Err(
            Rejection { code: 401, message: String::from_str("Unauthorized: Invalid user_id") },
        ),
    }
}

/// How the echo handler answers one peer event.
#[derive(Debug)]
pub enum SocketStep {
    ReplyBinary(String),
    ReplyPong(Vec<u8>),
    Finish,
    Ignore,
}

/// The echo handler's decision for one peer event: text is echoed as a
/// binary frame, binary and ping frames are answered with a pong carrying
/// the same bytes, a close frame or transport trouble ends the connection,
/// and any other frame is ignored.
pub fn socket_reply(user: &User, event: PeerEvent) -> (r: SocketStep)
    ensures
        event matches PeerEvent::Frame(Frame::Text(t)) ==> (r matches SocketStep::ReplyBinary(s)
            && s@ == echo_payload(*user, t@)),
        event matches PeerEvent::Frame(Frame::Binary(d)) ==> (r matches SocketStep::ReplyPong(p)
            && p == d),
        event matches PeerEvent::Frame(Frame::Ping(d)) ==> (r matches SocketStep::ReplyPong(p)
            && p == d),
        event matches PeerEvent::Frame(Frame::Pong(d)) ==> r is Ignore,
        event matches PeerEvent::Frame(Frame::Close) ==> r is Finish,
        event is TransportError ==> r is Finish,
        event is Disconnected ==> r is Finish,
{
    match event {
        PeerEvent::Frame(Frame::Text(t)) => SocketStep::ReplyBinary(
            echo_response(user, t.as_str()),
        ),
        PeerEvent::Frame(Frame::Binary(d)) => SocketStep::ReplyPong(d),
        PeerEvent::Frame(Frame::Ping(d)) => SocketStep::ReplyPong(d),
        PeerEvent::Frame(Frame::Pong(_)) => SocketStep::Ignore,
        PeerEvent::Frame(Frame::Close) => SocketStep::Finish,
        PeerEvent::TransportError => SocketStep::Finish,
        PeerEvent::Disconnected => SocketStep::Finish,
    }
}

} // verus!
