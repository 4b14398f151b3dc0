//! Chat sessions over one upgraded connection: the pre-upgrade gate, the
//! per-connection state machine of the private chat, the group session with
//! its join announcement, and the frame decisions of the read and write
//! loops. The loops themselves are plain I/O around these decisions: each
//! reading from the network or from a subscription is handed in as a value,
//! and the decision says what to do with it.

use vstd::prelude::*;
use vstd::string::{StrSliceExecFns, StringExecFns};

use tokio::sync::broadcast::{Receiver, Sender};

use crate::channel::{channel_capacity, channel_send, channel_subscribe, clone_sender, new_channel, subscribed_to};
use crate::codec::{GroupMessage, json_of_group, serde_msg};
use crate::groups::Group;
use crate::registry::{GroupState, PrivateChatState};
use crate::users::User;

verus! {

/// A websocket frame as the sessions see it.
#[derive(Debug)]
pub enum Frame {
    Text(String),
    Binary(Vec<u8>),
    Ping(Vec<u8>),
    Pong(Vec<u8>),
    Close,
}

/// One reading from the peer: a frame, a transport error, or the end of
/// the stream.
#[derive(Debug)]
pub enum PeerEvent {
    Frame(Frame),
    TransportError,
    Disconnected,
}

/// What a chat session's read loop does with one peer event.
#[derive(Debug)]
pub enum ReadStep {
    Relay(String),
    Finish,
    Ignore,
}

/// One reading from a session's broadcast subscription.
#[derive(Debug)]
pub enum ChannelEvent {
    Received(String),
    Lagged(u64),
    Closed,
}

/// What a chat session's write loop does with one channel event.
#[derive(Debug)]
pub enum WriteStep {
    Forward(String),
    Finish,
}

/// A metadata field of an upgrade request, as the handler received it.
#[derive(Debug)]
pub enum HeaderField {
    Missing,
    Malformed,
    Value(String),
}

/// A refused upgrade: status code and body, sent before any upgrade
/// happens.
#[derive(Debug)]
pub struct Rejection {
    pub code: i32,
    pub message: String,
}

/// Query parameters of the plain websocket endpoint.
#[derive(Debug)]
pub struct WsQuery {
    pub user_id: String,
}

/// The phases a session passes through, in order; cleanup happens on the
/// single step into `Closed`.
#[derive(Debug, Clone, Copy, PartialEq, Eq, Structural)]
pub enum SessionPhase {
    Connecting,
    Active,
    Closed,
}

/// The read loop's decision for one peer event, shared by both chat modes:
/// a text frame is relayed, a close frame or transport trouble ends the
/// session, and any other frame is ignored.
pub fn session_read_step(event: PeerEvent) -> (r: ReadStep)
    ensures
        event matches PeerEvent::Frame(Frame::Text(t)) ==> (r matches ReadStep::Relay(m) && m
            == t),
        event matches PeerEvent::Frame(Frame::Close) ==> r is Finish,
        event is TransportError ==> r is Finish,
        event is Disconnected ==> r is Finish,
        (event matches PeerEvent::Frame(f) && !(f is Text) && !(f is Close)) ==> r is Ignore,
{
    match event {
        PeerEvent::Frame(Frame::Text(t)) => ReadStep::Relay(t),
        PeerEvent::Frame(Frame::Close) => ReadStep::Finish,
        PeerEvent::Frame(_) => ReadStep::Ignore,
        PeerEvent::TransportError => ReadStep::Finish,
        PeerEvent::Disconnected => ReadStep::Finish,
    }
}

/// The write loop's decision for one channel event: a received payload is
/// forwarded to the peer as a text frame; a closed or lagging subscription
/// ends the loop, pending messages discarded rather than flushed.
pub fn session_write_step(event: ChannelEvent) -> (r: WriteStep)
    ensures
        event matches ChannelEvent::Received(m) ==> (r matches WriteStep::Forward(t) && t == m),
        event is Lagged ==> r is Finish,
        event is Closed ==> r is Finish,
{
    match event {
        ChannelEvent::Received(m) => WriteStep::Forward(m),
        ChannelEvent::Lagged(_) => WriteStep::Finish,
        ChannelEvent::Closed => WriteStep::Finish,
    }
}

/// Reads the receiver id of a private-chat upgrade from its metadata: a
/// missing or malformed field is a rejection before anything else happens.
pub fn parse_receiver_header(header: &HeaderField) -> (r: Result<String, Rejection>)
    ensures
        header matches HeaderField::Value(v) ==> (r matches Ok(id) && id == v),
        header is Malformed ==> (r matches Err(e) && e.code == 400 && e.message@
            == "Invalid recevier_id header format"@),
        header is Missing ==> (r matches Err(e) && e.code == 400 && e.message@
            == "Missing receiver_id header"@),
{
    match header {
        HeaderField::Value(v) => Ok(v.clone()),
        HeaderField::Malformed => Err(
            Rejection {
                code: 400,
                message: String::from_str("Invalid recevier_id header format"),
            },
        ),
        HeaderField::Missing => Err(
            Rejection { code: 400, message: String::from_str("Missing receiver_id header") },
        ),
    }
}

/// Reads the group id of a group-chat upgrade from its metadata, with the
/// same rejection rule.
pub fn parse_group_header(header: &HeaderField) -> (r: Result<String, Rejection>)
    ensures
        header matches HeaderField::Value(v) ==> (r matches Ok(id) && id == v),
        header is Malformed ==> (r matches Err(e) && e.code == 400 && e.message@
            == "Invalid group_id header"@),
        header is Missing ==> (r matches Err(e) && e.code == 400 && e.message@
            == "Missing group_id header"@),
{
    match header {
        HeaderField::Value(v) => Ok(v.clone()),
        HeaderField::Malformed => Err(
            Rejection { code: 400, message: String::from_str("Invalid group_id header") },
        ),
        HeaderField::Missing => Err(
            Rejection { code: 400, message: String::from_str("Missing group_id header") },
        ),
    }
}

/// One private chat connection: both ends' records and where the session
/// stands in its lifecycle.
#[derive(Debug)]
pub struct PrivateSession {
    pub sender_user: User,
    pub receiver_user: User,
    pub phase: SessionPhase,
}

/// What finishing a session does to its phase and to the registry: an
/// active session's entry is removed; any later finish changes nothing.
pub open spec fn finish_transition(
    phase: SessionPhase,
    registry: Map<Seq<char>, Sender<String>>,
    sender_id: Seq<char>,
) -> (SessionPhase, Map<Seq<char>, Sender<String>>) {
    if phase is Active {
        (SessionPhase::Closed, registry.remove(sender_id))
    } else {
        (SessionPhase::Closed, registry)
    }
}

/// The whole pre-upgrade gate of a private chat: the receiver id must be
/// present and well formed, and both ends must exist in the directory.
/// A failed gate rejects the upgrade and leaves the registry untouched: no
/// entry is ever added for a rejected request.
pub fn private_chat_gate(
    registry: &mut PrivateChatState,
    header: &HeaderField,
    sender_lookup: Option<User>,
    receiver_lookup: Option<User>,
) -> (r: Result<PrivateSession, Rejection>)
    ensures
        final(registry)@ == old(registry)@,
        header is Missing ==> (r matches Err(e) && e.code == 400 && e.message@
            == "Missing receiver_id header"@),
        header is Malformed ==> (r matches Err(e) && e.code == 400 && e.message@
            == "Invalid recevier_id header format"@),
        (header is Value && (sender_lookup is None || receiver_lookup is None)) ==> (r matches
            Err(e) && e.code == 400 && e.message@ == "Invalid user_id or receiver_id"@),
        (header is Value && sender_lookup is Some && receiver_lookup is Some) ==> (r matches Ok(
            sess,
        ) && sess.sender_user == sender_lookup.unwrap() && sess.receiver_user
            == receiver_lookup.unwrap() && sess.phase is Connecting),
{
    match parse_receiver_header(header) {
        Err(e) => Err(e),
        Ok(_) => match (sender_lookup, receiver_lookup) {
            (Some(sender), Some(receiver)) => Ok(
                PrivateSession {
                    sender_user: sender,
                    receiver_user: receiver,
                    phase: SessionPhase::Connecting,
                },
            ),
            _ => Err(
                Rejection {
                    code: 400,
                    message: String::from_str("Invalid user_id or receiver_id"),
                },
            ),
        },
    }
}

impl PrivateSession {
    /// Creates this session's outbound channel, configured with the fixed
    /// backlog of one hundred pending messages, registers its sender under
    /// the sender's id, and enters the active phase. An earlier registration of the
    /// same user is overwritten, orphaning its channel. The receiver
    /// handed back is this channel's own subscription, which the write
    /// loop drains.
    pub fn activate(&mut self, registry: &mut PrivateChatState) -> (channel: (
        Sender<String>,
        Receiver<String>,
    ))
        requires
            old(self).phase is Connecting,
        ensures
            final(registry)@ == old(registry)@.insert(
                old(self).sender_user.user_id@,
                channel.0,
            ),
            channel_capacity(channel.0) == 100,
            subscribed_to(channel.1, channel.0),
            final(self).phase is Active,
            final(self).sender_user == old(self).sender_user,
            final(self).receiver_user == old(self).receiver_user,
    {
        let (tx, rx) = new_channel(100);
        let handle = clone_sender(&tx);
        registry.register(self.sender_user.user_id.clone(), tx);
        self.phase = SessionPhase::Active;
        (handle, rx)
    }

    /// Ends the session, whichever loop finished first and for whatever
    /// reason: an active session's registry entry is removed even after an
    /// error, and a session already closed leaves the registry untouched,
    /// so cleanup runs exactly once.
    pub fn finish(&mut self, registry: &mut PrivateChatState)
        ensures
            (final(self).phase, final(registry)@) == finish_transition(
                old(self).phase,
                old(registry)@,
                old(self).sender_user.user_id@,
            ),
            final(self).sender_user == old(self).sender_user,
            final(self).receiver_user == old(self).receiver_user,
    {
        if self.phase == SessionPhase::Active {
            registry.deregister(&self.sender_user.user_id);
        }
        self.phase = SessionPhase::Closed;
    }
}

/// Law: however the two loops of an active session end — a read error, a
/// write error, or both at once — cleanup runs exactly once: the first
/// finish removes exactly the session's own entry, and a second finish
/// finds the session closed and leaves the registry as it was.
pub proof fn lemma_cleanup_exactly_once(
    registry: Map<Seq<char>, Sender<String>>,
    sender_id: Seq<char>,
)
    ensures
        finish_transition(SessionPhase::Active, registry, sender_id).1 == registry.remove(
            sender_id,
        ),
        finish_transition(
            finish_transition(SessionPhase::Active, registry, sender_id).0,
            finish_transition(SessionPhase::Active, registry, sender_id).1,
            sender_id,
        ) == finish_transition(SessionPhase::Active, registry, sender_id),
        registry.contains_key(sender_id) ==> finish_transition(
            SessionPhase::Active,
            registry,
            sender_id,
        ).1.dom() =~= registry.dom().remove(sender_id),
{
}

/// One group chat connection: the user, the group named at connect time,
/// and the lifecycle phase. The group has no registry entry to clean up.
#[derive(Debug)]
pub struct GroupSession {
    pub user: User,
    pub group: Group,
    pub phase: SessionPhase,
}

/// The pre-upgrade gate of the group chat: the group id must be present
/// and well formed, and both the caller and the group must exist in the
/// directory.
pub fn group_chat_gate(
    header: &HeaderField,
    user_lookup: Option<User>,
    group_lookup: Option<Group>,
) -> (r: Result<GroupSession, Rejection>)
    ensures
        header is Missing ==> (r matches Err(e) && e.code == 400 && e.message@
            == "Missing group_id header"@),
        header is Malformed ==> (r matches Err(e) && e.code == 400 && e.message@
            == "Invalid group_id header"@),
        (header is Value && (user_lookup is None || group_lookup is None)) ==> (r matches Err(e)
            && e.code == 400 && e.message@ == "Invalid group_id or user_id"@),
        (header is Value && user_lookup is Some && group_lookup is Some) ==> (r matches Ok(sess)
            && sess.user == user_lookup.unwrap() && sess.group == group_lookup.unwrap()
            && sess.phase is Connecting),
{
    match parse_group_header(header) {
        Err(e) => Err(e),
        Ok(_) => match (user_lookup, group_lookup) {
            (Some(user), Some(group)) => Ok(
                GroupSession { user, group, phase: SessionPhase::Connecting },
            ),
            _ => Err(
                Rejection {
                    code: 400,
                    message: String::from_str("Invalid group_id or user_id"),
                },
            ),
        },
    }
}

/// The text of a join announcement.
pub open spec fn join_text(user_name: Seq<char>, group_name: Seq<char>) -> Seq<char> {
    "Welcome "@ + user_name + " to "@ + group_name
}

impl GroupSession {
    /// Enters the active phase, subscribing to the shared channel: the
    /// receiver handed back is a subscription of that very channel and
    /// sees every envelope published from this moment on.
    pub fn activate(&mut self, state: &GroupState) -> (rx: Receiver<String>)
        requires
            old(self).phase is Connecting,
        ensures
            subscribed_to(rx, state.tx),
            final(self).phase is Active,
            final(self).user == old(self).user,
            final(self).group == old(self).group,
    {
        let rx = channel_subscribe(&state.tx);
        self.phase = SessionPhase::Active;
        rx
    }

    /// The envelope announcing this user's arrival, attributed to the
    /// group itself.
    pub fn join_announcement(&self) -> (r: GroupMessage)
        ensures
            r.id == self.group.group_id,
            r.name == self.group.name,
            r.message@ == join_text(self.user.user_name@, self.group.name@),
    {
        let mut msg = String::from_str("Welcome ");
        msg.append(self.user.user_name.as_str());
        msg.append(" to ");
        msg.append(self.group.name.as_str());
        proof {
            assert(msg@ =~= join_text(self.user.user_name@, self.group.name@));
        }
        GroupMessage {
            id: self.group.group_id.clone(),
            name: self.group.name.clone(),
            message: msg,
        }
    }

    /// A peer's text wrapped as a group envelope attributed to this user.
    pub fn relay(&self, text: String) -> (r: GroupMessage)
        ensures
            r.id == self.user.user_id,
            r.name == self.user.user_name,
            r.message == text,
    {
        GroupMessage {
            id: self.user.user_id.clone(),
            name: self.user.user_name.clone(),
            message: text,
        }
    }

    /// Ends the session; there is no identity-keyed state to clean up.
    pub fn finish(&mut self)
        ensures
            final(self).phase is Closed,
            final(self).user == old(self).user,
            final(self).group == old(self).group,
    {
        self.phase = SessionPhase::Closed;
    }
}

/// Serializes one group envelope and publishes it on the shared channel;
/// hands back the published payload and whether any subscriber was there
/// to take it.
pub fn publish_group_message(state: &GroupState, group_msg: &GroupMessage) -> (r: (String, bool))
    ensures
        r.0@ == json_of_group(*group_msg),
{
    let payload = serde_msg(group_msg);
    let had_receivers = channel_send(&state.tx, payload.clone());
    (payload, had_receivers)
}

} // verus!
