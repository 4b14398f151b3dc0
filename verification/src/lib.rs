//! Core of a chat backend: account and group records, token claims,
//! configuration text, and the real-time messaging machinery — a registry of
//! live outbound channels, private and group chat sessions, and the envelope
//! codec for the wire format. All logic is verified; calls into outside
//! crates (password hashing, broadcast channels, identifiers, randomness)
//! stand behind trusted declarations that state only what those crates
//! document.

mod channel;
mod codec;
mod config;
mod echo;
mod groups;
mod ids;
mod jwt;
mod passwords;
mod registry;
mod responses;
mod session;
mod strutil;
mod users;

pub use channel::{channel_send, channel_subscribe, new_channel};
pub use codec::{
    ChatMessage, GroupMessage, chat_fallback_msg, encode_chat_message, group_fallback_msg,
    serde_msg,
};
pub use config::{
    ConnectionBuilder, Configure, DB, TCP, config_file_name, db_settings, db_url, flavor,
};
pub use echo::{SocketStep, echo_response, socket_reply, welcome_message, ws_gate};
pub use groups::{
    Group, GroupParam, GroupResponse, GroupsResponse, create_group_outcome, groups_outcome,
    normalize_group, prepare_group,
};
pub use ids::new_uuid_string;
pub use jwt::{
    AuthUser, Claims, JwtConfig, Secret, access_claims, bearer_token, refresh_claims,
};
pub use passwords::{
    hash_password, new_password, parse_password, passwords_match, random_name,
};
pub use registry::{
    DeliveryReport, GroupState, PrivateChatState, lemma_register_overwrites,
    lemma_register_then_lookup, now_seconds, send_to_user,
};
pub use responses::{
    AuthResponse, GetUsersQuery, LoginParam, MetaResponse, UpdatePasswordParam, UsersResponse,
    delete_user_outcome, login_outcome, register_outcome, update_password_outcome, users_outcome,
};
pub use session::{
    ChannelEvent, Frame, GroupSession, HeaderField, PeerEvent, PrivateSession, ReadStep,
    Rejection, SessionPhase, WriteStep, WsQuery, group_chat_gate, lemma_cleanup_exactly_once,
    parse_group_header, parse_receiver_header, private_chat_gate, publish_group_message,
    session_read_step, session_write_step,
};
pub use strutil::{i64_to_string, u64_to_string};
pub use users::{
    MsgError, NewUser, User, UserContext, UserResponse, like_pattern, page_offset, prepare_user, unique_name,
    users_query_sql,
};
