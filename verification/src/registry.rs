//! The connection registry: a concurrency-safe directory from user id to
//! that user's live outbound channel, and the best-effort relay that
//! publishes a private message to both ends. The registry's abstract state
//! is a map from user id to channel; at most one live entry exists per user
//! id, a second registration overwriting the first.

use vstd::prelude::*;
use vstd::string::StringExecFns;

use tokio::sync::broadcast::Sender;

use crate::channel::{channel_capacity, channel_send, new_channel};
use crate::codec::{ChatMessage, encode_chat_message, json_of_chat_parts};
use crate::users::User;

verus! {

struct RegistryEntry {
    user_id: String,
    channel: Sender<String>,
}

/// Live private-chat connections, keyed by user id.
pub struct PrivateChatState {
    connections: Vec<RegistryEntry>,
}

spec fn reg_map(s: Seq<RegistryEntry>) -> Map<Seq<char>, Sender<String>>
    decreases s.len(),
{
    if s.len() == 0 {
        Map::empty()
    } else {
        reg_map(s.drop_last()).insert(s.last().user_id@, s.last().channel)
    }
}

spec fn distinct_keys(s: Seq<RegistryEntry>) -> bool {
    forall|i: int, j: int| 0 <= i < j < s.len() ==> s[i].user_id@ != s[j].user_id@
}

impl View for PrivateChatState {
    type V = Map<Seq<char>, Sender<String>>;

    closed spec fn view(&self) -> Map<Seq<char>, Sender<String>> {
        reg_map(self.connections@)
    }
}

proof fn lemma_reg_map_contains(s: Seq<RegistryEntry>, k: Seq<char>)
    ensures
        reg_map(s).contains_key(k) <==> (exists|i: int|
            0 <= i < s.len() && s[i].user_id@ == k),
    decreases s.len(),
{
    if s.len() > 0 {
        lemma_reg_map_contains(s.drop_last(), k);
        if s.last().user_id@ == k {
            assert(s[s.len() - 1].user_id@ == k);
        } else {
            if exists|i: int| 0 <= i < s.len() && s[i].user_id@ == k {
                let i = choose|i: int| 0 <= i < s.len() && s[i].user_id@ == k;
                assert(s.drop_last()[i] == s[i]);
            }
            if exists|i: int| 0 <= i < s.drop_last().len() && s.drop_last()[i].user_id@ == k {
                let i = choose|i: int|
                    0 <= i < s.drop_last().len() && s.drop_last()[i].user_id@ == k;
                assert(s[i].user_id@ == k);
            }
        }
    }
}

proof fn lemma_reg_map_index(s: Seq<RegistryEntry>, i: int)
    requires
        distinct_keys(s),
        0 <= i < s.len(),
    ensures
        reg_map(s).contains_key(s[i].user_id@),
        reg_map(s)[s[i].user_id@] == s[i].channel,
    decreases s.len(),
{
    if i == s.len() - 1 {
    } else {
        assert(distinct_keys(s.drop_last()));
        assert(s.drop_last()[i] == s[i]);
        lemma_reg_map_index(s.drop_last(), i);
        assert(s[i].user_id@ != s.last().user_id@);
    }
}

proof fn lemma_reg_map_remove(s: Seq<RegistryEntry>, i: int)
    requires
        distinct_keys(s),
        0 <= i < s.len(),
    ensures
        reg_map(s.remove(i)) == reg_map(s).remove(s[i].user_id@),
    decreases s.len(),
{
    if i == s.len() - 1 {
        assert(s.remove(i) =~= s.drop_last());
        lemma_reg_map_contains(s.drop_last(), s[i].user_id@);
        assert forall|j: int| 0 <= j < s.drop_last().len() implies s.drop_last()[j].user_id@
            != s[i].user_id@ by {
            assert(s.drop_last()[j] == s[j]);
        }
        assert(!reg_map(s.drop_last()).contains_key(s[i].user_id@));
        assert(reg_map(s).remove(s[i].user_id@) =~= reg_map(s.drop_last()));
    } else {
        assert(distinct_keys(s.drop_last()));
        lemma_reg_map_remove(s.drop_last(), i);
        assert(s.remove(i).drop_last() =~= s.drop_last().remove(i));
        assert(s.remove(i).last() == s.last());
        assert(s.drop_last()[i] == s[i]);
        assert(s[i].user_id@ != s.last().user_id@);
        assert(reg_map(s.remove(i)) == reg_map(s.drop_last().remove(i)).insert(
            s.last().user_id@,
            s.last().channel,
        ));
        assert(reg_map(s.remove(i)) =~= reg_map(s).remove(s[i].user_id@));
    }
}

impl PrivateChatState {
    #[verifier::type_invariant]
    spec fn wf(self) -> bool {
        distinct_keys(self.connections@)
    }

    /// A fresh registry with no live connections.
    pub fn new() -> (r: Self)
        ensures
            r@ == Map::<Seq<char>, Sender<String>>::empty(),
    {
        PrivateChatState { connections: Vec::new() }
    }

    fn index_of(&self, user_id: &String) -> (r: Option<usize>)
        ensures
            r matches Some(i) ==> (i < self.connections@.len() && self.connections@[
                i as int
            ].user_id@ == user_id@),
            r is None ==> forall|j: int|
                0 <= j < self.connections@.len() ==> self.connections@[j].user_id@ != user_id@,
    {
        let n = self.connections.len();
        let mut j: usize = 0;
        while j < n
            invariant
                j <= n,
                n == self.connections@.len(),
                forall|k: int| 0 <= k < j ==> self.connections@[k].user_id@ != user_id@,
            decreases n - j,
        {
            if self.connections[j].user_id == *user_id {
                return Some(j);
            }
            j = j + 1;
        }
        None
    }

    /// Inserts or overwrites the entry for `user_id`; an earlier channel
    /// registered under the same id becomes unreachable.
    pub fn register(&mut self, user_id: String, channel: Sender<String>)
        ensures
            final(self)@ == old(self)@.insert(user_id@, channel),
    {
        proof {
            use_type_invariant(&*self);
        }
        let idx = self.index_of(&user_id);
        let ghost old_map = self@;
        let mut conns: Vec<RegistryEntry> = Vec::new();
        std::mem::swap(&mut conns, &mut self.connections);
        let ghost s0 = conns@;
        match idx {
            Some(i) => {
                proof {
                    lemma_reg_map_remove(s0, i as int);
                }
                conns.remove(i);
                proof {
                    assert forall|a: int| 0 <= a < conns@.len() implies conns@[a] == (if a
                        < i as int {
                        s0[a]
                    } else {
                        s0[a + 1]
                    }) by {}
                    assert(distinct_keys(conns@));
                    assert forall|a: int| 0 <= a < conns@.len() implies conns@[a].user_id@
                        != user_id@ by {}
                    lemma_reg_map_contains(conns@, user_id@);
                }
            },
            None => {
                proof {
                    lemma_reg_map_contains(conns@, user_id@);
                    assert(reg_map(conns@).remove(user_id@) =~= reg_map(conns@));
                }
            },
        }
        let ghost pre = conns@;
        conns.push(RegistryEntry { user_id, channel });
        proof {
            assert(conns@.drop_last() =~= pre);
            assert(distinct_keys(conns@));
            assert(reg_map(conns@) == reg_map(pre).insert(user_id@, channel));
            assert(reg_map(conns@) =~= old_map.insert(user_id@, channel));
        }
        self.connections = conns;
    }

    /// Removes the entry for `user_id`; doing so when no entry exists
    /// changes nothing.
    pub fn deregister(&mut self, user_id: &String)
        ensures
            final(self)@ == old(self)@.remove(user_id@),
    {
        proof {
            use_type_invariant(&*self);
        }
        let idx = self.index_of(user_id);
        let ghost old_map = self@;
        let mut conns: Vec<RegistryEntry> = Vec::new();
        std::mem::swap(&mut conns, &mut self.connections);
        let ghost s0 = conns@;
        match idx {
            Some(i) => {
                proof {
                    lemma_reg_map_remove(s0, i as int);
                }
                conns.remove(i);
                proof {
                    assert forall|a: int| 0 <= a < conns@.len() implies conns@[a] == (if a
                        < i as int {
                        s0[a]
                    } else {
                        s0[a + 1]
                    }) by {}
                    assert(distinct_keys(conns@));
                }
            },
            None => {
                proof {
                    lemma_reg_map_contains(s0, user_id@);
                    assert(reg_map(s0).remove(user_id@) =~= reg_map(s0));
                }
            },
        }
        self.connections = conns;
    }

    /// Finds the live outbound channel of `user_id`, if any.
    pub fn lookup(&self, user_id: &String) -> (r: Option<&Sender<String>>)
        ensures
            r is Some <==> self@.contains_key(user_id@),
            r matches Some(tx) ==> *tx == self@[user_id@],
    {
        proof {
            use_type_invariant(&*self);
        }
        match self.index_of(user_id) {
            Some(i) => {
                proof {
                    lemma_reg_map_index(self.connections@, i as int);
                }
                Some(&self.connections[i].channel)
            },
            None => {
                proof {
                    lemma_reg_map_contains(self.connections@, user_id@);
                }
                None
            },
        }
    }
}

/// Law: looking a user up right after registering that user finds exactly
/// the channel registered, and after a deregistration finds nothing.
pub proof fn lemma_register_then_lookup(
    m: Map<Seq<char>, Sender<String>>,
    user_id: Seq<char>,
    tx: Sender<String>,
)
    ensures
        m.insert(user_id, tx).contains_key(user_id),
        m.insert(user_id, tx)[user_id] == tx,
        !m.remove(user_id).contains_key(user_id),
{
}

/// Law: registering the same user id twice keeps only the later channel;
/// under that id the earlier channel is no longer reachable.
pub proof fn lemma_register_overwrites(
    m: Map<Seq<char>, Sender<String>>,
    user_id: Seq<char>,
    first: Sender<String>,
    second: Sender<String>,
)
    ensures
        m.insert(user_id, first).insert(user_id, second)[user_id] == second,
        first != second ==> m.insert(user_id, first).insert(user_id, second)[user_id] != first,
{
}

/// The one process-wide broadcast channel that all group-chat participants
/// share, whatever group they named when connecting.
pub struct GroupState {
    pub tx: Sender<String>,
}

impl GroupState {
    /// Creates the shared channel, configured with its fixed backlog of
    /// one hundred pending messages: a publisher never blocks, and a
    /// subscriber that falls behind the retained backlog loses the oldest
    /// messages rather than erroring.
    pub fn new() -> (r: Self)
        ensures
            channel_capacity(r.tx) == 100,
    {
        let (tx, _rx) = new_channel(100);
        GroupState { tx }
    }
}

/// What became of one relayed private message: whether each party had a
/// live entry, whether each party's channel had receivers to take the
/// envelope, and the envelope itself.
pub struct DeliveryReport {
    pub receiver_found: bool,
    pub receiver_accepted: bool,
    pub sender_found: bool,
    pub sender_accepted: bool,
    pub payload: String,
    pub timestamp: u64,
}

/// Relies on std's `SystemTime::now`: the wall clock's whole seconds since
/// the Unix epoch, zero if the clock reads before the epoch. Nothing can be
/// promised of a clock reading.
#[verifier::external_body]
pub fn now_seconds() -> u64 {
    match std::time::SystemTime::now().duration_since(std::time::UNIX_EPOCH) {
        Ok(d) => d.as_secs(),
        Err(_) => 0,
    }
}

/// Relays one private message: one envelope carrying the current wall-clock
/// timestamp is published to the receiver's registered channel and echoed
/// to the sender's own, each only when that party has a live entry. A
/// missing entry is skipped silently: delivery is best-effort.
pub fn send_to_user(
    state: &PrivateChatState,
    sender_user: &User,
    receiver_user: &User,
    msg: &str,
) -> (r: DeliveryReport)
    ensures
        r.receiver_found == state@.contains_key(receiver_user.user_id@),
        r.sender_found == state@.contains_key(sender_user.user_id@),
        !r.receiver_found ==> !r.receiver_accepted,
        !r.sender_found ==> !r.sender_accepted,
        r.payload@ == json_of_chat_parts(*sender_user, *receiver_user, msg@, r.timestamp as nat),
{
    let timestamp = now_seconds();
    let chat_message = ChatMessage {
        sender_user: sender_user.clone(),
        receiver_user: receiver_user.clone(),
        message: String::from_str(msg),
        timestamp,
    };
    let payload = encode_chat_message(&chat_message);
    let mut receiver_found = false;
    let mut receiver_accepted = false;
    match state.lookup(&receiver_user.user_id) {
        Some(tx) => {
            receiver_found = true;
            receiver_accepted = channel_send(tx, payload.clone());
        },
        None => {},
    }
    let mut sender_found = false;
    let mut sender_accepted = false;
    match state.lookup(&sender_user.user_id) {
        Some(tx) => {
            sender_found = true;
            sender_accepted = channel_send(tx, payload.clone());
        },
        None => {},
    }
    DeliveryReport {
        receiver_found,
        receiver_accepted,
        sender_found,
        sender_accepted,
        payload,
        timestamp,
    }
}

} // verus!
