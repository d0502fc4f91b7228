//! The chat server's live state: which users are connected, and to whom a
//! chat message is delivered; plus the decisions of a connection about the
//! frames its client sends.

use vstd::prelude::*;
use std::collections::HashMap;
use crate::api::DbError;
use crate::text::push_str;

verus! {

broadcast use vstd::std_specs::hash::group_hash_axioms;

/// A message that a client sends over its web socket, as JSON
/// `{"group_id": ..., "content": ...}`.
pub struct ClientMessageJson {
    pub group_id: usize,
    pub content: String,
}

/// A chat message on its way from a connection to the chat server.
pub struct ClientMessage {
    pub user_id: usize,
    pub group_id: usize,
    pub content: String,
}

/// A stored chat message on its way from the chat server to a connection.
pub struct BroadcastMessage {
    pub msg_id: usize,
    pub sender_id: usize,
    pub group_id: usize,
    pub content: String,
    pub created_at: u64,
    pub sender_name: String,
}

/// A connection registers its user with the chat server.
pub struct AddSession<A> {
    pub user_id: usize,
    pub addr: A,
}

/// A connection of a user has closed.
pub struct RemoveSession {
    pub user_id: usize,
}

/// A question whether a user is online.
pub struct CheckUserStatus {
    pub user_id: usize,
}

/// A connected user: id, name, and the address of the connection.
pub struct SessionInfo<A> {
    pub user_id: usize,
    pub username: String,
    pub addr: A,
}

/// The chat server's registry of connected users, keyed by user id; `A` is
/// the type of a connection's address.
pub struct ChatServer<A> {
    sessions: HashMap<usize, SessionInfo<A>>,
}

/// What became of a request to register a session.
#[derive(PartialEq, Eq, Structural)]
pub enum SessionOutcome {
    /// The user is now registered.
    Added,
    /// Looking the user up failed; nothing changed.
    LookupFailed,
    /// There is no such user; nothing changed.
    UnknownUser,
}

/// Why a chat message was dropped.
#[derive(PartialEq, Eq, Structural)]
pub enum DropReason {
    /// The sender is not a member of the group, or membership could not be
    /// checked.
    NotMember,
    /// The message could not be stored.
    SaveFailed,
    /// The sender's name could not be found.
    SenderUnknown,
    /// The group's members could not be fetched.
    MembersUnavailable,
}

impl<A> ChatServer<A> {
    /// The connected users.
    pub closed spec fn sessions(&self) -> Map<usize, SessionInfo<A>> {
        self.sessions@
    }

    /// Every session is filed under its own user's id.
    pub closed spec fn wf(&self) -> bool {
        forall|u: usize| #[trigger] self.sessions@.contains_key(u) ==> self.sessions@[u].user_id == u
    }

    /// A chat server with nobody connected.
    pub fn new() -> (s: Self)
        ensures
            s.wf(),
            s.sessions() == Map::<usize, SessionInfo<A>>::empty(),
    {
        ChatServer { sessions: HashMap::new() }
    }

    /// Registers the connection `addr` of user `user_id`, given the outcome
    /// of looking up the user's name: the user's earlier session, if any, is
    /// replaced; a failed or empty lookup changes nothing.
    pub fn add_session(&mut self, addr: A, user_id: usize, name: Result<Option<String>, DbError>) -> (r: SessionOutcome)
        requires
            old(self).wf(),
        ensures
            final(self).wf(),
            match name {
                Ok(Some(n)) => r == SessionOutcome::Added && final(self).sessions() == old(self).sessions().insert(
                    user_id,
                    SessionInfo { user_id, username: n, addr },
                ),
                Ok(None) => r == SessionOutcome::UnknownUser && final(self).sessions() == old(self).sessions(),
                Err(_) => r == SessionOutcome::LookupFailed && final(self).sessions() == old(self).sessions(),
            },
    {
        match name {
            Err(_) => SessionOutcome::LookupFailed,
            Ok(None) => SessionOutcome::UnknownUser,
            Ok(Some(username)) => {
                self.sessions.insert(user_id, SessionInfo { user_id, username, addr });
                SessionOutcome::Added
            },
        }
    }

    /// Forgets the session of user `user_id`, if there is one.
    pub fn remove_session(&mut self, user_id: usize)
        requires
            old(self).wf(),
        ensures
            final(self).wf(),
            final(self).sessions() == old(self).sessions().remove(user_id),
    {
        self.sessions.remove(&user_id);
    }

    /// The session of user `user_id`, if the user is connected.
    pub fn session(&self, user_id: usize) -> (r: Option<&SessionInfo<A>>)
        ensures
            match r {
                Some(s) => self.sessions().contains_key(user_id) && *s == self.sessions()[user_id],
                None => !self.sessions().contains_key(user_id),
            },
    {
        self.sessions.get(&user_id)
    }

    /// Whether user `user_id` is connected.
    pub fn is_online(&self, user_id: usize) -> (r: bool)
        ensures
            r == self.sessions().contains_key(user_id),
    {
        self.sessions.contains_key(&user_id)
    }

    /// The name of user `user_id` if the user is connected.
    pub fn user_status(&self, user_id: usize) -> (r: Option<&String>)
        ensures
            match r {
                Some(n) => self.sessions().contains_key(user_id) && *n == self.sessions()[user_id].username,
                None => !self.sessions().contains_key(user_id),
            },
    {
        match self.sessions.get(&user_id) {
            Some(s) => Some(&s.username),
            None => None,
        }
    }

    /// The connected users among `members`, in the order of `members`:
    /// those who receive a message sent to the group.
    pub fn recipients(&self, members: &Vec<i64>) -> (r: Vec<usize>)
        ensures
            r@ == online_members(members@, self.sessions().dom()),
    {
        let mut r: Vec<usize> = Vec::new();
        let mut i: usize = 0;
        while i < members.len()
            invariant
                i <= members.len(),
                r@ == online_members(members@.take(i as int), self.sessions().dom()),
            decreases members.len() - i,
        {
            let target = members[i] as usize;
            assert(members@.take(i + 1).drop_last() =~= members@.take(i as int));
            if self.sessions.contains_key(&target) {
                r.push(target);
            }
            i = i + 1;
        }
        assert(members@.take(members.len() as int) =~= members@);
        r
    }
}

/// The user ids among `members` (database ids, read as `usize`) that are
/// in `online`, in order.
pub open spec fn online_members(members: Seq<i64>, online: Set<usize>) -> Seq<usize>
    decreases members.len(),
{
    if members.len() == 0 {
        Seq::empty()
    } else {
        let rest = online_members(members.drop_last(), online);
        let u = members.last() as usize;
        if online.contains(u) { rest.push(u) } else { rest }
    }
}

/// A message is delivered to exactly the group members that are online:
/// every recipient is an online member, and every online member receives it.
pub proof fn lemma_recipients_are_online_members(members: Seq<i64>, online: Set<usize>)
    ensures
        forall|i: int| 0 <= i < online_members(members, online).len() ==> {
            let u = #[trigger] online_members(members, online)[i];
            online.contains(u) && exists|j: int| 0 <= j < members.len() && members[j] as usize == u
        },
        forall|j: int| 0 <= j < members.len() && online.contains(#[trigger] members[j] as usize) ==>
            online_members(members, online).contains(members[j] as usize),
    decreases members.len(),
{
    if members.len() > 0 {
        let prefix = members.drop_last();
        lemma_recipients_are_online_members(prefix, online);
        let rest = online_members(prefix, online);
        assert forall|i: int| 0 <= i < online_members(members, online).len() implies {
            let u = #[trigger] online_members(members, online)[i];
            online.contains(u) && exists|j: int| 0 <= j < members.len() && members[j] as usize == u
        } by {
            if i < rest.len() {
                let u = rest[i];
                let j = choose|j: int| 0 <= j < prefix.len() && prefix[j] as usize == u;
                assert(members[j] == prefix[j]);
            } else {
                assert(members[members.len() - 1] as usize == online_members(members, online)[i]);
            }
        }
        assert forall|j: int| 0 <= j < members.len() && online.contains(#[trigger] members[j] as usize) implies
            online_members(members, online).contains(members[j] as usize) by {
            if j < members.len() - 1 {
                assert(prefix[j] == members[j]);
                let k = choose|k: int| 0 <= k < rest.len() && rest[k] == prefix[j] as usize;
                assert(online_members(members, online)[k] == rest[k]);
            } else {
                let all = online_members(members, online);
                assert(all[all.len() - 1] == members[j] as usize);
            }
        }
    }
}

/// Each online member receives a message once: when no user id occurs twice
/// among the members, none occurs twice among the recipients, and the
/// recipients are never more than the members.
pub proof fn lemma_recipients_once(members: Seq<i64>, online: Set<usize>)
    requires
        forall|i: int, j: int| 0 <= i < j < members.len() ==> (#[trigger] members[i]) as usize != (#[trigger] members[j]) as usize,
    ensures
        online_members(members, online).no_duplicates(),
        online_members(members, online).len() <= members.len(),
    decreases members.len(),
{
    if members.len() > 0 {
        let prefix = members.drop_last();
        assert forall|i: int, j: int| 0 <= i < j < prefix.len() implies (#[trigger] prefix[i]) as usize != (#[trigger] prefix[j]) as usize by {
            assert(prefix[i] == members[i] && prefix[j] == members[j]);
        }
        lemma_recipients_once(prefix, online);
        lemma_recipients_are_online_members(prefix, online);
        let rest = online_members(prefix, online);
        let u = members.last() as usize;
        if online.contains(u) {
            assert forall|k: int| 0 <= k < rest.len() implies #[trigger] rest[k] != u by {
                let j = choose|j: int| 0 <= j < prefix.len() && prefix[j] as usize == rest[k];
                assert(prefix[j] == members[j]);
                assert(members.last() == members[members.len() - 1]);
            }
            let all = rest.push(u);
            assert forall|i: int, j: int| 0 <= i < all.len() && 0 <= j < all.len() && i != j implies all[i] != all[j] by {
                if i < rest.len() && j < rest.len() {
                    assert(all[i] == rest[i] && all[j] == rest[j]);
                } else if i < rest.len() {
                    assert(all[i] == rest[i]);
                } else {
                    assert(all[j] == rest[j]);
                }
            }
        }
    }
}

/// Registering a user and then removing the user leaves the registry as it
/// was before, for a user that was not connected; removing a user who is
/// not connected changes nothing.
pub proof fn lemma_add_then_remove<A>(sessions: Map<usize, SessionInfo<A>>, user_id: usize, info: SessionInfo<A>)
    ensures
        !sessions.contains_key(user_id) ==> sessions.insert(user_id, info).remove(user_id) == sessions,
        !sessions.contains_key(user_id) ==> sessions.remove(user_id) == sessions,
        !sessions.insert(user_id, info).remove(user_id).contains_key(user_id),
{
    assert(!sessions.contains_key(user_id) ==> sessions.insert(user_id, info).remove(user_id) =~= sessions);
    assert(!sessions.contains_key(user_id) ==> sessions.remove(user_id) =~= sessions);
}

/// The chat server's handling of a message, after checking the sender's
/// membership of the group: only a member's message goes on.
pub fn message_membership_checked(member: Result<bool, DbError>) -> (r: Result<(), DropReason>)
    ensures
        r is Ok <==> member == Ok::<bool, DbError>(true),
        r matches Err(x) ==> x == DropReason::NotMember,
{
    match member {
        Ok(true) => Ok(()),
        _ => Err(DropReason::NotMember),
    }
}

/// After storing the message: its id and creation time (database integers
/// read as `usize` and `u64`).
pub fn message_saved(saved: Result<(i64, i64), DbError>) -> (r: Result<(usize, u64), DropReason>)
    ensures
        match saved {
            Ok((id, created_at)) => r == Ok::<(usize, u64), DropReason>((id as usize, created_at as u64)),
            Err(_) => r == Err::<(usize, u64), DropReason>(DropReason::SaveFailed),
        },
{
    match saved {
        Ok((id, created_at)) => Ok((id as usize, created_at as u64)),
        Err(_) => Err(DropReason::SaveFailed),
    }
}

/// After looking up the sender's name: the message to deliver.
pub fn message_to_broadcast(msg: ClientMessage, msg_id: usize, created_at: u64, sender: Result<String, DbError>) -> (r: Result<BroadcastMessage, DropReason>)
    ensures
        match sender {
            Ok(name) => r matches Ok(b) && b == (BroadcastMessage {
                msg_id,
                sender_id: msg.user_id,
                group_id: msg.group_id,
                content: msg.content,
                created_at,
                sender_name: name,
            }),
            Err(_) => r == Err::<BroadcastMessage, DropReason>(DropReason::SenderUnknown),
        },
{
    match sender {
        Ok(sender_name) => Ok(BroadcastMessage {
            msg_id,
            sender_id: msg.user_id,
            group_id: msg.group_id,
            content: msg.content,
            created_at,
            sender_name,
        }),
        Err(_) => Err(DropReason::SenderUnknown),
    }
}

/// After fetching the group's members: the users to deliver to.
pub fn message_recipients<A>(server: &ChatServer<A>, members: Result<Vec<i64>, DbError>) -> (r: Result<Vec<usize>, DropReason>)
    ensures
        match members {
            Ok(m) => r matches Ok(v) && v@ == online_members(m@, server.sessions().dom()),
            Err(_) => r == Err::<Vec<usize>, DropReason>(DropReason::MembersUnavailable),
        },
{
    match members {
        Ok(m) => Ok(server.recipients(&m)),
        Err(_) => Err(DropReason::MembersUnavailable),
    }
}

// ------------------------------------------------------------- connection

/// A frame received from a client's web socket.
pub enum Frame {
    /// A text frame, with its reading as a [`ClientMessageJson`] if the
    /// text is one.
    Text(String, Option<ClientMessageJson>),
    /// A ping, with its payload.
    Ping(Vec<u8>),
    /// Anything else, closing frames included.
    Other,
}

/// What a connection does with a frame.
pub enum FrameAction {
    /// Pass the message to the chat server; the client is active.
    Forward(ClientMessage),
    /// Write this text back to the client; the client is active.
    Echo(String),
    /// Answer with a pong carrying the payload; the client is active.
    Pong(Vec<u8>),
    /// Close the connection.
    Stop,
}

/// The decisions of the connection of user `user_id`.
pub struct ConnectionActor {
    pub user_id: usize,
}

/// How often a connection checks its client's activity, in seconds.
pub const HEARTBEAT_INTERVAL_SECS: u64 = 5;

/// How long a client may stay silent, in nanoseconds, before its
/// connection closes.
pub const HEARTBEAT_TIMEOUT_NANOS: u128 = 10_000_000_000;

impl ConnectionActor {
    /// The connection of user `user_id`.
    pub fn new(user_id: usize) -> (c: Self)
        ensures
            c.user_id == user_id,
    {
        ConnectionActor { user_id }
    }

    /// The handling of a frame: the text `{disconnect}` closes the
    /// connection; a JSON chat message is forwarded to the chat server; any
    /// other text is written back to the client after `RawText: `; a ping is
    /// answered; anything else closes the connection.
    pub fn handle_frame(&self, frame: Frame) -> (a: FrameAction)
        ensures
            match frame {
                Frame::Text(raw, parsed) => if raw@ == "{disconnect}"@ {
                    a is Stop
                } else {
                    match parsed {
                        Some(json) => a matches FrameAction::Forward(m) && m == (ClientMessage {
                            user_id: self.user_id,
                            group_id: json.group_id,
                            content: json.content,
                        }),
                        None => a matches FrameAction::Echo(t) && t@ == "RawText: "@ + raw@,
                    }
                },
                Frame::Ping(payload) => a matches FrameAction::Pong(p) && p@ == payload@,
                Frame::Other => a is Stop,
            },
    {
        match frame {
            Frame::Text(raw, parsed) => {
                let disconnect = String::from_str("{disconnect}");
                if raw == disconnect {
                    FrameAction::Stop
                } else {
                    match parsed {
                        Some(json) => FrameAction::Forward(ClientMessage {
                            user_id: self.user_id,
                            group_id: json.group_id,
                            content: json.content,
                        }),
                        None => {
                            let mut text = String::from_str("RawText: ");
                            push_str(&mut text, raw.as_str());
                            FrameAction::Echo(text)
                        },
                    }
                }
            },
            Frame::Ping(payload) => FrameAction::Pong(payload),
            Frame::Other => FrameAction::Stop,
        }
    }
}

/// Whether a client that has been silent for `idle_nanos` nanoseconds has
/// timed out: silence of more than ten seconds.
pub fn heartbeat_timed_out(idle_nanos: u128) -> (r: bool)
    ensures
        r == (idle_nanos > HEARTBEAT_TIMEOUT_NANOS),
{
    idle_nanos > HEARTBEAT_TIMEOUT_NANOS
}

} // verus!
