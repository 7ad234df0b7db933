//! The server's verified decision core: the connected-user roster, global
//! and per-sender message numbering, and the staging of an incoming message
//! under the authentication rules. The sockets, the JSON framing and the
//! proving loop around these decisions live outside the verified core.

use vstd::prelude::*;
use crate::{Message, ZkChatError};
use crate::zk::MessageChain;

verus! {

/// Connected user information.
#[derive(Debug)]
pub struct User {
    pub id: u64,
    pub username: String,
    pub connected_at: u64,
}

/// How many messages this sender has had numbered so far: the first entry
/// of the counter list that carries the sender, or zero.
pub open spec fn sender_local_count(locals: Seq<(u64, u64)>, sender: u64) -> u64
    decreases locals.len(),
{
    if locals.len() == 0 {
        0
    } else if locals[0].0 == sender {
        locals[0].1
    } else {
        sender_local_count(locals.drop_first(), sender)
    }
}

/// Some roster entry carries this user id.
pub open spec fn has_user(users: Seq<User>, id: u64) -> bool {
    exists|i: int| 0 <= i < users.len() && (#[trigger] users[i]).id == id
}

/// Some counter entry carries this sender.
pub open spec fn has_sender(locals: Seq<(u64, u64)>, sender: u64) -> bool {
    exists|i: int| 0 <= i < locals.len() && (#[trigger] locals[i]).0 == sender
}

/// The chat server's state: the roster, the message chain, and the message
/// numbering counters.
#[derive(Debug)]
pub struct GlobalState {
    pub users: Vec<User>,
    pub message_chain: MessageChain,
    pub next_global_id: u64,
    pub per_sender_local: Vec<(u64, u64)>,
}

impl GlobalState {
    /// Roster ids unique, counter senders unique, chain invariant held.
    pub open spec fn wf(self) -> bool {
        &&& forall|i: int, j: int|
            0 <= i < j < self.users@.len() ==> (#[trigger] self.users@[i]).id != (
            #[trigger] self.users@[j]).id
        &&& forall|i: int, j: int|
            0 <= i < j < self.per_sender_local@.len() ==> (#[trigger] self.per_sender_local@[i]).0
                != (#[trigger] self.per_sender_local@[j]).0
        &&& self.message_chain.wf()
    }

    /// A fresh server state: no users, an empty chain, numbering from 1.
    pub fn new() -> (s: GlobalState)
        ensures
            s.wf(),
            s.users@.len() == 0,
            s.message_chain.messages@.len() == 0,
            s.next_global_id == 1,
            s.per_sender_local@.len() == 0,
    {
        GlobalState {
            users: Vec::new(),
            message_chain: MessageChain::new(),
            next_global_id: 1,
            per_sender_local: Vec::new(),
        }
    }

    /// The visible user list: each user's id and name, in roster order.
    pub fn user_list(&self) -> (r: Vec<(u64, String)>)
        ensures
            r@.len() == self.users@.len(),
            forall|i: int|
                0 <= i < r@.len() ==> (#[trigger] r@[i]).0 == self.users@[i].id && r@[i].1
                    == self.users@[i].username,
    {
        let n = self.users.len();
        let mut r: Vec<(u64, String)> = Vec::new();
        let mut i: usize = 0;
        while i < n
            invariant
                n == self.users@.len(),
                i <= n,
                r@.len() == i,
                forall|j: int|
                    0 <= j < i ==> (#[trigger] r@[j]).0 == self.users@[j].id && r@[j].1
                        == self.users@[j].username,
            decreases n - i,
        {
            let u = &self.users[i];
            r.push((u.id, u.username.clone()));
            i = i + 1;
        }
        r
    }

    /// Admits a user to the roster: a returning id replaces its entry, a new
    /// id is appended. Returns the updated user list.
    pub fn join(&mut self, user_id: u64, username: String, connected_at: u64) -> (r: Vec<
        (u64, String),
    >)
        requires
            old(self).wf(),
        ensures
            final(self).wf(),
            final(self).message_chain == old(self).message_chain,
            final(self).next_global_id == old(self).next_global_id,
            final(self).per_sender_local == old(self).per_sender_local,
            (exists|i: int|
                0 <= i < old(self).users@.len() && (#[trigger] old(self).users@[i]).id == user_id
                    && final(self).users@ == old(self).users@.update(
                    i,
                    User { id: user_id, username, connected_at },
                )) || (!has_user(old(self).users@, user_id) && final(self).users@ == old(
                self,
            ).users@.push(User { id: user_id, username, connected_at })),
            r@.len() == final(self).users@.len(),
            forall|i: int|
                0 <= i < r@.len() ==> (#[trigger] r@[i]).0 == final(self).users@[i].id && r@[i].1
                    == final(self).users@[i].username,
    {
        let n = self.users.len();
        let mut i: usize = 0;
        let mut found: bool = false;
        let mut at: usize = 0;
        while i < n
            invariant
                n == self.users@.len(),
                i <= n,
                !found ==> forall|j: int| 0 <= j < i ==> (#[trigger] self.users@[j]).id != user_id,
                found ==> at < n && self.users@[at as int].id == user_id,
            decreases n - i,
        {
            if !found && self.users[i].id == user_id {
                found = true;
                at = i;
            }
            i = i + 1;
        }
        let entry = User { id: user_id, username, connected_at };
        if found {
            self.users[at] = entry;
        } else {
            self.users.push(entry);
        }
        self.user_list()
    }

    /// Removes a user from the roster, if present. Returns the updated user
    /// list.
    pub fn leave(&mut self, user_id: u64) -> (r: Vec<(u64, String)>)
        requires
            old(self).wf(),
        ensures
            final(self).wf(),
            final(self).message_chain == old(self).message_chain,
            final(self).next_global_id == old(self).next_global_id,
            final(self).per_sender_local == old(self).per_sender_local,
            (exists|i: int|
                0 <= i < old(self).users@.len() && (#[trigger] old(self).users@[i]).id == user_id
                    && final(self).users@ == old(self).users@.remove(i)) || (!has_user(
                old(self).users@,
                user_id,
            ) && final(self).users@ == old(self).users@),
            r@.len() == final(self).users@.len(),
            forall|i: int|
                0 <= i < r@.len() ==> (#[trigger] r@[i]).0 == final(self).users@[i].id && r@[i].1
                    == final(self).users@[i].username,
    {
        let n = self.users.len();
        let mut i: usize = 0;
        let mut found: bool = false;
        let mut at: usize = 0;
        while i < n
            invariant
                n == self.users@.len(),
                i <= n,
                !found ==> forall|j: int| 0 <= j < i ==> (#[trigger] self.users@[j]).id != user_id,
                found ==> at < n && self.users@[at as int].id == user_id,
            decreases n - i,
        {
            if !found && self.users[i].id == user_id {
                found = true;
                at = i;
            }
            i = i + 1;
        }
        if found {
            self.users.remove(at);
        }
        self.user_list()
    }

    /// Stages an incoming message: the caller must be authenticated as the
    /// message's sender; the server assigns the next global id, advances the
    /// sender's local sequence, and builds the message with a fresh hash.
    /// The chain and roster are untouched; nothing is admitted yet.
    pub fn stage_message(
        &mut self,
        authenticated: Option<u64>,
        sender_id: u64,
        content: String,
        timestamp: u64,
    ) -> (r: Result<(Message, u64), ZkChatError>)
        requires
            old(self).wf(),
            old(self).next_global_id < u64::MAX,
            sender_local_count(old(self).per_sender_local@, sender_id) < u64::MAX,
        ensures
            final(self).wf(),
            final(self).users == old(self).users,
            final(self).message_chain == old(self).message_chain,
            r is Ok <==> authenticated == Some(sender_id),
            r is Err ==> r == Result::<(Message, u64), ZkChatError>::Err(ZkChatError::InvalidSender)
                && *final(self) == *old(self),
            r matches Ok((m, local)) ==> {
                &&& m.id == old(self).next_global_id
                &&& m.sender_id == sender_id
                &&& m.content@ == content@
                &&& m.timestamp == timestamp
                &&& m.hash_ok()
                &&& local == sender_local_count(old(self).per_sender_local@, sender_id) + 1
                &&& final(self).next_global_id == old(self).next_global_id + 1
                &&& sender_local_count(final(self).per_sender_local@, sender_id) == local
            },
    {
        match authenticated {
            None => Err(ZkChatError::InvalidSender),
            Some(uid) => {
                if uid != sender_id {
                    return Err(ZkChatError::InvalidSender);
                }
                let global_id = self.next_global_id;
                self.next_global_id = self.next_global_id + 1;
                let local = self.advance_sender_counter(sender_id);
                let message = Message::new(global_id, sender_id, content, timestamp);
                Ok((message, local))
            },
        }
    }

    fn advance_sender_counter(&mut self, sender_id: u64) -> (local: u64)
        requires
            old(self).wf(),
            sender_local_count(old(self).per_sender_local@, sender_id) < u64::MAX,
        ensures
            final(self).wf(),
            final(self).users == old(self).users,
            final(self).message_chain == old(self).message_chain,
            final(self).next_global_id == old(self).next_global_id,
            local == sender_local_count(old(self).per_sender_local@, sender_id) + 1,
            sender_local_count(final(self).per_sender_local@, sender_id) == local,
    {
        let n = self.per_sender_local.len();
        let mut i: usize = 0;
        proof {
            assert(self.per_sender_local@.skip(0) =~= self.per_sender_local@);
        }
        while i < n
            invariant
                old(self).wf(),
                *self == *old(self),
                sender_local_count(old(self).per_sender_local@, sender_id) < u64::MAX,
                n == self.per_sender_local@.len(),
                i <= n,
                forall|j: int| 0 <= j < i ==> (#[trigger] self.per_sender_local@[j]).0 != sender_id,
                sender_local_count(self.per_sender_local@.skip(i as int), sender_id)
                    == sender_local_count(self.per_sender_local@, sender_id),
            decreases n - i,
        {
            let ghost rest = self.per_sender_local@.skip(i as int);
            if self.per_sender_local[i].0 == sender_id {
                let count = self.per_sender_local[i].1;
                proof {
                    assert(rest.len() > 0);
                    assert(rest[0] == self.per_sender_local@[i as int]);
                    assert(sender_local_count(rest, sender_id) == count);
                    assert(count == sender_local_count(old(self).per_sender_local@, sender_id));
                    assert(count < u64::MAX);
                }
                let local = count + 1;
                self.per_sender_local[i] = (sender_id, local);
                proof {
                    lemma_sender_count_at(self.per_sender_local@, sender_id, i as int);
                }
                return local;
            }
            proof {
                assert(rest[0] == self.per_sender_local@[i as int]);
                assert(rest.drop_first() =~= self.per_sender_local@.skip(i as int + 1));
            }
            i = i + 1;
        }
        proof {
            assert(self.per_sender_local@.skip(n as int) =~= Seq::<(u64, u64)>::empty());
        }
        self.per_sender_local.push((sender_id, 1));
        proof {
            lemma_sender_count_at(self.per_sender_local@, sender_id, n as int);
        }
        1
    }
}

/// If every entry before `i` carries another sender and entry `i` carries
/// `sender`, the sender's count is entry `i`'s.
proof fn lemma_sender_count_at(locals: Seq<(u64, u64)>, sender: u64, i: int)
    requires
        0 <= i < locals.len(),
        locals[i].0 == sender,
        forall|j: int| 0 <= j < i ==> (#[trigger] locals[j]).0 != sender,
    ensures
        sender_local_count(locals, sender) == locals[i].1,
    decreases i,
{
    if i > 0 {
        assert(locals.drop_first()[i - 1] == locals[i]);
        assert forall|j: int| 0 <= j < i - 1 implies (#[trigger] locals.drop_first()[j]).0
            != sender by {
            assert(locals.drop_first()[j] == locals[j + 1]);
        }
        lemma_sender_count_at(locals.drop_first(), sender, i - 1);
    }
}

} // verus!
