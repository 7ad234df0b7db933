//! The verified core of the chat proof system: the prime field, the
//! Poseidon-style permutation and sponge, byte/element bridging, the
//! message chain, the AIR content and the trace builder.

pub mod air;
pub mod field;
pub mod hash;
pub mod poseidon;
pub mod prover;

pub use self::hash::{elements_to_hash, hash_to_elements};
pub use self::poseidon::{poseidon_permutation, zk_hash, Felt4};

use vstd::prelude::*;
use crate::{clone_bytes, Message, ZkChatError};
use crate::zk::hash::{e2h_spec, h2e_spec};
use crate::zk::poseidon::{all_in_field, ints_of, zk_hash_spec};

verus! {

/// Relies on `rand::random`, which draws a fresh value from the thread-local
/// CSPRNG; nothing is assumed of the value drawn.
#[verifier::external_body]
pub(crate) fn fresh_session_salt() -> (s: u64) {
    rand::random::<u64>()
}

/// The 32-byte all-zero hash a chain starts from.
pub open spec fn zero_hash() -> Seq<u8> {
    Seq::new(32, |i: int| 0u8)
}

/// One chain-hash step: the sponge over the previous chain hash, the new
/// message's hash, and the session salt, rendered back to 32 bytes.
pub open spec fn next_chain_hash(prev: Seq<u8>, msg_hash: Seq<u8>, salt: u64) -> Seq<u8> {
    e2h_spec(zk_hash_spec(h2e_spec(prev) + h2e_spec(msg_hash) + seq![salt as int]))
}

/// The chain hash after admitting `msgs` in order, starting from all zeros:
/// a fold of `next_chain_hash` over the messages' hashes.
pub open spec fn chain_hash_of(msgs: Seq<Message>, salt: u64) -> Seq<u8>
    decreases msgs.len(),
{
    if msgs.len() == 0 {
        zero_hash()
    } else {
        next_chain_hash(chain_hash_of(msgs.drop_last(), salt), msgs.last().hash@, salt)
    }
}

/// Rendered digests are always 32 bytes.
pub proof fn lemma_e2h_len(e: Seq<int>)
    ensures
        e2h_spec(e).len() == 32,
{
}

/// A chain hash is always 32 bytes.
pub proof fn lemma_chain_hash_len(msgs: Seq<Message>, salt: u64)
    ensures
        chain_hash_of(msgs, salt).len() == 32,
{
    if msgs.len() > 0 {
        lemma_e2h_len(
            zk_hash_spec(
                h2e_spec(chain_hash_of(msgs.drop_last(), salt)) + h2e_spec(msgs.last().hash@)
                    + seq![salt as int],
            ),
        );
    }
}

/// Some stored message already carries this (sender, id) pair.
pub open spec fn is_duplicate(msgs: Seq<Message>, m: Message) -> bool {
    exists|i: int|
        0 <= i < msgs.len() && (#[trigger] msgs[i]).id == m.id && msgs[i].sender_id == m.sender_id
}

/// The timestamp strictly increases past the last stored message.
pub open spec fn timestamp_admissible(msgs: Seq<Message>, m: Message) -> bool {
    msgs.len() == 0 || m.timestamp > msgs.last().timestamp
}

/// The chain admits `m`: valid hash, fresh (sender, id), increasing timestamp.
pub open spec fn admissible(msgs: Seq<Message>, m: Message) -> bool {
    m.hash_ok() && !is_duplicate(msgs, m) && timestamp_admissible(msgs, m)
}

/// A sequence of messages with a tamper-evident running hash.
#[derive(Debug)]
pub struct MessageChain {
    pub messages: Vec<Message>,
    pub chain_hash: Vec<u8>,
    pub salt: u64,
}

impl MessageChain {
    /// The chain's invariant: every stored message has a valid hash, the
    /// timestamps strictly increase, the (sender, id) pairs are unique, and
    /// `chain_hash` is the fold of the messages under the session salt.
    pub open spec fn wf(self) -> bool {
        &&& self.chain_hash@ == chain_hash_of(self.messages@, self.salt)
        &&& forall|i: int| 0 <= i < self.messages@.len() ==> (#[trigger] self.messages@[i]).hash_ok()
        &&& forall|i: int|
            0 <= i < self.messages@.len() ==> (#[trigger] self.messages@[i]).hash@.len() == 32
        &&& forall|i: int, j: int|
            0 <= i < j < self.messages@.len() ==> (#[trigger] self.messages@[i]).timestamp < (
            #[trigger] self.messages@[j]).timestamp
        &&& forall|i: int, j: int|
            0 <= i < j < self.messages@.len() ==> !((#[trigger] self.messages@[i]).id == (
            #[trigger] self.messages@[j]).id && self.messages@[i].sender_id
                == self.messages@[j].sender_id)
    }

    /// Creates a new empty message chain under a fresh session salt: the
    /// chain opens a session of its own. A process that wants one session
    /// shared across chains and provers draws the salt once and uses
    /// `with_salt`.
    pub fn new() -> (c: MessageChain)
        ensures
            c.wf(),
            c.messages@.len() == 0,
            c.chain_hash@ == zero_hash(),
    {
        let mut chain_hash: Vec<u8> = Vec::new();
        let mut i: usize = 0;
        while i < 32
            invariant
                i <= 32,
                chain_hash@ =~= Seq::new(i as nat, |j: int| 0u8),
            decreases 32 - i,
        {
            chain_hash.push(0u8);
            proof {
                assert(chain_hash@ =~= Seq::new(i as nat + 1, |j: int| 0u8));
            }
            i = i + 1;
        }
        let salt = fresh_session_salt();
        let c = MessageChain { messages: Vec::new(), chain_hash, salt };
        proof {
            assert(c.chain_hash@ =~= zero_hash());
        }
        c
    }

    /// Creates a new empty message chain bound to a caller-supplied session
    /// salt, so that several components can share one per-process salt.
    pub fn with_salt(salt: u64) -> (c: MessageChain)
        ensures
            c.wf(),
            c.messages@.len() == 0,
            c.chain_hash@ == zero_hash(),
            c.salt == salt,
    {
        let mut c = MessageChain::new();
        c.salt = salt;
        proof {
            assert(c.chain_hash@ =~= zero_hash());
        }
        c
    }

    /// True when some stored message shares (sender, id) with `message`.
    fn has_duplicate_id(&self, message: &Message) -> (r: bool)
        ensures
            r <==> is_duplicate(self.messages@, *message),
    {
        let n = self.messages.len();
        let mut i: usize = 0;
        while i < n
            invariant
                n == self.messages@.len(),
                i <= n,
                forall|j: int|
                    0 <= j < i ==> !((#[trigger] self.messages@[j]).id == message.id
                        && self.messages@[j].sender_id == message.sender_id),
        decreases n - i,
        {
            let m = &self.messages[i];
            if m.id == message.id && m.sender_id == message.sender_id {
                return true;
            }
            i = i + 1;
        }
        false
    }

    /// Computes the next chain hash from the current one, the new message's
    /// hash, and the session salt.
    fn compute_chain_hash(&self, new_message: &Message) -> (r: Vec<u8>)
        requires
            self.chain_hash@.len() == 32,
            new_message.hash@.len() == 32,
        ensures
            r@ == next_chain_hash(self.chain_hash@, new_message.hash@, self.salt),
            r@.len() == 32,
    {
        let prev = hash_to_elements(&self.chain_hash);
        let msg = hash_to_elements(&new_message.hash);
        let mut inputs: Vec<u128> = Vec::new();
        inputs.push(prev.e0);
        inputs.push(prev.e1);
        inputs.push(prev.e2);
        inputs.push(prev.e3);
        inputs.push(msg.e0);
        inputs.push(msg.e1);
        inputs.push(msg.e2);
        inputs.push(msg.e3);
        inputs.push(self.salt as u128);
        proof {
            assert(ints_of(inputs@) =~= h2e_spec(self.chain_hash@) + h2e_spec(new_message.hash@)
                + seq![self.salt as int]);
        }
        let digest = crate::zk::poseidon::zk_hash(&inputs);
        elements_to_hash(&digest)
    }

    /// The chain hash this chain would carry after admitting `new_message`,
    /// without changing the chain.
    pub fn chain_hash_after(&self, new_message: &Message) -> (r: Vec<u8>)
        requires
            self.chain_hash@.len() == 32,
            new_message.hash@.len() == 32,
        ensures
            r@ == next_chain_hash(self.chain_hash@, new_message.hash@, self.salt),
            r@.len() == 32,
    {
        self.compute_chain_hash(new_message)
    }

    /// Admits a message: rejects an invalid hash, a duplicate (sender, id)
    /// pair, or a non-increasing timestamp; otherwise updates the chain hash
    /// and appends the message. On any rejection the chain is unchanged.
    pub fn add_message(&mut self, message: Message) -> (r: Result<(), ZkChatError>)
        requires
            old(self).wf(),
        ensures
            final(self).wf(),
            r is Ok <==> admissible(old(self).messages@, message),
            r is Ok ==> final(self).messages@ == old(self).messages@.push(message),
            r is Ok ==> final(self).chain_hash@ == next_chain_hash(
                old(self).chain_hash@,
                message.hash@,
                old(self).salt,
            ),
            r is Ok ==> final(self).salt == old(self).salt,
            r is Err ==> *final(self) == *old(self),
            !message.hash_ok() ==> r == Result::<(), ZkChatError>::Err(
                ZkChatError::InvalidMessageHash,
            ),
            message.hash_ok() && is_duplicate(old(self).messages@, message) ==> r == Result::<
                (),
                ZkChatError,
            >::Err(ZkChatError::DuplicateMessageId),
            message.hash_ok() && !is_duplicate(old(self).messages@, message)
                && !timestamp_admissible(old(self).messages@, message) ==> r == Result::<
                (),
                ZkChatError,
            >::Err(ZkChatError::InvalidTimestamp),
    {
        if !message.verify_hash() {
            return Err(ZkChatError::InvalidMessageHash);
        }
        if self.has_duplicate_id(&message) {
            return Err(ZkChatError::DuplicateMessageId);
        }
        let n = self.messages.len();
        if n > 0 {
            let last = &self.messages[n - 1];
            if message.timestamp <= last.timestamp {
                return Err(ZkChatError::InvalidTimestamp);
            }
        }
        proof {
            lemma_chain_hash_len(self.messages@, self.salt);
            assert(message.hash@.len() == 32) by {
                lemma_e2h_len(
                    zk_hash_spec(
                        crate::zk::hash::message_inputs_spec(
                            message.id,
                            message.sender_id,
                            message.timestamp,
                            vstd::utf8::encode_utf8(message.content@),
                        ),
                    ),
                );
            }
        }
        let new_hash = self.compute_chain_hash(&message);
        self.chain_hash = new_hash;
        self.messages.push(message);
        proof {
            let msgs = self.messages@;
            let prior = old(self).messages@;
            let n = prior.len() as int;
            assert(msgs.drop_last() =~= prior);
            assert(msgs.last() == message);
            assert(self.chain_hash@ == chain_hash_of(msgs, self.salt));
            assert forall|i: int, j: int| 0 <= i < j < msgs.len() implies (
            #[trigger] msgs[i]).timestamp < (#[trigger] msgs[j]).timestamp by {
                if j < n {
                    assert(msgs[i] == prior[i] && msgs[j] == prior[j]);
                } else {
                    assert(msgs[j] == message);
                    assert(msgs[i] == prior[i]);
                    if i < n - 1 {
                        assert(prior[i].timestamp < prior[n - 1].timestamp);
                    }
                    assert(prior.last().timestamp < message.timestamp);
                }
            }
            assert forall|i: int, j: int| 0 <= i < j < msgs.len() implies !((
            #[trigger] msgs[i]).id == (#[trigger] msgs[j]).id && msgs[i].sender_id
                == msgs[j].sender_id) by {
                if j < n {
                    assert(msgs[i] == prior[i] && msgs[j] == prior[j]);
                } else {
                    assert(msgs[j] == message);
                    assert(msgs[i] == prior[i]);
                    assert(!is_duplicate(prior, message));
                }
            }
        }
        Ok(())
    }

    /// Number of messages in the chain.
    pub fn len(&self) -> (n: usize)
        ensures
            n == self.messages@.len(),
    {
        self.messages.len()
    }

    /// True when the chain holds no messages.
    pub fn is_empty(&self) -> (r: bool)
        ensures
            r <==> self.messages@.len() == 0,
    {
        self.messages.is_empty()
    }

    /// A copy of the current chain hash.
    pub fn chain_hash_bytes(&self) -> (r: Vec<u8>)
        ensures
            r@ == self.chain_hash@,
    {
        clone_bytes(&self.chain_hash)
    }
}

/// The chain hash is a function of the admitted messages and the session
/// salt alone: two well-formed chains holding equal messages under the same
/// salt carry the same chain hash.
pub proof fn lemma_chain_hash_deterministic(a: MessageChain, b: MessageChain)
    requires
        a.wf(),
        b.wf(),
        a.messages@ == b.messages@,
        a.salt == b.salt,
    ensures
        a.chain_hash@ == b.chain_hash@,
{
}

} // verus!
