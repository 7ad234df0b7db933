//! A tamper-evident chat message chain with a ZK-friendly hash discipline:
//! each message commits to its contents through a Poseidon-style sponge over
//! a 128-bit prime field, consecutive messages are linked by a running chain
//! hash bound to a per-session salt, and an execution trace over the chain
//! can be handed to a STARK backend.

pub mod test_harness;
pub mod websocket;
pub mod zk;

use vstd::prelude::*;
use vstd::utf8::encode_utf8;
use vstd::arithmetic::div_mod::lemma_div_decreases;
use sha2::Digest;
use crate::zk::hash::{elements_to_hash, message_hash_inputs, message_hash_spec};
use crate::zk::poseidon::zk_hash;

verus! {

/// The SHA-256 digest of a byte sequence: a function of the bytes alone,
/// computed by the sha2 crate.
pub uninterp spec fn sha256_of(bytes: Seq<u8>) -> Seq<u8>;

/// Relies on sha2's `Sha256::digest`: the 32-byte SHA-256 digest of the
/// input, a function of the input bytes alone.
#[verifier::external_body]
fn sha256_digest(data: &Vec<u8>) -> (r: Vec<u8>)
    ensures
        r@ == sha256_of(data@),
        r@.len() == 32,
{
    sha2::Sha256::digest(data.as_slice()).to_vec()
}

/// The ASCII decimal digits of a non-negative integer, most significant
/// first.
pub open spec fn dec_bytes(n: int) -> Seq<u8>
    decreases n,
{
    if n < 10 {
        seq![(48 + if n >= 0 { n } else { 0 }) as u8]
    } else {
        dec_bytes(n / 10).push((48 + n % 10) as u8)
    }
}

/// Appends the decimal digits of `n` to `out`.
fn push_decimal(out: &mut Vec<u8>, n: u64)
    ensures
        final(out)@ == old(out)@ + dec_bytes(n as int),
    decreases n,
{
    if n < 10 {
        out.push((48 + n) as u8);
        proof {
            assert(out@ =~= old(out)@ + dec_bytes(n as int));
        }
    } else {
        proof {
            lemma_div_decreases(n as int, 10);
        }
        push_decimal(out, n / 10);
        out.push((48 + (n % 10)) as u8);
        proof {
            assert(out@ =~= old(out)@ + dec_bytes(n as int));
        }
    }
}

/// A message in the chat system.
#[derive(Debug)]
pub struct Message {
    pub id: u64,
    pub sender_id: u64,
    pub content: String,
    pub timestamp: u64,
    pub hash: Vec<u8>,
}

impl Message {
    /// The stored hash is the ZK hash of (id, sender, timestamp, content).
    pub open spec fn hash_ok(self) -> bool {
        self.hash@ == message_hash_spec(
            self.id,
            self.sender_id,
            self.timestamp,
            encode_utf8(self.content@),
        )
    }

    /// Creates a new message and fills in its ZK hash.
    pub fn new(id: u64, sender_id: u64, content: String, timestamp: u64) -> (m: Message)
        ensures
            m.id == id,
            m.sender_id == sender_id,
            m.content@ == content@,
            m.timestamp == timestamp,
            m.hash_ok(),
            m.hash@.len() == 32,
    {
        let mut message = Message { id, sender_id, content, timestamp, hash: Vec::new() };
        message.hash = message.compute_zk_hash();
        message
    }

    /// Creates a message with a pre-computed hash (for deserialization).
    pub fn with_hash(id: u64, sender_id: u64, content: String, timestamp: u64, hash: Vec<u8>) -> (m:
        Message)
        ensures
            m.id == id,
            m.sender_id == sender_id,
            m.content@ == content@,
            m.timestamp == timestamp,
            m.hash == hash,
    {
        Message { id, sender_id, content, timestamp, hash }
    }

    /// The bytes the legacy digest runs over: the fields joined with `-`,
    /// numbers in decimal, the content as UTF-8.
    pub open spec fn legacy_digest_input(self) -> Seq<u8> {
        dec_bytes(self.id as int) + seq![45u8] + dec_bytes(self.sender_id as int) + seq![45u8]
            + encode_utf8(self.content@) + seq![45u8] + dec_bytes(self.timestamp as int)
    }

    /// Computes the SHA-256 digest of `id-sender_id-content-timestamp`, for
    /// external verification; the ZK discipline itself uses `compute_zk_hash`.
    pub fn compute_hash(&self) -> (r: Vec<u8>)
        ensures
            r@ == sha256_of(self.legacy_digest_input()),
            r@.len() == 32,
    {
        let mut data: Vec<u8> = Vec::new();
        push_decimal(&mut data, self.id);
        data.push(45);
        push_decimal(&mut data, self.sender_id);
        data.push(45);
        let content_bytes: &[u8] = self.content.as_str().as_bytes();
        let ghost prefix = data@;
        let mut i: usize = 0;
        let n = content_bytes.len();
        proof {
            assert(data@ =~= prefix + content_bytes@.take(0));
        }
        while i < n
            invariant
                n == content_bytes@.len(),
                i <= n,
                data@ == prefix + content_bytes@.take(i as int),
            decreases n - i,
        {
            data.push(content_bytes[i]);
            proof {
                assert(data@ =~= prefix + content_bytes@.take(i as int + 1));
            }
            i = i + 1;
        }
        proof {
            assert(content_bytes@.take(n as int) =~= content_bytes@);
        }
        data.push(45);
        push_decimal(&mut data, self.timestamp);
        proof {
            assert(data@ =~= self.legacy_digest_input());
        }
        sha256_digest(&data)
    }

    /// Computes the ZK-friendly hash of this message's fields: the sponge
    /// over (id, sender, timestamp, packed content), rendered as 32 bytes.
    pub fn compute_zk_hash(&self) -> (r: Vec<u8>)
        ensures
            r@ == message_hash_spec(
                self.id,
                self.sender_id,
                self.timestamp,
                encode_utf8(self.content@),
            ),
            r@.len() == 32,
    {
        let inputs = message_hash_inputs(
            self.id,
            self.sender_id,
            self.timestamp,
            self.content.as_str(),
        );
        let digest = zk_hash(&inputs);
        elements_to_hash(&digest)
    }

    /// Recomputes the ZK hash and compares it with the stored one.
    pub fn verify_hash(&self) -> (r: bool)
        ensures
            r <==> self.hash_ok(),
    {
        let computed = self.compute_zk_hash();
        let r = bytes_eq(&computed, &self.hash);
        proof {
            if r {
                assert(self.hash@ =~= computed@);
            }
        }
        r
    }
}

impl Clone for Message {
    fn clone(&self) -> (r: Self)
        ensures
            r.id == self.id,
            r.sender_id == self.sender_id,
            r.content == self.content,
            r.timestamp == self.timestamp,
            r.hash@ == self.hash@,
    {
        let r = Message {
            id: self.id,
            sender_id: self.sender_id,
            content: self.content.clone(),
            timestamp: self.timestamp,
            hash: clone_bytes(&self.hash),
        };
        r
    }
}

/// Compares two byte vectors element by element.
pub fn bytes_eq(a: &Vec<u8>, b: &Vec<u8>) -> (r: bool)
    ensures
        r <==> a@ == b@,
{
    if a.len() != b.len() {
        proof {
            assert(a@ != b@);
        }
        return false;
    }
    let n = a.len();
    let mut i: usize = 0;
    while i < n
        invariant
            n == a@.len(),
            n == b@.len(),
            i <= n,
            forall|j: int| 0 <= j < i ==> a@[j] == b@[j],
        decreases n - i,
    {
        if a[i] != b[i] {
            return false;
        }
        i = i + 1;
    }
    proof {
        assert(a@ =~= b@);
    }
    true
}

/// Copies a byte vector.
pub fn clone_bytes(v: &Vec<u8>) -> (r: Vec<u8>)
    ensures
        r@ == v@,
{
    let n = v.len();
    let mut r: Vec<u8> = Vec::new();
    let mut i: usize = 0;
    while i < n
        invariant
            n == v@.len(),
            i <= n,
            r@ =~= v@.subrange(0, i as int),
        decreases n - i,
    {
        r.push(v[i]);
        proof {
            assert(r@ =~= v@.subrange(0, i as int + 1));
        }
        i = i + 1;
    }
    proof {
        assert(v@.subrange(0, n as int) =~= v@);
    }
    r
}

/// Tampering is detected: a message that agrees with a valid one on every
/// field but whose stored hash differs anywhere cannot itself have a valid
/// hash, so `verify_hash` rejects it.
pub proof fn lemma_tampered_hash_detected(a: Message, b: Message)
    requires
        a.hash_ok(),
        a.id == b.id,
        a.sender_id == b.sender_id,
        a.content@ == b.content@,
        a.timestamp == b.timestamp,
        a.hash@ != b.hash@,
    ensures
        !b.hash_ok(),
{
}

/// Error cases of the chat core.
#[derive(Debug)]
pub enum ZkChatError {
    /// A message's stored hash does not match its contents.
    InvalidMessageHash,
    /// A timestamp that does not strictly increase.
    InvalidTimestamp,
    /// A (sender, id) pair that the chain already holds.
    DuplicateMessageId,
    /// A sender the server does not accept.
    InvalidSender,
    /// A proof that did not verify.
    ProofVerificationFailed,
    /// Proof generation or verification failed in the STARK backend.
    ProofGeneration(String),
}

impl ZkChatError {
    /// A short human-readable description of the error.
    pub fn describe(&self) -> (r: &'static str)
        ensures
            (*self is InvalidMessageHash) ==> r@ == "Invalid message hash"@,
            (*self is InvalidTimestamp) ==> r@ == "Invalid timestamp sequence"@,
            (*self is DuplicateMessageId) ==> r@ == "Duplicate message ID - replay attack detected"@,
            (*self is InvalidSender) ==> r@ == "Invalid sender ID"@,
            (*self is ProofVerificationFailed) ==> r@ == "Proof verification failed"@,
            (*self is ProofGeneration) ==> r@ == "Proof generation error"@,
    {
        match self {
            ZkChatError::InvalidMessageHash => "Invalid message hash",
            ZkChatError::InvalidTimestamp => "Invalid timestamp sequence",
            ZkChatError::DuplicateMessageId => "Duplicate message ID - replay attack detected",
            ZkChatError::InvalidSender => "Invalid sender ID",
            ZkChatError::ProofVerificationFailed => "Proof verification failed",
            ZkChatError::ProofGeneration(_) => "Proof generation error",
        }
    }
}

} // verus!
