//! The prover's verified half: proof parameters, message-sequence
//! validation, trace assembly, and the public inputs read off a trace. The
//! STARK backend invocation itself lives outside the verified core.

use vstd::prelude::*;
use crate::{Message, ZkChatError};
use crate::zk::air::{build_trace, row_at, trace_len_spec, PublicInputs};
use crate::zk::field::in_field;
use crate::zk::hash::e2h_spec;
use crate::zk::poseidon::{all_in_field, Felt4};
use crate::zk::zero_hash;

verus! {

/// STARK proof parameters: the five recognized options. The well-formedness
/// predicate mirrors what the backend accepts, so a well-formed record can
/// always be handed over without panicking.
#[derive(Clone, Copy, Debug, PartialEq, Eq, Structural)]
pub struct ProofOptions {
    pub num_queries: usize,
    pub blowup_factor: usize,
    pub grinding_factor: u32,
    pub fri_folding_factor: usize,
    pub fri_remainder_max_degree: usize,
}

impl ProofOptions {
    /// The backend's constraints on the five options.
    pub open spec fn wf(self) -> bool {
        &&& 1 <= self.num_queries <= 255
        &&& (self.blowup_factor == 2 || self.blowup_factor == 4 || self.blowup_factor == 8
            || self.blowup_factor == 16 || self.blowup_factor == 32 || self.blowup_factor == 64
            || self.blowup_factor == 128)
        &&& self.grinding_factor <= 32
        &&& (self.fri_folding_factor == 2 || self.fri_folding_factor == 4
            || self.fri_folding_factor == 8 || self.fri_folding_factor == 16)
        &&& (self.fri_remainder_max_degree == 1 || self.fri_remainder_max_degree == 3
            || self.fri_remainder_max_degree == 7 || self.fri_remainder_max_degree == 15
            || self.fri_remainder_max_degree == 31 || self.fri_remainder_max_degree == 63
            || self.fri_remainder_max_degree == 127 || self.fri_remainder_max_degree == 255)
    }

    /// The default parameters: 54 queries, blowup 16, grinding 16, FRI
    /// folding factor 4, FRI remainder degree at most 31. These target a
    /// conjectured soundness of at least 100 bits.
    pub fn secure_default() -> (r: ProofOptions)
        ensures
            r.num_queries == 54,
            r.blowup_factor == 16,
            r.grinding_factor == 16,
            r.fri_folding_factor == 4,
            r.fri_remainder_max_degree == 31,
            r.wf(),
    {
        ProofOptions {
            num_queries: 54,
            blowup_factor: 16,
            grinding_factor: 16,
            fri_folding_factor: 4,
            fri_remainder_max_degree: 31,
        }
    }
}

/// Message `i` of the sequence breaks a proving rule: a bad hash, or a
/// timestamp that does not strictly increase.
pub open spec fn violation_at(msgs: Seq<Message>, i: int) -> bool {
    !msgs[i].hash_ok() || (i > 0 && msgs[i].timestamp <= msgs[i - 1].timestamp)
}

/// The error reported for the violation at index `i`: a bad hash wins over
/// a bad timestamp.
pub open spec fn violation_error(msgs: Seq<Message>, i: int) -> ZkChatError {
    if !msgs[i].hash_ok() {
        ZkChatError::InvalidMessageHash
    } else {
        ZkChatError::InvalidTimestamp
    }
}

/// Every message hashes correctly and the timestamps strictly increase.
pub open spec fn sequence_valid(msgs: Seq<Message>) -> bool {
    forall|i: int| 0 <= i < msgs.len() ==> !#[trigger] violation_at(msgs, i)
}

/// Drives the verified half of proving: holds the proof options, the
/// session salt bound into every trace it builds, and the count of real
/// messages behind the latest trace.
#[derive(Debug)]
pub struct MessageProver {
    pub options: ProofOptions,
    pub salt: u64,
    pub message_count: usize,
}

impl MessageProver {
    /// A prover with the default security parameters and a fresh session
    /// salt of its own; a process sharing one session across components
    /// uses `with_options_and_salt` instead.
    pub fn new() -> (p: MessageProver)
        ensures
            p.options == (ProofOptions {
                num_queries: 54,
                blowup_factor: 16,
                grinding_factor: 16,
                fri_folding_factor: 4,
                fri_remainder_max_degree: 31,
            }),
            p.options.wf(),
            p.message_count == 0,
    {
        MessageProver {
            options: ProofOptions::secure_default(),
            salt: crate::zk::fresh_session_salt(),
            message_count: 0,
        }
    }

    /// A prover with custom proof options.
    pub fn with_options(options: ProofOptions) -> (p: MessageProver)
        ensures
            p.options == options,
            p.message_count == 0,
    {
        MessageProver { options, salt: crate::zk::fresh_session_salt(), message_count: 0 }
    }

    /// A prover with the given options, bound to a caller-supplied session
    /// salt, so that its traces agree with a chain sharing that salt.
    pub fn with_options_and_salt(options: ProofOptions, salt: u64) -> (p: MessageProver)
        ensures
            p.options == options,
            p.salt == salt,
            p.message_count == 0,
    {
        MessageProver { options, salt, message_count: 0 }
    }

    /// The proof options in use.
    pub fn options(&self) -> (r: &ProofOptions)
        ensures
            *r == self.options,
    {
        &self.options
    }

    /// Checks that the sequence is fit for proving: every hash valid, every
    /// timestamp strictly above its predecessor. Reports the first
    /// violation, a bad hash before a bad timestamp at the same index.
    pub fn validate_message_chain(&self, messages: &Vec<Message>) -> (r: Result<(), ZkChatError>)
        ensures
            r is Ok <==> sequence_valid(messages@),
            r is Err ==> exists|k: int|
                0 <= k < messages@.len() && #[trigger] violation_at(messages@, k) && (forall|j: int|
                    0 <= j < k ==> !#[trigger] violation_at(messages@, j)) && r == Result::<
                    (),
                    ZkChatError,
                >::Err(violation_error(messages@, k)),
    {
        let n = messages.len();
        let mut i: usize = 0;
        while i < n
            invariant
                n == messages@.len(),
                i <= n,
                forall|j: int| 0 <= j < i ==> !#[trigger] violation_at(messages@, j),
            decreases n - i,
        {
            let m = &messages[i];
            if !m.verify_hash() {
                proof {
                    assert(violation_at(messages@, i as int));
                    assert(violation_error(messages@, i as int) == ZkChatError::InvalidMessageHash);
                }
                return Err(ZkChatError::InvalidMessageHash);
            }
            if i > 0 {
                let prev = &messages[i - 1];
                if m.timestamp <= prev.timestamp {
                    proof {
                        assert(violation_at(messages@, i as int));
                        assert(violation_error(messages@, i as int)
                            == ZkChatError::InvalidTimestamp);
                    }
                    return Err(ZkChatError::InvalidTimestamp);
                }
            }
            proof {
                assert(!violation_at(messages@, i as int));
            }
            i = i + 1;
        }
        Ok(())
    }

    /// Builds the execution trace for the messages under this prover's
    /// session salt.
    pub fn build_trace(&self, messages: &Vec<Message>) -> (trace: Vec<Vec<u128>>)
        requires
            messages@.len() >= 1,
        ensures
            trace@.len() == 19,
            forall|c: int|
                0 <= c < 19 ==> (#[trigger] trace@[c])@.len() == trace_len_spec(
                    messages@.len() as int,
                ),
            forall|c: int, s: int|
                0 <= c < 19 && 0 <= s < trace_len_spec(messages@.len() as int) ==> (
                #[trigger] trace@[c]@[s]) as int == row_at(messages@, self.salt, s)[c],
            forall|c: int| 0 <= c < 19 ==> all_in_field((#[trigger] trace@[c])@),
    {
        build_trace(messages, self.salt)
    }

    /// Validates the messages and assembles the execution trace, recording
    /// the real message count: everything of proving except the STARK
    /// backend call. An empty slice is reported as `InvalidMessageHash` to
    /// keep a single error surface.
    pub fn prepare_trace(&mut self, messages: &Vec<Message>) -> (r: Result<
        Vec<Vec<u128>>,
        ZkChatError,
    >)
        ensures
            final(self).options == old(self).options,
            final(self).salt == old(self).salt,
            r is Ok <==> messages@.len() >= 1 && sequence_valid(messages@),
            messages@.len() == 0 ==> r == Result::<Vec<Vec<u128>>, ZkChatError>::Err(
                ZkChatError::InvalidMessageHash,
            ) && *final(self) == *old(self),
            messages@.len() >= 1 && !sequence_valid(messages@) ==> exists|k: int|
                0 <= k < messages@.len() && #[trigger] violation_at(messages@, k) && (forall|j: int|
                    0 <= j < k ==> !#[trigger] violation_at(messages@, j)) && r == Result::<
                    Vec<Vec<u128>>,
                    ZkChatError,
                >::Err(violation_error(messages@, k)),
            r is Ok ==> final(self).message_count == messages@.len(),
            r matches Ok(trace) ==> trace@.len() == 19 && (forall|c: int|
                0 <= c < 19 ==> (#[trigger] trace@[c])@.len() == trace_len_spec(
                    messages@.len() as int,
                )) && (forall|c: int, s: int|
                0 <= c < 19 && 0 <= s < trace_len_spec(messages@.len() as int) ==> (
                #[trigger] trace@[c]@[s]) as int == row_at(messages@, old(self).salt, s)[c]) && (
            forall|c: int| 0 <= c < 19 ==> all_in_field((#[trigger] trace@[c])@)),
    {
        if messages.is_empty() {
            return Err(ZkChatError::InvalidMessageHash);
        }
        self.message_count = messages.len();
        match self.validate_message_chain(messages) {
            Ok(()) => Ok(self.build_trace(messages)),
            Err(e) => Err(e),
        }
    }

    /// The public inputs of a trace: an all-zero initial hash, the final
    /// hash read from the chain-hash columns at the last real message's
    /// step, and the real message count.
    pub fn get_pub_inputs(&self, trace: &Vec<Vec<u128>>) -> (pi: PublicInputs)
        requires
            1 <= self.message_count,
            trace@.len() == 19,
            forall|c: int|
                0 <= c < 19 ==> (#[trigger] trace@[c])@.len() >= self.message_count,
            forall|c: int| 0 <= c < 19 ==> all_in_field((#[trigger] trace@[c])@),
        ensures
            pi.wf(),
            pi.initial_hash@ == zero_hash(),
            pi.message_count == self.message_count,
            pi.final_hash@ == e2h_spec(
                seq![
                    trace@[4]@[self.message_count - 1] as int,
                    trace@[5]@[self.message_count - 1] as int,
                    trace@[6]@[self.message_count - 1] as int,
                    trace@[7]@[self.message_count - 1] as int,
                ],
            ),
    {
        let last = self.message_count - 1;
        let mut initial_hash: Vec<u8> = Vec::new();
        let mut i: usize = 0;
        while i < 32
            invariant
                i <= 32,
                initial_hash@ =~= Seq::new(i as nat, |j: int| 0u8),
            decreases 32 - i,
        {
            initial_hash.push(0u8);
            proof {
                assert(initial_hash@ =~= Seq::new(i as nat + 1, |j: int| 0u8));
            }
            i = i + 1;
        }
        proof {
            assert(initial_hash@ =~= zero_hash());
        }
        let finals = Felt4 {
            e0: trace[4][last],
            e1: trace[5][last],
            e2: trace[6][last],
            e3: trace[7][last],
        };
        let final_hash = crate::zk::hash::elements_to_hash(&finals);
        PublicInputs { initial_hash, final_hash, message_count: self.message_count }
    }
}

} // verus!
