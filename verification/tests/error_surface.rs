use zk_chat::ZkChatError;
use zk_chat::zk::poseidon::{poseidon_permutation, Felt4};
use zk_chat::zk::hash::hash_bytes_to_elements;

#[test]
fn error_descriptions() {
    assert_eq!(ZkChatError::InvalidMessageHash.describe(), "Invalid message hash");
    assert_eq!(ZkChatError::InvalidTimestamp.describe(), "Invalid timestamp sequence");
    assert_eq!(
        ZkChatError::DuplicateMessageId.describe(),
        "Duplicate message ID - replay attack detected"
    );
    assert_eq!(ZkChatError::InvalidSender.describe(), "Invalid sender ID");
    assert_eq!(ZkChatError::ProofVerificationFailed.describe(), "Proof verification failed");
    assert_eq!(
        ZkChatError::ProofGeneration("backend".into()).describe(),
        "Proof generation error"
    );
}

#[test]
fn permutation_is_deterministic_and_mixes() {
    let s = Felt4 { e0: 1, e1: 2, e2: 3, e3: 4 };
    let a = poseidon_permutation(s);
    let b = poseidon_permutation(s);
    assert_eq!(a, b);
    assert_ne!(a, s, "the permutation must move the state");
    let t = Felt4 { e0: 1, e1: 2, e2: 3, e3: 5 };
    assert_ne!(poseidon_permutation(t), a, "one changed lane changes the output");
}

#[test]
fn hash_bytes_to_elements_matches_layout() {
    let mut bytes = vec![0u8; 32];
    bytes[0] = 9;
    bytes[8] = 1;
    bytes[9] = 1;
    let e = hash_bytes_to_elements(&bytes);
    assert_eq!(e.e0, 9);
    assert_eq!(e.e1, 0x0101);
    assert_eq!(e.e2, 0);
    assert_eq!(e.e3, 0);
}
