use zk_chat::{Message, ZkChatError};
use zk_chat::zk::MessageChain;

#[test]
fn integration_chain_updates() {
    let mut chain = MessageChain::new();
    let m1 = Message::new(1, 1, "a".into(), 1000);
    chain.add_message(m1).unwrap();
    let h1 = chain.chain_hash.clone();
    let m2 = Message::new(2, 2, "b".into(), 1001);
    chain.add_message(m2).unwrap();
    let h2 = chain.chain_hash.clone();
    assert_ne!(h1, h2, "Chain hash must update after second message");
    assert_eq!(chain.len(), 2);
}

#[test]
fn fresh_chain_is_empty_with_zero_hash() {
    let chain = MessageChain::new();
    assert!(chain.is_empty());
    assert_eq!(chain.len(), 0);
    assert_eq!(chain.chain_hash, vec![0u8; 32]);
}

#[test]
fn chain_hash_deterministic_in_messages_and_salt() {
    let salt = 0x1234_5678_9abc_def0;
    let mut a = MessageChain::with_salt(salt);
    let mut b = MessageChain::with_salt(salt);
    for i in 0..4u64 {
        a.add_message(Message::new(i + 1, 10, format!("m{i}"), 3000 + i)).unwrap();
        b.add_message(Message::new(i + 1, 10, format!("m{i}"), 3000 + i)).unwrap();
    }
    assert_eq!(a.chain_hash, b.chain_hash, "same messages and salt, same chain hash");

    let mut c = MessageChain::with_salt(salt + 1);
    for i in 0..4u64 {
        c.add_message(Message::new(i + 1, 10, format!("m{i}"), 3000 + i)).unwrap();
    }
    assert_ne!(a.chain_hash, c.chain_hash, "another salt, another chain hash");
}

#[test]
fn chain_hash_nonzero_and_evolves() {
    let mut chain = MessageChain::new();
    for i in 1..=3u64 {
        chain.add_message(Message::new(i, 50 + i, format!("msg{}", i - 1), 2000 + i)).unwrap();
    }
    assert_eq!(chain.len(), 3);
    assert_ne!(chain.chain_hash, vec![0u8; 32]);
    let after_three = chain.chain_hash.clone();
    let mut two = MessageChain::with_salt(chain.salt);
    for i in 1..=2u64 {
        two.add_message(Message::new(i, 50 + i, format!("msg{}", i - 1), 2000 + i)).unwrap();
    }
    assert_ne!(after_three, two.chain_hash, "the chain hash differs after 2 and 3 admissions");
}

#[test]
fn forged_hash_rejected_with_invalid_message_hash() {
    let mut chain = MessageChain::new();
    let forged = Message::with_hash(1, 1, "a".into(), 1000, vec![7u8; 32]);
    let err = chain.add_message(forged).unwrap_err();
    assert!(matches!(err, ZkChatError::InvalidMessageHash));
    assert!(chain.is_empty());
    assert_eq!(chain.chain_hash, vec![0u8; 32], "rejected admission leaves the chain unchanged");
}
