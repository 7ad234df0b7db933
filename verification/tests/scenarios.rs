use zk_chat::{Message, ZkChatError};
use zk_chat::zk::MessageChain;

#[test]
fn fresh_message_verifies() {
    assert!(Message::new(1, 10, "hello".into(), 1000).verify_hash());
}

#[test]
fn duplicate_admission_leaves_length_at_one() {
    let mut chain = MessageChain::new();
    chain.add_message(Message::new(1, 1, "a".into(), 1000)).unwrap();
    let err = chain.add_message(Message::new(1, 1, "b".into(), 1001)).unwrap_err();
    assert!(matches!(err, ZkChatError::DuplicateMessageId));
    assert_eq!(chain.len(), 1);
}

#[test]
fn two_senders_same_id_gives_length_two() {
    let mut chain = MessageChain::new();
    chain.add_message(Message::new(1, 10, "u10 a".into(), 1000)).unwrap();
    chain.add_message(Message::new(1, 20, "u20 b".into(), 1001)).unwrap();
    assert_eq!(chain.len(), 2);
}

#[test]
fn equal_timestamp_from_same_sender_rejected() {
    let mut chain = MessageChain::new();
    chain.add_message(Message::new(1, 1, "a".into(), 1000)).unwrap();
    let err = chain.add_message(Message::new(2, 1, "b".into(), 1000)).unwrap_err();
    assert!(matches!(err, ZkChatError::InvalidTimestamp));
}

#[test]
fn three_admissions_yield_a_moving_nonzero_chain_hash() {
    let mut chain = MessageChain::new();
    for i in 1..=3u64 {
        chain.add_message(Message::new(i, 50 + i, format!("msg{i}"), 2000 + i)).unwrap();
    }
    assert_eq!(chain.len(), 3);
    assert_ne!(chain.chain_hash, vec![0u8; 32]);

    let mut two = MessageChain::with_salt(chain.salt);
    for i in 1..=2u64 {
        two.add_message(Message::new(i, 50 + i, format!("msg{i}"), 2000 + i)).unwrap();
    }
    assert_ne!(chain.chain_hash, two.chain_hash);
}
