use zk_chat::Message;
use zk_chat::zk::MessageChain;

#[test]
fn monotonic_timestamps_and_mixed_senders_admit_cleanly() {
    // A fixed mixed-sender workload with strictly increasing timestamps.
    let senders = [3u64, 17, 42, 3, 99, 17, 8, 42, 3, 99, 1, 8];
    let mut chain = MessageChain::new();
    let mut time: u64 = 1_000_000;
    for (i, sender) in senders.iter().enumerate() {
        time += 1 + (sender % 3);
        let msg = Message::new(chain.len() as u64 + 1, *sender, format!("w{i}"), time);
        chain.add_message(msg).unwrap();
    }
    assert_eq!(chain.len(), senders.len());
}

#[test]
fn duplicate_local_ids_rejected_for_every_sender() {
    for sender in [1u64, 7, 23, 49] {
        let mut chain = MessageChain::new();
        let m1 = Message::new(1, sender, "a".into(), 1000);
        assert!(chain.add_message(m1).is_ok());
        let m_dup = Message::new(1, sender, "b".into(), 1001);
        assert!(chain.add_message(m_dup).is_err());
    }
}
