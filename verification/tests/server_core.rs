use zk_chat::ZkChatError;
use zk_chat::websocket::server::GlobalState;

#[test]
fn join_leave_roster() {
    let mut state = GlobalState::new();
    let list = state.join(1, "alice".into(), 100);
    assert_eq!(list, vec![(1, "alice".into())]);
    let list = state.join(2, "bob".into(), 101);
    assert_eq!(list.len(), 2);
    // A returning id replaces its entry instead of duplicating it.
    let list = state.join(1, "alice2".into(), 102);
    assert_eq!(list.len(), 2);
    assert!(list.contains(&(1, "alice2".into())));
    let list = state.leave(1);
    assert_eq!(list, vec![(2, "bob".into())]);
    // Leaving twice changes nothing.
    let list = state.leave(1);
    assert_eq!(list.len(), 1);
}

#[test]
fn stage_message_numbers_and_authenticates() {
    let mut state = GlobalState::new();
    let err = state.stage_message(None, 5, "hi".into(), 1000).unwrap_err();
    assert!(matches!(err, ZkChatError::InvalidSender));
    let err = state.stage_message(Some(4), 5, "hi".into(), 1000).unwrap_err();
    assert!(matches!(err, ZkChatError::InvalidSender));

    let (m1, local1) = state.stage_message(Some(5), 5, "hi".into(), 1000).unwrap();
    assert_eq!(m1.id, 1);
    assert_eq!(local1, 1);
    assert!(m1.verify_hash());

    let (m2, local2) = state.stage_message(Some(9), 9, "yo".into(), 1001).unwrap();
    assert_eq!(m2.id, 2, "global ids advance across senders");
    assert_eq!(local2, 1, "each sender's local sequence starts at 1");

    let (m3, local3) = state.stage_message(Some(5), 5, "again".into(), 1002).unwrap();
    assert_eq!(m3.id, 3);
    assert_eq!(local3, 2, "the sender's local sequence advances");
}
