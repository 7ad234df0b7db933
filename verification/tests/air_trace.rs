use zk_chat::{Message, ZkChatError};
use zk_chat::zk::MessageChain;
use zk_chat::zk::air::{
    boundary_assertions, build_trace, evaluate_transition, transition_constraint_degrees,
    MIN_TRACE_LENGTH, TRACE_WIDTH,
};
use zk_chat::zk::prover::MessageProver;

fn sample_messages(n: u64) -> Vec<Message> {
    (0..n).map(|i| Message::new(i + 1, 10 + i, format!("msg{i}"), 2000 + i)).collect()
}

#[test]
fn trace_has_19_columns_padded_to_8_rows() {
    let messages = sample_messages(3);
    let trace = build_trace(&messages, 42);
    assert_eq!(trace.len(), TRACE_WIDTH);
    for column in &trace {
        assert_eq!(column.len(), MIN_TRACE_LENGTH);
    }
    let long = sample_messages(11);
    let trace = build_trace(&long, 42);
    for column in &trace {
        assert_eq!(column.len(), 11);
    }
}

#[test]
fn trace_row_zero_layout() {
    let messages = sample_messages(1);
    let trace = build_trace(&messages, 7);
    // Row 0: all-zero previous chain hash and previous timestamp.
    for c in 0..4 {
        assert_eq!(trace[c][0], 0);
    }
    assert_eq!(trace[8][0], 0);
    assert_eq!(trace[9][0], 2000);
    assert_eq!(trace[10][0], 10);
    assert_eq!(trace[11][0], 1);
    assert_eq!(trace[12][0], 10);
    assert_eq!(trace[13][0], 2000);
    // Padding rows: timestamps advance by one, data columns repeat.
    assert_eq!(trace[9][1], 2001);
    assert_eq!(trace[11][7], 1);
}

#[test]
fn every_transition_residual_is_zero_on_a_built_trace() {
    let messages = sample_messages(5);
    let trace = build_trace(&messages, 99);
    let rows = trace[0].len();
    for s in 0..rows - 1 {
        let curr: Vec<u128> = (0..TRACE_WIDTH).map(|c| trace[c][s]).collect();
        let next: Vec<u128> = (0..TRACE_WIDTH).map(|c| trace[c][s + 1]).collect();
        let residuals = evaluate_transition(&curr, &next);
        assert_eq!(residuals, vec![0u128; 6], "residuals must vanish at step {s}");
    }
}

#[test]
fn transition_degrees_are_five_linear_one_cubic() {
    assert_eq!(transition_constraint_degrees(), vec![1, 1, 1, 1, 1, 3]);
}

#[test]
fn eight_boundary_assertions_with_expected_positions() {
    let messages = sample_messages(2);
    let mut prover = MessageProver::new();
    let trace = prover.prepare_trace(&messages).unwrap();
    let pub_inputs = prover.get_pub_inputs(&trace);
    let assertions = boundary_assertions(&pub_inputs);
    assert_eq!(assertions.len(), 8);
    for i in 0..4 {
        assert_eq!(assertions[i].column, i);
        assert_eq!(assertions[i].step, 0);
        assert_eq!(assertions[i].value, 0, "the chain starts from the all-zero hash");
    }
    for i in 0..4 {
        assert_eq!(assertions[4 + i].column, 4 + i);
        assert_eq!(assertions[4 + i].step, 1, "final hash asserted at the last real message");
        assert_eq!(assertions[4 + i].value, trace[4 + i][1]);
    }
}

#[test]
fn prover_final_hash_equals_chain_hash_under_shared_salt() {
    let messages = sample_messages(4);
    let mut chain = MessageChain::with_salt(1234);
    for m in &messages {
        chain.add_message(m.clone()).unwrap();
    }
    let options = zk_chat::zk::prover::ProofOptions::secure_default();
    let mut prover = MessageProver::with_options_and_salt(options, 1234);
    let trace = prover.prepare_trace(&messages).unwrap();
    let pub_inputs = prover.get_pub_inputs(&trace);
    assert_eq!(pub_inputs.initial_hash, vec![0u8; 32]);
    assert_eq!(pub_inputs.message_count, 4);
    assert_eq!(
        pub_inputs.final_hash, chain.chain_hash,
        "the trace's final hash is the chain's hash"
    );
}

#[test]
fn prover_rejects_empty_and_invalid_sequences() {
    let mut prover = MessageProver::new();
    let empty: Vec<Message> = Vec::new();
    assert!(matches!(
        prover.prepare_trace(&empty).unwrap_err(),
        ZkChatError::InvalidMessageHash
    ));

    let mut bad_hash = sample_messages(2);
    bad_hash[1].hash[3] ^= 0x80;
    assert!(matches!(
        prover.prepare_trace(&bad_hash).unwrap_err(),
        ZkChatError::InvalidMessageHash
    ));

    let mut bad_ts = sample_messages(2);
    bad_ts[1] = Message::new(2, 11, "msg1".into(), 2000); // equal to msg0's timestamp
    assert!(matches!(
        prover.prepare_trace(&bad_ts).unwrap_err(),
        ZkChatError::InvalidTimestamp
    ));
}

#[test]
fn public_inputs_encode_to_nine_elements() {
    let messages = sample_messages(1);
    let mut prover = MessageProver::new();
    let trace = prover.prepare_trace(&messages).unwrap();
    let pub_inputs = prover.get_pub_inputs(&trace);
    let elements = pub_inputs.to_elements();
    assert_eq!(elements.len(), 9);
    for i in 0..4 {
        assert_eq!(elements[i], 0, "initial hash elements are zero");
    }
    assert_eq!(elements[8], 1, "the last element is the message count");
}
