//! The advancement state machine and the poll primitives, driven with
//! scripted observations.

use e2e_test_utils::engine_api::{HarnessError, PayloadStatus};
use e2e_test_utils::node::{
    generate_attributes, AdvanceEvent, AttributesKind, AvailabilityProbe, BlockRef, BuiltPayload,
    NodeTestContext,
};
use e2e_test_utils::primitives::BlockHash;
use e2e_test_utils::transaction::TxGeneratorKind;

fn hash(tag: u8) -> BlockHash {
    BlockHash::new([tag; 32])
}

fn block(number: u64, tag: u8) -> BlockRef {
    BlockRef { number, hash: hash(tag) }
}

/// The event script of one successful advancement of `node` to the block
/// `number` with hash tag `tag`, using `extra_polls` unsuccessful polls
/// first.
fn advance_events(timestamp: u64, number: u64, tag: u8, extra_polls: usize) -> Vec<AdvanceEvent> {
    let mut events = vec![
        AdvanceEvent::AttributesAccepted(generate_attributes(AttributesKind::Ethereum, timestamp)),
        AdvanceEvent::PayloadBuilt(BuiltPayload { block: block(number, tag), timestamp }),
        AdvanceEvent::SubmitResponse(Ok(PayloadStatus::Valid)),
        AdvanceEvent::ForkchoiceAcked(Ok(())),
    ];
    for _ in 0..extra_polls {
        events.push(AdvanceEvent::LatestBlock(None));
    }
    events.push(AdvanceEvent::LatestBlock(Some(block(number, tag))));
    events
}

#[test]
fn advance_confirms_the_submitted_block() {
    let mut node = NodeTestContext::new(1).expect("context should build");
    assert_eq!(node.payload_timestamp, 0);

    let mut events = advance_events(1, 1, 0xa1, 2);
    // A poll that reports an older block keeps waiting.
    events.insert(4, AdvanceEvent::LatestBlock(Some(block(0, 0x00))));

    let mut cursor = 0usize;
    let (payload, attrs, block_hash) = node
        .advance(AttributesKind::Ethereum, &events, &mut cursor)
        .expect("advancement should confirm");
    assert_eq!(attrs.timestamp, 1);
    assert_eq!(payload.timestamp, 1);
    assert_eq!(payload.block.number, 1);
    assert_eq!(block_hash, hash(0xa1));
    assert_eq!(cursor, events.len());
    assert_eq!(node.payload_timestamp, 1);
}

#[test]
fn advance_rejects_a_wrong_status_as_fatal() {
    let mut node = NodeTestContext::new(1).unwrap();
    let mut events = advance_events(1, 1, 0xa1, 0);
    events[2] = AdvanceEvent::SubmitResponse(Ok(PayloadStatus::Syncing));
    let mut cursor = 0usize;
    let err = node.advance(AttributesKind::Ethereum, &events, &mut cursor).unwrap_err();
    match &err {
        HarnessError::StatusMismatch { expected, got } => {
            assert!(matches!(expected, PayloadStatus::Valid));
            assert!(matches!(got, PayloadStatus::Syncing));
        }
        other => panic!("expected a status mismatch, got {:?}", err_name(other)),
    }
    assert!(err.is_fatal());
}

#[test]
fn advance_propagates_a_transport_failure() {
    let mut node = NodeTestContext::new(1).unwrap();
    let mut events = advance_events(1, 1, 0xa1, 0);
    events[2] = AdvanceEvent::SubmitResponse(Err(String::from("connection refused")));
    let mut cursor = 0usize;
    let err = node.advance(AttributesKind::Ethereum, &events, &mut cursor).unwrap_err();
    match &err {
        HarnessError::Transport { message } => assert_eq!(message.as_str(), "connection refused"),
        other => panic!("expected a transport error, got {:?}", err_name(other)),
    }
    assert!(!err.is_fatal());
}

#[test]
fn advance_treats_a_wrong_hash_as_fatal() {
    let mut node = NodeTestContext::new(1).unwrap();
    let mut events = advance_events(1, 1, 0xa1, 0);
    let last = events.len() - 1;
    events[last] = AdvanceEvent::LatestBlock(Some(block(1, 0xbb)));
    let mut cursor = 0usize;
    let err = node.advance(AttributesKind::Ethereum, &events, &mut cursor).unwrap_err();
    match &err {
        HarnessError::HashMismatch { number, .. } => assert_eq!(*number, 1),
        other => panic!("expected a hash mismatch, got {:?}", err_name(other)),
    }
    assert!(err.is_fatal());
}

#[test]
fn advance_stalls_when_confirmation_never_comes() {
    let mut node = NodeTestContext::new(1).unwrap();
    let events = vec![
        AdvanceEvent::AttributesAccepted(generate_attributes(AttributesKind::Ethereum, 1)),
        AdvanceEvent::PayloadBuilt(BuiltPayload { block: block(1, 0xa1), timestamp: 1 }),
        AdvanceEvent::SubmitResponse(Ok(PayloadStatus::Valid)),
        AdvanceEvent::ForkchoiceAcked(Ok(())),
        AdvanceEvent::LatestBlock(None),
        AdvanceEvent::LatestBlock(None),
    ];
    let mut cursor = 0usize;
    let err = node.advance(AttributesKind::Ethereum, &events, &mut cursor).unwrap_err();
    match &err {
        HarnessError::Stalled { number } => assert_eq!(*number, 1),
        other => panic!("expected a stall, got {:?}", err_name(other)),
    }
    assert!(!err.is_fatal());
}

#[test]
fn new_payload_rejects_an_out_of_order_event() {
    let mut node = NodeTestContext::new(1).unwrap();
    let wrong = AdvanceEvent::ForkchoiceAcked(Ok(()));
    let built = AdvanceEvent::PayloadBuilt(BuiltPayload { block: block(1, 0xa1), timestamp: 1 });
    let err = node.new_payload(AttributesKind::Ethereum, &wrong, &built).unwrap_err();
    assert!(matches!(err, HarnessError::UnexpectedEvent));
}

#[test]
fn new_payload_rejects_a_stale_payload_id() {
    let mut node = NodeTestContext::new(1).unwrap();
    let attrs = AdvanceEvent::AttributesAccepted(generate_attributes(AttributesKind::Ethereum, 1));
    // Built for another timestamp: correlation by payload id fails.
    let built = AdvanceEvent::PayloadBuilt(BuiltPayload { block: block(1, 0xa1), timestamp: 9 });
    let err = node.new_payload(AttributesKind::Ethereum, &attrs, &built).unwrap_err();
    assert!(matches!(err, HarnessError::UnexpectedEvent));
}

#[test]
fn payload_id_is_the_attributes_timestamp() {
    let attrs = generate_attributes(AttributesKind::Optimism, 17);
    assert_eq!(attrs.payload_id(), 17);
    assert_eq!(attrs.gas_limit, Some(30_000_000));
    let attrs = generate_attributes(AttributesKind::Ethereum, 3);
    assert_eq!(attrs.payload_id(), 3);
    assert_eq!(attrs.gas_limit, None);
    assert!(attrs.withdrawals_attached);
    assert_eq!(attrs.prev_randao, BlockHash::zero());
}

#[test]
fn advance_many_returns_the_chain_in_order() {
    let mut node = NodeTestContext::new(1).unwrap();
    let mut events = Vec::new();
    for i in 1u64..=3 {
        events.extend(advance_events(i, i, i as u8, 1));
    }
    let mut cursor = 0usize;
    let (chain, stream) = node
        .advance_many(3, AttributesKind::Ethereum, &events, &mut cursor)
        .expect("the chain should advance");
    assert_eq!(chain.len(), 3);
    for (i, (payload, attrs)) in chain.iter().enumerate() {
        assert_eq!(payload.timestamp, i as u64 + 1);
        assert_eq!(payload.block.number, i as u64 + 1);
        assert_eq!(attrs.timestamp, i as u64 + 1);
    }
    assert!(matches!(stream.generator, TxGeneratorKind::Eip1559Transfer));
    assert!(node.tx_stream.is_none());
    assert_eq!(node.payload_timestamp, 3);
}

#[test]
fn inject_pending_stream_consumes_the_stream() {
    let mut node = NodeTestContext::new(1).unwrap();
    assert!(node.tx_stream.is_some());
    let stream = node.inject_pending_stream();
    assert!(matches!(stream.generator, TxGeneratorKind::Eip1559Transfer));
    assert!(node.tx_stream.is_none());
}

#[test]
fn set_tx_generator_replaces_the_stream() {
    let node = NodeTestContext::new(1).unwrap();
    let node = node.set_tx_generator(TxGeneratorKind::OptimismBlockInfo);
    match &node.tx_stream {
        Some(s) => assert!(matches!(s.generator, TxGeneratorKind::OptimismBlockInfo)),
        None => panic!("the stream should be present until injected"),
    }
}

#[test]
fn wait_unwind_confirms_the_exact_rewind_point() {
    let node = NodeTestContext::new(1).unwrap();
    let checkpoints = vec![Some(90u64), Some(89), Some(88)];
    assert!(node.wait_unwind(&checkpoints, 88).is_ok());

    // Walking past the target without hitting it exactly keeps waiting
    // until the script — the deadline — runs out.
    let checkpoints = vec![None, Some(90u64), Some(87)];
    let err = node.wait_unwind(&checkpoints, 88).unwrap_err();
    assert!(matches!(err, HarnessError::Stalled { number: 88 }));
}

#[test]
fn wait_until_block_is_available_follows_the_finish_checkpoint() {
    let node = NodeTestContext::new(1).unwrap();
    let target = hash(0x88);
    let probes = vec![
        AvailabilityProbe { finish_checkpoint: None, block: None },
        AvailabilityProbe { finish_checkpoint: Some(87), block: None },
        AvailabilityProbe { finish_checkpoint: Some(88), block: Some(block(88, 0x88)) },
    ];
    assert!(node.wait_until_block_is_available(&probes, 88, &target).is_ok());
}

#[test]
fn wait_until_block_is_available_fatal_when_block_missing() {
    let node = NodeTestContext::new(1).unwrap();
    let target = hash(0x88);
    let probes = vec![AvailabilityProbe { finish_checkpoint: Some(90), block: None }];
    let err = node.wait_until_block_is_available(&probes, 88, &target).unwrap_err();
    assert!(matches!(err, HarnessError::MissingBlock { number: 88 }));
    assert!(err.is_fatal());
}

#[test]
fn wait_until_block_is_available_fatal_on_wrong_hash() {
    let node = NodeTestContext::new(1).unwrap();
    let target = hash(0x88);
    let probes = vec![
        AvailabilityProbe { finish_checkpoint: Some(88), block: Some(block(88, 0x13)) },
    ];
    let err = node.wait_until_block_is_available(&probes, 88, &target).unwrap_err();
    assert!(matches!(err, HarnessError::HashMismatch { number: 88, .. }));
}

#[test]
fn assert_new_block_scans_until_the_height_matches() {
    let node = NodeTestContext::new(1).unwrap();
    let target = hash(0x05);
    let observations = vec![None, Some(block(4, 0x04)), Some(block(5, 0x05))];
    assert!(node.assert_new_block(&observations, &target, 5).is_ok());

    let observations = vec![Some(block(5, 0x06))];
    let err = node.assert_new_block(&observations, &target, 5).unwrap_err();
    assert!(matches!(err, HarnessError::HashMismatch { number: 5, .. }));

    let observations = vec![None, Some(block(4, 0x04))];
    let err = node.assert_new_block(&observations, &target, 5).unwrap_err();
    assert!(matches!(err, HarnessError::Stalled { number: 5 }));
}

#[test]
fn assery_tx_hash_checks_the_head_transaction() {
    let node = NodeTestContext::new(1).unwrap();
    let tip = hash(0x42);
    assert!(node.assery_tx_hash(Some(&hash(0x42)), &tip).is_ok());
    let err = node.assery_tx_hash(Some(&hash(0x43)), &tip).unwrap_err();
    assert!(matches!(err, HarnessError::TxHashMismatch));
    let err = node.assery_tx_hash(None, &tip).unwrap_err();
    assert!(matches!(err, HarnessError::TxHashMismatch));
}

fn err_name(err: &HarnessError) -> &'static str {
    match err {
        HarnessError::Transport { .. } => "Transport",
        HarnessError::UnexpectedEvent => "UnexpectedEvent",
        HarnessError::StatusMismatch { .. } => "StatusMismatch",
        HarnessError::HashMismatch { .. } => "HashMismatch",
        HarnessError::TxHashMismatch => "TxHashMismatch",
        HarnessError::MissingBlock { .. } => "MissingBlock",
        HarnessError::Stalled { .. } => "Stalled",
    }
}
