//! Transaction generation: signing and encoding through the real
//! cryptography, nonce sequencing, the canned payloads, hex decoding, and
//! the rate-limited stream machine.

use alloy_consensus::transaction::SignerRecoverable;
use alloy_consensus::TxEnvelope;
use alloy_eips::eip2718::Decodable2718;
use alloy_primitives::{TxKind, U256};

use e2e_test_utils::primitives::{hex_decode, BlockHash};
use e2e_test_utils::transaction::{
    block_info_data, StreamPoll, TransactionStream, TransactionTestContext, TxEnvelopeKind,
    TxGeneratorKind,
};
use e2e_test_utils::wallet::WalletGenerator;

fn decode_eip1559(bytes: &[u8]) -> (TxEnvelope, alloy_consensus::TxEip1559) {
    let envelope = TxEnvelope::decode_2718(&mut &bytes[..]).expect("should decode");
    let tx = match &envelope {
        TxEnvelope::Eip1559(signed) => signed.tx().clone(),
        other => panic!("expected an EIP-1559 envelope, got {:?}", other),
    };
    (envelope, tx)
}

#[test]
fn eip1559_signs_a_decodable_transfer() {
    let mut wallet = WalletGenerator::new().gen().expect("derivation should succeed");
    let expected_signer = wallet.address().unwrap();
    let bytes = wallet.eip1559().expect("signing should succeed");
    assert_eq!(bytes[0], 2, "EIP-2718 type byte of an EIP-1559 transaction");

    let (envelope, tx) = decode_eip1559(&bytes);
    assert_eq!(tx.chain_id, 1);
    assert_eq!(tx.nonce, 0);
    assert_eq!(tx.gas_limit, 21_000);
    assert_eq!(tx.max_fee_per_gas, 25_000_000_000);
    assert_eq!(tx.max_priority_fee_per_gas, 25_000_000_000);
    assert_eq!(tx.value, U256::from(1u64));
    assert!(tx.input.is_empty());
    assert!(matches!(tx.to, TxKind::Call(_)));

    let signer = envelope.recover_signer().expect("signature should recover");
    assert_eq!(signer.to_string(), expected_signer);
}

#[test]
fn sequential_signing_emits_sequential_nonces() {
    let mut wallet = WalletGenerator::new().gen().expect("derivation should succeed");
    for expected_nonce in 0u64..5 {
        let bytes = wallet.eip1559().expect("signing should succeed");
        let (_, tx) = decode_eip1559(&bytes);
        assert_eq!(tx.nonce, expected_nonce);
    }
    assert_eq!(wallet.tx_gen.nonce, 5);
}

#[test]
fn optimism_block_info_carries_the_canned_payload() {
    let mut wallet = WalletGenerator::new().chain_id(8453u64).gen().unwrap();
    let bytes = wallet.optimism_block_info().expect("signing should succeed");
    let (_, tx) = decode_eip1559(&bytes);
    assert_eq!(tx.chain_id, 8453);
    assert_eq!(tx.nonce, 0);
    assert_eq!(tx.gas_limit, 210_000);
    assert_eq!(tx.max_fee_per_gas, 20_000_000_000);
    let payload = block_info_data();
    assert_eq!(tx.input.as_ref(), payload.as_slice());
}

#[test]
fn block_info_payload_decodes_from_hex() {
    let payload = block_info_data();
    assert_eq!(payload.len(), 350);
    assert_eq!(payload[0], 0x7e);
    assert_eq!(payload[1], 0xf9);
    assert_eq!(payload[2], 0x01);
    assert_eq!(payload[3], 0x5a);
    assert_eq!(payload[payload.len() - 1], 0x40);
}

#[test]
fn hex_decode_reads_pairs() {
    assert_eq!(hex_decode("00ff10"), vec![0u8, 255, 16]);
    assert_eq!(hex_decode("DEADbeef"), vec![0xde, 0xad, 0xbe, 0xef]);
    assert_eq!(hex_decode(""), Vec::<u8>::new());
    // A trailing odd digit is ignored, and non-digits count as zero.
    assert_eq!(hex_decode("0f1"), vec![15u8]);
    assert_eq!(hex_decode("zz"), vec![0u8]);
}

#[test]
fn eip4844_fields_describe_the_dummy_blob_transaction() {
    let wallet = WalletGenerator::new().gen().unwrap();
    let fields = wallet.eip4844();
    assert_eq!(fields.chain_id, 1);
    assert_eq!(fields.nonce, 0);
    assert_eq!(fields.gas_limit, 21_000);
    assert_eq!(fields.max_fee_per_gas, 20_000_000_000);
    assert_eq!(fields.max_priority_fee_per_gas, 20_000_000_000);
    assert_eq!(fields.value_wei, 1);
    assert_eq!(fields.max_fee_per_blob_gas, 1);
    assert_eq!(fields.blob_versioned_hashes.len(), 1);
    assert_eq!(fields.blob_data, b"dummy blob".to_vec());
}

#[test]
fn validate_sidecar_returns_the_versioned_hashes() {
    let hash = BlockHash::new([7u8; 32]);
    let kind = TxEnvelopeKind::Eip4844WithSidecar {
        blob_valid: true,
        versioned_hashes: vec![hash],
    };
    let hashes = TransactionTestContext::validate_sidecar(kind);
    assert_eq!(hashes.len(), 1);
    assert_eq!(hashes[0], hash);
}

#[test]
fn nonce_increments_one_by_one() {
    let mut ctx = TransactionTestContext::new(1, vec![1u8; 32]);
    assert_eq!(ctx.nonce, 0);
    ctx.inc_nonce();
    ctx.inc_nonce();
    assert_eq!(ctx.nonce, 2);
}

#[test]
fn stream_defaults_to_one_hundred_per_second() {
    let stream = TransactionStream::new(TxGeneratorKind::Eip1559Transfer);
    assert_eq!(stream.interval_nanos, 10_000_000);
    let stream = stream.tx_per_sec(200);
    assert_eq!(stream.interval_nanos, 5_000_000);
    let stream = stream.tx_per_sec(1);
    assert_eq!(stream.interval_nanos, 1_000_000_000);
}

#[test]
fn stream_emits_once_per_tick() {
    let mut stream = TransactionStream::new(TxGeneratorKind::Eip1559Transfer);

    // Nothing can be emitted before the timer first fires.
    assert!(matches!(stream.poll_next(None, false), StreamPoll::Suspended));
    assert!(stream.in_flight);

    // A tick opens the rate gate; the caller loops and hands in the
    // completed generation, which is emitted at once.
    assert!(matches!(stream.poll_next(None, true), StreamPoll::Progressed));
    let out = stream.poll_next(Some(vec![1, 2, 3]), false);
    match out {
        StreamPoll::Emitted(bytes) => assert_eq!(bytes, vec![1, 2, 3]),
        _ => panic!("expected an emission once a tick fired and the item was ready"),
    }

    // That emission used up the tick: nothing more comes out before
    // the timer fires again.
    assert!(matches!(stream.poll_next(None, false), StreamPoll::Suspended));
    assert!(matches!(stream.poll_next(Some(vec![4]), true), StreamPoll::Progressed));
    assert!(matches!(stream.poll_next(Some(vec![4]), false), StreamPoll::Emitted(_)));
}

#[test]
fn stream_restarts_generation_after_each_emission() {
    let mut stream = TransactionStream::new(TxGeneratorKind::OptimismBlockInfo);
    assert!(!stream.in_flight);
    assert!(matches!(stream.poll_next(None, true), StreamPoll::Progressed));
    assert!(stream.in_flight);
    match stream.poll_next(Some(vec![9]), false) {
        StreamPoll::Emitted(_) => {}
        _ => panic!("expected an emission"),
    }
    // The slot was cleared by the emission; the next poll starts a new
    // generation task.
    assert!(!stream.in_flight);
    assert!(matches!(stream.poll_next(None, false), StreamPoll::Suspended));
    assert!(stream.in_flight);
}
