//! Engine-API driver logic: payload-status checking for submissions and
//! the fork-choice states the harness directs a node with. The transport
//! itself is asynchronous I/O and stays outside the verified core; these
//! functions decide what every response means.

use vstd::prelude::*;

use crate::primitives::{spec_zero_hash, BlockHash};

verus! {

/// Status a node returns for a submitted payload.
#[derive(Debug)]
pub enum PayloadStatus {
    Valid,
    Invalid { validation_error: String },
    Syncing,
    Accepted,
}

/// Two payload statuses are the same outcome: the same variant, and for
/// rejections the same validation error.
pub open spec fn spec_status_eq(a: PayloadStatus, b: PayloadStatus) -> bool {
    match (a, b) {
        (PayloadStatus::Valid, PayloadStatus::Valid) => true,
        (
            PayloadStatus::Invalid { validation_error: ea },
            PayloadStatus::Invalid { validation_error: eb },
        ) => ea@ == eb@,
        (PayloadStatus::Syncing, PayloadStatus::Syncing) => true,
        (PayloadStatus::Accepted, PayloadStatus::Accepted) => true,
        _ => false,
    }
}

/// Compares two payload statuses, including the validation error of a
/// rejection.
pub fn status_eq(a: &PayloadStatus, b: &PayloadStatus) -> (r: bool)
    ensures
        r <==> spec_status_eq(*a, *b),
{
    match (a, b) {
        (PayloadStatus::Valid, PayloadStatus::Valid) => true,
        (
            PayloadStatus::Invalid { validation_error: ea },
            PayloadStatus::Invalid { validation_error: eb },
        ) => ea.eq(eb),
        (PayloadStatus::Syncing, PayloadStatus::Syncing) => true,
        (PayloadStatus::Accepted, PayloadStatus::Accepted) => true,
        _ => false,
    }
}

/// Everything that can go wrong while driving a node.
///
/// Transport failures and unexpected orchestrator events are recoverable
/// results the caller may handle; invariant violations are fatal to the
/// test; a stall is a poll loop that exhausted its deadline without its
/// awaited condition coming true.
#[derive(Debug)]
pub enum HarnessError {
    /// A transport or protocol failure of an engine or RPC call.
    Transport { message: String },
    /// The payload orchestrator produced an event out of order.
    UnexpectedEvent,
    /// The engine answered a submission with the wrong status.
    StatusMismatch { expected: PayloadStatus, got: PayloadStatus },
    /// A polled block carried the wrong hash.
    HashMismatch { number: u64, expected_hash: BlockHash, got_hash: BlockHash },
    /// A canonical block's first transaction was missing or wrong.
    TxHashMismatch,
    /// The finish checkpoint was reached but the block cannot be fetched.
    MissingBlock { number: u64 },
    /// A poll loop exhausted its deadline.
    Stalled { number: u64 },
}

impl HarnessError {
    /// Whether the error is a broken test invariant, which aborts the
    /// test, rather than a recoverable or liveness condition.
    pub fn is_fatal(&self) -> (r: bool)
        ensures
            r <==> (self is StatusMismatch || self is HashMismatch || self is TxHashMismatch
                || self is MissingBlock),
    {
        match self {
            HarnessError::StatusMismatch { .. } => true,
            HarnessError::HashMismatch { .. } => true,
            HarnessError::TxHashMismatch => true,
            HarnessError::MissingBlock { .. } => true,
            _ => false,
        }
    }
}

/// A fork-choice update: the block hashes the node is directed to adopt
/// as head, safe and finalized.
#[derive(Debug)]
pub struct ForkchoiceState {
    pub head_block_hash: BlockHash,
    pub safe_block_hash: BlockHash,
    pub finalized_block_hash: BlockHash,
}

/// Checks the engine's answer to a payload submission against the status
/// the test expects. A transport failure propagates; any other status
/// than the expected one is a broken invariant; on the expected status
/// the submitted payload's block hash is returned.
pub fn submit_payload(
    response: Result<PayloadStatus, String>,
    payload_block_hash: BlockHash,
    expected_status: PayloadStatus,
) -> (r: Result<BlockHash, HarnessError>)
    ensures
        r == match response {
            Err(message) => Err::<BlockHash, HarnessError>(HarnessError::Transport { message }),
            Ok(got) => {
                if spec_status_eq(got, expected_status) {
                    Ok::<BlockHash, HarnessError>(payload_block_hash)
                } else {
                    Err::<BlockHash, HarnessError>(
                        HarnessError::StatusMismatch { expected: expected_status, got },
                    )
                }
            },
        },
{
    match response {
        Err(message) => Err(HarnessError::Transport { message }),
        Ok(got) => {
            if status_eq(&got, &expected_status) {
                Ok(payload_block_hash)
            } else {
                Err(HarnessError::StatusMismatch { expected: expected_status, got })
            }
        },
    }
}

/// The fork-choice state of a standard update: the new head, with the
/// same block named safe and finalized, committing a submitted payload.
pub fn update_forkchoice(head: BlockHash, safe: BlockHash) -> (r: ForkchoiceState)
    ensures
        r.head_block_hash@ == head@,
        r.safe_block_hash@ == safe@,
        r.finalized_block_hash@ == safe@,
{
    ForkchoiceState { head_block_hash: head, safe_block_hash: safe, finalized_block_hash: safe }
}

/// The fork-choice state of an optimistic update: a head that has not
/// been validated yet, with no safe or finalized block named.
pub fn update_optimistic_forkchoice(head: BlockHash) -> (r: ForkchoiceState)
    ensures
        r.head_block_hash@ == head@,
        r.safe_block_hash@ == spec_zero_hash(),
        r.finalized_block_hash@ == spec_zero_hash(),
{
    ForkchoiceState {
        head_block_hash: head,
        safe_block_hash: BlockHash::zero(),
        finalized_block_hash: BlockHash::zero(),
    }
}

} // verus!
