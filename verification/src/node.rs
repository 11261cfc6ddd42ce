//! The block-advancement state machine: payload construction, engine
//! submission, fork-choice confirmation, and checkpoint-based polling,
//! with the reorg and optimistic-sync primitives.
//!
//! The node itself runs outside the verified core; every function here
//! decides over plain observations of it — engine responses, orchestrator
//! events, checkpoint values and polled blocks — which the embedding
//! supplies. Poll loops take a finite script of observations, so every
//! wait carries an explicit deadline and a stalled node surfaces as an
//! error instead of a hang.

use vstd::prelude::*;

use crate::engine_api::{spec_status_eq, submit_payload, update_forkchoice, HarnessError,
    PayloadStatus};
use crate::primitives::{spec_zero_hash, BlockHash};
use crate::transaction::{TransactionStream, TxGeneratorKind, DEFAULT_TX_PER_SEC, NANOS_PER_SEC};
use crate::wallet::{spec_derivable, spec_derivation_path_at, spec_derived_key,
    spec_test_mnemonic, Wallet, WalletGenerator};

verus! {

/// A block the node reported: its height and hash.
#[derive(Clone, Copy, Debug)]
pub struct BlockRef {
    pub number: u64,
    pub hash: BlockHash,
}

/// The attributes a payload is requested with. In this harness attributes
/// differ only in their timestamp, which therefore serves as the payload
/// id correlating orchestrator events with requests.
#[derive(Debug)]
pub struct PayloadAttributes {
    pub timestamp: u64,
    pub prev_randao: BlockHash,
    /// 20-byte fee recipient address.
    pub suggested_fee_recipient: Vec<u8>,
    /// Whether an (empty) withdrawals list is attached.
    pub withdrawals_attached: bool,
    pub parent_beacon_block_root: Option<BlockHash>,
    /// A gas limit override, used by OP-stack payloads.
    pub gas_limit: Option<u64>,
}

impl PayloadAttributes {
    /// The identity used to correlate orchestrator events with this
    /// request.
    pub fn payload_id(&self) -> (r: u64)
        ensures
            r == self.timestamp,
    {
        self.timestamp
    }
}

/// The flavour of payload attributes a chain expects.
#[derive(Clone, Copy, Debug)]
pub enum AttributesKind {
    Ethereum,
    Optimism,
}

/// The gas limit override each attributes flavour carries.
pub open spec fn spec_gas_limit(kind: AttributesKind) -> Option<u64> {
    match kind {
        AttributesKind::Ethereum => None,
        AttributesKind::Optimism => Some(30_000_000u64),
    }
}

/// The attributes this harness requests every payload with: the given
/// timestamp, zero randao, the zero fee recipient, an empty withdrawals
/// list, the zero parent beacon root, and the flavour's gas limit.
pub open spec fn spec_attributes(a: PayloadAttributes, kind: AttributesKind, timestamp: u64) -> bool {
    &&& a.timestamp == timestamp
    &&& a.prev_randao@ == spec_zero_hash()
    &&& a.suggested_fee_recipient@ == Seq::<u8>::new(20, |i: int| 0u8)
    &&& a.withdrawals_attached
    &&& a.parent_beacon_block_root matches Some(z) && z@ == spec_zero_hash()
    &&& a.gas_limit == spec_gas_limit(kind)
}

/// Builds the payload attributes for one timestamp.
pub fn generate_attributes(kind: AttributesKind, timestamp: u64) -> (r: PayloadAttributes)
    ensures
        spec_attributes(r, kind, timestamp),
{
    let mut recipient: Vec<u8> = Vec::new();
    let mut i: usize = 0;
    while i < 20
        invariant
            i <= 20,
            recipient@.len() == i,
            forall|j: int| 0 <= j < i ==> recipient@[j] == 0u8,
        decreases 20 - i,
    {
        recipient.push(0u8);
        i += 1;
    }
    proof {
        assert(recipient@ =~= Seq::<u8>::new(20, |i: int| 0u8));
    }
    let gas_limit = match kind {
        AttributesKind::Ethereum => None,
        AttributesKind::Optimism => Some(30_000_000u64),
    };
    PayloadAttributes {
        timestamp,
        prev_randao: BlockHash::zero(),
        suggested_fee_recipient: recipient,
        withdrawals_attached: true,
        parent_beacon_block_root: Some(BlockHash::zero()),
        gas_limit,
    }
}

/// A freshly created stream over the given strategy: default rate,
/// nothing in flight, nothing emitted.
pub open spec fn spec_fresh_stream(s: TransactionStream, generator: TxGeneratorKind) -> bool {
    &&& s.generator == generator
    &&& s.interval_nanos == NANOS_PER_SEC / DEFAULT_TX_PER_SEC
    &&& !s.in_flight
    &&& !s.gate_open
    &&& s.emitted@ == 0
    &&& s.ticks@ == 0
    &&& s.started@ == 0
}

/// A payload the orchestrator finished building: the block it holds and
/// the timestamp of the attributes it was requested with.
#[derive(Clone, Copy, Debug)]
pub struct BuiltPayload {
    pub block: BlockRef,
    pub timestamp: u64,
}

/// One observation the embedding hands the advancement machine.
pub enum AdvanceEvent {
    /// The orchestrator accepted payload attributes.
    AttributesAccepted(PayloadAttributes),
    /// The orchestrator finished building a payload.
    PayloadBuilt(BuiltPayload),
    /// The engine answered a payload submission.
    SubmitResponse(Result<PayloadStatus, String>),
    /// The engine answered a fork-choice update.
    ForkchoiceAcked(Result<(), String>),
    /// A poll of the node's latest block.
    LatestBlock(Option<BlockRef>),
}

/// Owned copy of a payload status.
fn copy_status(s: &PayloadStatus) -> (r: PayloadStatus)
    ensures
        r == *s,
{
    match s {
        PayloadStatus::Valid => PayloadStatus::Valid,
        PayloadStatus::Invalid { validation_error } => PayloadStatus::Invalid {
            validation_error: validation_error.clone(),
        },
        PayloadStatus::Syncing => PayloadStatus::Syncing,
        PayloadStatus::Accepted => PayloadStatus::Accepted,
    }
}

/// Owned copy of an engine submission response.
fn copy_submit_response(r: &Result<PayloadStatus, String>) -> (c: Result<PayloadStatus, String>)
    ensures
        c == *r,
{
    match r {
        Ok(s) => Ok(copy_status(s)),
        Err(m) => Err(m.clone()),
    }
}

/// A finish checkpoint at or past the block number means the node has
/// durably processed that block.
pub open spec fn spec_checkpoint_reached(checkpoint: Option<u64>, number: u64) -> bool {
    checkpoint matches Some(c) && c >= number
}

/// What polling the node's latest block until it reports the expected one
/// returns: confirmation on the first poll whose reported height matches
/// — fatal if its hash differs — and a stall if the script runs out.
pub open spec fn spec_assert_new_block(
    obs: Seq<Option<BlockRef>>,
    hash: BlockHash,
    number: u64,
) -> Result<(), HarnessError>
    decreases obs.len(),
{
    if obs.len() == 0 {
        Err(HarnessError::Stalled { number })
    } else {
        match obs[0] {
            Some(b) => {
                if b.number == number {
                    if b.hash@ == hash@ {
                        Ok(())
                    } else {
                        Err(
                            HarnessError::HashMismatch {
                                number,
                                expected_hash: hash,
                                got_hash: b.hash,
                            },
                        )
                    }
                } else {
                    spec_assert_new_block(obs.drop_first(), hash, number)
                }
            },
            None => spec_assert_new_block(obs.drop_first(), hash, number),
        }
    }
}

/// One probe of block availability: the node's finish checkpoint, and the
/// block it reports at the probed height.
#[derive(Clone, Copy, Debug)]
pub struct AvailabilityProbe {
    pub finish_checkpoint: Option<u64>,
    pub block: Option<BlockRef>,
}

/// What waiting for a block to become available returns: once the finish
/// checkpoint reaches the height, the block must be fetchable — anything
/// else is an internal inconsistency — and must carry the expected hash.
pub open spec fn spec_wait_until_block_is_available(
    probes: Seq<AvailabilityProbe>,
    number: u64,
    expected: BlockHash,
) -> Result<(), HarnessError>
    decreases probes.len(),
{
    if probes.len() == 0 {
        Err(HarnessError::Stalled { number })
    } else if spec_checkpoint_reached(probes[0].finish_checkpoint, number) {
        match probes[0].block {
            Some(b) => {
                if b.hash@ == expected@ {
                    Ok(())
                } else {
                    Err(
                        HarnessError::HashMismatch {
                            number,
                            expected_hash: expected,
                            got_hash: b.hash,
                        },
                    )
                }
            },
            None => Err(HarnessError::MissingBlock { number }),
        }
    } else {
        spec_wait_until_block_is_available(probes.drop_first(), number, expected)
    }
}

/// What waiting for an unwind returns: confirmation on the first probe
/// whose headers checkpoint is exactly the unwind target, a stall if the
/// script runs out first.
pub open spec fn spec_wait_unwind(checkpoints: Seq<Option<u64>>, number: u64) -> Result<
    (),
    HarnessError,
>
    decreases checkpoints.len(),
{
    if checkpoints.len() == 0 {
        Err(HarnessError::Stalled { number })
    } else if checkpoints[0] matches Some(c) && c == number {
        Ok(())
    } else {
        spec_wait_unwind(checkpoints.drop_first(), number)
    }
}

/// Law (optimistic sync): waiting for a block at `number` succeeds
/// exactly when the finish checkpoint first reaches `number` and the node
/// hands out the expected block there. Directing fork-choice
/// optimistically to an unvalidated head therefore confirms as soon as
/// the node's pipeline catches up to it.
pub proof fn lemma_wait_succeeds_at_checkpoint(
    probes: Seq<AvailabilityProbe>,
    number: u64,
    expected: BlockHash,
    i: int,
)
    requires
        0 <= i < probes.len(),
        forall|j: int|
            0 <= j < i ==> !spec_checkpoint_reached(
                (#[trigger] probes[j]).finish_checkpoint,
                number,
            ),
        spec_checkpoint_reached(probes[i].finish_checkpoint, number),
        probes[i].block matches Some(b) && b.hash@ == expected@,
    ensures
        spec_wait_until_block_is_available(probes, number, expected) == Ok::<(), HarnessError>(()),
    decreases i,
{
    if i > 0 {
        let rest = probes.drop_first();
        assert(rest[i - 1] == probes[i]);
        assert forall|j: int|
            0 <= j < i - 1 implies !spec_checkpoint_reached(
            (#[trigger] rest[j]).finish_checkpoint,
            number,
        ) by {
            assert(rest[j] == probes[j + 1]);
        }
        lemma_wait_succeeds_at_checkpoint(rest, number, expected, i - 1);
    }
}

/// What one advancement attempt returns, and where it leaves the event
/// cursor, for a payload requested at timestamp `ts` over the script
/// `events` from position `cursor`: the orchestrator must accept the
/// attributes and build the payload, the engine must answer the
/// submission Valid — a transport failure propagates with its message, a
/// different status is a mismatch — the fork-choice update must be
/// acknowledged, and the node must then report the built block.
pub open spec fn spec_advance(ts: u64, events: Seq<AdvanceEvent>, cursor: int) -> (Result<
    (BuiltPayload, BlockHash),
    HarnessError,
>, int) {
    if cursor + 1 >= events.len() {
        (Err(HarnessError::UnexpectedEvent), cursor)
    } else {
        match events[cursor] {
            AdvanceEvent::AttributesAccepted(aa) => {
                if aa.timestamp != ts {
                    (Err(HarnessError::UnexpectedEvent), cursor)
                } else {
                    match events[cursor + 1] {
                        AdvanceEvent::PayloadBuilt(p) => {
                            if p.timestamp != ts {
                                (Err(HarnessError::UnexpectedEvent), cursor)
                            } else {
                                spec_submit_phase(p, events, cursor + 2)
                            }
                        },
                        _ => (Err(HarnessError::UnexpectedEvent), cursor),
                    }
                }
            },
            _ => (Err(HarnessError::UnexpectedEvent), cursor),
        }
    }
}

/// The submission and fork-choice phase of one advancement attempt.
pub open spec fn spec_submit_phase(
    payload: BuiltPayload,
    events: Seq<AdvanceEvent>,
    cursor: int,
) -> (Result<(BuiltPayload, BlockHash), HarnessError>, int) {
    if cursor >= events.len() {
        (Err(HarnessError::UnexpectedEvent), cursor)
    } else {
        match events[cursor] {
            AdvanceEvent::SubmitResponse(resp) => match resp {
                Err(message) => (Err(HarnessError::Transport { message }), cursor),
                Ok(st) => {
                    if !spec_status_eq(st, PayloadStatus::Valid) {
                        (
                            Err(
                                HarnessError::StatusMismatch {
                                    expected: PayloadStatus::Valid,
                                    got: st,
                                },
                            ),
                            cursor,
                        )
                    } else if cursor + 1 >= events.len() {
                        (Err(HarnessError::UnexpectedEvent), cursor + 1)
                    } else {
                        match events[cursor + 1] {
                            AdvanceEvent::ForkchoiceAcked(ack) => match ack {
                                Err(message) => (
                                    Err(HarnessError::Transport { message }),
                                    cursor + 1,
                                ),
                                Ok(_) => spec_confirm(payload, events, cursor + 2),
                            },
                            _ => (Err(HarnessError::UnexpectedEvent), cursor + 1),
                        }
                    }
                },
            },
            _ => (Err(HarnessError::UnexpectedEvent), cursor),
        }
    }
}

/// The confirmation phase of one advancement attempt: poll the latest
/// block until the built block is reported; a same-height report with
/// another hash is fatal, a non-poll event is out of order, and an
/// exhausted script is a stall.
pub open spec fn spec_confirm(
    payload: BuiltPayload,
    events: Seq<AdvanceEvent>,
    cursor: int,
) -> (Result<(BuiltPayload, BlockHash), HarnessError>, int)
    decreases events.len() - cursor,
{
    if cursor >= events.len() {
        (Err(HarnessError::Stalled { number: payload.block.number }), cursor)
    } else {
        match events[cursor] {
            AdvanceEvent::LatestBlock(obs) => match obs {
                Some(b) => {
                    if b.number == payload.block.number {
                        if b.hash@ == payload.block.hash@ {
                            (Ok((payload, payload.block.hash)), cursor + 1)
                        } else {
                            (
                                Err(
                                    HarnessError::HashMismatch {
                                        number: payload.block.number,
                                        expected_hash: payload.block.hash,
                                        got_hash: b.hash,
                                    },
                                ),
                                cursor + 1,
                            )
                        }
                    } else {
                        spec_confirm(payload, events, cursor + 1)
                    }
                },
                None => spec_confirm(payload, events, cursor + 1),
            },
            _ => (Err(HarnessError::UnexpectedEvent), cursor + 1),
        }
    }
}

/// The payloads of a returned chain.
pub open spec fn spec_chain_payloads(chain: Seq<(BuiltPayload, PayloadAttributes)>) -> Seq<
    BuiltPayload,
> {
    chain.map_values(|pr: (BuiltPayload, PayloadAttributes)| pr.0)
}

/// What advancing `count` blocks returns, and where it leaves the event
/// cursor: the advancement attempts run back to back, each picking up
/// the cursor and timestamp where the previous one stopped, and the
/// first failure propagates.
pub open spec fn spec_advance_many(
    ts: u64,
    events: Seq<AdvanceEvent>,
    cursor: int,
    count: nat,
) -> (Result<Seq<BuiltPayload>, HarnessError>, int)
    decreases count,
{
    if count == 0 {
        (Ok(Seq::empty()), cursor)
    } else {
        let step = spec_advance((ts + 1) as u64, events, cursor);
        match step.0 {
            Err(e) => (Err(e), step.1),
            Ok(ph) => {
                let rest = spec_advance_many((ts + 1) as u64, events, step.1, (count - 1) as nat);
                match rest.0 {
                    Err(e) => (Err(e), rest.1),
                    Ok(tail) => (Ok(seq![ph.0] + tail), rest.1),
                }
            },
        }
    }
}

/// A node under test: the harness-side state needed to drive one node —
/// the next payload timestamp, the signing wallet, and the pending
/// transaction stream, consumed once when injected.
pub struct NodeTestContext {
    /// Timestamp of the most recently requested payload.
    pub payload_timestamp: u64,
    /// The wallet whose transactions populate the node's mempool.
    pub wallet: Wallet,
    /// The pending transaction stream, present until injected.
    pub tx_stream: Option<TransactionStream>,
}

impl NodeTestContext {
    /// Creates the harness state for a fresh node on the given chain: the
    /// first test wallet and a default stream of EIP-1559 transfers. This
    /// succeeds exactly when the derivation library accepts the test
    /// mnemonic and the first account's path.
    pub fn new(chain_id: u64) -> (r: Option<NodeTestContext>)
        ensures
            r is Some <==> spec_derivable(spec_test_mnemonic(), spec_derivation_path_at(0)),
            r matches Some(ctx) ==> {
                &&& ctx.payload_timestamp == 0
                &&& ctx.wallet.chain_id == chain_id
                &&& ctx.wallet.key@ == spec_derived_key(
                    spec_test_mnemonic(),
                    spec_derivation_path_at(0),
                )
                &&& ctx.wallet.tx_gen.nonce == 0
                &&& ctx.wallet.tx_gen.chain_id == chain_id
                &&& ctx.wallet.tx_gen.key@ == ctx.wallet.key@
                &&& ctx.wallet.tx_gen.nonces_sequential()
                &&& ctx.tx_stream matches Some(s) && spec_fresh_stream(
                    s,
                    TxGeneratorKind::Eip1559Transfer,
                )
            },
    {
        let generator = WalletGenerator::new().chain_id(chain_id);
        let wallet = generator.gen();
        match wallet {
            Some(wallet) => {
                let stream = TransactionStream::new(TxGeneratorKind::Eip1559Transfer);
                Some(NodeTestContext { payload_timestamp: 0, wallet, tx_stream: Some(stream) })
            },
            None => None,
        }
    }

    /// Replaces the pending stream with one over the given generation
    /// strategy.
    pub fn set_tx_generator(self, generator: TxGeneratorKind) -> (r: Self)
        ensures
            r.payload_timestamp == self.payload_timestamp,
            r.wallet == self.wallet,
            r.tx_stream matches Some(s) && spec_fresh_stream(s, generator),
    {
        NodeTestContext { tx_stream: Some(TransactionStream::new(generator)), ..self }
    }

    /// Takes the pending transaction stream for injection into the node's
    /// mempool; the caller drives it as a background task. The stream is
    /// consumed: it can be taken only once.
    pub fn inject_pending_stream(&mut self) -> (r: TransactionStream)
        requires
            old(self).tx_stream is Some,
        ensures
            old(self).tx_stream == Some(r),
            final(self).tx_stream is None,
            final(self).payload_timestamp == old(self).payload_timestamp,
            final(self).wallet == old(self).wallet,
    {
        let stream = match self.tx_stream {
            Some(s) => s,
            None => {
                proof {
                    assert(false);
                }
                TransactionStream::new(TxGeneratorKind::Eip1559Transfer)
            },
        };
        self.tx_stream = None;
        stream
    }

    /// Requests a payload with the next timestamp and checks the two
    /// orchestrator events against it: the attributes must be accepted
    /// and the payload built, both correlated by the request's payload
    /// id.
    pub fn new_payload(
        &mut self,
        kind: AttributesKind,
        attr_event: &AdvanceEvent,
        built_event: &AdvanceEvent,
    ) -> (r: Result<(BuiltPayload, PayloadAttributes), HarnessError>)
        requires
            old(self).payload_timestamp < u64::MAX,
        ensures
            final(self).payload_timestamp == old(self).payload_timestamp + 1,
            final(self).wallet == old(self).wallet,
            final(self).tx_stream == old(self).tx_stream,
            r matches Ok((p, a)) ==> {
                &&& spec_attributes(a, kind, (old(self).payload_timestamp + 1) as u64)
                &&& *built_event matches AdvanceEvent::PayloadBuilt(pb) && pb == p
                &&& p.timestamp == old(self).payload_timestamp + 1
                &&& *attr_event matches AdvanceEvent::AttributesAccepted(aa) && aa.timestamp == old(
                    self,
                ).payload_timestamp + 1
            },
            r is Err ==> r == Err::<(BuiltPayload, PayloadAttributes), HarnessError>(
                HarnessError::UnexpectedEvent,
            ),
            r is Err <==> !((*attr_event matches AdvanceEvent::AttributesAccepted(aa)
                && aa.timestamp == old(self).payload_timestamp + 1) && (*built_event
                matches AdvanceEvent::PayloadBuilt(pb) && pb.timestamp == old(
                self,
            ).payload_timestamp + 1)),
    {
        self.payload_timestamp = self.payload_timestamp + 1;
        let attrs = generate_attributes(kind, self.payload_timestamp);
        let accepted = match attr_event {
            AdvanceEvent::AttributesAccepted(aa) => aa.timestamp == attrs.timestamp,
            _ => false,
        };
        if !accepted {
            return Err(HarnessError::UnexpectedEvent);
        }
        match built_event {
            AdvanceEvent::PayloadBuilt(pb) => {
                if pb.timestamp == attrs.timestamp {
                    Ok((*pb, attrs))
                } else {
                    Err(HarnessError::UnexpectedEvent)
                }
            },
            _ => Err(HarnessError::UnexpectedEvent),
        }
    }

    /// Advances the node one block: request and await a payload, submit
    /// it expecting a Valid status, direct fork-choice to it, and poll
    /// until the node reports it as the latest block. Events are consumed
    /// from `events` starting at `cursor`, which is left after the last
    /// event read; the remainder of the script bounds the confirmation
    /// wait.
    ///
    /// On success the node reported the returned payload's block — the
    /// last consumed event is that report — after the engine answered the
    /// submission with Valid.
    #[verifier::loop_isolation(false)]
    pub fn advance(
        &mut self,
        kind: AttributesKind,
        events: &Vec<AdvanceEvent>,
        cursor: &mut usize,
    ) -> (r: Result<(BuiltPayload, PayloadAttributes, BlockHash), HarnessError>)
        requires
            old(self).payload_timestamp < u64::MAX,
            *old(cursor) <= events@.len(),
        ensures
            final(self).payload_timestamp == old(self).payload_timestamp + 1,
            final(self).wallet == old(self).wallet,
            final(self).tx_stream == old(self).tx_stream,
            *old(cursor) <= *final(cursor) <= events@.len(),
            // The outcome and the final cursor equal the scripted
            // semantics: success is owed exactly on a well-formed script,
            // and every failure — a transport message forwarded
            // unchanged, a status or hash mismatch, an out-of-order
            // event, a stall at the deadline — is the one the script
            // dictates.
            ({
                let outcome = spec_advance(
                    (old(self).payload_timestamp + 1) as u64,
                    events@,
                    *old(cursor) as int,
                );
                &&& *final(cursor) == outcome.1
                &&& (r is Ok <==> outcome.0 is Ok)
                &&& (r matches Ok((p, a, h)) ==> outcome.0 == Ok::<
                    (BuiltPayload, BlockHash),
                    HarnessError,
                >((p, h)))
                &&& (r matches Err(e) ==> outcome.0 == Err::<
                    (BuiltPayload, BlockHash),
                    HarnessError,
                >(e))
            }),
            // A deadline exhaustion can only be reported once the whole
            // script has been consumed.
            (r matches Err(e) && e is Stalled) ==> *final(cursor) == events@.len(),
            r matches Ok((p, a, h)) ==> {
                &&& spec_attributes(a, kind, (old(self).payload_timestamp + 1) as u64)
                &&& p.timestamp == old(self).payload_timestamp + 1
                &&& h@ == p.block.hash@
                &&& (events@[*old(cursor) as int] matches AdvanceEvent::AttributesAccepted(aa)
                    && aa.timestamp == old(self).payload_timestamp + 1)
                &&& (events@[*old(cursor) + 1] matches AdvanceEvent::PayloadBuilt(pb) && pb == p)
                &&& *final(cursor) >= 1
                &&& events@[*final(cursor) - 1] matches AdvanceEvent::LatestBlock(Some(b))
                    && b.number == p.block.number && b.hash@ == p.block.hash@
                &&& (exists|i: int|
                    {
                        &&& *old(cursor) <= i < *final(cursor)
                        &&& (#[trigger] events@[i] matches AdvanceEvent::SubmitResponse(resp)
                            && resp matches Ok(st) && st is Valid)
                    })
            },
    {
        let ghost ts = (old(self).payload_timestamp + 1) as u64;
        let ghost c0 = *old(cursor) as int;
        let ghost outcome = spec_advance(ts, events@, c0);

        // Request the payload and await the orchestrator.
        if *cursor >= events.len() || *cursor + 1 >= events.len() {
            self.payload_timestamp = self.payload_timestamp + 1;
            return Err(HarnessError::UnexpectedEvent);
        }
        let attr_event = &events[*cursor];
        let built_event = &events[*cursor + 1];
        let built = self.new_payload(kind, attr_event, built_event);
        let (payload, attrs) = match built {
            Ok(pa) => pa,
            Err(e) => {
                return Err(e);
            },
        };
        *cursor = *cursor + 2;

        // Submit the payload, expecting it to validate.
        if *cursor >= events.len() {
            return Err(HarnessError::UnexpectedEvent);
        }
        let ghost submit_idx = *cursor as int;
        let response = match &events[*cursor] {
            AdvanceEvent::SubmitResponse(resp) => resp,
            _ => {
                return Err(HarnessError::UnexpectedEvent);
            },
        };
        let submitted = submit_payload(
            copy_submit_response(response),
            payload.block.hash,
            PayloadStatus::Valid,
        );
        let block_hash = match submitted {
            Ok(h) => h,
            Err(e) => {
                return Err(e);
            },
        };
        *cursor = *cursor + 1;

        // Commit the block via a fork-choice update naming it head.
        if *cursor >= events.len() {
            return Err(HarnessError::UnexpectedEvent);
        }
        let ack = match &events[*cursor] {
            AdvanceEvent::ForkchoiceAcked(resp) => resp,
            _ => {
                return Err(HarnessError::UnexpectedEvent);
            },
        };
        match ack {
            Ok(_) => {},
            Err(m) => {
                return Err(HarnessError::Transport { message: m.clone() });
            },
        }
        let _forkchoice = update_forkchoice(block_hash, block_hash);
        *cursor = *cursor + 1;
        proof {
            assert(outcome == spec_confirm(payload, events@, *cursor as int));
        }

        // Poll until the node reports the block as its latest.
        while *cursor < events.len()
            invariant
                *old(cursor) <= *cursor <= events@.len(),
                submit_idx < *cursor,
                outcome == spec_confirm(payload, events@, *cursor as int),
            decreases events@.len() - *cursor,
        {
            match &events[*cursor] {
                AdvanceEvent::LatestBlock(Some(b)) => {
                    if b.number == payload.block.number {
                        *cursor = *cursor + 1;
                        return if b.hash.same(&payload.block.hash) {
                            Ok((payload, attrs, block_hash))
                        } else {
                            Err(
                                HarnessError::HashMismatch {
                                    number: payload.block.number,
                                    expected_hash: payload.block.hash,
                                    got_hash: b.hash,
                                },
                            )
                        };
                    }
                },
                AdvanceEvent::LatestBlock(None) => {},
                _ => {
                    *cursor = *cursor + 1;
                    return Err(HarnessError::UnexpectedEvent);
                },
            }
            *cursor = *cursor + 1;
        }
        Err(HarnessError::Stalled { number: payload.block.number })
    }

    /// Attaches the pending transaction stream and advances the chain
    /// `length` blocks, returning the added chain of payloads and
    /// attributes in order, together with the stream for the caller to
    /// drive as the injection task.
    #[verifier::loop_isolation(false)]
    pub fn advance_many(
        &mut self,
        length: u64,
        kind: AttributesKind,
        events: &Vec<AdvanceEvent>,
        cursor: &mut usize,
    ) -> (r: Result<(Vec<(BuiltPayload, PayloadAttributes)>, TransactionStream), HarnessError>)
        requires
            old(self).payload_timestamp + length <= u64::MAX,
            *old(cursor) <= events@.len(),
            old(self).tx_stream is Some,
        ensures
            *old(cursor) <= *final(cursor) <= events@.len(),
            final(self).tx_stream is None,
            final(self).wallet == old(self).wallet,
            old(self).payload_timestamp <= final(self).payload_timestamp <= old(
                self,
            ).payload_timestamp + length,
            // The outcome and the final cursor equal the scripted
            // semantics, and each returned payload is the one carried by
            // the corresponding consumed payload-built event.
            ({
                let outcome = spec_advance_many(
                    old(self).payload_timestamp,
                    events@,
                    *old(cursor) as int,
                    length as nat,
                );
                &&& *final(cursor) == outcome.1
                &&& (r is Ok <==> outcome.0 is Ok)
                &&& (r matches Ok((chain, stream)) ==> (outcome.0 matches Ok(payloads)
                    && payloads.len() == length && (forall|i: int|
                    0 <= i < length ==> (#[trigger] chain@[i]).0 == payloads[i])))
                &&& (r matches Err(e) ==> outcome.0 == Err::<Seq<BuiltPayload>, HarnessError>(e))
            }),
            r matches Ok((chain, stream)) ==> {
                &&& chain@.len() == length
                &&& old(self).tx_stream == Some(stream)
                &&& final(self).payload_timestamp == old(self).payload_timestamp + length
                &&& forall|i: int|
                    0 <= i < length ==> (#[trigger] chain@[i]).0.timestamp == old(
                        self,
                    ).payload_timestamp + 1 + i
                &&& forall|i: int|
                    0 <= i < length ==> spec_attributes(
                        (#[trigger] chain@[i]).1,
                        kind,
                        (old(self).payload_timestamp + 1 + i) as u64,
                    )
            },
    {
        let stream = self.inject_pending_stream();
        let mut chain: Vec<(BuiltPayload, PayloadAttributes)> = Vec::new();
        let mut done: u64 = 0;
        let ghost start_timestamp = self.payload_timestamp;
        let ghost full = spec_advance_many(
            start_timestamp,
            events@,
            *old(cursor) as int,
            length as nat,
        );
        proof {
            assert(spec_chain_payloads(chain@) =~= Seq::<BuiltPayload>::empty());
            assert forall|tail: Seq<BuiltPayload>| #[trigger]
                (spec_chain_payloads(chain@) + tail) =~= tail by {}
        }
        while done < length
            invariant
                done <= length,
                chain@.len() == done,
                self.payload_timestamp == start_timestamp + done,
                start_timestamp + length <= u64::MAX,
                *cursor <= events@.len(),
                *old(cursor) <= *cursor,
                self.tx_stream is None,
                self.wallet == old(self).wallet,
                forall|i: int|
                    0 <= i < done ==> (#[trigger] chain@[i]).0.timestamp == start_timestamp + 1 + i,
                forall|i: int|
                    0 <= i < done ==> spec_attributes(
                        (#[trigger] chain@[i]).1,
                        kind,
                        (start_timestamp + 1 + i) as u64,
                    ),
                ({
                    let rem = spec_advance_many(
                        self.payload_timestamp,
                        events@,
                        *cursor as int,
                        (length - done) as nat,
                    );
                    &&& full.1 == rem.1
                    &&& (rem.0 matches Ok(tail) ==> full.0 == Ok::<Seq<BuiltPayload>, HarnessError>(
                        spec_chain_payloads(chain@) + tail,
                    ))
                    &&& (rem.0 is Err ==> full.0 == rem.0)
                }),
            decreases length - done,
        {
            let ghost ts_prev = self.payload_timestamp;
            let ghost cur_prev = *cursor as int;
            let ghost rem_prev = spec_advance_many(
                ts_prev,
                events@,
                cur_prev,
                (length - done) as nat,
            );
            let step = self.advance(kind, events, cursor);
            proof {
                assert(rem_prev == ({
                    let s = spec_advance((ts_prev + 1) as u64, events@, cur_prev);
                    match s.0 {
                        Err(e) => (Err::<Seq<BuiltPayload>, HarnessError>(e), s.1),
                        Ok(ph) => {
                            let rest = spec_advance_many(
                                (ts_prev + 1) as u64,
                                events@,
                                s.1,
                                ((length - done) - 1) as nat,
                            );
                            match rest.0 {
                                Err(e) => (Err::<Seq<BuiltPayload>, HarnessError>(e), rest.1),
                                Ok(tail) => (
                                    Ok::<Seq<BuiltPayload>, HarnessError>(seq![ph.0] + tail),
                                    rest.1,
                                ),
                            }
                        },
                    }
                }));
            }
            match step {
                Ok((payload, attrs, _hash)) => {
                    let ghost chain_prev = chain@;
                    chain.push((payload, attrs));
                    proof {
                        assert(spec_chain_payloads(chain@) =~= spec_chain_payloads(
                            chain_prev,
                        ).push(payload));
                        assert forall|tail: Seq<BuiltPayload>| #[trigger]
                            (spec_chain_payloads(chain@) + tail) =~= spec_chain_payloads(
                            chain_prev,
                        ) + (seq![payload] + tail) by {}
                    }
                },
                Err(e) => {
                    return Err(e);
                },
            }
            done = done + 1;
        }
        proof {
            let rem = spec_advance_many(
                self.payload_timestamp,
                events@,
                *cursor as int,
                0nat,
            );
            assert(rem.0 == Ok::<Seq<BuiltPayload>, HarnessError>(Seq::empty()));
            assert(spec_chain_payloads(chain@) + Seq::<BuiltPayload>::empty() =~= spec_chain_payloads(
                chain@,
            ));
        }
        Ok((chain, stream))
    }

    /// Whether the node's finish checkpoint shows the block as durably
    /// processed.
    fn has_reached_finish_checkpoint(&self, checkpoint: &Option<u64>, block_number: u64) -> (r:
        bool)
        ensures
            r <==> spec_checkpoint_reached(*checkpoint, block_number),
    {
        match checkpoint {
            Some(c) => *c >= block_number,
            None => false,
        }
    }

    /// Polls until the finish checkpoint reaches `number` and the node
    /// can hand the block out; its hash must then match the expected one.
    /// Each probe stands for one poll of the node, twenty milliseconds
    /// apart; the script's length is the deadline.
    pub fn wait_until_block_is_available(
        &self,
        probes: &Vec<AvailabilityProbe>,
        number: u64,
        expected_block_hash: &BlockHash,
    ) -> (r: Result<(), HarnessError>)
        ensures
            r == spec_wait_until_block_is_available(probes@, number, *expected_block_hash),
    {
        let n = probes.len();
        let mut i: usize = 0;
        proof {
            assert(probes@.skip(0) =~= probes@);
        }
        while i < n
            invariant
                i <= n,
                n == probes@.len(),
                spec_wait_until_block_is_available(probes@, number, *expected_block_hash)
                    == spec_wait_until_block_is_available(
                    probes@.skip(i as int),
                    number,
                    *expected_block_hash,
                ),
            decreases n - i,
        {
            proof {
                assert(probes@.skip(i as int).drop_first() =~= probes@.skip(i + 1));
            }
            let probe = &probes[i];
            if self.has_reached_finish_checkpoint(&probe.finish_checkpoint, number) {
                return match &probe.block {
                    Some(b) => {
                        if b.hash.same(expected_block_hash) {
                            Ok(())
                        } else {
                            Err(
                                HarnessError::HashMismatch {
                                    number,
                                    expected_hash: *expected_block_hash,
                                    got_hash: b.hash,
                                },
                            )
                        }
                    },
                    None => Err(HarnessError::MissingBlock { number }),
                };
            }
            i += 1;
        }
        Err(HarnessError::Stalled { number })
    }

    /// Polls until the headers checkpoint rewinds to exactly `number`,
    /// confirming the node unwound to the reorg point. Each probe stands
    /// for one poll, ten milliseconds apart; the script's length is the
    /// deadline.
    pub fn wait_unwind(&self, checkpoints: &Vec<Option<u64>>, number: u64) -> (r: Result<
        (),
        HarnessError,
    >)
        ensures
            r == spec_wait_unwind(checkpoints@, number),
    {
        let n = checkpoints.len();
        let mut i: usize = 0;
        proof {
            assert(checkpoints@.skip(0) =~= checkpoints@);
        }
        while i < n
            invariant
                i <= n,
                n == checkpoints@.len(),
                spec_wait_unwind(checkpoints@, number) == spec_wait_unwind(
                    checkpoints@.skip(i as int),
                    number,
                ),
            decreases n - i,
        {
            proof {
                assert(checkpoints@.skip(i as int).drop_first() =~= checkpoints@.skip(i + 1));
            }
            let reached = match &checkpoints[i] {
                Some(c) => *c == number,
                None => false,
            };
            if reached {
                return Ok(());
            }
            i += 1;
        }
        Err(HarnessError::Stalled { number })
    }

    /// Checks that the first transaction of the canonical head equals the
    /// transaction the harness injected. A head without transactions, or
    /// with a different first transaction, is fatal.
    pub fn assery_tx_hash(&self, head_first_tx: Option<&BlockHash>, tip_tx_hash: &BlockHash) -> (r:
        Result<(), HarnessError>)
        ensures
            r is Ok <==> (head_first_tx matches Some(h) && h@ == tip_tx_hash@),
            r is Err ==> r == Err::<(), HarnessError>(HarnessError::TxHashMismatch),
    {
        match head_first_tx {
            Some(h) => {
                if h.same(tip_tx_hash) {
                    Ok(())
                } else {
                    Err(HarnessError::TxHashMismatch)
                }
            },
            None => Err(HarnessError::TxHashMismatch),
        }
    }

    /// Polls the node's latest block until it reports the expected block;
    /// a report at the right height with the wrong hash is fatal. Each
    /// observation stands for one poll, twenty milliseconds apart; the
    /// script's length is the deadline.
    pub fn assert_new_block(
        &self,
        observations: &Vec<Option<BlockRef>>,
        block_hash: &BlockHash,
        block_number: u64,
    ) -> (r: Result<(), HarnessError>)
        ensures
            r == spec_assert_new_block(observations@, *block_hash, block_number),
    {
        let n = observations.len();
        let mut i: usize = 0;
        proof {
            assert(observations@.skip(0) =~= observations@);
        }
        while i < n
            invariant
                i <= n,
                n == observations@.len(),
                spec_assert_new_block(observations@, *block_hash, block_number)
                    == spec_assert_new_block(
                    observations@.skip(i as int),
                    *block_hash,
                    block_number,
                ),
            decreases n - i,
        {
            proof {
                assert(observations@.skip(i as int).drop_first() =~= observations@.skip(i + 1));
            }
            match &observations[i] {
                Some(b) => {
                    if b.number == block_number {
                        return if b.hash.same(block_hash) {
                            Ok(())
                        } else {
                            Err(
                                HarnessError::HashMismatch {
                                    number: block_number,
                                    expected_hash: *block_hash,
                                    got_hash: b.hash,
                                },
                            )
                        };
                    }
                },
                None => {},
            }
            i += 1;
        }
        Err(HarnessError::Stalled { number: block_number })
    }
}

} // verus!
