//! Transaction generation: a nonce-sequenced signing context, the
//! transaction shapes the harness submits, and the rate-limited stream
//! state machine that feeds a node's mempool.

use vstd::prelude::*;
use vstd::string::StrSliceExecFns;
use vstd::string::StringSliceAdditionalSpecFns;

use crate::primitives::{spec_hex_decode, hex_decode, BlockHash};

use alloy_consensus::{SignableTransaction, TxEip1559, TxEnvelope};
use alloy_eips::eip2718::Encodable2718;
use alloy_primitives::{Address, TxKind, U256};
use alloy_signer::SignerSync;
use alloy_signer_local::PrivateKeySigner;

verus! {

/// Number of nanoseconds in one second, used to turn a transaction rate
/// into a minimum inter-emission interval.
pub const NANOS_PER_SEC: u64 = 1_000_000_000;

/// Default emission rate of a fresh stream, in transactions per second.
pub const DEFAULT_TX_PER_SEC: u64 = 100;

/// Field values of an EIP-1559 transaction, before signing.
pub struct Eip1559Fields {
    pub chain_id: u64,
    pub nonce: u64,
    pub gas_limit: u64,
    /// 20-byte recipient address.
    pub to: Vec<u8>,
    pub max_fee_per_gas: u128,
    pub max_priority_fee_per_gas: u128,
    pub value_wei: u128,
    pub input: Vec<u8>,
}

/// Field values of an EIP-4844 blob transaction, before the blob sidecar
/// is built and the transaction is signed.
pub struct Eip4844Fields {
    pub chain_id: u64,
    pub nonce: u64,
    pub gas_limit: u64,
    pub max_fee_per_gas: u128,
    pub max_priority_fee_per_gas: u128,
    /// 20-byte recipient address.
    pub to: Vec<u8>,
    pub value_wei: u128,
    pub blob_versioned_hashes: Vec<BlockHash>,
    pub max_fee_per_blob_gas: u128,
    /// Raw data to be ingested into the blob sidecar.
    pub blob_data: Vec<u8>,
}

/// Encoded bytes of a signed EIP-1559 transaction. Signing uses ECDSA
/// with deterministic nonces, so the result is a function of the signing
/// key and the transaction fields alone.
pub uninterp spec fn spec_signed_eip1559(
    key: Seq<u8>,
    chain_id: u64,
    nonce: u64,
    gas_limit: u64,
    to: Seq<u8>,
    max_fee_per_gas: u128,
    max_priority_fee_per_gas: u128,
    value_wei: u128,
    input: Seq<u8>,
) -> Seq<u8>;

/// Whether the signing library accepts the key bytes as a secp256k1
/// signing key: 32 bytes holding a non-zero scalar below the curve
/// order, a property of the bytes alone.
pub uninterp spec fn spec_key_usable(key: Seq<u8>) -> bool;

/// Relies on alloy's `PrivateKeySigner` (ECDSA with RFC 6979 deterministic
/// nonces) and `Encodable2718`: the encoded bytes are a function of the key
/// and the fields alone, and an EIP-2718 envelope of an EIP-1559
/// transaction starts with the type byte 2. Constructing the signer fails
/// exactly on an unusable key, and deterministic signing of a usable key
/// does not fail, so success depends on the key alone.
#[verifier::external_body]
fn sign_encode_eip1559(key: &Vec<u8>, tx: &Eip1559Fields) -> (r: Option<Vec<u8>>)
    requires
        tx.to@.len() == 20,
    ensures
        r is Some <==> spec_key_usable(key@),
        r matches Some(b) ==> b@ == spec_signed_eip1559(
            key@,
            tx.chain_id,
            tx.nonce,
            tx.gas_limit,
            tx.to@,
            tx.max_fee_per_gas,
            tx.max_priority_fee_per_gas,
            tx.value_wei,
            tx.input@,
        ) && b@.len() >= 1 && b@[0] == 2u8,
{
    let signer = PrivateKeySigner::from_slice(key.as_slice()).ok()?;
    let t = TxEip1559 {
        chain_id: tx.chain_id,
        nonce: tx.nonce,
        gas_limit: tx.gas_limit,
        max_fee_per_gas: tx.max_fee_per_gas,
        max_priority_fee_per_gas: tx.max_priority_fee_per_gas,
        to: TxKind::Call(Address::from_slice(tx.to.as_slice())),
        value: U256::from(tx.value_wei),
        access_list: Default::default(),
        input: alloy_primitives::Bytes::copy_from_slice(tx.input.as_slice()),
    };
    let sig = signer.sign_hash_sync(&t.signature_hash()).ok()?;
    Some(TxEnvelope::Eip1559(t.into_signed(sig)).encoded_2718())
}

/// Relies on alloy's `Address::random`: a fresh address drawn from the
/// process randomness source; only its length is promised.
#[verifier::external_body]
fn random_address_bytes() -> (r: Vec<u8>)
    ensures
        r@.len() == 20,
{
    Address::random().to_vec()
}

/// A signing context: the network's chain id, the wallet's signing key,
/// and the next nonce to use. Nonces are allocated strictly in order; the
/// ghost log records every nonce handed out, in emission order.
pub struct TransactionTestContext {
    pub chain_id: u64,
    pub key: Vec<u8>,
    pub nonce: u64,
    pub nonce_log: Ghost<Seq<u64>>,
}

impl TransactionTestContext {
    /// The context has handed out exactly the nonces `0, 1, ...,
    /// nonce - 1`, in that order.
    pub open spec fn nonces_sequential(&self) -> bool {
        &&& self.nonce == self.nonce_log@.len()
        &&& forall|i: int| 0 <= i < self.nonce_log@.len() ==> self.nonce_log@[i] as int == i
    }

    /// Creates a context for the given chain with the given 32-byte
    /// signing key; the first transaction will carry nonce 0.
    pub fn new(chain_id: u64, key: Vec<u8>) -> (r: Self)
        ensures
            r.chain_id == chain_id,
            r.key@ == key@,
            r.nonce == 0,
            r.nonce_log@ == Seq::<u64>::empty(),
            r.nonces_sequential(),
    {
        TransactionTestContext { chain_id, key, nonce: 0, nonce_log: Ghost(Seq::empty()) }
    }

    /// Advances the nonce by one, recording the nonce just consumed.
    pub fn inc_nonce(&mut self)
        requires
            old(self).nonce < u64::MAX,
        ensures
            final(self).nonce == old(self).nonce + 1,
            final(self).nonce_log@ == old(self).nonce_log@.push(old(self).nonce),
            final(self).chain_id == old(self).chain_id,
            final(self).key@ == old(self).key@,
            old(self).nonces_sequential() ==> final(self).nonces_sequential(),
    {
        proof {
            if old(self).nonces_sequential() {
                assert forall|i: int|
                    0 <= i < old(self).nonce_log@.push(old(self).nonce).len() implies old(
                    self,
                ).nonce_log@.push(old(self).nonce)[i] as int == i by {
                    if i < old(self).nonce_log@.len() {
                        assert(old(self).nonce_log@.push(old(self).nonce)[i] == old(
                            self,
                        ).nonce_log@[i]);
                    }
                }
            }
        }
        self.nonce = self.nonce + 1;
        self.nonce_log = Ghost(self.nonce_log@.push((self.nonce - 1) as u64));
    }

    /// Signs and encodes an EIP-1559 transaction carrying the context's
    /// current nonce, then advances the nonce. This succeeds exactly when
    /// the signing library accepts the key; on an unusable key the nonce
    /// is left untouched.
    fn sign_and_encode(&mut self, tx: Eip1559Fields) -> (r: Option<Vec<u8>>)
        requires
            old(self).nonce < u64::MAX,
            tx.to@.len() == 20,
        ensures
            r is Some <==> spec_key_usable(old(self).key@),
            r matches Some(b) ==> {
                &&& b@ == spec_signed_eip1559(
                    old(self).key@,
                    tx.chain_id,
                    tx.nonce,
                    tx.gas_limit,
                    tx.to@,
                    tx.max_fee_per_gas,
                    tx.max_priority_fee_per_gas,
                    tx.value_wei,
                    tx.input@,
                )
                &&& final(self).nonce == old(self).nonce + 1
                &&& final(self).nonce_log@ == old(self).nonce_log@.push(old(self).nonce)
            },
            r is None ==> *final(self) == *old(self),
            final(self).chain_id == old(self).chain_id,
            final(self).key@ == old(self).key@,
            old(self).nonces_sequential() ==> final(self).nonces_sequential(),
    {
        let encoded = sign_encode_eip1559(&self.key, &tx);
        match encoded {
            Some(b) => {
                self.inc_nonce();
                Some(b)
            },
            None => None,
        }
    }

    /// Builds, signs and encodes a plain EIP-1559 value transfer to a
    /// random recipient: 21000 gas, 25 gwei fee caps, value 1 wei. This
    /// succeeds exactly when the signing library accepts the key.
    pub fn eip1559(&mut self) -> (r: Option<Vec<u8>>)
        requires
            old(self).nonce < u64::MAX,
        ensures
            r is Some <==> spec_key_usable(old(self).key@),
            r matches Some(b) ==> {
                &&& (exists|to: Seq<u8>|
                    to.len() == 20 && b@ == spec_signed_eip1559(
                        old(self).key@,
                        old(self).chain_id,
                        old(self).nonce,
                        21000u64,
                        to,
                        25_000_000_000u128,
                        25_000_000_000u128,
                        1u128,
                        Seq::<u8>::empty(),
                    ))
                &&& final(self).nonce == old(self).nonce + 1
                &&& final(self).nonce_log@ == old(self).nonce_log@.push(old(self).nonce)
            },
            r is None ==> *final(self) == *old(self),
            final(self).chain_id == old(self).chain_id,
            final(self).key@ == old(self).key@,
            old(self).nonces_sequential() ==> final(self).nonces_sequential(),
    {
        let to = random_address_bytes();
        let ghost to_view = to@;
        let tx = Eip1559Fields {
            chain_id: self.chain_id,
            nonce: self.nonce,
            gas_limit: 21000,
            to,
            max_fee_per_gas: 25_000_000_000,
            max_priority_fee_per_gas: 25_000_000_000,
            value_wei: 1,
            input: Vec::new(),
        };
        proof {
            assert(tx.input@ =~= Seq::<u8>::empty());
        }
        self.sign_and_encode(tx)
    }

    /// Builds, signs and encodes the fixed L1-attributes ("block info")
    /// transaction used on OP-stack chains: a 210000 gas call with 20 gwei
    /// fee caps, carrying the canned attributes payload. This succeeds
    /// exactly when the signing library accepts the key.
    pub fn optimism_block_info(&mut self) -> (r: Option<Vec<u8>>)
        requires
            old(self).nonce < u64::MAX,
        ensures
            r is Some <==> spec_key_usable(old(self).key@),
            r matches Some(b) ==> {
                &&& (exists|to: Seq<u8>|
                    to.len() == 20 && b@ == spec_signed_eip1559(
                        old(self).key@,
                        old(self).chain_id,
                        old(self).nonce,
                        210_000u64,
                        to,
                        20_000_000_000u128,
                        20_000_000_000u128,
                        1u128,
                        spec_block_info_data(),
                    ))
                &&& final(self).nonce == old(self).nonce + 1
                &&& final(self).nonce_log@ == old(self).nonce_log@.push(old(self).nonce)
            },
            r is None ==> *final(self) == *old(self),
            final(self).chain_id == old(self).chain_id,
            final(self).key@ == old(self).key@,
            old(self).nonces_sequential() ==> final(self).nonces_sequential(),
    {
        let data = block_info_data();
        let to = random_address_bytes();
        let tx = Eip1559Fields {
            chain_id: self.chain_id,
            nonce: self.nonce,
            gas_limit: 210_000,
            to,
            max_fee_per_gas: 20_000_000_000,
            max_priority_fee_per_gas: 20_000_000_000,
            value_wei: 1,
            input: data,
        };
        self.sign_and_encode(tx)
    }

    /// Field values for a throwaway EIP-4844 blob transaction: 21000 gas,
    /// 20 gwei fee caps, one placeholder versioned hash, and a small blob
    /// payload. The blob sidecar construction and the signing involve KZG
    /// commitments and stay outside the verified core.
    pub fn eip4844(&self) -> (r: Eip4844Fields)
        ensures
            r.chain_id == self.chain_id,
            r.nonce == self.nonce,
            r.gas_limit == 21000,
            r.max_fee_per_gas == 20_000_000_000,
            r.max_priority_fee_per_gas == 20_000_000_000,
            r.to@.len() == 20,
            r.value_wei == 1,
            r.blob_versioned_hashes@.len() == 1,
            r.max_fee_per_blob_gas == 1,
            r.blob_data@ == spec_dummy_blob_data(),
    {
        self.dummy_eip4844()
    }

    /// Builds the dummy blob-transaction fields used by `eip4844`.
    fn dummy_eip4844(&self) -> (r: Eip4844Fields)
        ensures
            r.chain_id == self.chain_id,
            r.nonce == self.nonce,
            r.gas_limit == 21000,
            r.max_fee_per_gas == 20_000_000_000,
            r.max_priority_fee_per_gas == 20_000_000_000,
            r.to@.len() == 20,
            r.value_wei == 1,
            r.blob_versioned_hashes@.len() == 1,
            r.max_fee_per_blob_gas == 1,
            r.blob_data@ == spec_dummy_blob_data(),
    {
        let mut to: Vec<u8> = Vec::new();
        let mut i: usize = 0;
        while i < 20
            invariant
                to@.len() == i,
                i <= 20,
            decreases 20 - i,
        {
            to.push(0u8);
            i += 1;
        }
        let mut hashes: Vec<BlockHash> = Vec::new();
        hashes.push(BlockHash::zero());
        Eip4844Fields {
            chain_id: self.chain_id,
            nonce: self.nonce,
            gas_limit: 21000,
            max_fee_per_gas: 20_000_000_000,
            max_priority_fee_per_gas: 20_000_000_000,
            to,
            value_wei: 1,
            blob_versioned_hashes: hashes,
            max_fee_per_blob_gas: 1,
            blob_data: dummy_blob_data(),
        }
    }

    /// Extracts the versioned hashes from a blob transaction whose
    /// sidecar has already passed KZG proof validation. Feeding it any
    /// other envelope, or an unvalidated sidecar, is a harness bug; the
    /// original treats both as fatal.
    pub fn validate_sidecar(tx: TxEnvelopeKind) -> (r: Vec<BlockHash>)
        requires
            tx matches TxEnvelopeKind::Eip4844WithSidecar { blob_valid, .. } && blob_valid,
        ensures
            tx matches TxEnvelopeKind::Eip4844WithSidecar { versioned_hashes, .. } && r
                == versioned_hashes,
    {
        match tx {
            TxEnvelopeKind::Eip4844WithSidecar { versioned_hashes, .. } => versioned_hashes,
            TxEnvelopeKind::Other => Vec::new(),
        }
    }
}

/// What the harness reads of a decoded transaction envelope: whether it is
/// an EIP-4844 transaction carrying a sidecar, whether that sidecar passed
/// KZG validation, and the versioned hashes it commits to.
pub enum TxEnvelopeKind {
    Eip4844WithSidecar { blob_valid: bool, versioned_hashes: Vec<BlockHash> },
    /// Any other envelope; the harness treats receiving one as fatal.
    Other,
}

/// The canned "dummy blob" payload ingested into the test sidecar, as
/// UTF-8 bytes.
pub open spec fn spec_dummy_blob_data() -> Seq<u8> {
    "dummy blob".spec_bytes()
}

/// The canned "dummy blob" payload ingested into the test sidecar.
fn dummy_blob_data() -> (r: Vec<u8>)
    ensures
        r@ == spec_dummy_blob_data(),
{
    "dummy blob".as_bytes_vec()
}

/// The fixed payload of the OP-stack L1-attributes transaction, as hex
/// text.
pub open spec fn spec_block_info_data() -> Seq<u8> {
    spec_hex_decode(
        "7ef9015aa044bae9d41b8380d781187b426c6fe43df5fb2fb57bd4466ef6a701e1f01e015694deaddeaddeaddeaddeaddeaddeaddeaddead000194420000000000000000000000000000000000001580808408f0d18001b90104015d8eb900000000000000000000000000000000000000000000000000000000008057650000000000000000000000000000000000000000000000000000000063d96d10000000000000000000000000000000000000000000000000000000000009f35273d89754a1e0387b89520d989d3be9c37c1f32495a88faf1ea05c61121ab0d1900000000000000000000000000000000000000000000000000000000000000010000000000000000000000002d679b567db6187c0c8323fa982cfb88b74dbcc7000000000000000000000000000000000000000000000000000000000000083400000000000000000000000000000000000000000000000000000000000f4240".spec_bytes(),
    )
}

/// Decodes the canned L1-attributes payload.
pub fn block_info_data() -> (r: Vec<u8>)
    ensures
        r@ == spec_block_info_data(),
{
    hex_decode(
        "7ef9015aa044bae9d41b8380d781187b426c6fe43df5fb2fb57bd4466ef6a701e1f01e015694deaddeaddeaddeaddeaddeaddeaddeaddead000194420000000000000000000000000000000000001580808408f0d18001b90104015d8eb900000000000000000000000000000000000000000000000000000000008057650000000000000000000000000000000000000000000000000000000063d96d10000000000000000000000000000000000000000000000000000000000009f35273d89754a1e0387b89520d989d3be9c37c1f32495a88faf1ea05c61121ab0d1900000000000000000000000000000000000000000000000000000000000000010000000000000000000000002d679b567db6187c0c8323fa982cfb88b74dbcc7000000000000000000000000000000000000000000000000000000000000083400000000000000000000000000000000000000000000000000000000000f4240",
    )
}

/// Law: a context that has signed `n` transactions since its construction
/// has emitted exactly the nonces `0, 1, ..., n - 1`, in emission order,
/// whatever the latency of each signing step was.
pub proof fn lemma_sequential_nonces(ctx: TransactionTestContext)
    requires
        ctx.nonces_sequential(),
    ensures
        ctx.nonce_log@.len() == ctx.nonce,
        forall|i: int| 0 <= i < ctx.nonce_log@.len() ==> ctx.nonce_log@[i] as int == i,
{
}

/// The strategy a stream uses to produce each transaction.
#[derive(Clone, Copy, Debug)]
pub enum TxGeneratorKind {
    /// A plain EIP-1559 value transfer to a random recipient.
    Eip1559Transfer,
    /// A throwaway EIP-4844 blob transaction.
    Eip4844Blob,
    /// The OP-stack L1-attributes ("block info") transaction.
    OptimismBlockInfo,
}

/// One outcome of polling the stream.
pub enum StreamPoll {
    /// An item is handed out; the rate gate was open and is now consumed.
    Emitted(Vec<u8>),
    /// An interval tick was consumed; the caller should poll again.
    Progressed,
    /// Nothing to do until the interval timer next fires; the caller
    /// should suspend.
    Suspended,
}

/// The rate-limited transaction stream: an infinite source of encoded
/// transactions, produced by at most one in-flight generation task at a
/// time and emitted at most once per interval tick.
///
/// The executable machine decides; the caller performs the generation and
/// drives the interval timer, reporting on each poll whether the in-flight
/// task has completed and whether the timer has fired.
#[derive(Clone, Copy)]
pub struct TransactionStream {
    /// The strategy used to produce each item.
    pub generator: TxGeneratorKind,
    /// Minimum interval between emissions, in nanoseconds.
    pub interval_nanos: u64,
    /// Whether a generation task is in flight. At most one ever is.
    pub in_flight: bool,
    /// Whether an interval tick has fired that no emission has used yet.
    pub gate_open: bool,
    /// Number of items emitted so far.
    pub emitted: Ghost<nat>,
    /// Number of interval ticks consumed so far.
    pub ticks: Ghost<nat>,
    /// Number of generation tasks ever started.
    pub started: Ghost<nat>,
}

impl TransactionStream {
    /// Every emission consumed a tick of its own, and generation tasks are
    /// sequential: task `k` starts only after item `k - 1` was emitted.
    pub open spec fn wf(&self) -> bool {
        &&& self.emitted@ + (if self.gate_open {
            1nat
        } else {
            0nat
        }) <= self.ticks@
        &&& self.started@ == self.emitted@ + (if self.in_flight {
            1nat
        } else {
            0nat
        })
    }

    /// Creates a stream over the given generation strategy, at the
    /// default rate of 100 transactions per second.
    pub fn new(generator: TxGeneratorKind) -> (r: Self)
        ensures
            r.generator == generator,
            r.interval_nanos == NANOS_PER_SEC / DEFAULT_TX_PER_SEC,
            !r.in_flight,
            !r.gate_open,
            r.emitted@ == 0,
            r.ticks@ == 0,
            r.started@ == 0,
            r.wf(),
    {
        TransactionStream {
            generator,
            interval_nanos: NANOS_PER_SEC / DEFAULT_TX_PER_SEC,
            in_flight: false,
            gate_open: false,
            emitted: Ghost(0),
            ticks: Ghost(0),
            started: Ghost(0),
        }
    }

    /// Sets the emission rate, in transactions per second.
    pub fn tx_per_sec(self, transactions_per_second: u64) -> (r: Self)
        requires
            transactions_per_second >= 1,
        ensures
            r == (Self { interval_nanos: NANOS_PER_SEC / transactions_per_second, ..self }),
    {
        Self { interval_nanos: NANOS_PER_SEC / transactions_per_second, ..self }
    }

    /// Starts a generation task if none is in flight.
    pub fn generate_future(&mut self)
        ensures
            final(self).in_flight,
            final(self).started@ == old(self).started@ + (if old(self).in_flight {
                0nat
            } else {
                1nat
            }),
            final(self).generator == old(self).generator,
            final(self).interval_nanos == old(self).interval_nanos,
            final(self).gate_open == old(self).gate_open,
            final(self).emitted@ == old(self).emitted@,
            final(self).ticks@ == old(self).ticks@,
            old(self).wf() ==> final(self).wf(),
    {
        if !self.in_flight {
            self.in_flight = true;
            self.started = Ghost(self.started@ + 1);
        }
    }

    /// One iteration of the stream's poll loop.
    ///
    /// `generated` reports the result of the in-flight generation task if
    /// it has completed; `tick_fired` reports whether the interval timer
    /// has a tick ready. An item is emitted only when one is ready and an
    /// unused tick has been consumed, so emissions never outpace the
    /// timer; a new generation task is started as soon as the slot is
    /// free, so generation is pipelined behind the rate gate.
    pub fn poll_next(&mut self, generated: Option<Vec<u8>>, tick_fired: bool) -> (r: StreamPoll)
        requires
            generated is Some ==> old(self).in_flight,
        ensures
            final(self).generator == old(self).generator,
            final(self).interval_nanos == old(self).interval_nanos,
            old(self).wf() ==> final(self).wf(),
            // Emission happens exactly when an item is ready and the rate
            // gate is open; it consumes both.
            r is Emitted <==> (old(self).gate_open && generated is Some),
            r matches StreamPoll::Emitted(b) ==> {
                &&& generated == Some(b)
                &&& !final(self).in_flight
                &&& !final(self).gate_open
                &&& final(self).emitted@ == old(self).emitted@ + 1
                &&& final(self).ticks@ == old(self).ticks@
                &&& final(self).started@ == old(self).started@
            },
            // A non-emitting poll leaves a generation task in flight and
            // emits nothing.
            !(r is Emitted) ==> final(self).in_flight && final(self).emitted@ == old(self).emitted@,
            // The timer outcome decides between progress and suspension.
            !(r is Emitted) && tick_fired ==> {
                &&& r is Progressed
                &&& final(self).ticks@ == old(self).ticks@ + 1
                &&& final(self).gate_open
            },
            !(r is Emitted) && !tick_fired ==> {
                &&& r is Suspended
                &&& final(self).ticks@ == old(self).ticks@
                &&& final(self).gate_open == old(self).gate_open
            },
    {
        if self.gate_open {
            if let Some(item) = generated {
                self.in_flight = false;
                self.gate_open = false;
                proof {
                    self.emitted@ = self.emitted@ + 1;
                }
                return StreamPoll::Emitted(item);
            }
        }
        self.generate_future();
        if tick_fired {
            self.gate_open = true;
            proof {
                self.ticks@ = self.ticks@ + 1;
            }
            StreamPoll::Progressed
        } else {
            StreamPoll::Suspended
        }
    }
}

/// Law: the stream never emits more items than interval ticks it has
/// consumed, and generation tasks never overlap: whenever one is in
/// flight, every earlier task's item has already been emitted.
pub proof fn lemma_rate_limit(s: TransactionStream)
    requires
        s.wf(),
    ensures
        s.emitted@ <= s.ticks@,
        s.started@ <= s.emitted@ + 1,
{
}

/// Law: over a sustained window, items arrive at most at the configured
/// rate. If the `k`-th consumed tick could not fire earlier than `start +
/// k * interval` — the interval timer's schedule — then by time `now` the
/// stream has emitted at most `(now - start) / interval + 1` items: an
/// average spacing of at least one interval.
pub proof fn lemma_sustained_rate(s: TransactionStream, start: int, now: int)
    requires
        s.wf(),
        s.interval_nanos >= 1,
        now >= start,
        s.ticks@ >= 1 ==> now - start >= (s.ticks@ - 1) * s.interval_nanos,
    ensures
        s.emitted@ <= (now - start) / (s.interval_nanos as int) + 1,
{
    if s.ticks@ >= 1 {
        let d = s.interval_nanos as int;
        let t = s.ticks@ - 1;
        assert(t * d <= now - start);
        vstd::arithmetic::div_mod::lemma_div_is_ordered(t * d, now - start, d);
        vstd::arithmetic::div_mod::lemma_div_by_multiple(t, d);
        assert(t <= (now - start) / d);
        assert(s.emitted@ <= s.ticks@);
    } else {
        assert(s.emitted@ == 0);
        vstd::arithmetic::div_mod::lemma_div_pos_is_pos(now - start, s.interval_nanos as int);
    }
}

} // verus!
