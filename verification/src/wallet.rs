//! Wallets for the test harness: a generator that derives nonce-sequenced
//! signing wallets from a mnemonic phrase, following BIP-44 derivation
//! paths.

use vstd::prelude::*;
use vstd::std_specs::iter::IteratorSpec;
use vstd::string::StringExecFns;

use crate::transaction::{Eip4844Fields, TransactionTestContext, spec_block_info_data,
    spec_dummy_blob_data, spec_key_usable, spec_signed_eip1559};

use alloy_signer_local::{MnemonicBuilder, PrivateKeySigner, coins_bip39};

verus! {

/// Default test mnemonic used by the accounts in the test genesis
/// allocations.
pub open spec fn spec_test_mnemonic() -> Seq<char> {
    "test test test test test test test test test test test junk"@
}

/// Default BIP-44 derivation-path prefix for Ethereum accounts.
pub open spec fn spec_derivation_prefix() -> Seq<char> {
    "m/44'/60'/0'/0/"@
}

/// The derivation path of the account at `index` under a configured
/// prefix.
pub open spec fn spec_derivation_path_of(prefix: Seq<char>, index: int) -> Seq<char> {
    prefix + spec_decimal(index)
}

/// The derivation path of the account at `index` under the standard
/// Ethereum prefix.
pub open spec fn spec_derivation_path_at(index: int) -> Seq<char> {
    spec_derivation_path_of(spec_derivation_prefix(), index)
}

/// Whether the derivation library accepts the phrase and path: BIP-39
/// phrase validity and BIP-32 path validity are functions of the two
/// alone.
pub uninterp spec fn spec_derivable(phrase: Seq<char>, path: Seq<char>) -> bool;

/// The secp256k1 signing key derived from a mnemonic phrase at a
/// derivation path. BIP-39 and BIP-32 derivation is a function of the
/// two alone.
pub uninterp spec fn spec_derived_key(phrase: Seq<char>, path: Seq<char>) -> Seq<u8>;

/// Relies on alloy's `MnemonicBuilder`: BIP-39/BIP-32 derivation is
/// deterministic in the phrase and the derivation path, and a derived
/// secp256k1 key is 32 bytes. It succeeds exactly when the library
/// accepts the phrase and the path, which again depends on the two
/// alone; `None` reports the rejection.
#[verifier::external_body]
fn derive_key(phrase: &str, path: &str) -> (r: Option<Vec<u8>>)
    ensures
        r is Some <==> spec_derivable(phrase@, path@),
        r matches Some(k) ==> k@ == spec_derived_key(phrase@, path@) && k@.len() == 32,
{
    let builder = MnemonicBuilder::<coins_bip39::English>::default().phrase(phrase);
    let builder = builder.derivation_path(path).ok()?;
    let signer = builder.build().ok()?;
    Some(signer.to_bytes().to_vec())
}

/// The textual form of the address belonging to a signing key.
pub uninterp spec fn spec_address_text(key: Seq<u8>) -> Seq<char>;

/// Relies on alloy's `PrivateKeySigner` and the address display
/// implementation: the address is derived from the key's public point and
/// shown as EIP-55 checksummed hex, a function of the key alone. It
/// succeeds exactly when the key bytes are a usable signing key; `None`
/// reports the rejection.
#[verifier::external_body]
fn address_text(key: &Vec<u8>) -> (r: Option<String>)
    ensures
        r is Some <==> spec_key_usable(key@),
        r matches Some(s) ==> s@ == spec_address_text(key@),
{
    let signer = PrivateKeySigner::from_slice(key.as_slice()).ok()?;
    Some(signer.address().to_string())
}

/// Decimal digit character for a value between 0 and 9.
pub open spec fn spec_decimal_digit(d: int) -> char {
    if d == 0 {
        '0'
    } else if d == 1 {
        '1'
    } else if d == 2 {
        '2'
    } else if d == 3 {
        '3'
    } else if d == 4 {
        '4'
    } else if d == 5 {
        '5'
    } else if d == 6 {
        '6'
    } else if d == 7 {
        '7'
    } else if d == 8 {
        '8'
    } else {
        '9'
    }
}

/// Decimal text of a non-negative integer, without leading zeros.
pub open spec fn spec_decimal(n: int) -> Seq<char>
    decreases n,
{
    if n < 10 {
        seq![spec_decimal_digit(n)]
    } else {
        spec_decimal(n / 10) + seq![spec_decimal_digit(n % 10)]
    }
}

/// One decimal digit as a string.
fn digit_string(d: u64) -> (s: String)
    requires
        d < 10,
    ensures
        s@ == seq![spec_decimal_digit(d as int)],
{
    let text = if d == 0 {
        "0"
    } else if d == 1 {
        "1"
    } else if d == 2 {
        "2"
    } else if d == 3 {
        "3"
    } else if d == 4 {
        "4"
    } else if d == 5 {
        "5"
    } else if d == 6 {
        "6"
    } else if d == 7 {
        "7"
    } else if d == 8 {
        "8"
    } else {
        "9"
    };
    proof {
        reveal_strlit("0");
        reveal_strlit("1");
        reveal_strlit("2");
        reveal_strlit("3");
        reveal_strlit("4");
        reveal_strlit("5");
        reveal_strlit("6");
        reveal_strlit("7");
        reveal_strlit("8");
        reveal_strlit("9");
        assert(text@ =~= seq![spec_decimal_digit(d as int)]);
    }
    String::from_str(text)
}

/// Decimal text of `n`.
pub fn u64_to_decimal(n: u64) -> (s: String)
    ensures
        s@ == spec_decimal(n as int),
    decreases n,
{
    if n < 10 {
        digit_string(n)
    } else {
        let mut s = u64_to_decimal(n / 10);
        let digit = digit_string(n % 10);
        s.append(digit.as_str());
        s
    }
}

/// Wallet generator that derives wallets from a mnemonic phrase, a chain
/// id and a derivation path.
#[derive(Debug)]
pub struct WalletGenerator {
    pub chain_id: u64,
    pub phrase: String,
    pub derivation_path: String,
}

impl WalletGenerator {
    /// Creates a wallet generator with mainnet defaults: chain id 1, the
    /// well-known test mnemonic, and the standard Ethereum derivation
    /// prefix.
    pub fn new() -> (r: Self)
        ensures
            r.chain_id == 1,
            r.phrase@ == spec_test_mnemonic(),
            r.derivation_path@ == spec_derivation_prefix(),
    {
        WalletGenerator {
            chain_id: 1,
            phrase: String::from_str(
                "test test test test test test test test test test test junk",
            ),
            derivation_path: String::from_str("m/44'/60'/0'/0/"),
        }
    }

    /// Sets the mnemonic phrase that wallets will be derived from.
    pub fn phrase(self, phrase: String) -> (r: Self)
        ensures
            r.phrase == phrase,
            r.chain_id == self.chain_id,
            r.derivation_path == self.derivation_path,
    {
        WalletGenerator { phrase, ..self }
    }

    /// Sets the chain id that wallets will sign for.
    pub fn chain_id(self, chain_id: u64) -> (r: Self)
        ensures
            r.chain_id == chain_id,
            r.phrase == self.phrase,
            r.derivation_path == self.derivation_path,
    {
        WalletGenerator { chain_id, ..self }
    }

    /// Sets the derivation path, ensuring it ends with a separator.
    pub fn derivation_path(self, path: String) -> (r: Self)
        ensures
            r.chain_id == self.chain_id,
            r.phrase == self.phrase,
            r.derivation_path@ == if path@.len() > 0 && path@.last() == '/' {
                path@
            } else {
                path@.push('/')
            },
    {
        let last = str_last_char(path.as_str());
        let ends_with_sep = match last {
            Some(c) => c == '/',
            None => false,
        };
        if ends_with_sep {
            WalletGenerator { derivation_path: path, ..self }
        } else {
            let ghost path_view = path@;
            let extended = path.concat("/");
            proof {
                reveal_strlit("/");
                assert("/"@ =~= seq!['/']);
                assert(extended@ =~= path_view.push('/'));
            }
            WalletGenerator { derivation_path: extended, ..self }
        }
    }

    /// The derivation path of the account at `index`, under the
    /// generator's configured prefix.
    pub fn get_derivation_path(&self, index: usize) -> (r: String)
        ensures
            r@ == spec_derivation_path_of(self.derivation_path@, index as int),
    {
        let prefix = self.derivation_path.clone();
        prefix.concat(u64_to_decimal(index as u64).as_str())
    }

    /// A derived wallet matches the generator at the given account index.
    pub open spec fn spec_wallet_at(&self, w: Wallet, index: int) -> bool {
        &&& w.key@ == spec_derived_key(
            self.phrase@,
            spec_derivation_path_of(self.derivation_path@, index),
        )
        &&& w.key@.len() == 32
        &&& w.chain_id == self.chain_id
        &&& w.tx_gen.chain_id == self.chain_id
        &&& w.tx_gen.key@ == w.key@
        &&& w.tx_gen.nonce == 0
        &&& w.tx_gen.nonces_sequential()
    }

    /// Derives the wallet of the first account; this succeeds exactly
    /// when the derivation library accepts the phrase and the account's
    /// path.
    pub fn gen(&self) -> (r: Option<Wallet>)
        ensures
            r is Some <==> spec_derivable(
                self.phrase@,
                spec_derivation_path_of(self.derivation_path@, 0),
            ),
            r matches Some(w) ==> self.spec_wallet_at(w, 0),
    {
        self.generate_wallet(0)
    }

    /// Derives the wallets of the first `amount` accounts, in account
    /// order; this succeeds exactly when the derivation library accepts
    /// the phrase and every account's path.
    pub fn gen_many(&self, amount: usize) -> (r: Option<Vec<Wallet>>)
        ensures
            r is Some <==> forall|i: int|
                0 <= i < amount ==> #[trigger] spec_derivable(
                    self.phrase@,
                    spec_derivation_path_of(self.derivation_path@, i),
                ),
            r matches Some(v) ==> {
                &&& v@.len() == amount
                &&& forall|i: int| 0 <= i < amount ==> self.spec_wallet_at(#[trigger] v@[i], i)
            },
    {
        let mut wallets: Vec<Wallet> = Vec::new();
        let mut idx: usize = 0;
        while idx < amount
            invariant
                idx <= amount,
                wallets@.len() == idx,
                forall|i: int| 0 <= i < idx ==> self.spec_wallet_at(#[trigger] wallets@[i], i),
                forall|i: int|
                    0 <= i < idx ==> #[trigger] spec_derivable(
                        self.phrase@,
                        spec_derivation_path_of(self.derivation_path@, i),
                    ),
            decreases amount - idx,
        {
            let w = self.generate_wallet(idx);
            match w {
                Some(w) => wallets.push(w),
                None => {
                    return None;
                },
            }
            idx += 1;
        }
        Some(wallets)
    }

    /// Derives the wallet at one account index.
    fn generate_wallet(&self, index: usize) -> (r: Option<Wallet>)
        ensures
            r is Some <==> spec_derivable(
                self.phrase@,
                spec_derivation_path_of(self.derivation_path@, index as int),
            ),
            r matches Some(w) ==> self.spec_wallet_at(w, index as int),
    {
        let path = self.get_derivation_path(index);
        let key = derive_key(self.phrase.as_str(), path.as_str());
        match key {
            Some(key) => Some(Wallet::new(key, self.chain_id)),
            None => None,
        }
    }
}

impl Default for WalletGenerator {
    /// Same defaults as `new`.
    fn default() -> (r: Self)
        ensures
            r.chain_id == 1,
            r.phrase@ == spec_test_mnemonic(),
            r.derivation_path@ == spec_derivation_prefix(),
    {
        WalletGenerator::new()
    }
}

/// A wallet: a signing key, the chain it signs for, and the transaction
/// generator that sequences its nonces.
pub struct Wallet {
    pub key: Vec<u8>,
    pub chain_id: u64,
    pub tx_gen: TransactionTestContext,
}

impl Wallet {
    /// Creates a wallet over a signing key, with a fresh nonce sequence.
    pub fn new(key: Vec<u8>, chain_id: u64) -> (r: Wallet)
        ensures
            r.key@ == key@,
            r.chain_id == chain_id,
            r.tx_gen.chain_id == chain_id,
            r.tx_gen.key@ == key@,
            r.tx_gen.nonce == 0,
            r.tx_gen.nonce_log@ == Seq::<u64>::empty(),
            r.tx_gen.nonces_sequential(),
    {
        let key_copy = clone_bytes(&key);
        let tx_gen = TransactionTestContext::new(chain_id, key_copy);
        Wallet { key, chain_id, tx_gen }
    }

    /// The wallet's address, as checksummed hex text; available exactly
    /// when the signing library accepts the key.
    pub fn address(&self) -> (r: Option<String>)
        ensures
            r is Some <==> spec_key_usable(self.key@),
            r matches Some(s) ==> s@ == spec_address_text(self.key@),
    {
        address_text(&self.key)
    }

    /// Signs and encodes an EIP-1559 value transfer carrying the wallet's
    /// next nonce; this succeeds exactly when the signing library accepts
    /// the key.
    pub fn eip1559(&mut self) -> (r: Option<Vec<u8>>)
        requires
            old(self).tx_gen.nonce < u64::MAX,
        ensures
            final(self).key == old(self).key,
            final(self).chain_id == old(self).chain_id,
            r is Some <==> spec_key_usable(old(self).tx_gen.key@),
            r matches Some(b) ==> {
                &&& (exists|to: Seq<u8>|
                    to.len() == 20 && b@ == spec_signed_eip1559(
                        old(self).tx_gen.key@,
                        old(self).tx_gen.chain_id,
                        old(self).tx_gen.nonce,
                        21000u64,
                        to,
                        25_000_000_000u128,
                        25_000_000_000u128,
                        1u128,
                        Seq::<u8>::empty(),
                    ))
                &&& final(self).tx_gen.nonce == old(self).tx_gen.nonce + 1
            },
            r is None ==> final(self).tx_gen == old(self).tx_gen,
            old(self).tx_gen.nonces_sequential() ==> final(self).tx_gen.nonces_sequential(),
    {
        self.tx_gen.eip1559()
    }

    /// Field values for a throwaway EIP-4844 blob transaction at the
    /// wallet's current nonce.
    pub fn eip4844(&self) -> (r: Eip4844Fields)
        ensures
            r.chain_id == self.tx_gen.chain_id,
            r.nonce == self.tx_gen.nonce,
            r.gas_limit == 21000,
            r.max_fee_per_gas == 20_000_000_000,
            r.max_priority_fee_per_gas == 20_000_000_000,
            r.to@.len() == 20,
            r.value_wei == 1,
            r.blob_versioned_hashes@.len() == 1,
            r.max_fee_per_blob_gas == 1,
            r.blob_data@ == spec_dummy_blob_data(),
    {
        self.tx_gen.eip4844()
    }

    /// Signs and encodes the OP-stack block-info transaction carrying the
    /// wallet's next nonce; this succeeds exactly when the signing
    /// library accepts the key.
    pub fn optimism_block_info(&mut self) -> (r: Option<Vec<u8>>)
        requires
            old(self).tx_gen.nonce < u64::MAX,
        ensures
            final(self).key == old(self).key,
            final(self).chain_id == old(self).chain_id,
            r is Some <==> spec_key_usable(old(self).tx_gen.key@),
            r matches Some(b) ==> {
                &&& (exists|to: Seq<u8>|
                    to.len() == 20 && b@ == spec_signed_eip1559(
                        old(self).tx_gen.key@,
                        old(self).tx_gen.chain_id,
                        old(self).tx_gen.nonce,
                        210_000u64,
                        to,
                        20_000_000_000u128,
                        20_000_000_000u128,
                        1u128,
                        spec_block_info_data(),
                    ))
                &&& final(self).tx_gen.nonce == old(self).tx_gen.nonce + 1
            },
            r is None ==> final(self).tx_gen == old(self).tx_gen,
            old(self).tx_gen.nonces_sequential() ==> final(self).tx_gen.nonces_sequential(),
    {
        self.tx_gen.optimism_block_info()
    }
}

/// Byte-for-byte copy of a byte vector.
fn clone_bytes(v: &Vec<u8>) -> (r: Vec<u8>)
    ensures
        r@ == v@,
{
    let mut r: Vec<u8> = Vec::new();
    let mut i: usize = 0;
    while i < v.len()
        invariant
            i <= v@.len(),
            r@ == v@.take(i as int),
        decreases v@.len() - i,
    {
        r.push(v[i]);
        proof {
            assert(v@.take(i + 1) =~= v@.take(i as int).push(v@[i as int]));
        }
        i += 1;
    }
    proof {
        assert(v@.take(v@.len() as int) =~= v@);
    }
    r
}

/// Last character of a string, if any.
fn str_last_char(s: &str) -> (r: Option<char>)
    ensures
        r is None <==> s@.len() == 0,
        r matches Some(c) ==> s@.len() > 0 && c == s@.last(),
{
    broadcast use vstd::string::axiom_spec_iter;
    broadcast use vstd::string::next_postcondition;

    let mut it = s.chars();
    let mut last: Option<char> = None;
    let ghost mut k: int = 0;
    loop
        invariant
            0 <= k <= s@.len(),
            it.remaining() =~= s@.skip(k),
            last is None <==> k == 0,
            last matches Some(c) ==> k > 0 && c == s@[k - 1],
        ensures
            k == s@.len(),
            last is None <==> k == 0,
            last matches Some(c) ==> k > 0 && c == s@[k - 1],
        decreases s@.len() - k,
    {
        let next = it.next();
        match next {
            Some(c) => {
                last = Some(c);
                proof {
                    assert(s@.skip(k)[0] == s@[k]);
                    k = k + 1;
                    assert(it.remaining() =~= s@.skip(k));
                }
            },
            None => {
                proof {
                    assert(s@.skip(k).len() == 0);
                }
                break ;
            },
        }
    }
    last
}

} // verus!
