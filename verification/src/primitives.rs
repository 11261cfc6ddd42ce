//! Plain-value stand-ins for the chain primitives the harness logic reads:
//! 32-byte block and transaction hashes, and hex text decoding.

use vstd::prelude::*;
use vstd::string::StringSliceAdditionalSpecFns;

verus! {

/// A 32-byte hash identifying a block or a transaction. The harness only
/// ever compares hashes for equality and passes them through.
#[derive(Clone, Copy, Debug, PartialEq, Eq)]
pub struct BlockHash {
    pub bytes: [u8; 32],
}

impl View for BlockHash {
    type V = Seq<u8>;

    open spec fn view(&self) -> Seq<u8> {
        self.bytes@
    }
}

impl BlockHash {
    pub fn new(bytes: [u8; 32]) -> (r: BlockHash)
        ensures
            r@ == bytes@,
    {
        BlockHash { bytes }
    }

    /// An all-zero hash, used where the engine protocol expects a
    /// placeholder value (zero randao, zero beacon root).
    pub fn zero() -> (r: BlockHash)
        ensures
            r@ == spec_zero_hash(),
    {
        let bytes = [0u8; 32];
        proof {
            assert(bytes@ =~= Seq::<u8>::new(32, |i: int| 0u8));
        }
        BlockHash { bytes }
    }

    /// Equality on the underlying bytes.
    pub fn same(&self, other: &BlockHash) -> (r: bool)
        ensures
            r <==> self@ == other@,
    {
        let mut i: usize = 0;
        while i < 32
            invariant
                i <= 32,
                forall|j: int| 0 <= j < i ==> self@[j] == other@[j],
            decreases 32 - i,
        {
            if self.bytes[i] != other.bytes[i] {
                return false;
            }
            i += 1;
        }
        proof {
            assert(self@ =~= other@);
        }
        true
    }
}

/// The all-zero 32-byte hash.
pub open spec fn spec_zero_hash() -> Seq<u8> {
    Seq::<u8>::new(32, |i: int| 0u8)
}

/// Value of one hex-digit byte; bytes that are not hex digits count as zero,
/// which makes the decoder total.
pub open spec fn spec_hex_val(b: u8) -> u8 {
    if 48 <= b <= 57 {
        (b - 48) as u8
    } else if 97 <= b <= 102 {
        (b - 87) as u8
    } else if 65 <= b <= 70 {
        (b - 55) as u8
    } else {
        0u8
    }
}

/// Bytes denoted by a sequence of hex-digit pairs; a trailing odd digit is
/// ignored.
pub open spec fn spec_hex_decode(s: Seq<u8>) -> Seq<u8>
    decreases s.len(),
{
    if s.len() < 2 {
        Seq::empty()
    } else {
        seq![(spec_hex_val(s[0]) * 16 + spec_hex_val(s[1])) as u8] + spec_hex_decode(
            s.skip(2),
        )
    }
}

fn hex_val(b: u8) -> (r: u8)
    ensures
        r == spec_hex_val(b),
{
    if 48 <= b && b <= 57 {
        b - 48
    } else if 97 <= b && b <= 102 {
        b - 87
    } else if 65 <= b && b <= 70 {
        b - 55
    } else {
        0
    }
}

/// Decodes hex text to bytes, reading the UTF-8 bytes of `s` pairwise.
pub fn hex_decode(s: &str) -> (r: Vec<u8>)
    ensures
        r@ == spec_hex_decode(s.spec_bytes()),
{
    let bytes = s.as_bytes();
    let n = bytes.len();
    let mut out: Vec<u8> = Vec::new();
    let mut i: usize = 0;
    proof {
        assert(bytes@.take(0) =~= Seq::<u8>::empty());
    }
    while i + 1 < n
        invariant
            bytes@ == s.spec_bytes(),
            n == bytes@.len(),
            i % 2 == 0,
            i <= n,
            out@ == spec_hex_decode(bytes@.take(i as int)),
        decreases n - i,
    {
        let hi = hex_val(bytes[i]);
        let lo = hex_val(bytes[i + 1]);
        out.push(hi * 16 + lo);
        proof {
            let t = bytes@.take(i as int);
            let t2 = bytes@.take(i + 2);
            assert(t2 =~= t + seq![bytes@[i as int], bytes@[i + 1]]);
            lemma_hex_decode_append_pair(t, bytes@[i as int], bytes@[i + 1]);
        }
        i += 2;
    }
    proof {
        lemma_hex_decode_split(bytes@, i as int);
        assert(spec_hex_decode(bytes@.skip(i as int)) =~= Seq::<u8>::empty());
        assert(out@ =~= spec_hex_decode(bytes@));
    }
    out
}

/// Appending one digit pair to hex text appends one decoded byte.
proof fn lemma_hex_decode_append_pair(s: Seq<u8>, hi: u8, lo: u8)
    requires
        s.len() % 2 == 0,
    ensures
        spec_hex_decode(s + seq![hi, lo]) == spec_hex_decode(s) + seq![
            (spec_hex_val(hi) * 16 + spec_hex_val(lo)) as u8,
        ],
    decreases s.len(),
{
    let ext = s + seq![hi, lo];
    let pair = seq![(spec_hex_val(hi) * 16 + spec_hex_val(lo)) as u8];
    if s.len() == 0 {
        assert(ext.len() == 2);
        assert(ext[0] == hi);
        assert(ext[1] == lo);
        assert(ext.skip(2) =~= Seq::<u8>::empty());
        assert(spec_hex_decode(ext) == seq![(spec_hex_val(ext[0]) * 16 + spec_hex_val(ext[1])) as u8]
            + spec_hex_decode(ext.skip(2)));
        assert(spec_hex_decode(ext.skip(2)) == Seq::<u8>::empty());
        assert(spec_hex_decode(s) == Seq::<u8>::empty());
        assert(spec_hex_decode(ext) =~= spec_hex_decode(s) + pair);
    } else {
        assert(ext.len() >= 2);
        assert(ext[0] == s[0]);
        assert(ext[1] == s[1]);
        assert(ext.skip(2) =~= s.skip(2) + seq![hi, lo]);
        lemma_hex_decode_append_pair(s.skip(2), hi, lo);
        assert(spec_hex_decode(ext) == seq![(spec_hex_val(ext[0]) * 16 + spec_hex_val(ext[1])) as u8]
            + spec_hex_decode(ext.skip(2)));
        assert(spec_hex_decode(s) == seq![(spec_hex_val(s[0]) * 16 + spec_hex_val(s[1])) as u8]
            + spec_hex_decode(s.skip(2)));
        assert(spec_hex_decode(ext) =~= spec_hex_decode(s) + pair);
    }
}

/// Splitting hex text at an even position splits the decoded bytes.
proof fn lemma_hex_decode_split(s: Seq<u8>, i: int)
    requires
        0 <= i <= s.len(),
        i % 2 == 0,
    ensures
        spec_hex_decode(s) == spec_hex_decode(s.take(i)) + spec_hex_decode(s.skip(i)),
    decreases i,
{
    if i == 0 {
        assert(s.take(0) =~= Seq::<u8>::empty());
        assert(s.skip(0) =~= s);
        assert(spec_hex_decode(s.take(0)) =~= Seq::<u8>::empty());
    } else {
        assert(s.len() >= 2);
        lemma_hex_decode_split(s.skip(2), i - 2);
        assert(s.take(i).len() >= 2);
        assert(s.take(i)[0] == s[0]);
        assert(s.take(i)[1] == s[1]);
        assert(s.take(i).skip(2) =~= s.skip(2).take(i - 2));
        assert(s.skip(i) =~= s.skip(2).skip(i - 2));
    }
}

} // verus!
