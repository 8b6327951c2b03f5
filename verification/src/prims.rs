//! The primitive pool: fixed-parameter entries into the outside hash and
//! cipher crates, each behind a single trusted item, plus the verified
//! keystream-state bookkeeping built on top of the RC4 entry.
//!
//! Digest functions whose value no short statement can pin down (SHA-256,
//! ChaCha20, XXH3, SipHash-2-4, RC4, the suffix array) get an uninterpreted
//! name: the wrapper promises only that the call returns that name of its
//! arguments, so everything downstream is exact relative to the primitive.
//! FNV-1a is short enough to state in full, so it is implemented here and
//! proved against its fold, with nothing of it taken on trust.
use vstd::prelude::*;

use chacha20::cipher::KeyIvInit;
use chacha20::cipher::StreamCipher;
use rc4::KeyInit;
use sha2::Digest;
use sha2::Sha256;
use siphasher::sip::SipHasher24;
use suffix_array::SuffixArray;
use vstd::slice::slice_index_get;

verus! {

/// The SHA-256 digest (32 bytes) of a byte sequence.
pub uninterp spec fn sha256_of(b: Seq<u8>) -> Seq<u8>;

/// Relies on sha2::Sha256: the digest is a function of the input bytes
/// alone and is always 32 bytes long.
#[verifier::external_body]
pub(crate) fn sha256_calc(input: &[u8]) -> (r: Vec<u8>)
    ensures
        r@ == sha256_of(input@),
        r@.len() == 32,
{
    let mut hasher = Sha256::new();
    hasher.update(input);
    hasher.finalize().to_vec()
}

/// The first 256 bytes of the ChaCha20 keystream for a 32-byte key and an
/// all-zero 12-byte nonce.
pub uninterp spec fn chacha_block256(key: Seq<u8>) -> Seq<u8>;

/// Relies on chacha20::ChaCha20: encrypting 256 zero bytes under the given
/// key and a zero nonce yields the first 256 keystream bytes, a function of
/// the key alone.
#[verifier::external_body]
pub(crate) fn chacha20_calc(key: &Vec<u8>) -> (r: Vec<u8>)
    requires
        key@.len() == 32,
    ensures
        r@ == chacha_block256(key@),
        r@.len() == 256,
{
    let nonce = [0u8; 12];
    let mut cipher = chacha20::ChaCha20::new(
        chacha20::Key::from_slice(key.as_slice()),
        (&nonce).into(),
    );
    let mut out = vec![0u8; 256];
    cipher.apply_keystream(&mut out);
    out
}

/// The seeded 64-bit XXH3 hash of a byte sequence.
pub uninterp spec fn xxh3_of(b: Seq<u8>, seed: u64) -> u64;

/// Relies on xxhash_rust::xxh3::xxh3_64_with_seed: the hash is a function
/// of the input bytes and the seed alone.
#[verifier::external_body]
pub(crate) fn xxh3_calc(input: &[u8], seed: u64) -> (r: u64)
    ensures
        r == xxh3_of(input@, seed),
{
    xxhash_rust::xxh3::xxh3_64_with_seed(input, seed)
}

/// The SipHash-2-4 value of a byte sequence under a 128-bit key given as
/// two 64-bit halves.
pub uninterp spec fn sip24_of(b: Seq<u8>, k0: u64, k1: u64) -> u64;

/// Relies on siphasher::sip::SipHasher24: the hash is a function of the
/// input bytes and the two key words alone.
#[verifier::external_body]
pub(crate) fn sip24_calc(input: &[u8], k0: u64, k1: u64) -> (r: u64)
    ensures
        r == sip24_of(input@, k0, k1),
{
    SipHasher24::new_with_keys(k0, k1).hash(input)
}

/// One step of the FNV-1a fold: mix one byte into the running hash.
pub open spec fn fnv1a_step(h: u64, byte: u8) -> u64 {
    (h ^ (byte as u64)).wrapping_mul(0x100000001b3)
}

pub open spec fn fnv1a_from(h: u64, b: Seq<u8>) -> u64
    decreases b.len(),
{
    if b.len() == 0 {
        h
    } else {
        fnv1a_from(fnv1a_step(h, b[0]), b.drop_first())
    }
}

/// The 64-bit FNV-1a hash: fold every byte into the offset basis.
pub open spec fn fnv1a_spec(b: Seq<u8>) -> u64 {
    fnv1a_from(0xcbf29ce484222325, b)
}

/// FNV-1a computed here and proved against the fold above: the whole
/// algorithm is the three-line fold, so nothing of it is taken on trust.
pub(crate) fn fnv1a_calc(input: &[u8]) -> (r: u64)
    ensures
        r == fnv1a_spec(input@),
{
    let mut h: u64 = 0xcbf29ce484222325;
    let mut i: usize = 0;
    proof {
        assert(input@.skip(0) =~= input@);
    }
    while i < input.len()
        invariant
            i <= input@.len(),
            fnv1a_from(h, input@.skip(i as int)) == fnv1a_spec(input@),
        decreases input@.len() - i,
    {
        let ghost pre = input@.skip(i as int);
        let b = *slice_index_get(input, i);
        h = (h ^ (b as u64)).wrapping_mul(0x100000001b3);
        proof {
            assert(pre[0] == input@[i as int]);
            assert(pre.drop_first() =~= input@.skip(i as int + 1));
        }
        i = i + 1;
    }
    proof {
        assert(input@.skip(i as int) =~= Seq::<u8>::empty());
    }
    h
}

/// Byte `i` of the RC4 keystream generated from a key.
pub uninterp spec fn rc4_ks(key: Seq<u8>, i: int) -> u8;

/// A byte sequence XORed with RC4 keystream bytes starting at `off`.
pub open spec fn rc4_xor_spec(d: Seq<u8>, key: Seq<u8>, off: int) -> Seq<u8> {
    Seq::new(d.len(), |i: int| d[i] ^ rc4_ks(key, off + i))
}

/// Keystream bytes one cipher lifetime can consume: the driver rekeys at
/// least once every 277 iterations, and each iteration takes at most one
/// 256-byte application.
pub const STREAM_CAP: usize = 256 * 278;

/// Relies on rc4::Rc4: the keystream derived from a 256-byte key is a fixed
/// byte sequence; encrypting `n` zero bytes under a fresh cipher returns its
/// first `n` bytes.
#[verifier::external_body]
fn rc4_keystream_prefix(key: &Vec<u8>, n: usize) -> (r: Vec<u8>)
    requires
        key@.len() == 256,
    ensures
        r@.len() == n,
        forall|i: int| 0 <= i < n ==> r@[i] == rc4_ks(key@, i),
{
    let k = rc4::Key::<rc4::consts::U256>::from_slice(key.as_slice());
    let mut cipher = rc4::Rc4::<rc4::consts::U256>::new(k);
    let mut out = vec![0u8; n];
    cipher.apply_keystream(&mut out);
    out
}

/// The suffix array of a byte sequence as the outside builder returns it:
/// one index per suffix plus the leading sentinel entry.
pub uninterp spec fn suffix_indices_of(b: Seq<u8>) -> Seq<u32>;

/// The suffix starting at `i` precedes the suffix starting at `j` of the
/// same sequence, in strict lexicographic order with a shorter prefix
/// first.
pub open spec fn suffix_lt(b: Seq<u8>, i: int, j: int) -> bool
    decreases b.len() - i,
{
    if j >= b.len() {
        false
    } else if i >= b.len() {
        true
    } else if b[i] != b[j] {
        b[i] < b[j]
    } else {
        suffix_lt(b, i + 1, j + 1)
    }
}

/// Relies on suffix_array::SuffixArray: `new` sorts the suffixes of the
/// input (a function of the bytes alone) into a vector of `input.len() + 1`
/// indices and `into_parts` hands that vector out; the sentinel (the input
/// length, standing for the empty suffix) leads, every other entry indexes
/// a suffix, and successive entries are in strictly increasing suffix
/// order. The sorter underneath panics on inputs of `i32::MAX` bytes or
/// more, so those are excluded here.
#[verifier::external_body]
pub(crate) fn suffix_array_indices(input: &[u8]) -> (r: Vec<u32>)
    requires
        input@.len() < 0x7fff_ffff,
    ensures
        r@ == suffix_indices_of(input@),
        r@.len() == input@.len() + 1,
        r@[0] == input@.len(),
        forall|k: int| 1 <= k < r@.len() ==> r@[k] < input@.len(),
        forall|k: int|
            0 <= k < r@.len() - 1 ==> #[trigger] suffix_lt(input@, r@[k] as int, r@[k + 1] as int),
{
    SuffixArray::new(input).into_parts().1
}

/// The RC4 cipher state the mixing driver carries: the keystream prefix one
/// cipher lifetime can consume, fetched once at each rekey, and how much of
/// it has been used.
pub struct KeyStream {
    stream: Vec<u8>,
    off: usize,
    key: Ghost<Seq<u8>>,
}

impl KeyStream {
    /// The key the keystream is derived from.
    pub closed spec fn key(&self) -> Seq<u8> {
        self.key@
    }

    /// How many keystream bytes have been consumed.
    pub closed spec fn off(&self) -> int {
        self.off as int
    }

    pub closed spec fn wf(&self) -> bool {
        &&& self.stream@.len() == STREAM_CAP
        &&& forall|i: int| 0 <= i < STREAM_CAP ==> self.stream@[i] == rc4_ks(self.key@, i)
    }

    /// A fresh cipher keyed from a 256-byte buffer.
    pub fn new(key: &Vec<u8>) -> (r: Self)
        requires
            key@.len() == 256,
        ensures
            r.key() == key@,
            r.off() == 0,
            r.wf(),
    {
        KeyStream { stream: rc4_keystream_prefix(key, STREAM_CAP), off: 0, key: Ghost(key@) }
    }

    /// Rekeys the cipher from a 256-byte buffer, restarting the stream.
    pub fn rekey(&mut self, key: &Vec<u8>)
        requires
            key@.len() == 256,
        ensures
            final(self).key() == key@,
            final(self).off() == 0,
            final(self).wf(),
    {
        self.stream = rc4_keystream_prefix(key, STREAM_CAP);
        self.off = 0;
        self.key = Ghost(key@);
    }

    /// XORs `buf` in place with the next `buf.len()` keystream bytes.
    pub fn apply(&mut self, buf: &mut Vec<u8>)
        requires
            old(self).wf(),
            old(self).off() + old(buf)@.len() <= STREAM_CAP,
        ensures
            final(buf)@ == rc4_xor_spec(old(buf)@, old(self).key(), old(self).off()),
            final(self).key() == old(self).key(),
            final(self).off() == old(self).off() + old(buf)@.len(),
            final(self).wf(),
    {
        let n = buf.len();
        let mut i: usize = 0;
        while i < n
            invariant
                self == old(self),
                self.wf(),
                n == buf@.len(),
                old(buf)@.len() == n,
                i <= n,
                self.off + n <= STREAM_CAP,
                forall|j: int|
                    0 <= j < i ==> buf@[j] == (old(buf)@[j] ^ rc4_ks(self.key@, self.off + j)),
                forall|j: int| i <= j < n ==> buf@[j] == old(buf)@[j],
            decreases n - i,
        {
            let b = buf[i];
            buf[i] = b ^ self.stream[self.off + i];
            i = i + 1;
        }
        proof {
            assert(buf@ =~= rc4_xor_spec(old(buf)@, old(self).key(), old(self).off()));
        }
        self.off = self.off + n;
    }
}

} // verus!
