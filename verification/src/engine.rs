//! The executable mixing driver, proved to follow the model in `model`
//! step for step.
use crate::model::apply_range;
use crate::model::derive_spec;
use crate::model::sa_bytes;
use crate::model::sa_bytes_from;
use crate::model::le32;
use crate::model::reseed_spec;
use crate::model::digest_len;
use crate::model::final_state;
use crate::model::finished;
use crate::model::hash_spec;
use crate::model::init_spec;
use crate::model::run;
use crate::model::run_fuel;
use crate::model::st_of;
use crate::model::step;
use crate::model::steps_rehash;
use crate::model::transform_spec;
use crate::model::write_slot;
use crate::model::BASE_TRIES;
use crate::model::EXTRA_TRIES;
use crate::model::PAD_LENGTH;
use crate::ops::apply_op;
use crate::prims::chacha20_calc;
use crate::prims::fnv1a_calc;
use crate::prims::sha256_calc;
use crate::prims::sip24_calc;
use crate::prims::suffix_array_indices;
use crate::prims::xxh3_calc;
use crate::prims::KeyStream;
use crate::table::branch_ops;
use crate::table::branch_table;
use vstd::prelude::*;
use vstd::slice::slice_subrange;

verus! {

/// Splits one switcher word into the branch index and the ordered, narrowed
/// mixing positions.
pub fn derive_positions(r: u64) -> (out: (u8, u8, u8))
    ensures
        out == derive_spec(r),
        out.1 <= out.2,
{
    let b = r as u8;
    let q1 = (r >> 8) as u8;
    let q2 = (r >> 16) as u8;
    let lo: u8 = if q1 > q2 {
        q2
    } else {
        q1
    };
    let hi: u8 = if q1 > q2 {
        q1
    } else {
        q2
    };
    let gap = hi.wrapping_sub(lo);
    let hi2: u8 = if gap > 64 {
        proof {
            assert(gap & 0x1f <= 31) by (bit_vector);
        }
        lo.wrapping_add(gap & 0x1f)
    } else {
        hi
    };
    (b, lo, hi2)
}

/// Runs one branch's operator pipeline over `[p1, p2)` of the buffer,
/// reading the pivot `data[p2]` fresh at each step.
pub fn apply_plain_branch(data: &mut Vec<u8>, b: u8, p1: u8, p2: u8)
    requires
        old(data)@.len() == 256,
        p1 <= p2,
    ensures
        final(data)@ == apply_range(old(data)@, b, p1 as int, p2 as int),
{
    let ops = branch_table(b);
    let mut i: usize = p1 as usize;
    while i < p2 as usize
        invariant
            data@.len() == 256,
            p1 <= p2,
            p1 as usize <= i <= p2 as usize,
            ops == branch_ops(b),
            forall|j: int|
                p1 as int <= j < i as int ==> data@[j] == transform_spec(
                    b,
                    old(data)@[j],
                    old(data)@[p2 as int],
                ),
            forall|j: int| 0 <= j < 256 && !(p1 as int <= j < i as int) ==> data@[j] == old(data)@[j],
        decreases p2 as int - i,
    {
        let piv = data[p2 as usize];
        let x = data[i];
        let t1 = apply_op(ops.0, x, piv);
        let t2 = apply_op(ops.1, t1, piv);
        let t3 = apply_op(ops.2, t2, piv);
        let t4 = apply_op(ops.3, t3, piv);
        data[i] = t4;
        i = i + 1;
    }
    proof {
        assert(data@ =~= apply_range(old(data)@, b, p1 as int, p2 as int));
    }
}

/// The rehashing branch: each write is followed by folding the accumulator
/// forward and rehashing the buffer prefix below the pivot.
pub fn apply_branch_rehash(data: &mut Vec<u8>, lhash: &mut u64, prev_lhash: &mut u64, p1: u8, p2: u8)
    requires
        old(data)@.len() == 256,
        p1 <= p2,
    ensures
        final(data)@.len() == 256,
        (final(data)@, *final(lhash), *final(prev_lhash)) == steps_rehash(
            old(data)@,
            *old(lhash),
            *old(prev_lhash),
            p1 as int,
            p2 as int,
        ),
{
    let ghost goal = steps_rehash(old(data)@, *old(lhash), *old(prev_lhash), p1 as int, p2 as int);
    let ops = branch_table(253);
    let mut i: usize = p1 as usize;
    while i < p2 as usize
        invariant
            data@.len() == 256,
            p1 <= p2,
            p1 as usize <= i <= p2 as usize,
            ops == branch_ops(253),
            steps_rehash(data@, *lhash, *prev_lhash, i as int, p2 as int) == goal,
        decreases p2 as int - i,
    {
        let ghost pre_d = data@;
        let ghost pre_lh = *lhash;
        let ghost pre_plh = *prev_lhash;
        let piv = data[p2 as usize];
        let x = data[i];
        let t1 = apply_op(ops.0, x, piv);
        let t2 = apply_op(ops.1, t1, piv);
        let t3 = apply_op(ops.2, t2, piv);
        let t4 = apply_op(ops.3, t3, piv);
        data[i] = t4;
        *prev_lhash = prev_lhash.wrapping_add(*lhash);
        let prefix = slice_subrange(data.as_slice(), 0, p2 as usize);
        *lhash = xxh3_calc(prefix, 0);
        proof {
            assert(data@ == pre_d.update(i as int, transform_spec(253, pre_d[i as int], pre_d[p2 as int])));
            assert(steps_rehash(pre_d, pre_lh, pre_plh, i as int, p2 as int) == steps_rehash(
                data@,
                *lhash,
                *prev_lhash,
                i as int + 1,
                p2 as int,
            ));
        }
        i = i + 1;
    }
}

/// Copies the working buffer into scratchpad slot `t`.
fn snapshot(pad: &mut Vec<u8>, data: &Vec<u8>, t: u64)
    requires
        old(pad)@.len() == PAD_LENGTH,
        data@.len() == 256,
        1 <= t <= 384,
    ensures
        final(pad)@ == write_slot(old(pad)@, t as int, data@),
{
    let base: usize = ((t - 1) as usize) * 256;
    let mut j: usize = 0;
    while j < 256
        invariant
            pad@.len() == PAD_LENGTH,
            data@.len() == 256,
            base == (t - 1) * 256,
            1 <= t <= 384,
            j <= 256,
            forall|i: int| base <= i < base + j ==> pad@[i] == data@[i - base],
            forall|i: int| 0 <= i < PAD_LENGTH && !(base <= i < base + j) ==> pad@[i] == old(pad)@[i],
        decreases 256 - j,
    {
        pad[base + j] = data[j];
        j = j + 1;
    }
    proof {
        assert(final(pad)@ =~= write_slot(old(pad)@, t as int, data@));
    }
}

/// A scratchpad of zero bytes.
pub fn zero_pad() -> (r: Vec<u8>)
    ensures
        r@ == Seq::new(PAD_LENGTH as nat, |i: int| 0u8),
{
    let mut out: Vec<u8> = Vec::new();
    let mut i: usize = 0;
    while i < PAD_LENGTH
        invariant
            i == out@.len(),
            i <= PAD_LENGTH,
            forall|j: int| 0 <= j < i ==> out@[j] == 0u8,
        decreases PAD_LENGTH - i,
    {
        out.push(0);
        i = i + 1;
    }
    proof {
        assert(out@ =~= Seq::new(PAD_LENGTH as nat, |j: int| 0u8));
    }
    out
}

/// Serializes the suffix-array indices little-endian, skipping the sentinel.
fn sa_serialize(ix: &Vec<u32>) -> (r: Vec<u8>)
    ensures
        r@ == sa_bytes(ix@),
{
    let mut out: Vec<u8> = Vec::new();
    let mut i: usize = 1;
    while i < ix.len()
        invariant
            1 <= i,
            out@ + sa_bytes_from(ix@, i as int) == sa_bytes(ix@),
        decreases ix@.len() - i,
    {
        let ghost pre = out@;
        let v = ix[i];
        out.push(v as u8);
        out.push((v >> 8) as u8);
        out.push((v >> 16) as u8);
        out.push((v >> 24) as u8);
        proof {
            assert(out@ =~= pre + le32(ix@[i as int]));
            assert(sa_bytes_from(ix@, i as int) == le32(ix@[i as int]) + sa_bytes_from(
                ix@,
                i as int + 1,
            ));
            assert(out@ + sa_bytes_from(ix@, i as int + 1) =~= pre + sa_bytes_from(ix@, i as int));
        }
        i = i + 1;
    }
    proof {
        assert(sa_bytes_from(ix@, i as int) =~= Seq::<u8>::empty());
        assert(out@ =~= sa_bytes(ix@));
    }
    out
}

/// Reseeds the working buffer from the scratchpad: suffix array, serialize,
/// SHA-256, ChaCha20 keystream.
fn reseed(pad: &Vec<u8>) -> (r: Vec<u8>)
    requires
        pad@.len() < 0x7fff_ffff,
    ensures
        r@ == reseed_spec(pad@),
        r@.len() == 256,
{
    let ix = suffix_array_indices(pad.as_slice());
    let bytes = sa_serialize(&ix);
    let key = sha256_calc(bytes.as_slice());
    chacha20_calc(&key)
}

/// One full iteration of the mixing driver, following `step` exactly.
#[verifier::rlimit(60)]
pub fn mix_iteration(
    data: &mut Vec<u8>,
    pad: &mut Vec<u8>,
    lhash: &mut u64,
    prev_lhash: &mut u64,
    tries: &mut u64,
    milestone: &mut u64,
    ks: &mut KeyStream,
)
    requires
        old(data)@.len() == 256,
        old(pad)@.len() == PAD_LENGTH,
        old(ks).wf(),
        *old(tries) <= BASE_TRIES + EXTRA_TRIES,
        old(ks).off() <= 256 * (*old(tries) + 1),
    ensures
        ({
            let s1 = step(
                st_of(
                    old(data)@,
                    old(pad)@,
                    *old(lhash),
                    *old(prev_lhash),
                    *old(tries),
                    *old(milestone),
                    old(ks).key(),
                    old(ks).off(),
                ),
            );
            &&& final(data)@ == s1.data
            &&& final(pad)@ == s1.pad
            &&& *final(lhash) == s1.lhash
            &&& *final(prev_lhash) == s1.prev_lhash
            &&& *final(tries) == s1.tries
            &&& *final(milestone) == s1.milestone
            &&& final(ks).key() == s1.key
            &&& final(ks).off() == s1.off
        }),
        final(data)@.len() == 256,
        final(pad)@.len() == PAD_LENGTH,
        final(ks).wf(),
        *final(tries) == *old(tries) + 1,
        final(ks).off() <= 256 * (*final(tries) + 1),
{
    let ghost s0 = st_of(
        old(data)@,
        old(pad)@,
        *old(lhash),
        *old(prev_lhash),
        *old(tries),
        *old(milestone),
        old(ks).key(),
        old(ks).off(),
    );
    *tries = *tries + 1;
    let t = *tries;
    proof {
        assert(t == s0.tries.wrapping_add(1));
    }
    let mut seedv: Vec<u8> = Vec::new();
    seedv.push((*prev_lhash ^ *lhash) as u8);
    let r = xxh3_calc(seedv.as_slice(), t);
    proof {
        assert(seedv@ =~= seq![((s0.prev_lhash ^ s0.lhash) as u8)]);
    }
    let bp = derive_positions(r);
    let b = bp.0;
    let p1 = bp.1;
    let p2 = bp.2;
    let ghost key1: Seq<u8> = if b == 254 || b == 255 {
        s0.data
    } else {
        s0.key
    };
    let ghost off1: int = if b == 254 || b == 255 {
        0int
    } else {
        s0.off
    };
    if b == 253 {
        apply_branch_rehash(data, lhash, prev_lhash, p1, p2);
    } else {
        if b == 254 || b == 255 {
            ks.rekey(data);
        }
        apply_plain_branch(data, b, p1, p2);
    }
    let ghost d1 = data@;
    let ghost lh1 = *lhash;
    let ghost plh1 = *prev_lhash;
    proof {
        assert(ks.key() == key1 && ks.off() == off1);
        assert(d1.len() == 256);
    }
    let dp = data[p1 as usize].wrapping_sub(data[p2 as usize]);
    if dp < 0x10 {
        *prev_lhash = prev_lhash.wrapping_add(*lhash);
        let prefix = slice_subrange(data.as_slice(), 0, p2 as usize);
        *lhash = xxh3_calc(prefix, t);
    }
    if dp < 0x20 {
        *prev_lhash = prev_lhash.wrapping_add(*lhash);
        let prefix = slice_subrange(data.as_slice(), 0, p2 as usize);
        *lhash = fnv1a_calc(prefix);
    }
    if dp < 0x30 {
        *prev_lhash = prev_lhash.wrapping_add(*lhash);
        let prefix = slice_subrange(data.as_slice(), 0, p2 as usize);
        *lhash = sip24_calc(prefix, t, *prev_lhash);
    }
    let ghost lh4 = *lhash;
    let ghost plh4 = *prev_lhash;
    if dp <= 0x40 {
        ks.apply(data);
    }
    let ghost d2 = data@;
    let ghost off2 = ks.off();
    let v = data[255] ^ data[p1 as usize] ^ data[p2 as usize];
    data[255] = v;
    proof {
        assert(data@ =~= d2.update(255, d2[255] ^ d2[p1 as int] ^ d2[p2 as int]));
    }
    snapshot(pad, data, t);
    if t == *milestone {
        *milestone = milestone.wrapping_add(((*lhash as u8) & 0xff) as u64);
        let nd = reseed(pad);
        *data = nd;
    }
    proof {
        let s1 = step(s0);
        assert(*lhash == s1.lhash && *prev_lhash == s1.prev_lhash);
        assert(*milestone == s1.milestone);
        assert(pad@ == s1.pad);
        assert(data@ == s1.data);
        assert(ks.key() == s1.key && ks.off() == s1.off);
    }
}

/// Runs the whole mixing engine and returns the digest together with the
/// number of iterations the run took. The iteration count always lands in
/// the window `(260, 277]`: termination requires the counter to clear the
/// base window, and the cap cuts the run off one step past base + extra.
pub fn hash_with_tries(input: &[u8]) -> (r: ([u8; 32], u64))
    ensures
        r.0@ == hash_spec(input@),
        r.1 == final_state(input@).tries,
        BASE_TRIES < r.1 <= BASE_TRIES + EXTRA_TRIES + 1,
{
    let key0 = sha256_calc(input);
    let mut data = chacha20_calc(&key0);
    let mut ks = KeyStream::new(&data);
    ks.apply(&mut data);
    let mut lhash = fnv1a_calc(data.as_slice());
    let mut prev_lhash = lhash;
    let mut tries: u64 = 0;
    let mut milestone: u64 = ((lhash as u8) & 0xff) as u64;
    let mut pad = zero_pad();
    let ghost mut cur = init_spec(input@);
    proof {
        assert(cur == st_of(
            data@,
            pad@,
            lhash,
            prev_lhash,
            tries,
            milestone,
            ks.key(),
            ks.off(),
        ));
    }
    loop
        invariant_except_break
            data@.len() == 256,
            pad@.len() == PAD_LENGTH,
            ks.wf(),
            cur == st_of(data@, pad@, lhash, prev_lhash, tries, milestone, ks.key(), ks.off()),
            !finished(cur),
            tries <= BASE_TRIES + EXTRA_TRIES,
            ks.off() <= 256 * (tries + 1),
            run(cur, (run_fuel() - tries) as nat) == final_state(input@),
        ensures
            data@.len() == 256,
            pad@.len() == PAD_LENGTH,
            st_of(data@, pad@, lhash, prev_lhash, tries, milestone, ks.key(), ks.off())
                == final_state(input@),
            finished(final_state(input@)),
            tries <= BASE_TRIES + EXTRA_TRIES + 1,
        decreases BASE_TRIES + EXTRA_TRIES + 1 - tries,
    {
        let ghost prev = cur;
        mix_iteration(
            &mut data,
            &mut pad,
            &mut lhash,
            &mut prev_lhash,
            &mut tries,
            &mut milestone,
            &mut ks,
        );
        proof {
            cur = step(prev);
            assert(run(prev, (run_fuel() - prev.tries) as nat) == run(
                cur,
                (run_fuel() - tries) as nat,
            ));
        }
        if tries > BASE_TRIES + EXTRA_TRIES || (data[255] >= 0xf0 && tries > BASE_TRIES) {
            proof {
                assert(finished(cur));
                assert(run(cur, (run_fuel() - tries) as nat) == cur);
            }
            break ;
        }
        proof {
            assert(!finished(cur));
        }
    }
    let ghost fin = final_state(input@);
    proof {
        assert(tries == fin.tries);
        assert(BASE_TRIES < tries);
    }
    let hi = data[253] as u64;
    let lo = data[254] as u64;
    let y: u32 = #[verifier::truncate] (((hi << 8) | lo) as u32);
    let mask = y & 0x3ff;
    proof {
        assert(y & 0x3ff <= 0x3ff) by (bit_vector);
    }
    let dlen: usize = ((tries - 4) as usize) * 256 + (mask as usize);
    proof {
        assert(dlen == digest_len(fin));
        assert(0 <= digest_len(fin) <= PAD_LENGTH);
    }
    let prefix = slice_subrange(pad.as_slice(), 0, dlen);
    let dig = sha256_calc(prefix);
    let mut out = [0u8; 32];
    let mut i: usize = 0;
    while i < 32
        invariant
            i <= 32,
            dig@.len() == 32,
            forall|j: int| 0 <= j < i ==> out@[j] == dig@[j],
        decreases 32 - i,
    {
        out[i] = dig[i];
        i = i + 1;
    }
    proof {
        assert(out@ =~= dig@);
    }
    (out, tries)
}

/// The AstroHash digest of the input bytes: a 32-byte value pinned down,
/// relative to the named primitives, as a function of the input alone.
pub fn astrobwtv3_hash(input: &[u8]) -> (r: [u8; 32])
    ensures
        r@ == hash_spec(input@),
        r@.len() == 32,
{
    hash_with_tries(input).0
}

} // verus!
