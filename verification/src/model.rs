//! The mathematical model of the mixing engine: one ghost state record and
//! a step function, iterated by `run` until the termination condition holds.
//! The executable driver in `engine` is proved to follow this model exactly,
//! so the digest is pinned down as a function of the input bytes relative to
//! the named primitives.
use crate::ops::op_apply_spec;
use crate::prims::chacha_block256;
use crate::prims::fnv1a_spec;
use crate::prims::rc4_xor_spec;
use crate::prims::sha256_of;
use crate::prims::sip24_of;
use crate::prims::suffix_indices_of;
use crate::prims::xxh3_of;
use crate::table::branch_ops;
use vstd::prelude::*;

verus! {

/// Bytes of the working buffer.
pub const SLOT_LENGTH: usize = 256;

/// Bytes of the scratchpad: room for 384 slots less one byte, plus a
/// 64-byte tail. Consensus fixes the suffix array to cover all of it.
pub const PAD_LENGTH: usize = 256 * 384 - 1 + 64;

/// The iteration cap: the counter exceeds the base window of 260 by at
/// most 16 before the run is cut off.
pub const BASE_TRIES: u64 = 260;

pub const EXTRA_TRIES: u64 = 16;

/// The full state of one hash invocation between iterations.
pub ghost struct MixState {
    /// The 256-byte working buffer.
    pub data: Seq<u8>,
    /// The scratchpad all snapshots land in.
    pub pad: Seq<u8>,
    /// The running accumulator hash.
    pub lhash: u64,
    /// The previous accumulator, folded forward on every rehash.
    pub prev_lhash: u64,
    /// Iterations completed.
    pub tries: u64,
    /// The iteration at which the next suffix-array reseed fires.
    pub milestone: u64,
    /// The key the RC4 keystream is currently derived from.
    pub key: Seq<u8>,
    /// Keystream bytes consumed since the last rekey.
    pub off: int,
}

/// Packs the driver's variables into one state record.
pub open spec fn st_of(
    data: Seq<u8>,
    pad: Seq<u8>,
    lhash: u64,
    prev_lhash: u64,
    tries: u64,
    milestone: u64,
    key: Seq<u8>,
    off: int,
) -> MixState {
    MixState { data, pad, lhash, prev_lhash, tries, milestone, key, off }
}

/// The byte a branch writes at one position: its four operators composed
/// over the old byte `x`, with the pivot `p` read once per step.
pub open spec fn transform_spec(b: u8, x: u8, p: u8) -> u8 {
    let ops = branch_ops(b);
    op_apply_spec(ops.3, op_apply_spec(ops.2, op_apply_spec(ops.1, op_apply_spec(ops.0, x, p), p), p), p)
}

/// A branch applied over `[p1, p2)`: every byte in the range is transformed
/// from its own old value and the pivot `d[p2]`; bytes outside the range,
/// the pivot included, keep their values.
pub open spec fn apply_range(d: Seq<u8>, b: u8, p1: int, p2: int) -> Seq<u8> {
    Seq::new(d.len(), |i: int| if p1 <= i < p2 {
        transform_spec(b, d[i], d[p2])
    } else {
        d[i]
    })
}

/// The rehashing branch: besides the byte writes it folds the accumulator
/// forward and rehashes the buffer prefix below the pivot after every
/// single write.
pub open spec fn steps_rehash(d: Seq<u8>, lh: u64, plh: u64, i: int, p2: int) -> (Seq<u8>, u64, u64)
    decreases p2 - i,
{
    if 0 <= i < p2 && p2 <= d.len() {
        let d1 = d.update(i, transform_spec(253, d[i], d[p2]));
        let plh1 = plh.wrapping_add(lh);
        let lh1 = xxh3_of(d1.subrange(0, p2), 0);
        steps_rehash(d1, lh1, plh1, i + 1, p2)
    } else {
        (d, lh, plh)
    }
}

/// Branch index and mixing positions drawn from one switcher word: the low
/// byte selects the branch, the next two bytes the positions, ordered, and
/// a gap above 64 narrowed to its low five bits.
pub open spec fn derive_spec(r: u64) -> (u8, u8, u8) {
    let b = r as u8;
    let q1 = (r >> 8) as u8;
    let q2 = (r >> 16) as u8;
    let lo = if q1 > q2 {
        q2
    } else {
        q1
    };
    let hi = if q1 > q2 {
        q1
    } else {
        q2
    };
    let gap = hi.wrapping_sub(lo);
    let hi2 = if gap > 64 {
        lo.wrapping_add(gap & 0x1f)
    } else {
        hi
    };
    (b, lo, hi2)
}

/// The scratchpad with slot `t` (bytes `[(t-1)*256, t*256)`) replaced by `d`.
pub open spec fn write_slot(pad: Seq<u8>, t: int, d: Seq<u8>) -> Seq<u8> {
    Seq::new(pad.len(), |i: int| if (t - 1) * 256 <= i < t * 256 {
        d[i - (t - 1) * 256]
    } else {
        pad[i]
    })
}

/// A suffix-array index serialized as four little-endian bytes; consensus
/// fixes the little-endian order on every host.
pub open spec fn le32(v: u32) -> Seq<u8> {
    seq![v as u8, (v >> 8) as u8, (v >> 16) as u8, (v >> 24) as u8]
}

pub open spec fn sa_bytes_from(ix: Seq<u32>, i: int) -> Seq<u8>
    decreases ix.len() - i,
{
    if 0 <= i < ix.len() {
        le32(ix[i]) + sa_bytes_from(ix, i + 1)
    } else {
        Seq::<u8>::empty()
    }
}

/// The suffix-array indices serialized little-endian, the sentinel entry
/// at the front skipped.
pub open spec fn sa_bytes(ix: Seq<u32>) -> Seq<u8> {
    sa_bytes_from(ix, 1)
}

/// The reseeded working buffer: ChaCha20 keystream under the SHA-256 of the
/// serialized suffix array of the whole scratchpad.
pub open spec fn reseed_spec(pad: Seq<u8>) -> Seq<u8> {
    chacha_block256(sha256_of(sa_bytes(suffix_indices_of(pad))))
}

/// The milestone advance: the low byte of the accumulator. (The mask keeps
/// all eight bits; the `0x7F + 128` form this folds from is a consensus
/// quirk of operator precedence, locked in by the reference vectors.)
pub open spec fn milestone_bump(lh: u64) -> u64 {
    ((lh as u8) & 0xff) as u64
}

/// One full iteration of the mixing driver.
pub open spec fn step(s: MixState) -> MixState {
    let t = s.tries.wrapping_add(1);
    let r = xxh3_of(seq![((s.prev_lhash ^ s.lhash) as u8)], t);
    let bp = derive_spec(r);
    let b = bp.0;
    let p1 = bp.1 as int;
    let p2 = bp.2 as int;
    let branched = if b == 253 {
        steps_rehash(s.data, s.lhash, s.prev_lhash, p1, p2)
    } else {
        (apply_range(s.data, b, p1, p2), s.lhash, s.prev_lhash)
    };
    let d1 = branched.0;
    let lh1 = branched.1;
    let plh1 = branched.2;
    let key1 = if b == 254 || b == 255 {
        s.data
    } else {
        s.key
    };
    let off1 = if b == 254 || b == 255 {
        0int
    } else {
        s.off
    };
    let dp = d1[p1].wrapping_sub(d1[p2]);
    let plh2 = if dp < 0x10 {
        plh1.wrapping_add(lh1)
    } else {
        plh1
    };
    let lh2 = if dp < 0x10 {
        xxh3_of(d1.subrange(0, p2), t)
    } else {
        lh1
    };
    let plh3 = if dp < 0x20 {
        plh2.wrapping_add(lh2)
    } else {
        plh2
    };
    let lh3 = if dp < 0x20 {
        fnv1a_spec(d1.subrange(0, p2))
    } else {
        lh2
    };
    let plh4 = if dp < 0x30 {
        plh3.wrapping_add(lh3)
    } else {
        plh3
    };
    let lh4 = if dp < 0x30 {
        sip24_of(d1.subrange(0, p2), t, plh4)
    } else {
        lh3
    };
    let d2 = if dp <= 0x40 {
        rc4_xor_spec(d1, key1, off1)
    } else {
        d1
    };
    let off2 = if dp <= 0x40 {
        off1 + 256
    } else {
        off1
    };
    let d3 = d2.update(255, d2[255] ^ d2[p1] ^ d2[p2]);
    let pad1 = write_slot(s.pad, t as int, d3);
    if t == s.milestone {
        MixState {
            data: reseed_spec(pad1),
            pad: pad1,
            lhash: lh4,
            prev_lhash: plh4,
            tries: t,
            milestone: s.milestone.wrapping_add(milestone_bump(lh4)),
            key: key1,
            off: off2,
        }
    } else {
        MixState {
            data: d3,
            pad: pad1,
            lhash: lh4,
            prev_lhash: plh4,
            tries: t,
            milestone: s.milestone,
            key: key1,
            off: off2,
        }
    }
}

/// The loop stops once the counter clears the cap, or once the trailer byte
/// reaches 0xF0 with the counter past the base window.
pub open spec fn finished(s: MixState) -> bool {
    s.tries > BASE_TRIES + EXTRA_TRIES || (s.data[255] >= 0xf0 && s.tries > BASE_TRIES)
}

/// Iterate `step` until `finished`, or until the fuel runs out.
pub open spec fn run(s: MixState, fuel: nat) -> MixState
    decreases fuel,
{
    if fuel == 0 || finished(s) {
        s
    } else {
        run(step(s), (fuel - 1) as nat)
    }
}

/// The fuel that always suffices: the counter starts at zero, grows by one
/// per step, and no state with a counter above 276 continues.
pub open spec fn run_fuel() -> nat {
    278
}

/// The state the driver starts from: the buffer is ChaCha20 keystream under
/// the SHA-256 of the input, immediately XORed with RC4 keystream keyed from
/// itself; the accumulators start at the buffer's FNV-1a hash.
pub open spec fn init_spec(input: Seq<u8>) -> MixState {
    let d0 = chacha_block256(sha256_of(input));
    let d1 = rc4_xor_spec(d0, d0, 0);
    let lh = fnv1a_spec(d1);
    MixState {
        data: d1,
        pad: Seq::new(PAD_LENGTH as nat, |i: int| 0u8),
        lhash: lh,
        prev_lhash: lh,
        tries: 0,
        milestone: milestone_bump(lh),
        key: d0,
        off: 256,
    }
}

/// The state the driver terminates in.
pub open spec fn final_state(input: Seq<u8>) -> MixState {
    run(init_spec(input), run_fuel())
}

/// How much of the scratchpad feeds the final digest: all filled slots but
/// the last four, plus a tail of up to 1023 bytes drawn from two buffer
/// bytes.
pub open spec fn digest_len(s: MixState) -> int {
    (s.tries - 4) * 256 + (((((s.data[253] as u64) << 8) | (s.data[254] as u64)) as u32) & 0x3ff)
}

/// The digest: SHA-256 over the live prefix of the scratchpad at
/// termination.
pub open spec fn hash_spec(input: Seq<u8>) -> Seq<u8> {
    let s = final_state(input);
    sha256_of(s.pad.subrange(0, digest_len(s)))
}

} // verus!
