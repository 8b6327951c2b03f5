//! The closed set of per-byte operators that the branch table composes.
//!
//! Every branch of the mixing engine transforms a byte `x` (the current
//! buffer byte) with four of these operators in sequence; some operators
//! also read the pivot byte `p` (the buffer byte at the upper position of
//! the range being mixed). All arithmetic is modulo 256 and all rotations
//! are 8-bit circular, as consensus fixes them.
use vstd::prelude::*;

verus! {

/// One per-byte operator. `x` is the byte being transformed, `p` the pivot.
#[derive(Clone, Copy)]
pub enum Op {
    /// `!x`
    Not,
    /// `x & p`
    AndPivot,
    /// `x ^ p`
    XorPivot,
    /// `x ^ popcount(x)`
    XorCount,
    /// `x ^ rotl(x, 2)`
    XorRotl2,
    /// `x ^ rotl(x, 4)`
    XorRotl4,
    /// bit reversal
    Reverse,
    /// `rotl(x, 1)`
    Rotl1,
    /// `rotl(x, 3)`
    Rotl3,
    /// `rotl(x, 5)`
    Rotl5,
    /// `rotl(x, x)`: the value rotates itself (count taken mod 8)
    RotlByTmp,
    /// `x + x` mod 256
    AddSelf,
    /// `x * x` mod 256
    MulSelf,
    /// `x << (x & 3)`, shifted-out bits discarded
    ShlMask,
    /// `x >> (x & 3)`
    ShrMask,
    /// `x - (x ^ 97)` mod 256
    SubXor97,
}

/// 8-bit left rotation by `n % 8`.
pub open spec fn rotl8_spec(x: u8, n: u32) -> u8 {
    let s = n % 8;
    if s == 0 {
        x
    } else {
        (x << s) | (x >> (8 - s))
    }
}

#[inline(always)]
pub fn rotl8(x: u8, n: u32) -> (r: u8)
    ensures
        r == rotl8_spec(x, n),
{
    let s = n % 8;
    if s == 0 {
        x
    } else {
        (x << s) | (x >> (8 - s))
    }
}

/// Number of set bits of an 8-bit value, as a byte (at most 8).
pub open spec fn popcount8_spec(x: u8) -> u8 {
    ((x & 1) + ((x >> 1) & 1) + ((x >> 2) & 1) + ((x >> 3) & 1) + ((x >> 4) & 1) + ((x >> 5) & 1)
        + ((x >> 6) & 1) + ((x >> 7) & 1)) as u8
}

#[inline(always)]
pub fn popcount8(x: u8) -> (r: u8)
    ensures
        r == popcount8_spec(x),
{
    proof {
        assert((x & 1) <= 1 && ((x >> 1) & 1) <= 1 && ((x >> 2) & 1) <= 1 && ((x >> 3) & 1) <= 1
            && ((x >> 4) & 1) <= 1 && ((x >> 5) & 1) <= 1 && ((x >> 6) & 1) <= 1 && ((x >> 7) & 1)
            <= 1) by (bit_vector);
    }
    (x & 1) + ((x >> 1) & 1) + ((x >> 2) & 1) + ((x >> 3) & 1) + ((x >> 4) & 1) + ((x >> 5) & 1)
        + ((x >> 6) & 1) + ((x >> 7) & 1)
}

/// Bit reversal: bit `j` of the input becomes bit `7 - j` of the result.
pub open spec fn reverse8_spec(x: u8) -> u8 {
    ((x >> 7) & 1) | (((x >> 6) & 1) << 1) | (((x >> 5) & 1) << 2) | (((x >> 4) & 1) << 3) | (((x
        >> 3) & 1) << 4) | (((x >> 2) & 1) << 5) | (((x >> 1) & 1) << 6) | ((x & 1) << 7)
}

#[inline(always)]
pub fn reverse8(x: u8) -> (r: u8)
    ensures
        r == reverse8_spec(x),
{
    ((x >> 7) & 1) | (((x >> 6) & 1) << 1) | (((x >> 5) & 1) << 2) | (((x >> 4) & 1) << 3) | (((x
        >> 3) & 1) << 4) | (((x >> 2) & 1) << 5) | (((x >> 1) & 1) << 6) | ((x & 1) << 7)
}

/// Meaning of one operator applied to byte `x` with pivot `p`.
pub open spec fn op_apply_spec(o: Op, x: u8, p: u8) -> u8 {
    match o {
        Op::Not => !x,
        Op::AndPivot => x & p,
        Op::XorPivot => x ^ p,
        Op::XorCount => x ^ popcount8_spec(x),
        Op::XorRotl2 => x ^ rotl8_spec(x, 2),
        Op::XorRotl4 => x ^ rotl8_spec(x, 4),
        Op::Reverse => reverse8_spec(x),
        Op::Rotl1 => rotl8_spec(x, 1),
        Op::Rotl3 => rotl8_spec(x, 3),
        Op::Rotl5 => rotl8_spec(x, 5),
        Op::RotlByTmp => rotl8_spec(x, x as u32),
        Op::AddSelf => x.wrapping_add(x),
        Op::MulSelf => x.wrapping_mul(x),
        Op::ShlMask => x.wrapping_shl((x & 3) as u32),
        Op::ShrMask => x.wrapping_shr((x & 3) as u32),
        Op::SubXor97 => x.wrapping_sub(x ^ 97),
    }
}

#[inline(always)]
pub fn apply_op(o: Op, x: u8, p: u8) -> (r: u8)
    ensures
        r == op_apply_spec(o, x, p),
{
    match o {
        Op::Not => !x,
        Op::AndPivot => x & p,
        Op::XorPivot => x ^ p,
        Op::XorCount => x ^ popcount8(x),
        Op::XorRotl2 => x ^ rotl8(x, 2),
        Op::XorRotl4 => x ^ rotl8(x, 4),
        Op::Reverse => reverse8(x),
        Op::Rotl1 => rotl8(x, 1),
        Op::Rotl3 => rotl8(x, 3),
        Op::Rotl5 => rotl8(x, 5),
        Op::RotlByTmp => rotl8(x, x as u32),
        Op::AddSelf => x.wrapping_add(x),
        Op::MulSelf => x.wrapping_mul(x),
        Op::ShlMask => x.wrapping_shl((x & 3) as u32),
        Op::ShrMask => x.wrapping_shr((x & 3) as u32),
        Op::SubXor97 => x.wrapping_sub(x ^ 97),
    }
}

} // verus!
