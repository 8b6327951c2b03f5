//! The 256-entry branch table of the mixing engine.
//!
//! Each entry names the four per-byte operators that the selected branch
//! composes over every byte of the active range. The table is consensus
//! data: every entry must be reproduced exactly, and entries 254 and 255
//! share one body (branch 253 additionally rehashes the accumulator and
//! branches 254/255 additionally rekey the keystream cipher; the mixing
//! driver handles those side effects).
use crate::ops::Op;
use vstd::prelude::*;

verus! {

/// The operator quadruple of branch `b`.
pub open spec fn branch_ops(b: u8) -> (Op, Op, Op, Op) {
    match b {
        0u8 => (Op::XorCount, Op::Rotl5, Op::MulSelf, Op::RotlByTmp),
        1u8 => (Op::ShlMask, Op::Rotl1, Op::AndPivot, Op::AddSelf),
        2u8 => (Op::XorCount, Op::Reverse, Op::ShlMask, Op::XorCount),
        3u8 => (Op::RotlByTmp, Op::Rotl3, Op::XorPivot, Op::Rotl1),
        4u8 => (Op::Not, Op::ShrMask, Op::RotlByTmp, Op::SubXor97),
        5u8 => (Op::XorCount, Op::XorPivot, Op::ShlMask, Op::ShrMask),
        6u8 => (Op::ShlMask, Op::Rotl3, Op::Not, Op::SubXor97),
        7u8 => (Op::AddSelf, Op::RotlByTmp, Op::XorCount, Op::Not),
        8u8 => (Op::Not, Op::Rotl5, Op::Rotl5, Op::ShlMask),
        9u8 => (Op::XorPivot, Op::XorRotl4, Op::ShrMask, Op::XorRotl2),
        10u8 => (Op::Not, Op::MulSelf, Op::Rotl3, Op::MulSelf),
        11u8 => (Op::Rotl1, Op::Rotl5, Op::AndPivot, Op::RotlByTmp),
        12u8 => (Op::XorRotl2, Op::MulSelf, Op::XorRotl2, Op::Not),
        13u8 => (Op::Rotl1, Op::XorPivot, Op::ShrMask, Op::Rotl5),
        14u8 => (Op::ShrMask, Op::ShlMask, Op::MulSelf, Op::ShlMask),
        15u8 => (Op::XorRotl2, Op::ShlMask, Op::AndPivot, Op::SubXor97),
        16u8 => (Op::XorRotl4, Op::MulSelf, Op::Rotl1, Op::Not),
        17u8 => (Op::XorPivot, Op::MulSelf, Op::Rotl5, Op::Not),
        18u8 => (Op::XorRotl4, Op::Rotl3, Op::Rotl1, Op::Rotl5),
        19u8 => (Op::SubXor97, Op::Rotl5, Op::ShlMask, Op::AddSelf),
        20u8 => (Op::AndPivot, Op::XorPivot, Op::Reverse, Op::XorRotl2),
        21u8 => (Op::Rotl1, Op::XorPivot, Op::AddSelf, Op::AndPivot),
        22u8 => (Op::ShlMask, Op::Reverse, Op::MulSelf, Op::Rotl1),
        23u8 => (Op::Rotl3, Op::Rotl1, Op::XorCount, Op::AndPivot),
        24u8 => (Op::AddSelf, Op::ShrMask, Op::XorRotl4, Op::Rotl5),
        25u8 => (Op::XorCount, Op::Rotl3, Op::RotlByTmp, Op::SubXor97),
        26u8 => (Op::MulSelf, Op::XorCount, Op::AddSelf, Op::Reverse),
        27u8 => (Op::Rotl5, Op::AndPivot, Op::XorRotl4, Op::Rotl5),
        28u8 => (Op::ShlMask, Op::AddSelf, Op::AddSelf, Op::Rotl5),
        29u8 => (Op::MulSelf, Op::XorPivot, Op::ShrMask, Op::AddSelf),
        30u8 => (Op::AndPivot, Op::XorRotl4, Op::Rotl5, Op::ShlMask),
        31u8 => (Op::Not, Op::XorRotl2, Op::ShlMask, Op::MulSelf),
        32u8 => (Op::XorRotl2, Op::Reverse, Op::Rotl3, Op::XorRotl2),
        33u8 => (Op::RotlByTmp, Op::XorRotl4, Op::Reverse, Op::MulSelf),
        34u8 => (Op::SubXor97, Op::ShlMask, Op::ShlMask, Op::SubXor97),
        35u8 => (Op::AddSelf, Op::Not, Op::Rotl1, Op::XorPivot),
        36u8 => (Op::XorCount, Op::Rotl1, Op::XorRotl2, Op::Rotl1),
        37u8 => (Op::RotlByTmp, Op::ShrMask, Op::ShrMask, Op::MulSelf),
        38u8 => (Op::ShrMask, Op::Rotl3, Op::XorCount, Op::RotlByTmp),
        39u8 => (Op::XorRotl2, Op::XorPivot, Op::ShrMask, Op::AndPivot),
        40u8 => (Op::RotlByTmp, Op::XorPivot, Op::XorCount, Op::XorPivot),
        41u8 => (Op::Rotl5, Op::SubXor97, Op::Rotl3, Op::XorRotl4),
        42u8 => (Op::Rotl1, Op::Rotl3, Op::XorRotl2, Op::RotlByTmp),
        43u8 => (Op::AndPivot, Op::AddSelf, Op::AndPivot, Op::SubXor97),
        44u8 => (Op::XorCount, Op::XorCount, Op::Rotl3, Op::RotlByTmp),
        45u8 => (Op::Rotl5, Op::Rotl5, Op::AndPivot, Op::XorCount),
        46u8 => (Op::XorCount, Op::AddSelf, Op::Rotl5, Op::XorRotl4),
        47u8 => (Op::Rotl5, Op::AndPivot, Op::Rotl5, Op::ShlMask),
        48u8 => (Op::RotlByTmp, Op::Not, Op::Not, Op::Rotl5),
        49u8 => (Op::XorCount, Op::AddSelf, Op::Reverse, Op::XorRotl4),
        50u8 => (Op::Reverse, Op::Rotl3, Op::AddSelf, Op::Rotl1),
        51u8 => (Op::XorPivot, Op::XorRotl4, Op::XorRotl4, Op::Rotl5),
        52u8 => (Op::RotlByTmp, Op::ShrMask, Op::Not, Op::XorCount),
        53u8 => (Op::AddSelf, Op::XorCount, Op::XorRotl4, Op::XorRotl4),
        54u8 => (Op::Reverse, Op::XorPivot, Op::Not, Op::Not),
        55u8 => (Op::Reverse, Op::XorRotl4, Op::XorRotl4, Op::Rotl1),
        56u8 => (Op::XorRotl2, Op::MulSelf, Op::Not, Op::Rotl1),
        57u8 => (Op::RotlByTmp, Op::Rotl5, Op::Rotl3, Op::Reverse),
        58u8 => (Op::Reverse, Op::XorRotl2, Op::AndPivot, Op::AddSelf),
        59u8 => (Op::Rotl1, Op::MulSelf, Op::RotlByTmp, Op::Not),
        60u8 => (Op::XorPivot, Op::Not, Op::MulSelf, Op::Rotl3),
        61u8 => (Op::Rotl5, Op::ShlMask, Op::Rotl3, Op::Rotl5),
        62u8 => (Op::AndPivot, Op::Not, Op::XorRotl2, Op::AddSelf),
        63u8 => (Op::Rotl5, Op::XorCount, Op::SubXor97, Op::AddSelf),
        64u8 => (Op::XorPivot, Op::Reverse, Op::XorRotl4, Op::MulSelf),
        65u8 => (Op::Rotl5, Op::Rotl3, Op::XorRotl2, Op::MulSelf),
        66u8 => (Op::XorRotl2, Op::Reverse, Op::XorRotl4, Op::Rotl1),
        67u8 => (Op::Rotl1, Op::XorCount, Op::XorRotl2, Op::Rotl5),
        68u8 => (Op::AndPivot, Op::Not, Op::XorRotl4, Op::XorPivot),
        69u8 => (Op::AddSelf, Op::MulSelf, Op::Reverse, Op::ShrMask),
        70u8 => (Op::XorPivot, Op::MulSelf, Op::ShrMask, Op::XorRotl4),
        71u8 => (Op::Rotl5, Op::Not, Op::MulSelf, Op::ShlMask),
        72u8 => (Op::Reverse, Op::XorCount, Op::XorPivot, Op::ShlMask),
        73u8 => (Op::XorCount, Op::Reverse, Op::Rotl5, Op::SubXor97),
        74u8 => (Op::MulSelf, Op::Rotl3, Op::Reverse, Op::AndPivot),
        75u8 => (Op::MulSelf, Op::XorCount, Op::AndPivot, Op::XorRotl4),
        76u8 => (Op::RotlByTmp, Op::XorRotl2, Op::Rotl5, Op::ShrMask),
        77u8 => (Op::Rotl3, Op::AddSelf, Op::ShlMask, Op::XorCount),
        78u8 => (Op::RotlByTmp, Op::Reverse, Op::MulSelf, Op::SubXor97),
        79u8 => (Op::XorRotl4, Op::XorRotl2, Op::AddSelf, Op::MulSelf),
        80u8 => (Op::RotlByTmp, Op::ShlMask, Op::AddSelf, Op::AndPivot),
        81u8 => (Op::XorRotl4, Op::ShlMask, Op::RotlByTmp, Op::XorCount),
        82u8 => (Op::XorPivot, Op::Not, Op::Not, Op::ShrMask),
        83u8 => (Op::ShlMask, Op::Reverse, Op::Rotl3, Op::Reverse),
        84u8 => (Op::SubXor97, Op::Rotl1, Op::ShlMask, Op::AddSelf),
        85u8 => (Op::ShrMask, Op::XorPivot, Op::RotlByTmp, Op::ShlMask),
        86u8 => (Op::XorRotl4, Op::RotlByTmp, Op::XorRotl4, Op::Not),
        87u8 => (Op::AddSelf, Op::Rotl3, Op::XorRotl4, Op::AddSelf),
        88u8 => (Op::XorRotl2, Op::Rotl1, Op::MulSelf, Op::Not),
        89u8 => (Op::AddSelf, Op::MulSelf, Op::Not, Op::XorRotl2),
        90u8 => (Op::Reverse, Op::Rotl5, Op::Rotl1, Op::ShrMask),
        91u8 => (Op::XorCount, Op::AndPivot, Op::XorRotl4, Op::Reverse),
        92u8 => (Op::XorCount, Op::Not, Op::XorCount, Op::AndPivot),
        93u8 => (Op::XorRotl2, Op::MulSelf, Op::AndPivot, Op::AddSelf),
        94u8 => (Op::Rotl1, Op::RotlByTmp, Op::AndPivot, Op::ShlMask),
        95u8 => (Op::Rotl1, Op::Not, Op::Rotl5, Op::Rotl5),
        96u8 => (Op::XorRotl2, Op::XorRotl2, Op::XorCount, Op::Rotl1),
        97u8 => (Op::Rotl1, Op::ShlMask, Op::XorCount, Op::ShrMask),
        98u8 => (Op::XorRotl4, Op::ShlMask, Op::ShrMask, Op::XorRotl4),
        99u8 => (Op::XorRotl4, Op::SubXor97, Op::Reverse, Op::ShrMask),
        100u8 => (Op::RotlByTmp, Op::ShlMask, Op::Reverse, Op::XorCount),
        101u8 => (Op::ShrMask, Op::XorCount, Op::ShrMask, Op::Not),
        102u8 => (Op::Rotl3, Op::SubXor97, Op::AddSelf, Op::Rotl3),
        103u8 => (Op::Rotl1, Op::Reverse, Op::XorPivot, Op::RotlByTmp),
        104u8 => (Op::Reverse, Op::XorCount, Op::Rotl5, Op::AddSelf),
        105u8 => (Op::ShlMask, Op::Rotl3, Op::RotlByTmp, Op::XorRotl2),
        106u8 => (Op::Reverse, Op::XorRotl4, Op::Rotl1, Op::MulSelf),
        107u8 => (Op::ShrMask, Op::XorRotl2, Op::Rotl5, Op::Rotl1),
        108u8 => (Op::XorPivot, Op::Not, Op::AndPivot, Op::XorRotl2),
        109u8 => (Op::MulSelf, Op::RotlByTmp, Op::XorPivot, Op::XorRotl2),
        110u8 => (Op::AddSelf, Op::XorRotl2, Op::XorRotl2, Op::ShrMask),
        111u8 => (Op::MulSelf, Op::Reverse, Op::MulSelf, Op::ShrMask),
        112u8 => (Op::Rotl3, Op::Not, Op::Rotl5, Op::SubXor97),
        113u8 => (Op::Rotl5, Op::Rotl1, Op::XorCount, Op::Not),
        114u8 => (Op::Rotl1, Op::Reverse, Op::RotlByTmp, Op::Not),
        115u8 => (Op::RotlByTmp, Op::Rotl5, Op::AndPivot, Op::Rotl3),
        116u8 => (Op::AndPivot, Op::XorPivot, Op::XorCount, Op::ShlMask),
        117u8 => (Op::ShlMask, Op::Rotl3, Op::ShlMask, Op::AndPivot),
        118u8 => (Op::ShrMask, Op::AddSelf, Op::ShlMask, Op::Rotl5),
        119u8 => (Op::Reverse, Op::XorRotl2, Op::Not, Op::XorPivot),
        120u8 => (Op::XorRotl2, Op::MulSelf, Op::XorPivot, Op::Reverse),
        121u8 => (Op::ShrMask, Op::AddSelf, Op::XorCount, Op::MulSelf),
        122u8 => (Op::XorRotl4, Op::RotlByTmp, Op::Rotl5, Op::XorRotl2),
        123u8 => (Op::AndPivot, Op::Not, Op::Rotl3, Op::Rotl3),
        124u8 => (Op::XorRotl2, Op::XorRotl2, Op::XorPivot, Op::Not),
        125u8 => (Op::Reverse, Op::XorRotl2, Op::AddSelf, Op::ShrMask),
        126u8 => (Op::Rotl3, Op::Rotl1, Op::Rotl5, Op::Reverse),
        127u8 => (Op::ShlMask, Op::MulSelf, Op::AndPivot, Op::XorPivot),
        128u8 => (Op::RotlByTmp, Op::XorRotl2, Op::XorRotl2, Op::Rotl5),
        129u8 => (Op::Not, Op::XorCount, Op::XorCount, Op::ShrMask),
        130u8 => (Op::ShrMask, Op::RotlByTmp, Op::Rotl1, Op::XorRotl4),
        131u8 => (Op::SubXor97, Op::Rotl1, Op::XorCount, Op::MulSelf),
        132u8 => (Op::AndPivot, Op::Reverse, Op::Rotl5, Op::XorRotl2),
        133u8 => (Op::XorPivot, Op::Rotl5, Op::XorRotl2, Op::ShlMask),
        134u8 => (Op::Not, Op::XorRotl4, Op::Rotl1, Op::AndPivot),
        135u8 => (Op::ShrMask, Op::XorRotl2, Op::AddSelf, Op::Reverse),
        136u8 => (Op::ShrMask, Op::SubXor97, Op::XorPivot, Op::Rotl5),
        137u8 => (Op::Rotl5, Op::ShrMask, Op::Reverse, Op::RotlByTmp),
        138u8 => (Op::XorPivot, Op::XorPivot, Op::AddSelf, Op::SubXor97),
        139u8 => (Op::Rotl5, Op::Rotl3, Op::XorRotl2, Op::Rotl3),
        140u8 => (Op::Rotl1, Op::XorRotl2, Op::XorPivot, Op::Rotl5),
        141u8 => (Op::Rotl1, Op::SubXor97, Op::XorCount, Op::AddSelf),
        142u8 => (Op::AndPivot, Op::Rotl5, Op::Reverse, Op::XorRotl2),
        143u8 => (Op::AndPivot, Op::Rotl3, Op::ShrMask, Op::ShlMask),
        144u8 => (Op::RotlByTmp, Op::ShlMask, Op::Not, Op::RotlByTmp),
        145u8 => (Op::Reverse, Op::XorRotl4, Op::XorRotl2, Op::XorRotl4),
        146u8 => (Op::AndPivot, Op::ShlMask, Op::AndPivot, Op::XorCount),
        147u8 => (Op::Not, Op::ShlMask, Op::XorRotl4, Op::MulSelf),
        148u8 => (Op::AndPivot, Op::Rotl5, Op::ShlMask, Op::SubXor97),
        149u8 => (Op::XorPivot, Op::Reverse, Op::SubXor97, Op::AddSelf),
        150u8 => (Op::ShlMask, Op::ShlMask, Op::ShlMask, Op::AndPivot),
        151u8 => (Op::AddSelf, Op::ShlMask, Op::MulSelf, Op::ShlMask),
        152u8 => (Op::ShrMask, Op::Not, Op::ShlMask, Op::XorRotl2),
        153u8 => (Op::Rotl1, Op::Rotl3, Op::Not, Op::Not),
        154u8 => (Op::Rotl5, Op::Not, Op::XorPivot, Op::XorCount),
        155u8 => (Op::SubXor97, Op::XorPivot, Op::XorCount, Op::XorPivot),
        156u8 => (Op::ShrMask, Op::ShrMask, Op::Rotl3, Op::Rotl1),
        157u8 => (Op::ShrMask, Op::ShlMask, Op::RotlByTmp, Op::Rotl1),
        158u8 => (Op::XorCount, Op::Rotl3, Op::AddSelf, Op::Rotl1),
        159u8 => (Op::SubXor97, Op::XorPivot, Op::RotlByTmp, Op::XorPivot),
        160u8 => (Op::ShrMask, Op::Reverse, Op::Rotl1, Op::Rotl3),
        161u8 => (Op::XorPivot, Op::XorPivot, Op::Rotl5, Op::RotlByTmp),
        162u8 => (Op::MulSelf, Op::Reverse, Op::XorRotl2, Op::SubXor97),
        163u8 => (Op::ShlMask, Op::SubXor97, Op::XorRotl4, Op::Rotl1),
        164u8 => (Op::MulSelf, Op::XorCount, Op::SubXor97, Op::Not),
        165u8 => (Op::XorRotl4, Op::XorPivot, Op::ShlMask, Op::AddSelf),
        166u8 => (Op::Rotl3, Op::AddSelf, Op::XorRotl2, Op::Not),
        167u8 => (Op::Not, Op::Not, Op::MulSelf, Op::ShrMask),
        168u8 => (Op::RotlByTmp, Op::AndPivot, Op::RotlByTmp, Op::Rotl1),
        169u8 => (Op::Rotl1, Op::ShlMask, Op::XorRotl4, Op::AndPivot),
        170u8 => (Op::SubXor97, Op::Reverse, Op::SubXor97, Op::MulSelf),
        171u8 => (Op::Rotl3, Op::SubXor97, Op::XorCount, Op::Reverse),
        172u8 => (Op::XorRotl4, Op::SubXor97, Op::ShlMask, Op::Rotl1),
        173u8 => (Op::Not, Op::ShlMask, Op::MulSelf, Op::AddSelf),
        174u8 => (Op::Not, Op::RotlByTmp, Op::XorCount, Op::XorCount),
        175u8 => (Op::Rotl3, Op::SubXor97, Op::MulSelf, Op::Rotl5),
        176u8 => (Op::XorPivot, Op::MulSelf, Op::XorPivot, Op::Rotl5),
        177u8 => (Op::XorCount, Op::XorRotl2, Op::XorRotl2, Op::AndPivot),
        178u8 => (Op::AndPivot, Op::AddSelf, Op::Not, Op::Rotl1),
        179u8 => (Op::XorRotl2, Op::AddSelf, Op::ShrMask, Op::Reverse),
        180u8 => (Op::ShrMask, Op::XorRotl4, Op::XorPivot, Op::SubXor97),
        181u8 => (Op::Not, Op::ShlMask, Op::XorRotl2, Op::Rotl5),
        182u8 => (Op::XorPivot, Op::Rotl1, Op::Rotl5, Op::XorRotl4),
        183u8 => (Op::AddSelf, Op::SubXor97, Op::SubXor97, Op::MulSelf),
        184u8 => (Op::ShlMask, Op::MulSelf, Op::Rotl5, Op::XorPivot),
        185u8 => (Op::Not, Op::XorRotl4, Op::Rotl5, Op::ShrMask),
        186u8 => (Op::XorRotl2, Op::XorRotl4, Op::SubXor97, Op::ShrMask),
        187u8 => (Op::XorPivot, Op::Not, Op::AddSelf, Op::Rotl3),
        188u8 => (Op::XorRotl4, Op::XorCount, Op::XorRotl4, Op::XorRotl4),
        189u8 => (Op::Rotl5, Op::XorRotl4, Op::XorPivot, Op::SubXor97),
        190u8 => (Op::Rotl5, Op::ShrMask, Op::AndPivot, Op::XorRotl2),
        191u8 => (Op::AddSelf, Op::Rotl3, Op::RotlByTmp, Op::ShrMask),
        192u8 => (Op::AddSelf, Op::ShlMask, Op::AddSelf, Op::MulSelf),
        193u8 => (Op::AndPivot, Op::ShlMask, Op::RotlByTmp, Op::Rotl1),
        194u8 => (Op::AndPivot, Op::RotlByTmp, Op::ShlMask, Op::AndPivot),
        195u8 => (Op::XorCount, Op::XorRotl2, Op::XorPivot, Op::XorRotl4),
        196u8 => (Op::Rotl3, Op::Reverse, Op::ShlMask, Op::Rotl1),
        197u8 => (Op::XorRotl4, Op::RotlByTmp, Op::MulSelf, Op::MulSelf),
        198u8 => (Op::ShrMask, Op::ShrMask, Op::Reverse, Op::Rotl1),
        199u8 => (Op::Not, Op::AddSelf, Op::MulSelf, Op::XorPivot),
        200u8 => (Op::ShrMask, Op::XorCount, Op::Reverse, Op::Reverse),
        201u8 => (Op::Rotl3, Op::XorRotl2, Op::XorRotl4, Op::Not),
        202u8 => (Op::XorPivot, Op::Not, Op::RotlByTmp, Op::Rotl5),
        203u8 => (Op::XorPivot, Op::AndPivot, Op::Rotl1, Op::RotlByTmp),
        204u8 => (Op::Rotl5, Op::XorRotl2, Op::RotlByTmp, Op::XorPivot),
        205u8 => (Op::XorCount, Op::XorRotl4, Op::ShlMask, Op::AddSelf),
        206u8 => (Op::XorRotl4, Op::Reverse, Op::Reverse, Op::XorCount),
        207u8 => (Op::Rotl5, Op::Rotl3, Op::XorCount, Op::XorCount),
        208u8 => (Op::AddSelf, Op::AddSelf, Op::ShrMask, Op::Rotl3),
        209u8 => (Op::Rotl5, Op::Reverse, Op::XorCount, Op::SubXor97),
        210u8 => (Op::XorRotl2, Op::RotlByTmp, Op::Rotl5, Op::Not),
        211u8 => (Op::XorRotl4, Op::AddSelf, Op::SubXor97, Op::RotlByTmp),
        212u8 => (Op::RotlByTmp, Op::XorRotl2, Op::XorPivot, Op::XorPivot),
        213u8 => (Op::AddSelf, Op::ShlMask, Op::Rotl3, Op::SubXor97),
        214u8 => (Op::XorPivot, Op::SubXor97, Op::ShrMask, Op::Not),
        215u8 => (Op::XorPivot, Op::AndPivot, Op::ShlMask, Op::MulSelf),
        216u8 => (Op::RotlByTmp, Op::Not, Op::SubXor97, Op::AndPivot),
        217u8 => (Op::Rotl5, Op::AddSelf, Op::Rotl1, Op::XorRotl4),
        218u8 => (Op::Reverse, Op::Not, Op::MulSelf, Op::SubXor97),
        219u8 => (Op::XorRotl4, Op::Rotl3, Op::AndPivot, Op::Reverse),
        220u8 => (Op::Rotl1, Op::ShlMask, Op::Reverse, Op::ShlMask),
        221u8 => (Op::Rotl5, Op::XorPivot, Op::Not, Op::Reverse),
        222u8 => (Op::ShrMask, Op::ShlMask, Op::XorPivot, Op::MulSelf),
        223u8 => (Op::Rotl3, Op::XorPivot, Op::RotlByTmp, Op::SubXor97),
        224u8 => (Op::XorRotl2, Op::Rotl1, Op::Rotl3, Op::ShlMask),
        225u8 => (Op::Not, Op::ShrMask, Op::Reverse, Op::Rotl3),
        226u8 => (Op::Reverse, Op::SubXor97, Op::MulSelf, Op::XorPivot),
        227u8 => (Op::Not, Op::ShlMask, Op::SubXor97, Op::AndPivot),
        228u8 => (Op::AddSelf, Op::ShrMask, Op::AddSelf, Op::XorCount),
        229u8 => (Op::Rotl3, Op::RotlByTmp, Op::XorRotl2, Op::XorCount),
        230u8 => (Op::MulSelf, Op::AndPivot, Op::RotlByTmp, Op::RotlByTmp),
        231u8 => (Op::Rotl3, Op::ShrMask, Op::XorPivot, Op::Reverse),
        232u8 => (Op::MulSelf, Op::MulSelf, Op::XorRotl4, Op::Rotl5),
        233u8 => (Op::Rotl1, Op::XorCount, Op::Rotl3, Op::XorCount),
        234u8 => (Op::AndPivot, Op::MulSelf, Op::ShrMask, Op::XorPivot),
        235u8 => (Op::XorRotl2, Op::MulSelf, Op::Rotl3, Op::Not),
        236u8 => (Op::XorPivot, Op::AddSelf, Op::AndPivot, Op::SubXor97),
        237u8 => (Op::Rotl5, Op::ShlMask, Op::XorRotl2, Op::Rotl3),
        238u8 => (Op::AddSelf, Op::AddSelf, Op::Rotl3, Op::SubXor97),
        239u8 => (Op::Rotl5, Op::Rotl1, Op::MulSelf, Op::AndPivot),
        240u8 => (Op::Not, Op::AddSelf, Op::AndPivot, Op::ShlMask),
        241u8 => (Op::XorRotl4, Op::XorCount, Op::XorPivot, Op::Rotl1),
        242u8 => (Op::AddSelf, Op::AddSelf, Op::SubXor97, Op::XorPivot),
        243u8 => (Op::Rotl5, Op::XorRotl2, Op::XorCount, Op::Rotl1),
        244u8 => (Op::Not, Op::XorRotl2, Op::Reverse, Op::Rotl5),
        245u8 => (Op::SubXor97, Op::Rotl5, Op::XorRotl2, Op::ShrMask),
        246u8 => (Op::AddSelf, Op::Rotl1, Op::ShrMask, Op::AddSelf),
        247u8 => (Op::Rotl5, Op::XorRotl2, Op::Rotl5, Op::Not),
        248u8 => (Op::Not, Op::SubXor97, Op::XorCount, Op::Rotl5),
        249u8 => (Op::Reverse, Op::XorRotl4, Op::XorRotl4, Op::RotlByTmp),
        250u8 => (Op::AndPivot, Op::RotlByTmp, Op::XorCount, Op::XorRotl4),
        251u8 => (Op::AddSelf, Op::XorCount, Op::Reverse, Op::XorRotl2),
        252u8 => (Op::Reverse, Op::XorRotl4, Op::XorRotl2, Op::ShlMask),
        253u8 => (Op::Rotl3, Op::XorRotl2, Op::XorPivot, Op::Rotl3),
        _ => (Op::XorCount, Op::Rotl3, Op::XorRotl2, Op::Rotl3),
    }
}

/// Fetches the operator quadruple of branch `b`.
#[inline(always)]
pub fn branch_table(b: u8) -> (r: (Op, Op, Op, Op))
    ensures
        r == branch_ops(b),
{
    match b {
        0u8 => (Op::XorCount, Op::Rotl5, Op::MulSelf, Op::RotlByTmp),
        1u8 => (Op::ShlMask, Op::Rotl1, Op::AndPivot, Op::AddSelf),
        2u8 => (Op::XorCount, Op::Reverse, Op::ShlMask, Op::XorCount),
        3u8 => (Op::RotlByTmp, Op::Rotl3, Op::XorPivot, Op::Rotl1),
        4u8 => (Op::Not, Op::ShrMask, Op::RotlByTmp, Op::SubXor97),
        5u8 => (Op::XorCount, Op::XorPivot, Op::ShlMask, Op::ShrMask),
        6u8 => (Op::ShlMask, Op::Rotl3, Op::Not, Op::SubXor97),
        7u8 => (Op::AddSelf, Op::RotlByTmp, Op::XorCount, Op::Not),
        8u8 => (Op::Not, Op::Rotl5, Op::Rotl5, Op::ShlMask),
        9u8 => (Op::XorPivot, Op::XorRotl4, Op::ShrMask, Op::XorRotl2),
        10u8 => (Op::Not, Op::MulSelf, Op::Rotl3, Op::MulSelf),
        11u8 => (Op::Rotl1, Op::Rotl5, Op::AndPivot, Op::RotlByTmp),
        12u8 => (Op::XorRotl2, Op::MulSelf, Op::XorRotl2, Op::Not),
        13u8 => (Op::Rotl1, Op::XorPivot, Op::ShrMask, Op::Rotl5),
        14u8 => (Op::ShrMask, Op::ShlMask, Op::MulSelf, Op::ShlMask),
        15u8 => (Op::XorRotl2, Op::ShlMask, Op::AndPivot, Op::SubXor97),
        16u8 => (Op::XorRotl4, Op::MulSelf, Op::Rotl1, Op::Not),
        17u8 => (Op::XorPivot, Op::MulSelf, Op::Rotl5, Op::Not),
        18u8 => (Op::XorRotl4, Op::Rotl3, Op::Rotl1, Op::Rotl5),
        19u8 => (Op::SubXor97, Op::Rotl5, Op::ShlMask, Op::AddSelf),
        20u8 => (Op::AndPivot, Op::XorPivot, Op::Reverse, Op::XorRotl2),
        21u8 => (Op::Rotl1, Op::XorPivot, Op::AddSelf, Op::AndPivot),
        22u8 => (Op::ShlMask, Op::Reverse, Op::MulSelf, Op::Rotl1),
        23u8 => (Op::Rotl3, Op::Rotl1, Op::XorCount, Op::AndPivot),
        24u8 => (Op::AddSelf, Op::ShrMask, Op::XorRotl4, Op::Rotl5),
        25u8 => (Op::XorCount, Op::Rotl3, Op::RotlByTmp, Op::SubXor97),
        26u8 => (Op::MulSelf, Op::XorCount, Op::AddSelf, Op::Reverse),
        27u8 => (Op::Rotl5, Op::AndPivot, Op::XorRotl4, Op::Rotl5),
        28u8 => (Op::ShlMask, Op::AddSelf, Op::AddSelf, Op::Rotl5),
        29u8 => (Op::MulSelf, Op::XorPivot, Op::ShrMask, Op::AddSelf),
        30u8 => (Op::AndPivot, Op::XorRotl4, Op::Rotl5, Op::ShlMask),
        31u8 => (Op::Not, Op::XorRotl2, Op::ShlMask, Op::MulSelf),
        32u8 => (Op::XorRotl2, Op::Reverse, Op::Rotl3, Op::XorRotl2),
        33u8 => (Op::RotlByTmp, Op::XorRotl4, Op::Reverse, Op::MulSelf),
        34u8 => (Op::SubXor97, Op::ShlMask, Op::ShlMask, Op::SubXor97),
        35u8 => (Op::AddSelf, Op::Not, Op::Rotl1, Op::XorPivot),
        36u8 => (Op::XorCount, Op::Rotl1, Op::XorRotl2, Op::Rotl1),
        37u8 => (Op::RotlByTmp, Op::ShrMask, Op::ShrMask, Op::MulSelf),
        38u8 => (Op::ShrMask, Op::Rotl3, Op::XorCount, Op::RotlByTmp),
        39u8 => (Op::XorRotl2, Op::XorPivot, Op::ShrMask, Op::AndPivot),
        40u8 => (Op::RotlByTmp, Op::XorPivot, Op::XorCount, Op::XorPivot),
        41u8 => (Op::Rotl5, Op::SubXor97, Op::Rotl3, Op::XorRotl4),
        42u8 => (Op::Rotl1, Op::Rotl3, Op::XorRotl2, Op::RotlByTmp),
        43u8 => (Op::AndPivot, Op::AddSelf, Op::AndPivot, Op::SubXor97),
        44u8 => (Op::XorCount, Op::XorCount, Op::Rotl3, Op::RotlByTmp),
        45u8 => (Op::Rotl5, Op::Rotl5, Op::AndPivot, Op::XorCount),
        46u8 => (Op::XorCount, Op::AddSelf, Op::Rotl5, Op::XorRotl4),
        47u8 => (Op::Rotl5, Op::AndPivot, Op::Rotl5, Op::ShlMask),
        48u8 => (Op::RotlByTmp, Op::Not, Op::Not, Op::Rotl5),
        49u8 => (Op::XorCount, Op::AddSelf, Op::Reverse, Op::XorRotl4),
        50u8 => (Op::Reverse, Op::Rotl3, Op::AddSelf, Op::Rotl1),
        51u8 => (Op::XorPivot, Op::XorRotl4, Op::XorRotl4, Op::Rotl5),
        52u8 => (Op::RotlByTmp, Op::ShrMask, Op::Not, Op::XorCount),
        53u8 => (Op::AddSelf, Op::XorCount, Op::XorRotl4, Op::XorRotl4),
        54u8 => (Op::Reverse, Op::XorPivot, Op::Not, Op::Not),
        55u8 => (Op::Reverse, Op::XorRotl4, Op::XorRotl4, Op::Rotl1),
        56u8 => (Op::XorRotl2, Op::MulSelf, Op::Not, Op::Rotl1),
        57u8 => (Op::RotlByTmp, Op::Rotl5, Op::Rotl3, Op::Reverse),
        58u8 => (Op::Reverse, Op::XorRotl2, Op::AndPivot, Op::AddSelf),
        59u8 => (Op::Rotl1, Op::MulSelf, Op::RotlByTmp, Op::Not),
        60u8 => (Op::XorPivot, Op::Not, Op::MulSelf, Op::Rotl3),
        61u8 => (Op::Rotl5, Op::ShlMask, Op::Rotl3, Op::Rotl5),
        62u8 => (Op::AndPivot, Op::Not, Op::XorRotl2, Op::AddSelf),
        63u8 => (Op::Rotl5, Op::XorCount, Op::SubXor97, Op::AddSelf),
        64u8 => (Op::XorPivot, Op::Reverse, Op::XorRotl4, Op::MulSelf),
        65u8 => (Op::Rotl5, Op::Rotl3, Op::XorRotl2, Op::MulSelf),
        66u8 => (Op::XorRotl2, Op::Reverse, Op::XorRotl4, Op::Rotl1),
        67u8 => (Op::Rotl1, Op::XorCount, Op::XorRotl2, Op::Rotl5),
        68u8 => (Op::AndPivot, Op::Not, Op::XorRotl4, Op::XorPivot),
        69u8 => (Op::AddSelf, Op::MulSelf, Op::Reverse, Op::ShrMask),
        70u8 => (Op::XorPivot, Op::MulSelf, Op::ShrMask, Op::XorRotl4),
        71u8 => (Op::Rotl5, Op::Not, Op::MulSelf, Op::ShlMask),
        72u8 => (Op::Reverse, Op::XorCount, Op::XorPivot, Op::ShlMask),
        73u8 => (Op::XorCount, Op::Reverse, Op::Rotl5, Op::SubXor97),
        74u8 => (Op::MulSelf, Op::Rotl3, Op::Reverse, Op::AndPivot),
        75u8 => (Op::MulSelf, Op::XorCount, Op::AndPivot, Op::XorRotl4),
        76u8 => (Op::RotlByTmp, Op::XorRotl2, Op::Rotl5, Op::ShrMask),
        77u8 => (Op::Rotl3, Op::AddSelf, Op::ShlMask, Op::XorCount),
        78u8 => (Op::RotlByTmp, Op::Reverse, Op::MulSelf, Op::SubXor97),
        79u8 => (Op::XorRotl4, Op::XorRotl2, Op::AddSelf, Op::MulSelf),
        80u8 => (Op::RotlByTmp, Op::ShlMask, Op::AddSelf, Op::AndPivot),
        81u8 => (Op::XorRotl4, Op::ShlMask, Op::RotlByTmp, Op::XorCount),
        82u8 => (Op::XorPivot, Op::Not, Op::Not, Op::ShrMask),
        83u8 => (Op::ShlMask, Op::Reverse, Op::Rotl3, Op::Reverse),
        84u8 => (Op::SubXor97, Op::Rotl1, Op::ShlMask, Op::AddSelf),
        85u8 => (Op::ShrMask, Op::XorPivot, Op::RotlByTmp, Op::ShlMask),
        86u8 => (Op::XorRotl4, Op::RotlByTmp, Op::XorRotl4, Op::Not),
        87u8 => (Op::AddSelf, Op::Rotl3, Op::XorRotl4, Op::AddSelf),
        88u8 => (Op::XorRotl2, Op::Rotl1, Op::MulSelf, Op::Not),
        89u8 => (Op::AddSelf, Op::MulSelf, Op::Not, Op::XorRotl2),
        90u8 => (Op::Reverse, Op::Rotl5, Op::Rotl1, Op::ShrMask),
        91u8 => (Op::XorCount, Op::AndPivot, Op::XorRotl4, Op::Reverse),
        92u8 => (Op::XorCount, Op::Not, Op::XorCount, Op::AndPivot),
        93u8 => (Op::XorRotl2, Op::MulSelf, Op::AndPivot, Op::AddSelf),
        94u8 => (Op::Rotl1, Op::RotlByTmp, Op::AndPivot, Op::ShlMask),
        95u8 => (Op::Rotl1, Op::Not, Op::Rotl5, Op::Rotl5),
        96u8 => (Op::XorRotl2, Op::XorRotl2, Op::XorCount, Op::Rotl1),
        97u8 => (Op::Rotl1, Op::ShlMask, Op::XorCount, Op::ShrMask),
        98u8 => (Op::XorRotl4, Op::ShlMask, Op::ShrMask, Op::XorRotl4),
        99u8 => (Op::XorRotl4, Op::SubXor97, Op::Reverse, Op::ShrMask),
        100u8 => (Op::RotlByTmp, Op::ShlMask, Op::Reverse, Op::XorCount),
        101u8 => (Op::ShrMask, Op::XorCount, Op::ShrMask, Op::Not),
        102u8 => (Op::Rotl3, Op::SubXor97, Op::AddSelf, Op::Rotl3),
        103u8 => (Op::Rotl1, Op::Reverse, Op::XorPivot, Op::RotlByTmp),
        104u8 => (Op::Reverse, Op::XorCount, Op::Rotl5, Op::AddSelf),
        105u8 => (Op::ShlMask, Op::Rotl3, Op::RotlByTmp, Op::XorRotl2),
        106u8 => (Op::Reverse, Op::XorRotl4, Op::Rotl1, Op::MulSelf),
        107u8 => (Op::ShrMask, Op::XorRotl2, Op::Rotl5, Op::Rotl1),
        108u8 => (Op::XorPivot, Op::Not, Op::AndPivot, Op::XorRotl2),
        109u8 => (Op::MulSelf, Op::RotlByTmp, Op::XorPivot, Op::XorRotl2),
        110u8 => (Op::AddSelf, Op::XorRotl2, Op::XorRotl2, Op::ShrMask),
        111u8 => (Op::MulSelf, Op::Reverse, Op::MulSelf, Op::ShrMask),
        112u8 => (Op::Rotl3, Op::Not, Op::Rotl5, Op::SubXor97),
        113u8 => (Op::Rotl5, Op::Rotl1, Op::XorCount, Op::Not),
        114u8 => (Op::Rotl1, Op::Reverse, Op::RotlByTmp, Op::Not),
        115u8 => (Op::RotlByTmp, Op::Rotl5, Op::AndPivot, Op::Rotl3),
        116u8 => (Op::AndPivot, Op::XorPivot, Op::XorCount, Op::ShlMask),
        117u8 => (Op::ShlMask, Op::Rotl3, Op::ShlMask, Op::AndPivot),
        118u8 => (Op::ShrMask, Op::AddSelf, Op::ShlMask, Op::Rotl5),
        119u8 => (Op::Reverse, Op::XorRotl2, Op::Not, Op::XorPivot),
        120u8 => (Op::XorRotl2, Op::MulSelf, Op::XorPivot, Op::Reverse),
        121u8 => (Op::ShrMask, Op::AddSelf, Op::XorCount, Op::MulSelf),
        122u8 => (Op::XorRotl4, Op::RotlByTmp, Op::Rotl5, Op::XorRotl2),
        123u8 => (Op::AndPivot, Op::Not, Op::Rotl3, Op::Rotl3),
        124u8 => (Op::XorRotl2, Op::XorRotl2, Op::XorPivot, Op::Not),
        125u8 => (Op::Reverse, Op::XorRotl2, Op::AddSelf, Op::ShrMask),
        126u8 => (Op::Rotl3, Op::Rotl1, Op::Rotl5, Op::Reverse),
        127u8 => (Op::ShlMask, Op::MulSelf, Op::AndPivot, Op::XorPivot),
        128u8 => (Op::RotlByTmp, Op::XorRotl2, Op::XorRotl2, Op::Rotl5),
        129u8 => (Op::Not, Op::XorCount, Op::XorCount, Op::ShrMask),
        130u8 => (Op::ShrMask, Op::RotlByTmp, Op::Rotl1, Op::XorRotl4),
        131u8 => (Op::SubXor97, Op::Rotl1, Op::XorCount, Op::MulSelf),
        132u8 => (Op::AndPivot, Op::Reverse, Op::Rotl5, Op::XorRotl2),
        133u8 => (Op::XorPivot, Op::Rotl5, Op::XorRotl2, Op::ShlMask),
        134u8 => (Op::Not, Op::XorRotl4, Op::Rotl1, Op::AndPivot),
        135u8 => (Op::ShrMask, Op::XorRotl2, Op::AddSelf, Op::Reverse),
        136u8 => (Op::ShrMask, Op::SubXor97, Op::XorPivot, Op::Rotl5),
        137u8 => (Op::Rotl5, Op::ShrMask, Op::Reverse, Op::RotlByTmp),
        138u8 => (Op::XorPivot, Op::XorPivot, Op::AddSelf, Op::SubXor97),
        139u8 => (Op::Rotl5, Op::Rotl3, Op::XorRotl2, Op::Rotl3),
        140u8 => (Op::Rotl1, Op::XorRotl2, Op::XorPivot, Op::Rotl5),
        141u8 => (Op::Rotl1, Op::SubXor97, Op::XorCount, Op::AddSelf),
        142u8 => (Op::AndPivot, Op::Rotl5, Op::Reverse, Op::XorRotl2),
        143u8 => (Op::AndPivot, Op::Rotl3, Op::ShrMask, Op::ShlMask),
        144u8 => (Op::RotlByTmp, Op::ShlMask, Op::Not, Op::RotlByTmp),
        145u8 => (Op::Reverse, Op::XorRotl4, Op::XorRotl2, Op::XorRotl4),
        146u8 => (Op::AndPivot, Op::ShlMask, Op::AndPivot, Op::XorCount),
        147u8 => (Op::Not, Op::ShlMask, Op::XorRotl4, Op::MulSelf),
        148u8 => (Op::AndPivot, Op::Rotl5, Op::ShlMask, Op::SubXor97),
        149u8 => (Op::XorPivot, Op::Reverse, Op::SubXor97, Op::AddSelf),
        150u8 => (Op::ShlMask, Op::ShlMask, Op::ShlMask, Op::AndPivot),
        151u8 => (Op::AddSelf, Op::ShlMask, Op::MulSelf, Op::ShlMask),
        152u8 => (Op::ShrMask, Op::Not, Op::ShlMask, Op::XorRotl2),
        153u8 => (Op::Rotl1, Op::Rotl3, Op::Not, Op::Not),
        154u8 => (Op::Rotl5, Op::Not, Op::XorPivot, Op::XorCount),
        155u8 => (Op::SubXor97, Op::XorPivot, Op::XorCount, Op::XorPivot),
        156u8 => (Op::ShrMask, Op::ShrMask, Op::Rotl3, Op::Rotl1),
        157u8 => (Op::ShrMask, Op::ShlMask, Op::RotlByTmp, Op::Rotl1),
        158u8 => (Op::XorCount, Op::Rotl3, Op::AddSelf, Op::Rotl1),
        159u8 => (Op::SubXor97, Op::XorPivot, Op::RotlByTmp, Op::XorPivot),
        160u8 => (Op::ShrMask, Op::Reverse, Op::Rotl1, Op::Rotl3),
        161u8 => (Op::XorPivot, Op::XorPivot, Op::Rotl5, Op::RotlByTmp),
        162u8 => (Op::MulSelf, Op::Reverse, Op::XorRotl2, Op::SubXor97),
        163u8 => (Op::ShlMask, Op::SubXor97, Op::XorRotl4, Op::Rotl1),
        164u8 => (Op::MulSelf, Op::XorCount, Op::SubXor97, Op::Not),
        165u8 => (Op::XorRotl4, Op::XorPivot, Op::ShlMask, Op::AddSelf),
        166u8 => (Op::Rotl3, Op::AddSelf, Op::XorRotl2, Op::Not),
        167u8 => (Op::Not, Op::Not, Op::MulSelf, Op::ShrMask),
        168u8 => (Op::RotlByTmp, Op::AndPivot, Op::RotlByTmp, Op::Rotl1),
        169u8 => (Op::Rotl1, Op::ShlMask, Op::XorRotl4, Op::AndPivot),
        170u8 => (Op::SubXor97, Op::Reverse, Op::SubXor97, Op::MulSelf),
        171u8 => (Op::Rotl3, Op::SubXor97, Op::XorCount, Op::Reverse),
        172u8 => (Op::XorRotl4, Op::SubXor97, Op::ShlMask, Op::Rotl1),
        173u8 => (Op::Not, Op::ShlMask, Op::MulSelf, Op::AddSelf),
        174u8 => (Op::Not, Op::RotlByTmp, Op::XorCount, Op::XorCount),
        175u8 => (Op::Rotl3, Op::SubXor97, Op::MulSelf, Op::Rotl5),
        176u8 => (Op::XorPivot, Op::MulSelf, Op::XorPivot, Op::Rotl5),
        177u8 => (Op::XorCount, Op::XorRotl2, Op::XorRotl2, Op::AndPivot),
        178u8 => (Op::AndPivot, Op::AddSelf, Op::Not, Op::Rotl1),
        179u8 => (Op::XorRotl2, Op::AddSelf, Op::ShrMask, Op::Reverse),
        180u8 => (Op::ShrMask, Op::XorRotl4, Op::XorPivot, Op::SubXor97),
        181u8 => (Op::Not, Op::ShlMask, Op::XorRotl2, Op::Rotl5),
        182u8 => (Op::XorPivot, Op::Rotl1, Op::Rotl5, Op::XorRotl4),
        183u8 => (Op::AddSelf, Op::SubXor97, Op::SubXor97, Op::MulSelf),
        184u8 => (Op::ShlMask, Op::MulSelf, Op::Rotl5, Op::XorPivot),
        185u8 => (Op::Not, Op::XorRotl4, Op::Rotl5, Op::ShrMask),
        186u8 => (Op::XorRotl2, Op::XorRotl4, Op::SubXor97, Op::ShrMask),
        187u8 => (Op::XorPivot, Op::Not, Op::AddSelf, Op::Rotl3),
        188u8 => (Op::XorRotl4, Op::XorCount, Op::XorRotl4, Op::XorRotl4),
        189u8 => (Op::Rotl5, Op::XorRotl4, Op::XorPivot, Op::SubXor97),
        190u8 => (Op::Rotl5, Op::ShrMask, Op::AndPivot, Op::XorRotl2),
        191u8 => (Op::AddSelf, Op::Rotl3, Op::RotlByTmp, Op::ShrMask),
        192u8 => (Op::AddSelf, Op::ShlMask, Op::AddSelf, Op::MulSelf),
        193u8 => (Op::AndPivot, Op::ShlMask, Op::RotlByTmp, Op::Rotl1),
        194u8 => (Op::AndPivot, Op::RotlByTmp, Op::ShlMask, Op::AndPivot),
        195u8 => (Op::XorCount, Op::XorRotl2, Op::XorPivot, Op::XorRotl4),
        196u8 => (Op::Rotl3, Op::Reverse, Op::ShlMask, Op::Rotl1),
        197u8 => (Op::XorRotl4, Op::RotlByTmp, Op::MulSelf, Op::MulSelf),
        198u8 => (Op::ShrMask, Op::ShrMask, Op::Reverse, Op::Rotl1),
        199u8 => (Op::Not, Op::AddSelf, Op::MulSelf, Op::XorPivot),
        200u8 => (Op::ShrMask, Op::XorCount, Op::Reverse, Op::Reverse),
        201u8 => (Op::Rotl3, Op::XorRotl2, Op::XorRotl4, Op::Not),
        202u8 => (Op::XorPivot, Op::Not, Op::RotlByTmp, Op::Rotl5),
        203u8 => (Op::XorPivot, Op::AndPivot, Op::Rotl1, Op::RotlByTmp),
        204u8 => (Op::Rotl5, Op::XorRotl2, Op::RotlByTmp, Op::XorPivot),
        205u8 => (Op::XorCount, Op::XorRotl4, Op::ShlMask, Op::AddSelf),
        206u8 => (Op::XorRotl4, Op::Reverse, Op::Reverse, Op::XorCount),
        207u8 => (Op::Rotl5, Op::Rotl3, Op::XorCount, Op::XorCount),
        208u8 => (Op::AddSelf, Op::AddSelf, Op::ShrMask, Op::Rotl3),
        209u8 => (Op::Rotl5, Op::Reverse, Op::XorCount, Op::SubXor97),
        210u8 => (Op::XorRotl2, Op::RotlByTmp, Op::Rotl5, Op::Not),
        211u8 => (Op::XorRotl4, Op::AddSelf, Op::SubXor97, Op::RotlByTmp),
        212u8 => (Op::RotlByTmp, Op::XorRotl2, Op::XorPivot, Op::XorPivot),
        213u8 => (Op::AddSelf, Op::ShlMask, Op::Rotl3, Op::SubXor97),
        214u8 => (Op::XorPivot, Op::SubXor97, Op::ShrMask, Op::Not),
        215u8 => (Op::XorPivot, Op::AndPivot, Op::ShlMask, Op::MulSelf),
        216u8 => (Op::RotlByTmp, Op::Not, Op::SubXor97, Op::AndPivot),
        217u8 => (Op::Rotl5, Op::AddSelf, Op::Rotl1, Op::XorRotl4),
        218u8 => (Op::Reverse, Op::Not, Op::MulSelf, Op::SubXor97),
        219u8 => (Op::XorRotl4, Op::Rotl3, Op::AndPivot, Op::Reverse),
        220u8 => (Op::Rotl1, Op::ShlMask, Op::Reverse, Op::ShlMask),
        221u8 => (Op::Rotl5, Op::XorPivot, Op::Not, Op::Reverse),
        222u8 => (Op::ShrMask, Op::ShlMask, Op::XorPivot, Op::MulSelf),
        223u8 => (Op::Rotl3, Op::XorPivot, Op::RotlByTmp, Op::SubXor97),
        224u8 => (Op::XorRotl2, Op::Rotl1, Op::Rotl3, Op::ShlMask),
        225u8 => (Op::Not, Op::ShrMask, Op::Reverse, Op::Rotl3),
        226u8 => (Op::Reverse, Op::SubXor97, Op::MulSelf, Op::XorPivot),
        227u8 => (Op::Not, Op::ShlMask, Op::SubXor97, Op::AndPivot),
        228u8 => (Op::AddSelf, Op::ShrMask, Op::AddSelf, Op::XorCount),
        229u8 => (Op::Rotl3, Op::RotlByTmp, Op::XorRotl2, Op::XorCount),
        230u8 => (Op::MulSelf, Op::AndPivot, Op::RotlByTmp, Op::RotlByTmp),
        231u8 => (Op::Rotl3, Op::ShrMask, Op::XorPivot, Op::Reverse),
        232u8 => (Op::MulSelf, Op::MulSelf, Op::XorRotl4, Op::Rotl5),
        233u8 => (Op::Rotl1, Op::XorCount, Op::Rotl3, Op::XorCount),
        234u8 => (Op::AndPivot, Op::MulSelf, Op::ShrMask, Op::XorPivot),
        235u8 => (Op::XorRotl2, Op::MulSelf, Op::Rotl3, Op::Not),
        236u8 => (Op::XorPivot, Op::AddSelf, Op::AndPivot, Op::SubXor97),
        237u8 => (Op::Rotl5, Op::ShlMask, Op::XorRotl2, Op::Rotl3),
        238u8 => (Op::AddSelf, Op::AddSelf, Op::Rotl3, Op::SubXor97),
        239u8 => (Op::Rotl5, Op::Rotl1, Op::MulSelf, Op::AndPivot),
        240u8 => (Op::Not, Op::AddSelf, Op::AndPivot, Op::ShlMask),
        241u8 => (Op::XorRotl4, Op::XorCount, Op::XorPivot, Op::Rotl1),
        242u8 => (Op::AddSelf, Op::AddSelf, Op::SubXor97, Op::XorPivot),
        243u8 => (Op::Rotl5, Op::XorRotl2, Op::XorCount, Op::Rotl1),
        244u8 => (Op::Not, Op::XorRotl2, Op::Reverse, Op::Rotl5),
        245u8 => (Op::SubXor97, Op::Rotl5, Op::XorRotl2, Op::ShrMask),
        246u8 => (Op::AddSelf, Op::Rotl1, Op::ShrMask, Op::AddSelf),
        247u8 => (Op::Rotl5, Op::XorRotl2, Op::Rotl5, Op::Not),
        248u8 => (Op::Not, Op::SubXor97, Op::XorCount, Op::Rotl5),
        249u8 => (Op::Reverse, Op::XorRotl4, Op::XorRotl4, Op::RotlByTmp),
        250u8 => (Op::AndPivot, Op::RotlByTmp, Op::XorCount, Op::XorRotl4),
        251u8 => (Op::AddSelf, Op::XorCount, Op::Reverse, Op::XorRotl2),
        252u8 => (Op::Reverse, Op::XorRotl4, Op::XorRotl2, Op::ShlMask),
        253u8 => (Op::Rotl3, Op::XorRotl2, Op::XorPivot, Op::Rotl3),
        _ => (Op::XorCount, Op::Rotl3, Op::XorRotl2, Op::Rotl3),
    }
}

} // verus!
