//! Game parameters: element limits, fee baselines, curve bounds and the
//! board layout (bitboards of the elements' squares, see `Coordinates`).

use vstd::prelude::*;
use crate::lut::LUT_X_MAX;

verus! {

/// Largest atomic number of a board element.
pub const MAX_ATOMIC_NUMBER: u64 = 26;

/// `1 + 2 + ... + MAX_ATOMIC_NUMBER`.
pub const SUM_ATOMIC_NUMBERS: u64 = MAX_ATOMIC_NUMBER * (MAX_ATOMIC_NUMBER + 1) / 2;

/// Largest curve position (Q8.24): the upper end of the curve domain.
pub const MAX_SATURATION: u32 = LUT_X_MAX;

/// Smallest fee, in Gluon.
pub const MIN_FEE: u64 = 100_000;

/// Token decimals of Gluon.
pub const DECIMALS: u8 = 6;

/// Largest speed multiplier.
pub const MAX_SPEED_MULTIPLIER: u64 = 127;

/// Longest elapsed time (slots) that the speed bonus counts.
pub const MAX_DELTA_TIMESTAMP: u64 = 1024;

/// A1, A2, B1, C1.
pub const COORD_01_H: u64 = 0x0000000000000107;

/// D1, E1.
pub const COORD_02_HE: u64 = 0x0000000000000018;

/// F1, F2.
pub const COORD_03_LI: u64 = 0x0000000000002020;

/// G1, H1, H2, H3.
pub const COORD_04_BE: u64 = 0x00000000008080C0;

/// H4, H5.
pub const COORD_05_B: u64 = 0x0000008080000000;

/// G6, H6.
pub const COORD_06_C: u64 = 0x0000C00000000000;

/// F8, G8, H7, H8.
pub const COORD_07_N: u64 = 0xE080000000000000;

/// D8, E8.
pub const COORD_08_O: u64 = 0x1800000000000000;

/// C7, C8.
pub const COORD_09_F: u64 = 0x0404000000000000;

/// A6, A7, A8, B8.
pub const COORD_10_NE: u64 = 0x0301010000000000;

/// A4, A5.
pub const COORD_11_NA: u64 = 0x0000000101000000;

/// A3, B3.
pub const COORD_12_MG: u64 = 0x0000000000030000;

/// B2, C2, D2.
pub const COORD_13_AL: u64 = 0x0000000000000E00;

/// E2, E3.
pub const COORD_14_SI: u64 = 0x0000000000101000;

/// F3, F4.
pub const COORD_15_P: u64 = 0x0000000020200000;

/// G2, G3, G4.
pub const COORD_16_S: u64 = 0x0000000040404000;

/// F5, G5.
pub const COORD_17_CL: u64 = 0x0000006000000000;

/// E6, F6.
pub const COORD_18_AR: u64 = 0x0000300000000000;

/// E7, F7, G7.
pub const COORD_19_K: u64 = 0x0070000000000000;

/// D6, D7.
pub const COORD_20_CA: u64 = 0x0008080000000000;

/// C5, C6.
pub const COORD_21_SC: u64 = 0x0000040400000000;

/// B5, B6, B7.
pub const COORD_22_TI: u64 = 0x0002020200000000;

/// B4, C4.
pub const COORD_23_V: u64 = 0x0000000006000000;

/// C3, D3.
pub const COORD_24_CR: u64 = 0x00000000000C0000;

/// D4.
pub const COORD_25_MN: u64 = 0x0000000008000000;

/// E4, D5, E5.
pub const COORD_26_FE: u64 = 0x0000001810000000;

} // verus!
