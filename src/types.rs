//! Value types shared by the game rules: units, element indices and board
//! coordinates.

use vstd::prelude::*;

verus! {

/// Unit of value that circulates through the game.
pub type Gluon = u64;

/// Unsigned fixed point with 24 fractional bits: curve positions and shares.
pub type Q824 = u32;

/// Unsigned fixed point with 48 fractional bits: cumulative curve costs.
pub type Q1648 = u64;

/// A 32-byte public key.
pub type AddressBytes = [u8; 32];

/// `2^56`: one more than the largest generation.
pub const GENERATION_SPAN: u64 = 0x0100_0000_0000_0000;

/// An element's atomic number (high 8 bits) and generation counter (low 56
/// bits) in one word.
#[derive(Clone, Copy, PartialEq, Eq, Structural, Debug)]
pub struct ElementIndex(pub u64);

impl ElementIndex {
    pub open spec fn atomic_spec(self) -> int {
        self.0 as int / GENERATION_SPAN as int
    }

    pub open spec fn generation_spec(self) -> int {
        self.0 as int % GENERATION_SPAN as int
    }

    /// The static identity of the element, `0..=255`.
    pub fn atomic_number(self) -> (r: u64)
        ensures
            r == self.atomic_spec(),
            r <= 255,
    {
        let v = self.0;
        assert(v >> 56u64 == v / 0x0100_0000_0000_0000u64) by (bit_vector);
        assert(v / 0x0100_0000_0000_0000u64 <= 255) by (bit_vector);
        v >> 56
    }

    /// How many times the element has been reset, modulo `2^56`.
    pub fn generation(self) -> (r: u64)
        ensures
            r == self.generation_spec(),
    {
        let v = self.0;
        assert(v & 0x00ff_ffff_ffff_ffffu64 == v % 0x0100_0000_0000_0000u64) by (bit_vector);
        v & 0x00ff_ffff_ffff_ffff
    }

    /// Advances the generation by one, wrapping within 56 bits; the atomic
    /// number is kept.
    pub fn nextgen(&mut self)
        ensures
            final(self).atomic_spec() == old(self).atomic_spec(),
            final(self).generation_spec() == (old(self).generation_spec() + 1) % GENERATION_SPAN as int,
    {
        let v = self.0;
        let w = v.wrapping_add(1);
        let g = w & 0x00ff_ffff_ffff_ffff;
        let n = (v & 0xff00_0000_0000_0000) | g;
        assert(n / 0x0100_0000_0000_0000u64 == v / 0x0100_0000_0000_0000u64) by (bit_vector)
            requires
                n == (v & 0xff00_0000_0000_0000u64) | (w & 0x00ff_ffff_ffff_ffffu64),
        ;
        if v == 0xffff_ffff_ffff_ffff {
            assert(n % 0x0100_0000_0000_0000u64 == 0) by (bit_vector)
                requires
                    v == 0xffff_ffff_ffff_ffffu64,
                    w == 0,
                    n == (v & 0xff00_0000_0000_0000u64) | (w & 0x00ff_ffff_ffff_ffffu64),
            ;
        } else {
            assert(n % 0x0100_0000_0000_0000u64 == if v % 0x0100_0000_0000_0000u64 == 0x00ff_ffff_ffff_ffffu64 {
                0u64
            } else {
                ((v % 0x0100_0000_0000_0000u64) + 1) as u64
            }) by (bit_vector)
                requires
                    v != 0xffff_ffff_ffff_ffffu64,
                    w == (v + 1) as u64,
                    n == (v & 0xff00_0000_0000_0000u64) | (w & 0x00ff_ffff_ffff_ffffu64),
            ;
        }
        self.0 = n;
    }

    /// Resets the index to zero, which marks "no element".
    pub fn clear(&mut self)
        ensures
            final(self).0 == 0,
    {
        self.0 = 0;
    }

    /// Whether the index is zero ("no element").
    pub fn zero(&self) -> (r: bool)
        ensures
            r == (self.0 == 0),
    {
        self.0 == 0
    }
}

/// Squares of an 8x8 board as a bitboard, row-major: bit `8 * rank + file`.
#[derive(Clone, Copy, PartialEq, Eq, Structural, Debug)]
pub struct Coordinates(pub u64);

/// Every square but those of file A.
pub const NOT_FILE_A: u64 = 0xfefe_fefe_fefe_fefe;

/// Every square but those of file H.
pub const NOT_FILE_H: u64 = 0x7f7f_7f7f_7f7f_7f7f;

/// Squares on the board's edge: files A and H, ranks 1 and 8.
pub const PERIMETER: u64 = 0xff81_8181_8181_81ff;

/// Squares that share an edge (east, west, north or south) with a square of `b`.
pub open spec fn neighbours(b: u64) -> u64 {
    ((b & NOT_FILE_H) << 1u64) | ((b & NOT_FILE_A) >> 1u64) | (b << 8u64) | (b >> 8u64)
}

impl Coordinates {
    /// Whether a square of `self` shares an edge (not only a corner) with a
    /// square of `other`.
    pub fn adjacent(self, other: Coordinates) -> (r: bool)
        ensures
            r == (neighbours(self.0) & other.0 != 0),
    {
        let b = self.0;
        let n = ((b & NOT_FILE_H) << 1) | ((b & NOT_FILE_A) >> 1) | (b << 8) | (b >> 8);
        (n & other.0) != 0
    }

    /// Whether a square of `self` lies on the board's edge.
    pub fn peripheral(&self) -> (r: bool)
        ensures
            r == (self.0 & PERIMETER != 0),
    {
        (self.0 & PERIMETER) != 0
    }
}

} // verus!
