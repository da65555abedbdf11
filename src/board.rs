//! Element, curve and board state.

use vstd::prelude::*;
use crate::consts::{MAX_ATOMIC_NUMBER, MAX_SATURATION};
use crate::types::{Coordinates, ElementIndex, Gluon, Q1648, Q824};

verus! {

/// State of an element's bonding curve.
#[derive(Clone, Copy, PartialEq, Eq, Structural, Debug)]
pub struct Curve {
    /// Gluon capacity that spans the whole cost range of the curve.
    pub capacity: Gluon,
    /// Cumulative cost reached on the curve (Q16.48).
    pub state: Q1648,
    /// Gluon currently bound to the curve.
    pub volume: Gluon,
    /// Position on the curve (Q8.24).
    pub position: Q824,
    /// Sum of the shares of the charges bound here.
    pub shares: Q824,
}

/// A group of squares of the board that players bind to.
#[derive(Clone, Copy, PartialEq, Eq, Structural, Debug)]
pub struct Element {
    /// Shared pot of Gluon.
    pub pot: Gluon,
    /// Atomic number and generation; zero for "no element".
    pub index: ElementIndex,
    /// The element's bonding curve.
    pub curve: Curve,
    /// Squares the element occupies.
    pub coordinates: Coordinates,
}

impl Element {
    /// The element is a board element and its curve position is in range.
    pub open spec fn wf(&self) -> bool {
        &&& self.index.atomic_spec() <= MAX_ATOMIC_NUMBER
        &&& self.curve.position <= MAX_SATURATION
    }
}

/// Global board state.
#[derive(Clone, Copy, PartialEq, Eq, Structural, Debug)]
pub struct Board {
    /// Gluon bound to charges.
    pub tvl: Gluon,
    /// Gluon gathered in the quantum pocket.
    pub quantum_pocket: Gluon,
    /// Number of active charges.
    pub charges: u32,
    /// Number of elements fully reset so far.
    pub quantum_index: u8,
}

/// An element that has overloaded; its pot is claimed by share.
#[derive(Clone, Copy, PartialEq, Eq, Structural, Debug)]
pub struct Tombstone {
    /// Final pot, shared out to the shareholders.
    pub pot: Gluon,
    /// Which element this was.
    pub index: ElementIndex,
    /// Sum of the shares that the pot is divided by.
    pub shares: Q824,
}

} // verus!
