//! Player accounts: the liquid wallet and the charges bound to elements.

use vstd::prelude::*;
use crate::types::{AddressBytes, ElementIndex, Gluon, Q824};

verus! {

/// A player's liquid balance.
#[derive(Clone, Copy, PartialEq, Eq, Debug)]
pub struct Wallet {
    /// Gluon not bound to any element.
    pub balance: Gluon,
    /// The player's signing key.
    pub authority: AddressBytes,
    /// Mint of the token the wallet exchanges with.
    pub mint: AddressBytes,
}

/// Gluon that a player has allocated to an element.
#[derive(Clone, Copy, PartialEq, Eq, Debug)]
pub struct Charge {
    /// Gluon held by the charge.
    pub balance: Gluon,
    /// Slot of the last action.
    pub timestamp: u64,
    /// Element the charge is bound to; zero when unbound.
    pub index: ElementIndex,
    /// Share of the element's payouts (Q8.24).
    pub share: Q824,
    /// Key of the owning wallet.
    pub authority: AddressBytes,
}

} // verus!
