//! Game actions on bound charges: rebinding, claiming from a tombstone, and
//! compressing a pot inward.

use vstd::prelude::*;
use crate::board::{Curve, Element, Tombstone};
use crate::movement::{
    apply_capacity, contribution, curve_after, curve_move, share_of, signed_amount,
};
use crate::player::Charge;
use crate::rounding::{div_round, lemma_div_round_le, round_divide};
use crate::table::CurveTable;
use crate::types::{ElementIndex, Q824};

verus! {

/// `e` after the capacity delta `dc`; an empty element (index zero) is left
/// as it is.
pub open spec fn element_after(t: &CurveTable, e: Element, dc: int) -> Element {
    if e.index.0 == 0 {
        e
    } else {
        Element { curve: curve_after(t, e.curve, dc), ..e }
    }
}

/// Share earned on `e` by the capacity delta `dc`; nothing on an empty element.
pub open spec fn element_share(t: &CurveTable, e: Element, dc: int) -> int {
    if e.index.0 == 0 {
        0
    } else {
        contribution(curve_move(t, e.curve, dc))
    }
}

/// Moves the curve of `elem` by `amount`, in or out, unless the element is
/// empty; returns the share earned.
fn update_curve(t: &CurveTable, amount: u64, deposit: bool, elem: &mut Element) -> (r: Q824)
    requires
        t.wf(),
        old(elem).index.0 != 0 ==> old(elem).curve.capacity > 0,
    ensures
        r == element_share(t, *old(elem), signed_amount(amount, deposit)),
        *final(elem) == element_after(t, *old(elem), signed_amount(amount, deposit)),
{
    if elem.index.zero() {
        return 0;
    }
    let dx = apply_capacity(t, &mut elem.curve, amount, deposit);
    share_of(dx)
}

/// Moves `charge` from `src` to `dst`: its balance leaves the curve of `src`
/// along with its share, and enters the curve of `dst`, where it earns a new
/// share. Empty elements keep their curves.
pub fn rebind(t: &CurveTable, charge: &mut Charge, src: &mut Element, dst: &mut Element)
    requires
        t.wf(),
        old(src).index.0 != 0 ==> old(src).curve.capacity > 0,
        old(dst).index.0 != 0 ==> old(dst).curve.capacity > 0,
        old(src).curve.shares >= old(charge).share,
        old(dst).curve.shares + element_share(t, *old(dst), old(charge).balance as int) <= u32::MAX,
    ensures
        ({
            let moved = element_after(t, *old(src), -old(charge).balance);
            *final(src) == (Element {
                curve: Curve {
                    shares: (old(src).curve.shares - old(charge).share) as u32,
                    ..moved.curve
                },
                ..moved
            })
        }),
        ({
            let moved = element_after(t, *old(dst), old(charge).balance as int);
            let share = element_share(t, *old(dst), old(charge).balance as int);
            &&& *final(dst) == (Element {
                curve: Curve {
                    shares: (old(dst).curve.shares + share) as u32,
                    ..moved.curve
                },
                ..moved
            })
            &&& *final(charge) == (Charge { share: share as u32, index: old(dst).index, ..*old(charge) })
        }),
{
    update_curve(t, charge.balance, false, src);
    src.curve.shares = src.curve.shares - charge.share;
    charge.share = update_curve(t, charge.balance, true, dst);
    dst.curve.shares = dst.curve.shares + charge.share;
    charge.index = dst.index;
}

/// Reward of a share on a tombstone's pot: `pot * share / shares`, rounded.
pub open spec fn reward(pot: int, share: int, shares: int) -> int {
    div_round(pot * share, shares)
}

/// Pays `charge` its share of the tombstone's pot and unbinds it.
pub fn claim(charge: &mut Charge, artefact: &mut Tombstone)
    requires
        old(artefact).shares > 0,
        old(charge).share <= old(artefact).shares,
        old(charge).balance + reward(
            old(artefact).pot as int,
            old(charge).share as int,
            old(artefact).shares as int,
        ) <= u64::MAX,
    ensures
        ({
            let r = reward(old(artefact).pot as int, old(charge).share as int, old(artefact).shares as int);
            &&& *final(charge) == (Charge {
                balance: (old(charge).balance + r) as u64,
                share: 0,
                index: ElementIndex(0),
                ..*old(charge)
            })
            &&& *final(artefact) == (Tombstone { pot: (old(artefact).pot - r) as u64, ..*old(artefact) })
        }),
{
    let pot = artefact.pot;
    let share = charge.share as u64;
    let shares = artefact.shares as u64;
    assert(pot * share <= pot * shares) by (nonlinear_arith)
        requires
            share <= shares,
    ;
    proof {
        lemma_div_round_le(pot * share, pot as int, shares as int);
    }
    let amount = round_divide(pot, share, shares);
    charge.balance = charge.balance + amount;
    artefact.pot = artefact.pot - amount;
    charge.share = 0;
    charge.index.clear();
}

/// Rebinds `charge` from `src` to `dst` and carries `src`'s pot along.
pub fn compress(t: &CurveTable, charge: &mut Charge, src: &mut Element, dst: &mut Element)
    requires
        t.wf(),
        old(src).index.0 != 0 ==> old(src).curve.capacity > 0,
        old(dst).index.0 != 0 ==> old(dst).curve.capacity > 0,
        old(src).curve.shares >= old(charge).share,
        old(dst).curve.shares + element_share(t, *old(dst), old(charge).balance as int) <= u32::MAX,
        old(dst).pot + old(src).pot <= u64::MAX,
    ensures
        ({
            let moved = element_after(t, *old(src), -old(charge).balance);
            *final(src) == (Element {
                pot: 0,
                curve: Curve {
                    shares: (old(src).curve.shares - old(charge).share) as u32,
                    ..moved.curve
                },
                ..moved
            })
        }),
        ({
            let moved = element_after(t, *old(dst), old(charge).balance as int);
            let share = element_share(t, *old(dst), old(charge).balance as int);
            &&& *final(dst) == (Element {
                pot: (old(dst).pot + old(src).pot) as u64,
                curve: Curve {
                    shares: (old(dst).curve.shares + share) as u32,
                    ..moved.curve
                },
                ..moved
            })
            &&& *final(charge) == (Charge { share: share as u32, index: old(dst).index, ..*old(charge) })
        }),
{
    rebind(t, charge, src, dst);
    dst.pot = dst.pot + src.pot;
    src.pot = 0;
}

} // verus!
