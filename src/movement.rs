//! Binding charges to elements and unbinding them: each moves the element's
//! curve by the charge's balance.

use vstd::prelude::*;
use crate::board::{Curve, Element};
use crate::capacity::{cost_for_capacity, dx_for_dc, magnitude};
use crate::delta::move_for_cost;
use crate::lut::{LUT_S_MAX, LUT_X_MAX};
use crate::player::Charge;
use crate::table::{clamp, CurveTable};
use crate::types::{ElementIndex, Q824};

verus! {

/// Signed capacity delta: `amount` in, or out when `deposit` is false.
pub open spec fn signed_amount(amount: u64, deposit: bool) -> int {
    if deposit {
        amount as int
    } else {
        -amount
    }
}

/// Position delta of `c` for the capacity delta `dc`.
pub open spec fn curve_move(t: &CurveTable, c: Curve, dc: int) -> int {
    move_for_cost(t, c.position as int, c.state as int, cost_for_capacity(dc, c.capacity as int))
}

/// `c` after the capacity delta `dc`: the position moves along the curve,
/// the state moves to the target cost (held within the cost range), and the
/// volume takes `dc` (held within `u64`).
pub open spec fn curve_after(t: &CurveTable, c: Curve, dc: int) -> Curve {
    Curve {
        position: (c.position + curve_move(t, c, dc)) as u32,
        state: clamp(c.state + cost_for_capacity(dc, c.capacity as int), 0, LUT_S_MAX as int) as u64,
        volume: clamp(c.volume + dc, 0, u64::MAX as int) as u64,
        ..c
    }
}

/// Share a move earns: its position delta, or nothing for a move down.
pub open spec fn contribution(dx: int) -> int {
    if dx < 0 {
        0
    } else {
        dx
    }
}

/// Moves `curve` by `amount` of capacity, in or out; returns the position delta.
pub fn apply_capacity(t: &CurveTable, curve: &mut Curve, amount: u64, deposit: bool) -> (dx: i64)
    requires
        t.wf(),
        old(curve).capacity > 0,
    ensures
        dx == curve_move(t, *old(curve), signed_amount(amount, deposit)),
        0 <= old(curve).position + dx <= LUT_X_MAX,
        *final(curve) == curve_after(t, *old(curve), signed_amount(amount, deposit)),
{
    let dc: i128 = if deposit {
        amount as i128
    } else {
        -(amount as i128)
    };
    assert(magnitude(dc as int) * LUT_S_MAX <= 0xffff_ffff_ffff_ffffu64 * LUT_S_MAX)
        by (nonlinear_arith)
        requires
            magnitude(dc as int) <= 0xffff_ffff_ffff_ffffu64,
            0 <= magnitude(dc as int),
    ;
    let (dx, ds) = dx_for_dc(t, curve.position, curve.state, dc, curve.capacity);
    let position = (curve.position as i64 + dx) as u32;
    let state: u64 = if ds >= LUT_S_MAX as i128 {
        LUT_S_MAX
    } else {
        let sum: i128 = curve.state as i128 + ds;
        if sum < 0 {
            0
        } else if sum > LUT_S_MAX as i128 {
            LUT_S_MAX
        } else {
            sum as u64
        }
    };
    let volume = if deposit {
        curve.volume.saturating_add(amount)
    } else {
        curve.volume.saturating_sub(amount)
    };
    curve.position = position;
    curve.state = state;
    curve.volume = volume;
    dx
}

/// Share for a position delta: the delta itself, or zero for a move down.
pub fn share_of(dx: i64) -> (r: Q824)
    requires
        dx <= u32::MAX,
    ensures
        r == contribution(dx as int),
{
    if dx < 0 {
        0
    } else {
        dx as u32
    }
}

/// Binds `charge` to `dst`: the curve takes the balance, and the charge takes
/// the share it earned and the element's index.
pub fn fuse(t: &CurveTable, charge: &mut Charge, dst: &mut Element)
    requires
        t.wf(),
        old(dst).curve.capacity > 0,
    ensures
        *final(dst) == (Element {
            curve: curve_after(t, old(dst).curve, old(charge).balance as int),
            ..*old(dst)
        }),
        *final(charge) == (Charge {
            share: contribution(curve_move(t, old(dst).curve, old(charge).balance as int)) as u32,
            index: old(dst).index,
            ..*old(charge)
        }),
{
    let dx = apply_capacity(t, &mut dst.curve, charge.balance, true);
    charge.share = share_of(dx);
    charge.index = dst.index;
}

/// Unbinds `charge` from `src`: the curve gives the balance back, and the
/// charge's index is cleared.
pub fn fission(t: &CurveTable, charge: &mut Charge, src: &mut Element)
    requires
        t.wf(),
        old(src).curve.capacity > 0,
    ensures
        *final(src) == (Element {
            curve: curve_after(t, old(src).curve, -old(charge).balance),
            ..*old(src)
        }),
        *final(charge) == (Charge { index: ElementIndex(0), ..*old(charge) }),
{
    apply_capacity(t, &mut src.curve, charge.balance, false);
    charge.index.clear();
}

/// Moves `charge` from `src` to `dst`: unbinds, then binds.
pub fn shift(t: &CurveTable, charge: &mut Charge, src: &mut Element, dst: &mut Element)
    requires
        t.wf(),
        old(src).curve.capacity > 0,
        old(dst).curve.capacity > 0,
    ensures
        *final(src) == (Element {
            curve: curve_after(t, old(src).curve, -old(charge).balance),
            ..*old(src)
        }),
        *final(dst) == (Element {
            curve: curve_after(t, old(dst).curve, old(charge).balance as int),
            ..*old(dst)
        }),
        *final(charge) == (Charge {
            share: contribution(curve_move(t, old(dst).curve, old(charge).balance as int)) as u32,
            index: old(dst).index,
            ..*old(charge)
        }),
{
    fission(t, charge, src);
    fuse(t, charge, dst);
}

/// Moves `charge` from `src` inward to `dst` and carries `src`'s pot along.
pub fn compress(t: &CurveTable, charge: &mut Charge, src: &mut Element, dst: &mut Element)
    requires
        t.wf(),
        old(src).curve.capacity > 0,
        old(dst).curve.capacity > 0,
        old(dst).pot + old(src).pot <= u64::MAX,
    ensures
        *final(src) == (Element {
            pot: 0,
            curve: curve_after(t, old(src).curve, -old(charge).balance),
            ..*old(src)
        }),
        *final(dst) == (Element {
            pot: (old(dst).pot + old(src).pot) as u64,
            curve: curve_after(t, old(dst).curve, old(charge).balance as int),
            ..*old(dst)
        }),
        *final(charge) == (Charge {
            share: contribution(curve_move(t, old(dst).curve, old(charge).balance as int)) as u32,
            index: old(dst).index,
            ..*old(charge)
        }),
{
    shift(t, charge, src, dst);
    dst.pot = dst.pot + src.pot;
    src.pot = 0;
}

} // verus!
