//! Linear rescaling between an external capacity unit and the curve's cost
//! span, and the moves it composes with.

use vstd::prelude::*;
use crate::delta::{
    cost_delta, ds_for_dx, dx_for_ds, lemma_move_in_domain, lemma_position_of_cost,
    lemma_upper_end, move_for_cost,
};
use crate::lut::{LUT_S_MAX, LUT_X_MAX, LUT_X_MIN};
use crate::rounding::{
    div_round, div_round_u128, lemma_div_bounds, lemma_div_round_exact, lemma_div_round_le,
    round_signed,
};
use crate::table::CurveTable;

verus! {

/// Absolute value.
pub open spec fn magnitude(v: int) -> int {
    if v < 0 {
        -v
    } else {
        v
    }
}

/// Cost delta for a capacity delta `dc`, where capacity `cmax` spans the
/// whole cost range: `round(dc * LUT_S_MAX / cmax)`.
pub open spec fn cost_for_capacity(dc: int, cmax: int) -> int {
    round_signed(dc * LUT_S_MAX, cmax)
}

/// Capacity delta for a cost delta `ds`: `round(ds * cmax / LUT_S_MAX)`.
pub open spec fn capacity_for_cost(ds: int, cmax: int) -> int {
    round_signed(ds * cmax, LUT_S_MAX as int)
}

/// Move `(dx, ds)` from `x0`, whose cost is `s0`, bought by the capacity
/// delta `dc`.
pub open spec fn move_for_capacity(t: &CurveTable, x0: int, s0: int, dc: int, cmax: int) -> (int, int) {
    let ds = cost_for_capacity(dc, cmax);
    (move_for_cost(t, x0, s0, ds), ds)
}

/// Capacity delta of moving from `x0` by `dx`.
pub open spec fn capacity_for_move(t: &CurveTable, x0: int, dx: int, cmax: int) -> int {
    capacity_for_cost(cost_delta(t, x0, dx), cmax)
}

/// `round(n / d)`, ties away from zero, for a product `n` held by magnitude.
fn round_signed_u128(negative: bool, mag: u128, d: u128) -> (r: i128)
    requires
        d > 0,
        mag <= i128::MAX,
    ensures
        r == (if negative { -div_round(mag as int, d as int) } else { div_round(mag as int, d as int) }),
{
    assert(mag <= mag * d) by (nonlinear_arith)
        requires
            d > 0,
    ;
    proof {
        lemma_div_round_le(mag as int, mag as int, d as int);
    }
    let q = div_round_u128(mag, d);
    if negative {
        -(q as i128)
    } else {
        q as i128
    }
}

/// Cost delta for the capacity delta `dc` against total capacity `cmax`.
pub fn ds_for_dc(dc: i128, cmax: u64) -> (r: i128)
    requires
        cmax > 0,
        magnitude(dc as int) * LUT_S_MAX <= i128::MAX,
    ensures
        r == cost_for_capacity(dc as int, cmax as int),
        dc == cmax ==> r == LUT_S_MAX,
{
    let mag: u128 = if dc < 0 {
        (-dc) as u128
    } else {
        dc as u128
    };
    let num = mag * LUT_S_MAX as u128;
    let r = round_signed_u128(dc < 0, num, cmax as u128);
    proof {
        if dc < 0 {
            assert(-(dc * LUT_S_MAX) == mag * LUT_S_MAX) by (nonlinear_arith)
                requires
                    mag == -dc,
            ;
        }
        if dc == cmax {
            lemma_capacity_anchor(cmax as int);
        }
    }
    r
}

/// Capacity delta for the cost delta `ds` against total capacity `cmax`.
pub fn dc_for_ds(ds: i128, cmax: u64) -> (r: i128)
    requires
        magnitude(ds as int) * cmax <= i128::MAX,
    ensures
        r == capacity_for_cost(ds as int, cmax as int),
{
    let mag: u128 = if ds < 0 {
        (-(ds + 1)) as u128 + 1
    } else {
        ds as u128
    };
    let num = mag * cmax as u128;
    let r = round_signed_u128(ds < 0, num, LUT_S_MAX as u128);
    proof {
        if ds < 0 {
            assert(-(ds * cmax) == mag * cmax) by (nonlinear_arith)
                requires
                    mag == -ds,
            ;
        }
    }
    r
}

/// Move `(dx, ds)` from `x0`, whose cost is `s0`, bought by the capacity
/// delta `dc`: `ds` is `ds_for_dc(dc, cmax)` and `dx` is
/// `dx_for_ds(x0, s0, ds)`.
pub fn dx_for_dc(t: &CurveTable, x0: u32, s0: u64, dc: i128, cmax: u64) -> (r: (i64, i128))
    requires
        t.wf(),
        cmax > 0,
        magnitude(dc as int) * LUT_S_MAX <= i128::MAX,
    ensures
        (r.0 as int, r.1 as int) == move_for_capacity(t, x0 as int, s0 as int, dc as int, cmax as int),
        LUT_X_MIN <= x0 + r.0 <= LUT_X_MAX,
{
    let ds = ds_for_dc(dc, cmax);
    let dx = dx_for_ds(t, x0, s0, ds);
    (dx, ds)
}

/// Capacity delta for moving from `x0` by `dx`: `dc_for_ds(ds_for_dx(x0, dx), cmax)`.
pub fn dc_for_dx(t: &CurveTable, x0: u32, dx: i64, cmax: u64) -> (r: i128)
    requires
        t.wf(),
    ensures
        r == capacity_for_move(t, x0 as int, dx as int, cmax as int),
{
    let ds = ds_for_dx(t, x0, dx);
    assert(magnitude(ds as int) * cmax <= LUT_S_MAX * 0xffff_ffff_ffff_ffffu64) by (nonlinear_arith)
        requires
            magnitude(ds as int) <= LUT_S_MAX,
            cmax <= 0xffff_ffff_ffff_ffffu64,
            0 <= magnitude(ds as int),
    ;
    dc_for_ds(ds, cmax)
}

/// Moving by capacity is rescaling to cost and then moving by cost; the
/// capacity of a move is the rescaled cost of the move.
pub proof fn lemma_composition(t: &CurveTable, x0: int, s0: int, dc: int, dx: int, cmax: int)
    ensures
        move_for_capacity(t, x0, s0, dc, cmax) == (
            move_for_cost(t, x0, s0, cost_for_capacity(dc, cmax)),
            cost_for_capacity(dc, cmax),
        ),
        capacity_for_move(t, x0, dx, cmax) == capacity_for_cost(cost_delta(t, x0, dx), cmax),
{
}

/// The whole capacity buys the whole cost span, exactly.
pub proof fn lemma_capacity_anchor(cmax: int)
    requires
        cmax > 0,
    ensures
        cost_for_capacity(cmax, cmax) == LUT_S_MAX,
{
    assert(cmax * LUT_S_MAX == LUT_S_MAX * cmax) by (nonlinear_arith);
    assert(cmax * LUT_S_MAX >= 0) by (nonlinear_arith)
        requires
            cmax > 0,
    ;
    lemma_div_round_exact(LUT_S_MAX as int, cmax);
}

/// A capacity increase never moves past the upper end of the domain, and
/// no capacity delta moves below the lower end.
pub proof fn lemma_capacity_boundary(t: &CurveTable, dc: int, cmax: int)
    requires
        t.wf(),
        cmax > 0,
    ensures
        dc > 0 ==> move_for_cost(
            t,
            LUT_X_MAX as int,
            t.cost(LUT_X_MAX as int),
            cost_for_capacity(dc, cmax),
        ) == 0,
        LUT_X_MIN <= LUT_X_MIN + move_for_cost(
            t,
            LUT_X_MIN as int,
            t.cost(LUT_X_MIN as int),
            cost_for_capacity(dc, cmax),
        ),
{
    if dc > 0 {
        assert(dc * LUT_S_MAX >= 0) by (nonlinear_arith)
            requires
                dc > 0,
        ;
        lemma_div_bounds(dc * LUT_S_MAX + cmax / 2, cmax);
        lemma_upper_end(t, cost_for_capacity(dc, cmax));
    }
    lemma_move_in_domain(t, LUT_X_MIN as int, t.cost(LUT_X_MIN as int), cost_for_capacity(dc, cmax));
}

/// A zero capacity delta does not move an in-domain position.
pub proof fn lemma_zero_capacity(t: &CurveTable, x0: int, cmax: int)
    requires
        t.wf(),
        cmax > 0,
        LUT_X_MIN <= x0 <= LUT_X_MAX,
    ensures
        cost_for_capacity(0, cmax) == 0,
        move_for_cost(t, x0, t.cost(x0), cost_for_capacity(0, cmax)) == 0,
{
    assert(0 * LUT_S_MAX == 0 * cmax);
    lemma_div_round_exact(0, cmax);
    lemma_position_of_cost(t, x0);
}

} // verus!
