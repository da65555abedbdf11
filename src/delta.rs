//! Movement deltas: the cost of moving along the curve, and the move that a
//! cost buys.

use vstd::prelude::*;
use crate::evaluator::{evaluate_cost, x_for_s};
use crate::lut::{LUT_LEN, LUT_S_MAX, LUT_X_MAX, LUT_X_MIN};
use crate::rounding::{div_round, lemma_div_bounds, lemma_div_unique};
use crate::table::{
    clamp, in_segment, lemma_cost_on_segment, lemma_cost_range, lemma_interp,
    lemma_position_on_segment, lemma_position_range, lemma_sample_range, lemma_segment_exists,
    step_ok, CurveTable,
};

verus! {

/// Cost of moving from position `x0` by `dx`.
pub open spec fn cost_delta(t: &CurveTable, x0: int, dx: int) -> int {
    t.cost(x0 + dx) - t.cost(x0)
}

/// Move from position `x0`, whose cost is taken to be `s0`, that a cost
/// delta `ds` buys.
pub open spec fn move_for_cost(t: &CurveTable, x0: int, s0: int, ds: int) -> int {
    t.position(s0 + ds) - x0
}

/// Sum of a sequence of moves.
pub open spec fn total(steps: Seq<int>) -> int
    decreases steps.len(),
{
    if steps.len() == 0 {
        0
    } else {
        steps[0] + total(steps.drop_first())
    }
}

/// Sum of the costs of a chain of moves taken one after another from `x0`.
pub open spec fn chain_cost(t: &CurveTable, x0: int, steps: Seq<int>) -> int
    decreases steps.len(),
{
    if steps.len() == 0 {
        0
    } else {
        cost_delta(t, x0, steps[0]) + chain_cost(t, x0 + steps[0], steps.drop_first())
    }
}

/// Cost delta `ds` of moving from `x0` to `x0 + dx`; the end point is
/// clamped to the domain.
pub fn ds_for_dx(t: &CurveTable, x0: u32, dx: i64) -> (r: i128)
    requires
        t.wf(),
    ensures
        r == cost_delta(t, x0 as int, dx as int),
        dx == 0 ==> r == 0,
        -(LUT_S_MAX as int) <= r <= LUT_S_MAX,
{
    let target: i128 = x0 as i128 + dx as i128;
    let x1: u32 = if target < 0 {
        LUT_X_MIN
    } else if target > LUT_X_MAX as i128 {
        LUT_X_MAX
    } else {
        target as u32
    };
    let s1 = evaluate_cost(t, x1);
    let s0 = evaluate_cost(t, x0);
    proof {
        assert(clamp(x1 as int, 0, LUT_X_MAX as int) == clamp(target as int, 0, LUT_X_MAX as int));
        lemma_cost_range(t.xs(), t.ss(), x1 as int);
        lemma_cost_range(t.xs(), t.ss(), x0 as int);
    }
    s1 as i128 - s0 as i128
}

/// Position delta `dx` that the cost delta `ds` buys from `x0`, whose cost
/// is `s0`; the target cost is clamped to `[0, LUT_S_MAX]`, so the move ends
/// inside the domain.
pub fn dx_for_ds(t: &CurveTable, x0: u32, s0: u64, ds: i128) -> (r: i64)
    requires
        t.wf(),
    ensures
        r == move_for_cost(t, x0 as int, s0 as int, ds as int),
        LUT_X_MIN <= x0 + r <= LUT_X_MAX,
{
    let target: u64 = if ds >= LUT_S_MAX as i128 {
        LUT_S_MAX
    } else {
        let sum: i128 = s0 as i128 + ds;
        if sum < 0 {
            0
        } else if sum > LUT_S_MAX as i128 {
            LUT_S_MAX
        } else {
            sum as u64
        }
    };
    let x1 = x_for_s(t, target);
    proof {
        assert(clamp(target as int, 0, LUT_S_MAX as int) == clamp(s0 + ds, 0, LUT_S_MAX as int));
        lemma_position_range(t.xs(), t.ss(), target as int);
    }
    x1 as i64 - x0 as i64
}

/// Moving by `a + b` costs as much as moving by `a` and then by `b`.
pub proof fn lemma_path_independence(t: &CurveTable, x0: int, a: int, b: int)
    ensures
        cost_delta(t, x0, a + b) == cost_delta(t, x0, a) + cost_delta(t, x0 + a, b),
{
    assert(x0 + (a + b) == (x0 + a) + b);
}

/// A chain of moves costs as much as the single move by their sum.
pub proof fn lemma_path_telescopes(t: &CurveTable, x0: int, steps: Seq<int>)
    ensures
        chain_cost(t, x0, steps) == cost_delta(t, x0, total(steps)),
    decreases steps.len(),
{
    if steps.len() > 0 {
        lemma_path_telescopes(t, x0 + steps[0], steps.drop_first());
        lemma_path_independence(t, x0, steps[0], total(steps.drop_first()));
    }
}

/// Moving back along a move costs its negation.
pub proof fn lemma_antisymmetry(t: &CurveTable, x: int, dx: int)
    ensures
        cost_delta(t, x, dx) == -cost_delta(t, x + dx, -dx),
{
    assert(x + dx + -dx == x);
}

/// The cost at sample `j` is the sample's cost, and the position at that
/// cost is the sample's position.
pub proof fn lemma_sample_exact(t: &CurveTable, j: int)
    requires
        t.wf(),
        0 <= j < LUT_LEN,
    ensures
        t.position(t.ss()[j] as int) == t.xs()[j],
        t.cost(t.xs()[j] as int) == t.ss()[j],
{
    let xs = t.xs();
    let ss = t.ss();
    lemma_sample_range(xs, ss, j);
    let i = if j == 0 {
        1
    } else {
        j
    };
    assert(step_ok(xs, ss, i));
    lemma_position_on_segment(xs, ss, i, ss[j] as int);
    lemma_interp(ss[i - 1] as int, xs[i - 1] as int, ss[i] as int, xs[i] as int, ss[j] as int);
    lemma_cost_on_segment(xs, ss, i, xs[j] as int);
    lemma_interp(xs[i - 1] as int, ss[i - 1] as int, xs[i] as int, ss[i] as int, xs[j] as int);
}

/// A cost delta between two samples buys exactly the move between them.
pub proof fn lemma_inversion_at_samples(t: &CurveTable, i: int, j: int)
    requires
        t.wf(),
        0 <= i < LUT_LEN,
        0 <= j < LUT_LEN,
    ensures
        move_for_cost(t, t.xs()[i] as int, t.ss()[i] as int, t.ss()[j] - t.ss()[i])
            == t.xs()[j] - t.xs()[i],
{
    lemma_sample_exact(t, j);
    assert(t.ss()[i] + (t.ss()[j] - t.ss()[i]) == t.ss()[j]);
}

/// Rounding to the cost grid and back recovers the offset on a segment whose
/// cost rises more than its position.
proof fn lemma_interp_inverse(dx: int, ds: int, w: int)
    requires
        0 < dx < ds,
        0 <= w <= dx,
    ensures
        div_round(dx * div_round(ds * w, dx), ds) == w,
{
    let h = dx / 2;
    let k = ds / 2;
    lemma_div_bounds(dx, 2);
    lemma_div_bounds(ds, 2);
    let q = div_round(ds * w, dx);
    assert(0 <= ds * w) by (nonlinear_arith)
        requires
            0 < ds,
            0 <= w,
    ;
    lemma_div_bounds(ds * w + h, dx);
    assert(q * dx <= ds * w + h < q * dx + dx);
    assert(dx * q == q * dx) by (nonlinear_arith);
    assert(w * ds == ds * w) by (nonlinear_arith);
    lemma_div_unique(dx * q + k, ds, w);
}

/// The position at the cost of an in-domain position is that position.
pub proof fn lemma_position_of_cost(t: &CurveTable, x: int)
    requires
        t.wf(),
        LUT_X_MIN <= x <= LUT_X_MAX,
    ensures
        t.position(t.cost(x)) == x,
{
    let xs = t.xs();
    let ss = t.ss();
    let i = lemma_segment_exists(xs, x, LUT_LEN - 1);
    assert(step_ok(xs, ss, i));
    lemma_cost_on_segment(xs, ss, i, x);
    let c = t.cost(x);
    lemma_cost_range(xs, ss, x);
    assert(in_segment(ss, i, clamp(c, 0, LUT_S_MAX as int)));
    lemma_position_on_segment(xs, ss, i, c);
    let dx = xs[i] - xs[i - 1];
    let ds = ss[i] - ss[i - 1];
    let w = x - xs[i - 1];
    lemma_interp_inverse(dx, ds, w);
    assert(c - ss[i - 1] == div_round(ds * w, dx));
}

/// A move and the cost it took give the move back exactly, which keeps the
/// round trip within one unit of position.
pub proof fn lemma_round_trip(t: &CurveTable, x0: int, dx: int)
    requires
        t.wf(),
        LUT_X_MIN <= x0 <= LUT_X_MAX,
        LUT_X_MIN <= x0 + dx <= LUT_X_MAX,
    ensures
        move_for_cost(t, x0, t.cost(x0), t.cost(x0 + dx) - t.cost(x0)) == dx,
        -1 <= move_for_cost(t, x0, t.cost(x0), t.cost(x0 + dx) - t.cost(x0)) - dx <= 1,
{
    lemma_position_of_cost(t, x0 + dx);
    assert(t.cost(x0) + (t.cost(x0 + dx) - t.cost(x0)) == t.cost(x0 + dx));
}

/// The cost at the domain's upper end is the full cost, and from there no
/// cost increase moves further.
pub proof fn lemma_upper_end(t: &CurveTable, ds: int)
    requires
        t.wf(),
        ds >= 0,
    ensures
        t.cost(LUT_X_MAX as int) == LUT_S_MAX,
        move_for_cost(t, LUT_X_MAX as int, LUT_S_MAX as int, ds) == 0,
{
    lemma_sample_exact(t, LUT_LEN - 1);
    assert(clamp(LUT_S_MAX + ds, 0, LUT_S_MAX as int) == LUT_S_MAX);
}

/// Every move ends inside the domain.
pub proof fn lemma_move_in_domain(t: &CurveTable, x0: int, s0: int, ds: int)
    requires
        t.wf(),
    ensures
        LUT_X_MIN <= x0 + move_for_cost(t, x0, s0, ds) <= LUT_X_MAX,
{
    lemma_position_range(t.xs(), t.ss(), s0 + ds);
}

} // verus!
