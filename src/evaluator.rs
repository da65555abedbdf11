//! Evaluation of the curve in both directions: search for the segment, then
//! interpolate on it.

use vstd::prelude::*;
use crate::lut::{LUT_LEN, LUT_S_MAX, LUT_X_MAX, LUT_X_MIN};
use crate::rounding::div_round_u128;
use crate::table::{
    clamp, in_segment, interp, lemma_cost_on_segment, lemma_cost_range, lemma_interp,
    lemma_position_on_segment, lemma_position_range, step_ok, CurveTable,
};

verus! {

/// Index `i` of a segment that holds position `x`: `xs[i - 1] <= x <= xs[i]`.
pub fn x_segment(t: &CurveTable, x: u32) -> (i: usize)
    requires
        t.wf(),
        x <= LUT_X_MAX,
    ensures
        in_segment(t.xs(), i as int, x as int),
{
    let mut lo: usize = 0;
    let mut hi: usize = LUT_LEN - 1;
    while hi - lo > 1
        invariant
            t.wf(),
            lo < hi < LUT_LEN,
            t.xs()[lo as int] <= x <= t.xs()[hi as int],
        decreases hi - lo,
    {
        let mid = lo + (hi - lo) / 2;
        if t.x_at(mid) <= x {
            lo = mid;
        } else {
            hi = mid;
        }
    }
    hi
}

/// Index `i` of a segment that holds cost `s`: `ss[i - 1] <= s <= ss[i]`.
pub fn s_segment(t: &CurveTable, s: u64) -> (i: usize)
    requires
        t.wf(),
        s <= LUT_S_MAX,
    ensures
        in_segment(t.ss(), i as int, s as int),
{
    let mut lo: usize = 0;
    let mut hi: usize = LUT_LEN - 1;
    while hi - lo > 1
        invariant
            t.wf(),
            lo < hi < LUT_LEN,
            t.ss()[lo as int] <= s <= t.ss()[hi as int],
        decreases hi - lo,
    {
        let mid = lo + (hi - lo) / 2;
        if t.s_at(mid) <= s {
            lo = mid;
        } else {
            hi = mid;
        }
    }
    hi
}

/// Cost at `x` interpolated between samples `(x0, s0)` and `(x1, s1)`.
pub fn interp_s_for_x(x: u32, x0: u32, s0: u64, x1: u32, s1: u64) -> (r: u64)
    requires
        x0 < x1,
        x0 <= x <= x1,
        s0 <= s1,
    ensures
        r == interp(x0 as int, s0 as int, x1 as int, s1 as int, x as int),
{
    let dx = (x1 - x0) as u128;
    let t = (x - x0) as u128;
    let ds = (s1 - s0) as u128;
    assert(ds * t <= 0xffff_ffff_ffff_ffffu128 * 0xffff_ffffu128) by (nonlinear_arith)
        requires
            ds <= 0xffff_ffff_ffff_ffffu128,
            t <= 0xffff_ffffu128,
    ;
    let q = div_round_u128(ds * t, dx);
    proof {
        lemma_interp(x0 as int, s0 as int, x1 as int, s1 as int, x as int);
    }
    s0 + q as u64
}

/// Position at `s` interpolated between samples `(x0, s0)` and `(x1, s1)`.
pub fn interp_x_for_s(s: u64, x0: u32, s0: u64, x1: u32, s1: u64) -> (r: u32)
    requires
        s0 < s1,
        s0 <= s <= s1,
        x0 <= x1,
    ensures
        r == interp(s0 as int, x0 as int, s1 as int, x1 as int, s as int),
{
    let ds = (s1 - s0) as u128;
    let t = (s - s0) as u128;
    let dx = (x1 - x0) as u128;
    assert(dx * t <= 0xffff_ffffu128 * 0xffff_ffff_ffff_ffffu128) by (nonlinear_arith)
        requires
            dx <= 0xffff_ffffu128,
            t <= 0xffff_ffff_ffff_ffffu128,
    ;
    let q = div_round_u128(dx * t, ds);
    proof {
        lemma_interp(s0 as int, x0 as int, s1 as int, x1 as int, s as int);
    }
    x0 + q as u32
}

/// Cumulative cost at position `x`; positions past `LUT_X_MAX` cost
/// `LUT_S_MAX`.
pub fn evaluate_cost(t: &CurveTable, x: u32) -> (r: u64)
    requires
        t.wf(),
    ensures
        r == t.cost(x as int),
        r <= LUT_S_MAX,
{
    let c = if x > LUT_X_MAX {
        LUT_X_MAX
    } else {
        x
    };
    let i = x_segment(t, c);
    proof {
        assert(step_ok(t.xs(), t.ss(), i as int));
        assert(c == clamp(x as int, 0, LUT_X_MAX as int));
        lemma_cost_on_segment(t.xs(), t.ss(), i as int, x as int);
        lemma_cost_range(t.xs(), t.ss(), x as int);
    }
    interp_s_for_x(c, t.x_at(i - 1), t.s_at(i - 1), t.x_at(i), t.s_at(i))
}

/// Position whose cumulative cost is `s`; costs past `LUT_S_MAX` give
/// `LUT_X_MAX`.
pub fn x_for_s(t: &CurveTable, s: u64) -> (r: u32)
    requires
        t.wf(),
    ensures
        r == t.position(s as int),
        LUT_X_MIN <= r <= LUT_X_MAX,
{
    let c = if s > LUT_S_MAX {
        LUT_S_MAX
    } else {
        s
    };
    let i = s_segment(t, c);
    proof {
        assert(step_ok(t.xs(), t.ss(), i as int));
        assert(c == clamp(s as int, 0, LUT_S_MAX as int));
        lemma_position_on_segment(t.xs(), t.ss(), i as int, s as int);
        lemma_position_range(t.xs(), t.ss(), s as int);
    }
    interp_x_for_s(c, t.x_at(i - 1), t.s_at(i - 1), t.x_at(i), t.s_at(i))
}

} // verus!
