//! The curve table as a validated value, and the mathematical model of the
//! curve it describes.

use vstd::prelude::*;
use crate::lut::{LUT_LEN, LUT_S_MAX, LUT_X_MAX, LUT_X_MIN, S_LUT, X_LUT};
use crate::rounding::{div_round, lemma_div_round_exact, lemma_div_round_le};
use vstd::arithmetic::div_mod::lemma_div_is_ordered;

verus! {

/// Adjacent samples `i - 1` and `i` rise in position, and rise more in cost
/// (raw units) than in position.
pub open spec fn step_ok(xs: Seq<u32>, ss: Seq<u64>, i: int) -> bool {
    &&& xs[i - 1] < xs[i]
    &&& xs[i] - xs[i - 1] < ss[i] - ss[i - 1]
}

/// The invariants of a curve table.
pub open spec fn samples_ok(xs: Seq<u32>, ss: Seq<u64>) -> bool {
    &&& xs.len() == LUT_LEN
    &&& ss.len() == LUT_LEN
    &&& xs[0] == LUT_X_MIN
    &&& xs[LUT_LEN - 1] == LUT_X_MAX
    &&& ss[0] == 0
    &&& ss[LUT_LEN - 1] == LUT_S_MAX
    &&& forall|i: int| 0 < i < LUT_LEN ==> #[trigger] step_ok(xs, ss, i)
}

/// `v` limited to `[lo, hi]`.
pub open spec fn clamp(v: int, lo: int, hi: int) -> int {
    if v < lo {
        lo
    } else if v > hi {
        hi
    } else {
        v
    }
}

/// Linear interpolation through `(a0, b0)` and `(a1, b1)` at `v`, rounded.
pub open spec fn interp(a0: int, b0: int, a1: int, b1: int, v: int) -> int {
    b0 + div_round((b1 - b0) * (v - a0), a1 - a0)
}

/// Segment `i` (between samples `i - 1` and `i`) holds the value `v` of `keys`.
pub open spec fn in_segment<T: Integer>(keys: Seq<T>, i: int, v: int) -> bool {
    1 <= i < keys.len() && keys[i - 1] as int <= v <= keys[i] as int
}

/// Cumulative cost at position `x`, clamped to the domain; interpolated on
/// the segment that holds it.
pub open spec fn cost_at(xs: Seq<u32>, ss: Seq<u64>, x: int) -> int {
    let c = clamp(x, LUT_X_MIN as int, LUT_X_MAX as int);
    let i = choose|i: int| in_segment(xs, i, c);
    interp(xs[i - 1] as int, ss[i - 1] as int, xs[i] as int, ss[i] as int, c)
}

/// Position whose cumulative cost is `s`, clamped to the cost range;
/// interpolated on the segment that holds it.
pub open spec fn position_at(xs: Seq<u32>, ss: Seq<u64>, s: int) -> int {
    let c = clamp(s, 0, LUT_S_MAX as int);
    let i = choose|i: int| in_segment(ss, i, c);
    interp(ss[i - 1] as int, xs[i - 1] as int, ss[i] as int, xs[i] as int, c)
}

/// Samples are strictly increasing in both position and cost.
pub proof fn lemma_sorted(xs: Seq<u32>, ss: Seq<u64>, i: int, j: int)
    requires
        samples_ok(xs, ss),
        0 <= i < j < LUT_LEN,
    ensures
        xs[i] < xs[j],
        ss[i] < ss[j],
    decreases j - i,
{
    assert(step_ok(xs, ss, j));
    if i < j - 1 {
        lemma_sorted(xs, ss, i, j - 1);
    }
}

/// Every sample lies within the domain and the cost range.
pub proof fn lemma_sample_range(xs: Seq<u32>, ss: Seq<u64>, i: int)
    requires
        samples_ok(xs, ss),
        0 <= i < LUT_LEN,
    ensures
        LUT_X_MIN <= xs[i] <= LUT_X_MAX,
        0 <= ss[i] <= LUT_S_MAX,
{
    if 0 < i {
        lemma_sorted(xs, ss, 0, i);
    }
    if i < LUT_LEN - 1 {
        lemma_sorted(xs, ss, i, LUT_LEN - 1);
    }
}

/// Interpolation stays between its end values and meets them at the ends.
pub proof fn lemma_interp(a0: int, b0: int, a1: int, b1: int, v: int)
    requires
        a0 < a1,
        b0 <= b1,
        a0 <= v <= a1,
    ensures
        b0 <= interp(a0, b0, a1, b1, v) <= b1,
        v == a0 ==> interp(a0, b0, a1, b1, v) == b0,
        v == a1 ==> interp(a0, b0, a1, b1, v) == b1,
{
    let n = (b1 - b0) * (v - a0);
    let d = a1 - a0;
    assert(0 <= n <= (b1 - b0) * d) by (nonlinear_arith)
        requires
            n == (b1 - b0) * (v - a0),
            d == a1 - a0,
            0 <= v - a0 <= d,
            0 <= b1 - b0,
    ;
    lemma_div_round_le(n, b1 - b0, d);
    if v == a0 {
        assert(n == 0 * d) by (nonlinear_arith)
            requires
                v == a0,
                n == (b1 - b0) * (v - a0),
        ;
        lemma_div_round_exact(0, d);
    }
    if v == a1 {
        lemma_div_round_exact(b1 - b0, d);
    }
}

/// Some segment holds every value between the first and the `k`-th key.
pub proof fn lemma_segment_exists<T: Integer>(keys: Seq<T>, v: int, k: int) -> (i: int)
    requires
        1 <= k < keys.len(),
        keys[0] as int <= v <= keys[k] as int,
    ensures
        1 <= i <= k,
        in_segment(keys, i, v),
    decreases k,
{
    if keys[k - 1] as int <= v || k == 1 {
        k
    } else {
        lemma_segment_exists(keys, v, k - 1)
    }
}

/// Two segments that hold the same position give the same interpolated cost.
pub proof fn lemma_cost_segment(xs: Seq<u32>, ss: Seq<u64>, i: int, j: int, x: int)
    requires
        samples_ok(xs, ss),
        in_segment(xs, i, x),
        in_segment(xs, j, x),
    ensures
        interp(xs[i - 1] as int, ss[i - 1] as int, xs[i] as int, ss[i] as int, x)
            == interp(xs[j - 1] as int, ss[j - 1] as int, xs[j] as int, ss[j] as int, x),
{
    assert(step_ok(xs, ss, i));
    assert(step_ok(xs, ss, j));
    lemma_interp(xs[i - 1] as int, ss[i - 1] as int, xs[i] as int, ss[i] as int, x);
    lemma_interp(xs[j - 1] as int, ss[j - 1] as int, xs[j] as int, ss[j] as int, x);
    if i < j {
        if i < j - 1 {
            lemma_sorted(xs, ss, i, j - 1);
        }
    } else if j < i {
        if j < i - 1 {
            lemma_sorted(xs, ss, j, i - 1);
        }
    }
}

/// Two segments that hold the same cost give the same interpolated position.
pub proof fn lemma_position_segment(xs: Seq<u32>, ss: Seq<u64>, i: int, j: int, s: int)
    requires
        samples_ok(xs, ss),
        in_segment(ss, i, s),
        in_segment(ss, j, s),
    ensures
        interp(ss[i - 1] as int, xs[i - 1] as int, ss[i] as int, xs[i] as int, s)
            == interp(ss[j - 1] as int, xs[j - 1] as int, ss[j] as int, xs[j] as int, s),
{
    assert(step_ok(xs, ss, i));
    assert(step_ok(xs, ss, j));
    lemma_interp(ss[i - 1] as int, xs[i - 1] as int, ss[i] as int, xs[i] as int, s);
    lemma_interp(ss[j - 1] as int, xs[j - 1] as int, ss[j] as int, xs[j] as int, s);
    if i < j {
        if i < j - 1 {
            lemma_sorted(xs, ss, i, j - 1);
        }
    } else if j < i {
        if j < i - 1 {
            lemma_sorted(xs, ss, j, i - 1);
        }
    }
}

/// The cost at a position is the interpolation on any segment holding the
/// clamped position, and lies in the cost range.
pub proof fn lemma_cost_on_segment(xs: Seq<u32>, ss: Seq<u64>, i: int, x: int)
    requires
        samples_ok(xs, ss),
        in_segment(xs, i, clamp(x, LUT_X_MIN as int, LUT_X_MAX as int)),
    ensures
        cost_at(xs, ss, x) == interp(
            xs[i - 1] as int,
            ss[i - 1] as int,
            xs[i] as int,
            ss[i] as int,
            clamp(x, LUT_X_MIN as int, LUT_X_MAX as int),
        ),
        ss[i - 1] <= cost_at(xs, ss, x) <= ss[i],
{
    let c = clamp(x, LUT_X_MIN as int, LUT_X_MAX as int);
    let k = choose|k: int| in_segment(xs, k, c);
    lemma_cost_segment(xs, ss, i, k, c);
    assert(step_ok(xs, ss, i));
    lemma_interp(xs[i - 1] as int, ss[i - 1] as int, xs[i] as int, ss[i] as int, c);
}

/// The position at a cost is the interpolation on any segment holding the
/// clamped cost, and lies in the domain.
pub proof fn lemma_position_on_segment(xs: Seq<u32>, ss: Seq<u64>, i: int, s: int)
    requires
        samples_ok(xs, ss),
        in_segment(ss, i, clamp(s, 0, LUT_S_MAX as int)),
    ensures
        position_at(xs, ss, s) == interp(
            ss[i - 1] as int,
            xs[i - 1] as int,
            ss[i] as int,
            xs[i] as int,
            clamp(s, 0, LUT_S_MAX as int),
        ),
        xs[i - 1] <= position_at(xs, ss, s) <= xs[i],
{
    let c = clamp(s, 0, LUT_S_MAX as int);
    let k = choose|k: int| in_segment(ss, k, c);
    lemma_position_segment(xs, ss, i, k, c);
    assert(step_ok(xs, ss, i));
    lemma_interp(ss[i - 1] as int, xs[i - 1] as int, ss[i] as int, xs[i] as int, c);
}

/// Costs lie in `[0, LUT_S_MAX]`.
pub proof fn lemma_cost_range(xs: Seq<u32>, ss: Seq<u64>, x: int)
    requires
        samples_ok(xs, ss),
    ensures
        0 <= cost_at(xs, ss, x) <= LUT_S_MAX,
{
    let c = clamp(x, LUT_X_MIN as int, LUT_X_MAX as int);
    let i = lemma_segment_exists(xs, c, LUT_LEN - 1);
    lemma_cost_on_segment(xs, ss, i, x);
    lemma_sample_range(xs, ss, i - 1);
    lemma_sample_range(xs, ss, i);
}

/// Positions lie in `[LUT_X_MIN, LUT_X_MAX]`.
pub proof fn lemma_position_range(xs: Seq<u32>, ss: Seq<u64>, s: int)
    requires
        samples_ok(xs, ss),
    ensures
        LUT_X_MIN <= position_at(xs, ss, s) <= LUT_X_MAX,
{
    let c = clamp(s, 0, LUT_S_MAX as int);
    let i = lemma_segment_exists(ss, c, LUT_LEN - 1);
    lemma_position_on_segment(xs, ss, i, s);
    lemma_sample_range(xs, ss, i - 1);
    lemma_sample_range(xs, ss, i);
}

/// Interpolation on one segment does not decrease.
pub proof fn lemma_interp_monotone(a0: int, b0: int, a1: int, b1: int, v: int, w: int)
    requires
        a0 < a1,
        b0 <= b1,
        a0 <= v <= w <= a1,
    ensures
        interp(a0, b0, a1, b1, v) <= interp(a0, b0, a1, b1, w),
{
    let d = a1 - a0;
    assert((b1 - b0) * (v - a0) <= (b1 - b0) * (w - a0)) by (nonlinear_arith)
        requires
            0 <= b1 - b0,
            v - a0 <= w - a0,
    ;
    lemma_div_is_ordered((b1 - b0) * (v - a0) + d / 2, (b1 - b0) * (w - a0) + d / 2, d);
}

/// Cost does not decrease with position.
pub proof fn lemma_cost_monotone(xs: Seq<u32>, ss: Seq<u64>, a: int, b: int)
    requires
        samples_ok(xs, ss),
        a <= b,
    ensures
        cost_at(xs, ss, a) <= cost_at(xs, ss, b),
{
    let ca = clamp(a, LUT_X_MIN as int, LUT_X_MAX as int);
    let cb = clamp(b, LUT_X_MIN as int, LUT_X_MAX as int);
    let i = lemma_segment_exists(xs, ca, LUT_LEN - 1);
    let j = lemma_segment_exists(xs, cb, LUT_LEN - 1);
    lemma_cost_on_segment(xs, ss, i, a);
    lemma_cost_on_segment(xs, ss, j, b);
    if i == j {
        assert(step_ok(xs, ss, i));
        lemma_interp_monotone(xs[i - 1] as int, ss[i - 1] as int, xs[i] as int, ss[i] as int, ca, cb);
    } else if i < j {
        if i < j - 1 {
            lemma_sorted(xs, ss, i, j - 1);
        }
    } else {
        if j < i - 1 {
            lemma_sorted(xs, ss, j, i - 1);
        }
        assert(ca == cb);
    }
}

/// Position does not decrease with cost.
pub proof fn lemma_position_monotone(xs: Seq<u32>, ss: Seq<u64>, a: int, b: int)
    requires
        samples_ok(xs, ss),
        a <= b,
    ensures
        position_at(xs, ss, a) <= position_at(xs, ss, b),
{
    let ca = clamp(a, 0, LUT_S_MAX as int);
    let cb = clamp(b, 0, LUT_S_MAX as int);
    let i = lemma_segment_exists(ss, ca, LUT_LEN - 1);
    let j = lemma_segment_exists(ss, cb, LUT_LEN - 1);
    lemma_position_on_segment(xs, ss, i, a);
    lemma_position_on_segment(xs, ss, j, b);
    if i == j {
        assert(step_ok(xs, ss, i));
        lemma_interp_monotone(ss[i - 1] as int, xs[i - 1] as int, ss[i] as int, xs[i] as int, ca, cb);
    } else if i < j {
        if i < j - 1 {
            lemma_sorted(xs, ss, i, j - 1);
        }
    } else {
        if j < i - 1 {
            lemma_sorted(xs, ss, j, i - 1);
        }
        assert(ca == cb);
    }
}

/// A validated curve table: parallel samples of position and cumulative cost.
pub struct CurveTable {
    pub(crate) xs: Vec<u32>,
    pub(crate) ss: Vec<u64>,
}

impl CurveTable {
    /// Sample positions.
    pub closed spec fn xs(&self) -> Seq<u32> {
        self.xs@
    }

    /// Sample costs.
    pub closed spec fn ss(&self) -> Seq<u64> {
        self.ss@
    }

    pub open spec fn wf(&self) -> bool {
        samples_ok(self.xs(), self.ss())
    }

    /// Cumulative cost at position `x` (clamped to the domain).
    pub open spec fn cost(&self, x: int) -> int {
        cost_at(self.xs(), self.ss(), x)
    }

    /// Position at cumulative cost `s` (clamped to the cost range).
    pub open spec fn position(&self, s: int) -> int {
        position_at(self.xs(), self.ss(), s)
    }

    /// Builds a table from parallel samples, or `None` where they break an
    /// invariant of the curve table.
    pub fn from_samples(xs: Vec<u32>, ss: Vec<u64>) -> (r: Option<CurveTable>)
        ensures
            r is Some <==> samples_ok(xs@, ss@),
            r matches Some(t) ==> t.xs() == xs@ && t.ss() == ss@,
    {
        if xs.len() != LUT_LEN || ss.len() != LUT_LEN {
            return None;
        }
        if xs[0] != LUT_X_MIN || xs[LUT_LEN - 1] != LUT_X_MAX || ss[0] != 0 || ss[LUT_LEN - 1]
            != LUT_S_MAX {
            return None;
        }
        let mut i: usize = 1;
        while i < LUT_LEN
            invariant
                1 <= i <= LUT_LEN,
                xs@.len() == LUT_LEN,
                ss@.len() == LUT_LEN,
                forall|k: int| 0 < k < i ==> #[trigger] step_ok(xs@, ss@, k),
            decreases LUT_LEN - i,
        {
            if xs[i - 1] >= xs[i] || ss[i - 1] > ss[i] || (xs[i] - xs[i - 1]) as u64 >= ss[i] - ss[i - 1] {
                assert(!step_ok(xs@, ss@, i as int));
                return None;
            }
            i = i + 1;
        }
        Some(CurveTable { xs, ss })
    }

    /// The table baked into the library, validated.
    pub fn standard() -> (r: Option<CurveTable>)
        ensures
            r is Some <==> samples_ok(X_LUT@, S_LUT@),
            r matches Some(t) ==> t.xs() == X_LUT@ && t.ss() == S_LUT@,
    {
        let mut xs: Vec<u32> = Vec::new();
        let mut ss: Vec<u64> = Vec::new();
        let mut i: usize = 0;
        while i < LUT_LEN
            invariant
                i <= LUT_LEN,
                xs@ == X_LUT@.subrange(0, i as int),
                ss@ == S_LUT@.subrange(0, i as int),
            decreases LUT_LEN - i,
        {
            xs.push(X_LUT[i]);
            ss.push(S_LUT[i]);
            i = i + 1;
            assert(xs@ =~= X_LUT@.subrange(0, i as int));
            assert(ss@ =~= S_LUT@.subrange(0, i as int));
        }
        assert(xs@ =~= X_LUT@);
        assert(ss@ =~= S_LUT@);
        CurveTable::from_samples(xs, ss)
    }

    /// Number of samples.
    pub fn len(&self) -> (r: usize)
        ensures
            r == self.xs().len(),
    {
        self.xs.len()
    }

    /// Position of sample `i`.
    pub fn x_at(&self, i: usize) -> (r: u32)
        requires
            i < self.xs().len(),
        ensures
            r == self.xs()[i as int],
    {
        self.xs[i]
    }

    /// Cumulative cost of sample `i`.
    pub fn s_at(&self, i: usize) -> (r: u64)
        requires
            i < self.ss().len(),
        ensures
            r == self.ss()[i as int],
    {
        self.ss[i]
    }
}

} // verus!
