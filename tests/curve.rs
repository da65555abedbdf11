use tokamak::capacity::{dc_for_ds, dc_for_dx, ds_for_dc, dx_for_dc};
use tokamak::delta::{ds_for_dx, dx_for_ds};
use tokamak::evaluator::{evaluate_cost, x_for_s};
use tokamak::lut::{LUT_LEN, LUT_S_MAX, LUT_X_MAX, LUT_X_MIN};
use tokamak::table::CurveTable;

// 0.25 in Q8.24
const MARGIN: i64 = (1i64 << 24) / 4;

fn table() -> CurveTable {
    CurveTable::standard().expect("the baked table is valid")
}

fn lo_x(t: &CurveTable) -> i64 {
    t.x_at(0) as i64
}

fn hi_x(t: &CurveTable) -> i64 {
    t.x_at(t.len() - 1) as i64
}

/// Deterministic PRNG (xorshift64*).
struct Rng(u64);

impl Rng {
    fn new(seed: u64) -> Self {
        Self(seed)
    }

    fn next_u32(&mut self) -> u32 {
        let mut x = self.0;
        x ^= x >> 12;
        x ^= x << 25;
        x ^= x >> 27;
        self.0 = x;
        ((x.wrapping_mul(0x2545F4914F6CDD1D)) >> 32) as u32
    }

    fn gen_i64(&mut self, min: i64, max: i64) -> i64 {
        assert!(min <= max);
        let span = (max - min + 1) as u64;
        let v = (self.next_u32() as u64) % span;
        min + v as i64
    }
}

#[test]
fn delta_zero_is_zero() {
    let t = table();
    let x0 = (lo_x(&t) + hi_x(&t)) / 2;
    assert_eq!(ds_for_dx(&t, x0 as u32, 0), 0);
}

#[test]
fn delta_matches_eval_difference_in_domain() {
    let t = table();
    let mut rng = Rng::new(1);
    for _ in 0..50_000 {
        let x0 = rng.gen_i64(lo_x(&t), hi_x(&t));
        let dx = rng.gen_i64(lo_x(&t) - x0, hi_x(&t) - x0);
        let x1 = x0 + dx;

        let lhs = ds_for_dx(&t, x0 as u32, dx);
        let rhs = evaluate_cost(&t, x1 as u32) as i128 - evaluate_cost(&t, x0 as u32) as i128;
        assert_eq!(lhs, rhs);
    }
}

#[test]
fn path_independence_two_steps_in_domain() {
    let t = table();
    let mut rng = Rng::new(2);
    for _ in 0..200_000 {
        let x0 = rng.gen_i64(lo_x(&t) + MARGIN, hi_x(&t) - MARGIN);
        let dx1 = rng.gen_i64(-MARGIN + 1, MARGIN - 1);
        let x_mid = x0 + dx1;

        let dx2_min = lo_x(&t) - x_mid + 1;
        let dx2_max = hi_x(&t) - x_mid - 1;
        if dx2_min > dx2_max {
            continue;
        }
        let dx2 = rng.gen_i64(dx2_min, dx2_max);

        let direct = ds_for_dx(&t, x0 as u32, dx1 + dx2);
        let step = ds_for_dx(&t, x0 as u32, dx1) + ds_for_dx(&t, x_mid as u32, dx2);
        assert_eq!(direct, step);
    }
}

#[test]
fn path_independence_many_steps_in_domain() {
    let t = table();
    let mut rng = Rng::new(3);
    for _ in 0..50_000 {
        let mut x = rng.gen_i64(lo_x(&t) + MARGIN, hi_x(&t) - MARGIN);
        let x_start = x;

        let mut sum: i128 = 0;
        let steps = 8;
        for _ in 0..steps {
            let step_min = (lo_x(&t) - x).max(-MARGIN / 2 + 1);
            let step_max = (hi_x(&t) - x).min(MARGIN / 2 - 1);
            if step_min > step_max {
                continue;
            }
            let dx = rng.gen_i64(step_min, step_max);
            sum += ds_for_dx(&t, x as u32, dx);
            x += dx;
        }

        let direct = ds_for_dx(&t, x_start as u32, x - x_start);
        assert_eq!(direct, sum);
    }
}

#[test]
fn antisymmetry_in_domain() {
    let t = table();
    let mut rng = Rng::new(4);
    for _ in 0..200_000 {
        let x = rng.gen_i64(lo_x(&t) + MARGIN, hi_x(&t) - MARGIN);
        let dx = rng.gen_i64(-MARGIN, MARGIN);
        let x2 = x + dx;
        if x2 <= lo_x(&t) || x2 >= hi_x(&t) {
            continue;
        }

        let a = ds_for_dx(&t, x as u32, dx);
        let b = ds_for_dx(&t, x2 as u32, -dx);
        assert_eq!(a, -b);
    }
}

#[test]
fn invert_delta_at_lut_points() {
    let t = table();
    let n = t.len();
    let indices = [0usize, n / 4, n / 2, (3 * n) / 4, n - 1];

    for &i in &indices {
        let x0 = t.x_at(i);
        let s0 = t.s_at(i);

        for &j in &indices {
            let x1 = t.x_at(j);
            let ds = t.s_at(j) as i128 - s0 as i128;
            let dx = dx_for_ds(&t, x0, s0, ds);
            assert_eq!(x0 as i64 + dx, x1 as i64);
        }
    }
}

#[test]
fn invert_delta_round_trip_near_exact() {
    let t = table();
    let mut rng = Rng::new(5);
    for _ in 0..50_000 {
        let x0 = rng.gen_i64(lo_x(&t), hi_x(&t));
        let dx = rng.gen_i64(lo_x(&t) - x0, hi_x(&t) - x0);
        let x1 = x0 + dx;
        let s0 = evaluate_cost(&t, x0 as u32);
        let ds = evaluate_cost(&t, x1 as u32) as i128 - s0 as i128;

        let dx_inv = dx_for_ds(&t, x0 as u32, s0, ds);
        let x1_inv = x0 + dx_inv;

        let diff = (x1_inv - x1).abs();
        assert!(diff <= 1, "x1={}, x1_inv={}", x1, x1_inv);
    }
}

#[test]
fn invert_delta_midpoint_between_samples() {
    let t = table();
    let step = t.len() / 64;
    for i in (0..t.len() - 1).step_by(step) {
        let (ax, as_) = (t.x_at(i), t.s_at(i));
        let (bx, bs) = (t.x_at(i + 1), t.s_at(i + 1));
        let s_mid = (as_ + bs) / 2;
        let x_mid_expected = (ax as i64 + bx as i64) / 2;

        let dx = dx_for_ds(&t, ax, as_, s_mid as i128 - as_ as i128);
        let x_mid = ax as i64 + dx;

        let diff = (x_mid - x_mid_expected).abs();
        assert!(diff <= 1, "x_mid={}, expected={}", x_mid, x_mid_expected);
    }
}

#[test]
fn standard_table_is_valid_and_spans_the_domain() {
    let t = table();
    assert_eq!(t.len(), LUT_LEN);
    assert_eq!(t.x_at(0), LUT_X_MIN);
    assert_eq!(t.x_at(LUT_LEN - 1), LUT_X_MAX);
    assert_eq!(t.s_at(0), 0);
    assert_eq!(t.s_at(LUT_LEN - 1), LUT_S_MAX);
    // 12.0 in Q8.24 and 6.0 in Q16.48.
    assert_eq!(LUT_X_MAX, 12 << 24);
    assert_eq!(LUT_S_MAX, 6 << 48);
    // The centre sample is the inflection point, 6.0.
    assert_eq!(t.x_at(LUT_LEN / 2), 6 << 24);
}

#[test]
fn from_samples_rejects_broken_tables() {
    let t = table();
    let xs: Vec<u32> = (0..t.len()).map(|i| t.x_at(i)).collect();
    let ss: Vec<u64> = (0..t.len()).map(|i| t.s_at(i)).collect();
    assert!(CurveTable::from_samples(xs.clone(), ss.clone()).is_some());

    let mut unsorted = xs.clone();
    unsorted.swap(10, 11);
    assert!(CurveTable::from_samples(unsorted, ss.clone()).is_none());

    let mut flat = ss.clone();
    flat[20] = flat[19];
    assert!(CurveTable::from_samples(xs.clone(), flat).is_none());

    let mut short = xs.clone();
    short.pop();
    assert!(CurveTable::from_samples(short, ss.clone()).is_none());

    let mut wrong_end = ss.clone();
    wrong_end[LUT_LEN - 1] -= 1;
    assert!(CurveTable::from_samples(xs, wrong_end).is_none());
}

#[test]
fn evaluate_cost_interpolates_with_rounding() {
    let t = table();
    let (x0, s0) = (t.x_at(100), t.s_at(100));
    let (x1, s1) = (t.x_at(101), t.s_at(101));
    assert_eq!(evaluate_cost(&t, x0), s0);
    assert_eq!(evaluate_cost(&t, x1), s1);
    let x = x0 + (x1 - x0) / 3;
    let num = (s1 - s0) as u128 * (x - x0) as u128;
    let den = (x1 - x0) as u128;
    let expected = s0 + ((num + den / 2) / den) as u64;
    assert_eq!(evaluate_cost(&t, x), expected);
}

#[test]
fn evaluation_clamps_outside_the_domain() {
    let t = table();
    assert_eq!(evaluate_cost(&t, LUT_X_MAX + 1), LUT_S_MAX);
    assert_eq!(evaluate_cost(&t, u32::MAX), LUT_S_MAX);
    assert_eq!(x_for_s(&t, LUT_S_MAX + 1), LUT_X_MAX);
    assert_eq!(x_for_s(&t, u64::MAX), LUT_X_MAX);
    assert_eq!(x_for_s(&t, 0), LUT_X_MIN);
    // A move past either end is truncated at the end.
    assert_eq!(ds_for_dx(&t, 0, -5), 0);
    assert_eq!(ds_for_dx(&t, LUT_X_MAX, i64::MAX), 0);
    assert_eq!(ds_for_dx(&t, 0, i64::MAX), LUT_S_MAX as i128);
}

#[test]
fn position_of_cost_is_exact() {
    let t = table();
    let mut rng = Rng::new(6);
    for _ in 0..20_000 {
        let x = rng.gen_i64(lo_x(&t), hi_x(&t)) as u32;
        assert_eq!(x_for_s(&t, evaluate_cost(&t, x)), x);
    }
}

#[test]
fn full_capacity_buys_the_full_cost_span() {
    assert_eq!(ds_for_dc(1_000_000, 1_000_000), LUT_S_MAX as i128);
    for cmax in [1u64, 3, 7, 1_000_000, u64::MAX] {
        assert_eq!(ds_for_dc(cmax as i128, cmax), LUT_S_MAX as i128);
    }
}

#[test]
fn zero_capacity_does_not_move() {
    let t = table();
    let mut rng = Rng::new(7);
    for _ in 0..20_000 {
        let x0 = rng.gen_i64(lo_x(&t), hi_x(&t)) as u32;
        let s0 = evaluate_cost(&t, x0);
        assert_eq!(dx_for_dc(&t, x0, s0, 0, 1_000_000), (0, 0));
    }
}

#[test]
fn capacity_rescaling_rounds_half_away_from_zero() {
    // 3 * 6.0 / 4 = 4.5 in Q16.48 exactly; no rounding needed.
    assert_eq!(ds_for_dc(3, 4), 9i128 << 47);
    assert_eq!(ds_for_dc(-3, 4), -(9i128 << 47));
    // LUT_S_MAX / 3 is exact too; 1 / 7 of it rounds.
    let s = LUT_S_MAX as i128;
    assert_eq!(ds_for_dc(1, 7), (s + 3) / 7);
    assert_eq!(ds_for_dc(-1, 7), -((s + 3) / 7));
    // Back: half of the span of a capacity of 3 is 1.5, which rounds to 2 (and -2).
    assert_eq!(dc_for_ds(s / 2, 3), 2);
    assert_eq!(dc_for_ds(-s / 2, 3), -2);
    assert_eq!(dc_for_ds(s, 1_000_000), 1_000_000);
    assert_eq!(dc_for_ds(0, 1_000_000), 0);
}

#[test]
fn compositions_match_their_parts() {
    let t = table();
    let mut rng = Rng::new(8);
    for _ in 0..5_000 {
        let x0 = rng.gen_i64(lo_x(&t), hi_x(&t)) as u32;
        let s0 = evaluate_cost(&t, x0);
        let dc = rng.gen_i64(-2_000_000, 2_000_000) as i128;
        let ds = ds_for_dc(dc, 1_000_000);
        assert_eq!(dx_for_dc(&t, x0, s0, dc, 1_000_000), (dx_for_ds(&t, x0, s0, ds), ds));

        let dx = rng.gen_i64(lo_x(&t) - x0 as i64, hi_x(&t) - x0 as i64);
        assert_eq!(dc_for_dx(&t, x0, dx, 1_000_000), dc_for_ds(ds_for_dx(&t, x0, dx), 1_000_000));
    }
}

#[test]
fn moves_stop_at_the_domain_ends() {
    let t = table();
    let top = evaluate_cost(&t, LUT_X_MAX);
    assert_eq!(top, LUT_S_MAX);
    for dc in [1i128, 500_000, 1_000_000, 1 << 60] {
        assert_eq!(dx_for_dc(&t, LUT_X_MAX, top, dc, 1_000_000).0, 0);
    }
    let bottom = evaluate_cost(&t, LUT_X_MIN);
    assert_eq!(bottom, 0);
    for dc in [-1i128, -500_000, -1_000_000, -(1 << 60)] {
        let (dx, _) = dx_for_dc(&t, LUT_X_MIN, bottom, dc, 1_000_000);
        assert_eq!(dx, 0);
    }
    // From the middle, a withdrawal of twice the capacity stops at the bottom.
    let mid = LUT_X_MAX / 2;
    let (dx, _) = dx_for_dc(&t, mid, evaluate_cost(&t, mid), -2_000_000, 1_000_000);
    assert_eq!(mid as i64 + dx, LUT_X_MIN as i64);
}
