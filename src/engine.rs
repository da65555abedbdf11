//! Speed-decayed movement fee over the curve position.

use vstd::prelude::*;
use crate::rounding::{div_round, round_divide};

verus! {

/// Elapsed slots after which the fee stops decaying.
pub const MAX_DELTA_TS: u64 = 8;

/// Scale of the fee numerator: `2 << MAX_DELTA_TS`.
pub const DECAY_MULTIPLIER: u64 = 512;

/// `n * k / d` rounded to nearest, ties away from zero, with a 128-bit product.
pub fn mul_div_round_nearest_u64(n: u64, k: u64, d: u64) -> (r: u64)
    requires
        d > 0,
        div_round(n * k, d as int) <= u64::MAX,
    ensures
        r == div_round(n * k, d as int),
{
    round_divide(n, k, d)
}

/// A move whose fee is charged.
pub struct Movement {
    pub balance: u64,
    pub delta_z: u8,
    pub saturation: u32,
    pub delta_ts: u64,
}

/// `2 << m`.
pub open spec fn decay_divisor(m: nat) -> int
    decreases m,
{
    if m == 0 {
        2
    } else {
        2 * decay_divisor((m - 1) as nat)
    }
}

/// Elapsed slots counted by the decay, at most `MAX_DELTA_TS`.
pub open spec fn decay_steps(delta_ts: u64) -> nat {
    if delta_ts > MAX_DELTA_TS {
        MAX_DELTA_TS as nat
    } else {
        delta_ts as nat
    }
}

/// Fee of a move: `delta_z * saturation * DECAY_MULTIPLIER * balance`
/// over `2 << min(delta_ts, MAX_DELTA_TS)`, rounded.
pub open spec fn movement_fee(mv: Movement) -> int {
    div_round(
        (mv.delta_z * mv.saturation * DECAY_MULTIPLIER) * mv.balance,
        decay_divisor(decay_steps(mv.delta_ts)),
    )
}

pub fn calculate_fee(mv: Movement) -> (r: u64)
    requires
        movement_fee(mv) <= u64::MAX,
    ensures
        r == movement_fee(mv),
{
    assert(mv.delta_z * mv.saturation <= 0xffu64 * 0xffff_ffffu64) by (nonlinear_arith)
        requires
            mv.delta_z <= 0xffu64,
            mv.saturation <= 0xffff_ffffu64,
    ;
    let n = mv.delta_z as u64 * mv.saturation as u64 * DECAY_MULTIPLIER;
    let steps = if mv.delta_ts > MAX_DELTA_TS {
        MAX_DELTA_TS
    } else {
        mv.delta_ts
    };
    let mut d: u64 = 2;
    let mut i: u64 = 0;
    while i < steps
        invariant
            i <= steps <= MAX_DELTA_TS,
            d == decay_divisor(i as nat),
            2 <= d <= 512,
        decreases steps - i,
    {
        assert(decay_divisor((i + 1) as nat) == 2 * decay_divisor(i as nat));
        proof {
            lemma_decay_divisor_mono(i as nat, 7);
            reveal_with_fuel(decay_divisor, 8);
            assert(decay_divisor(7) == 256);
        }
        d = d * 2;
        i = i + 1;
    }
    mul_div_round_nearest_u64(n, mv.balance, d)
}

proof fn lemma_decay_divisor_mono(a: nat, b: nat)
    requires
        a <= b,
    ensures
        decay_divisor(a) <= decay_divisor(b),
    decreases b,
{
    if a < b {
        lemma_decay_divisor_mono(a, (b - 1) as nat);
        lemma_decay_divisor_pos((b - 1) as nat);
    }
}

proof fn lemma_decay_divisor_pos(m: nat)
    ensures
        decay_divisor(m) >= 2,
    decreases m,
{
    if m > 0 {
        lemma_decay_divisor_pos((m - 1) as nat);
    }
}

} // verus!
