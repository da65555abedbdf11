//! Fees for moving charges: binding, unbinding, rebinding, compression, and
//! the speed bonus.

use vstd::prelude::*;
use crate::board::Element;
use crate::consts::{MAX_ATOMIC_NUMBER, MAX_DELTA_TIMESTAMP, MAX_SATURATION, MAX_SPEED_MULTIPLIER, MIN_FEE};
use crate::player::Charge;
use crate::rounding::{div_round, lemma_div_round_le, round_divide};
use crate::types::Gluon;

verus! {

/// The larger of `v` and `MIN_FEE`.
pub open spec fn at_least_min_fee(v: int) -> int {
    if v < MIN_FEE {
        MIN_FEE as int
    } else {
        v
    }
}

/// `balance * distance * saturation / (MAX_ATOMIC_NUMBER * MAX_SATURATION)`,
/// rounded, and at least `MIN_FEE`.
pub open spec fn base_fee(balance: int, distance: int, saturation: int) -> int {
    at_least_min_fee(
        div_round(balance * (distance * saturation), MAX_ATOMIC_NUMBER * MAX_SATURATION),
    )
}

/// Distance between two atomic numbers.
pub open spec fn atomic_distance(a: int, b: int) -> int {
    if a <= b {
        b - a
    } else {
        a - b
    }
}

/// Fee scaled by the committed balance, the depth distance and the curve's
/// saturation.
fn calculate_base_fee(balance: Gluon, distance: u64, saturation: u32) -> (r: Gluon)
    requires
        distance <= MAX_ATOMIC_NUMBER,
        saturation <= MAX_SATURATION,
    ensures
        r == base_fee(balance as int, distance as int, saturation as int),
{
    assert(distance * saturation <= MAX_ATOMIC_NUMBER * MAX_SATURATION) by (nonlinear_arith)
        requires
            distance <= MAX_ATOMIC_NUMBER,
            saturation <= MAX_SATURATION,
    ;
    let numerator = distance * (saturation as u64);
    let denominator = MAX_ATOMIC_NUMBER * (MAX_SATURATION as u64);
    assert(numerator <= denominator) by (nonlinear_arith)
        requires
            numerator == distance * saturation,
            denominator == MAX_ATOMIC_NUMBER * MAX_SATURATION,
            distance <= MAX_ATOMIC_NUMBER,
            saturation <= MAX_SATURATION,
    ;
    assert(balance * numerator <= balance * denominator) by (nonlinear_arith)
        requires
            numerator <= denominator,
    ;
    proof {
        lemma_div_round_le(balance * numerator, balance as int, denominator as int);
    }
    let result = round_divide(balance, numerator, denominator);
    if result < MIN_FEE {
        MIN_FEE
    } else {
        result
    }
}

/// Fee to move a charge from `src` to `dst`: by the distance of their atomic
/// numbers, on the curve of the element with the larger index.
pub fn rebind_fee(charge: &Charge, src: &Element, dst: &Element) -> (r: Gluon)
    requires
        src.wf(),
        dst.wf(),
    ensures
        r == base_fee(
            charge.balance as int,
            atomic_distance(src.index.atomic_spec(), dst.index.atomic_spec()),
            (if src.index.0 > dst.index.0 {
                src.curve.position
            } else {
                dst.curve.position
            }) as int,
        ),
{
    let src_z = src.index.atomic_number();
    let dst_z = dst.index.atomic_number();
    let delta_z = if dst_z >= src_z {
        dst_z - src_z
    } else {
        src_z - dst_z
    };
    let saturation = if src.index.0 > dst.index.0 {
        src.curve.position
    } else {
        dst.curve.position
    };
    calculate_base_fee(charge.balance, delta_z, saturation)
}

/// Fee to bind a charge to `dst`.
pub fn injection_fee(charge: &Charge, dst: &Element) -> (r: Gluon)
    requires
        dst.wf(),
    ensures
        r == base_fee(
            charge.balance as int,
            dst.index.atomic_spec(),
            dst.curve.position as int,
        ),
{
    calculate_base_fee(charge.balance, dst.index.atomic_number(), dst.curve.position)
}

/// Fee to unbind a charge from `src`.
pub fn ejection_fee(charge: &Charge, src: &Element) -> (r: Gluon)
    requires
        src.wf(),
    ensures
        r == base_fee(
            charge.balance as int,
            src.index.atomic_spec(),
            src.curve.position as int,
        ),
{
    calculate_base_fee(charge.balance, src.index.atomic_number(), src.curve.position)
}

/// Fee to compress `src` inward: `pot * saturation * 5 / (MAX_SATURATION * 100)`,
/// rounded, and at least `MIN_FEE`.
pub fn compression_fee(src: &Element) -> (r: Gluon)
    requires
        src.curve.position <= MAX_SATURATION,
    ensures
        r == at_least_min_fee(
            div_round(src.pot * (src.curve.position * 5), MAX_SATURATION * 100),
        ),
{
    let numerator = src.curve.position as u64 * 5;
    let denominator = (MAX_SATURATION as u64) * 100;
    assert(src.pot * numerator <= src.pot * denominator) by (nonlinear_arith)
        requires
            numerator <= denominator,
    ;
    proof {
        lemma_div_round_le(src.pot * numerator, src.pot as int, denominator as int);
    }
    let result = round_divide(src.pot, numerator, denominator);
    if result < MIN_FEE {
        MIN_FEE
    } else {
        result
    }
}

/// Slots since the charge's last action, counted up to `MAX_DELTA_TIMESTAMP`.
pub open spec fn counted_elapsed(timestamp: int, now: int) -> int {
    let elapsed = if now > timestamp {
        now - timestamp
    } else {
        0
    };
    if elapsed > MAX_DELTA_TIMESTAMP {
        MAX_DELTA_TIMESTAMP as int
    } else {
        elapsed
    }
}

/// Multiplier that grows with the time since the charge's last action:
/// `1 + MAX_SPEED_MULTIPLIER * e^2 / MAX_DELTA_TIMESTAMP^2`, rounded, where
/// `e` is the counted elapsed time.
pub fn speed_bonus(charge: &Charge, now: u64) -> (r: u64)
    ensures
        r == 1 + div_round(
            MAX_SPEED_MULTIPLIER * (counted_elapsed(charge.timestamp as int, now as int)
                * counted_elapsed(charge.timestamp as int, now as int)),
            MAX_DELTA_TIMESTAMP * MAX_DELTA_TIMESTAMP,
        ),
        1 <= r <= 1 + MAX_SPEED_MULTIPLIER,
{
    let elapsed = now.saturating_sub(charge.timestamp);
    let counted = if elapsed > MAX_DELTA_TIMESTAMP {
        MAX_DELTA_TIMESTAMP
    } else {
        elapsed
    };
    assert(counted * counted <= MAX_DELTA_TIMESTAMP * MAX_DELTA_TIMESTAMP) by (nonlinear_arith)
        requires
            counted <= MAX_DELTA_TIMESTAMP,
    ;
    let time_factor = counted * counted;
    let max_factor = MAX_DELTA_TIMESTAMP * MAX_DELTA_TIMESTAMP;
    assert(time_factor <= max_factor) by (nonlinear_arith)
        requires
            time_factor == counted * counted,
            max_factor == MAX_DELTA_TIMESTAMP * MAX_DELTA_TIMESTAMP,
            counted <= MAX_DELTA_TIMESTAMP,
    ;
    assert(MAX_SPEED_MULTIPLIER * time_factor <= MAX_SPEED_MULTIPLIER * max_factor) by (nonlinear_arith)
        requires
            time_factor <= max_factor,
    ;
    proof {
        lemma_div_round_le(
            MAX_SPEED_MULTIPLIER * time_factor,
            MAX_SPEED_MULTIPLIER as int,
            max_factor as int,
        );
    }
    1 + round_divide(MAX_SPEED_MULTIPLIER, time_factor, max_factor)
}

} // verus!
