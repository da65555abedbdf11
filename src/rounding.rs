//! Division with rounding to nearest, ties away from zero.

use vstd::prelude::*;
use vstd::arithmetic::div_mod::{
    lemma_fundamental_div_mod_converse, lemma_remainder_lower, lemma_remainder_upper,
};

verus! {

/// `n / d` rounded to nearest, ties upward, for `n >= 0` and `d > 0`.
pub open spec fn div_round(n: int, d: int) -> int {
    (n + d / 2) / d
}

/// `n / d` rounded to nearest, ties away from zero, for any `n` and `d > 0`.
pub open spec fn round_signed(n: int, d: int) -> int {
    if n >= 0 {
        div_round(n, d)
    } else {
        -div_round(-n, d)
    }
}

/// The quotient of a floor division brackets the dividend.
pub proof fn lemma_div_bounds(n: int, d: int)
    requires
        0 <= n,
        0 < d,
    ensures
        (n / d) * d <= n < (n / d) * d + d,
        0 <= n / d,
{
    lemma_remainder_lower(n, d);
    lemma_remainder_upper(n, d);
    assert(0 <= n / d) by (nonlinear_arith)
        requires
            (n / d) * d <= n,
            n < (n / d) * d + d,
            0 < d,
            0 <= n,
    ;
}

/// A quotient is determined by the interval the dividend falls in.
pub proof fn lemma_div_unique(n: int, d: int, q: int)
    requires
        0 < d,
        q * d <= n < q * d + d,
    ensures
        n / d == q,
{
    lemma_fundamental_div_mod_converse(n, d, q, n - q * d);
}

/// Rounded division of an exact multiple is exact.
pub proof fn lemma_div_round_exact(a: int, d: int)
    requires
        0 < d,
    ensures
        div_round(a * d, d) == a,
{
    assert(a * d <= a * d + d / 2 < a * d + d);
    lemma_div_unique(a * d + d / 2, d, a);
}

/// Rounded division is monotone in the dividend and bounded by an exact multiple.
pub proof fn lemma_div_round_le(n: int, a: int, d: int)
    requires
        0 <= n <= a * d,
        0 < d,
    ensures
        0 <= div_round(n, d) <= a,
{
    let q = div_round(n, d);
    lemma_div_bounds(n + d / 2, d);
    assert(q * d <= n + d / 2);
    assert(q * d < a * d + d);
    assert(q <= a) by (nonlinear_arith)
        requires
            q * d < a * d + d,
            0 < d,
    ;
}

/// `(num + den / 2) / den` on 128-bit operands.
pub fn div_round_u128(num: u128, den: u128) -> (r: u128)
    requires
        den > 0,
        num + den / 2 <= u128::MAX,
    ensures
        r == div_round(num as int, den as int),
{
    (num + den / 2) / den
}

/// `mul1 * mul2 / div` rounded to nearest, ties away from zero, with a
/// 128-bit product.
pub fn round_divide(mul1: u64, mul2: u64, div: u64) -> (r: u64)
    requires
        div > 0,
        div_round(mul1 * mul2, div as int) <= u64::MAX,
    ensures
        r == div_round(mul1 * mul2, div as int),
{
    assert(mul1 * mul2 <= 0xffff_ffff_ffff_ffffu128 * 0xffff_ffff_ffff_ffffu128) by (nonlinear_arith)
        requires
            mul1 <= 0xffff_ffff_ffff_ffffu64,
            mul2 <= 0xffff_ffff_ffff_ffffu64,
    ;
    let product = mul1 as u128 * mul2 as u128;
    div_round_u128(product, div as u128) as u64
}

} // verus!
