//! Fixed-point arithmetic helpers.
//!
//! The view transform and all geometry coordinates use signed fixed-point
//! numbers: an `i64` (or `i32` for vertex data) holding a real value scaled
//! by [`SCALE`]. Division rounds toward zero, like Rust's integer division,
//! so that a value and its negation always round symmetrically.

use vstd::prelude::*;

verus! {

/// The fixed-point scale: stored values are the real value times `SCALE`.
pub const SCALE: i64 = 65536;

/// Magnitude bound for one factor of [`mul_i128`]: 2^63.
pub const MUL_BOUND: i128 = 0x8000000000000000;

/// Truncating (round toward zero) division of `a` by a positive `b`,
/// matching Rust's `/` on signed integers.
pub open spec fn div_trunc(a: int, b: int) -> int
    recommends
        b > 0,
{
    if a >= 0 {
        a / b
    } else {
        -((-a) / b)
    }
}

/// Rescale a double-width fixed-point product back to single width:
/// truncating division by [`SCALE`].
pub open spec fn fp(a: int) -> int {
    div_trunc(a, SCALE as int)
}

/// Exact product of two bounded `i128` values.
pub fn mul_i128(a: i128, b: i128) -> (r: i128)
    requires
        -MUL_BOUND <= a <= MUL_BOUND,
        -MUL_BOUND <= b <= MUL_BOUND,
    ensures
        r == a * b,
{
    proof {
        assert((-0x40000000000000000000000000000000i128 as int) <= a * b
            <= 0x40000000000000000000000000000000i128 as int) by (nonlinear_arith)
            requires
                -MUL_BOUND <= a <= MUL_BOUND,
                -MUL_BOUND <= b <= MUL_BOUND,
        ;
    }
    a * b
}

/// Truncating division of `a` by a positive `b`, computed through unsigned
/// division on the magnitude so the rounding direction is pinned.
pub fn div_trunc_i128(a: i128, b: i128) -> (q: i128)
    requires
        b > 0,
        a > i128::MIN,
    ensures
        q == div_trunc(a as int, b as int),
        a >= 0 ==> 0 <= q <= a,
        a < 0 ==> a <= q <= 0,
{
    let bu = b as u128;
    if a >= 0 {
        let au = a as u128;
        let qu = au / bu;
        proof {
            vstd::arithmetic::div_mod::lemma_div_nonincreasing(au as int, bu as int);
            vstd::arithmetic::div_mod::lemma_div_pos_is_pos(au as int, bu as int);
        }
        qu as i128
    } else {
        let m = (-a) as u128;
        let qu = m / bu;
        proof {
            vstd::arithmetic::div_mod::lemma_div_nonincreasing(m as int, bu as int);
            vstd::arithmetic::div_mod::lemma_div_pos_is_pos(m as int, bu as int);
        }
        -(qu as i128)
    }
}

/// A product is bounded by the product of the factors' bounds.
pub proof fn lemma_mul_bound(a: int, b: int, ma: int, mb: int) by (nonlinear_arith)
    requires
        -ma <= a <= ma,
        -mb <= b <= mb,
        0 <= ma,
        0 <= mb,
    ensures
        -(ma * mb) <= a * b <= ma * mb,
{
}

/// Negating one factor negates the product.
pub proof fn lemma_mul_neg(a: int, b: int) by (nonlinear_arith)
    ensures
        a * (-b) == -(a * b),
{
}

/// Truncating division by a positive `b` maps `[-m, m]` into `[-(m/b), m/b]`.
pub proof fn lemma_div_trunc_bound(a: int, b: int, m: int)
    requires
        b > 0,
        0 <= m,
        -m <= a <= m,
    ensures
        -(m / b) <= div_trunc(a, b) <= m / b,
{
    if a >= 0 {
        vstd::arithmetic::div_mod::lemma_div_is_ordered(a, m, b);
        vstd::arithmetic::div_mod::lemma_div_pos_is_pos(a, b);
    } else {
        vstd::arithmetic::div_mod::lemma_div_is_ordered(-a, m, b);
        vstd::arithmetic::div_mod::lemma_div_pos_is_pos(-a, b);
    }
}

/// Exact cancellation: `(x * d) / d == x` for positive `d`.
pub proof fn lemma_div_trunc_cancel(x: int, d: int)
    requires
        d > 0,
    ensures
        div_trunc(x * d, d) == x,
{
    if x >= 0 {
        vstd::arithmetic::div_mod::lemma_div_multiples_vanish(x, d);
        assert(x * d >= 0 && x * d == d * x) by (nonlinear_arith)
            requires
                x >= 0,
                d > 0,
        ;
    } else {
        vstd::arithmetic::div_mod::lemma_div_multiples_vanish(-x, d);
        assert(x * d < 0 && -(x * d) == d * (-x)) by (nonlinear_arith)
            requires
                x < 0,
                d > 0,
        ;
    }
}

/// Dividing zero by anything positive gives zero.
pub proof fn lemma_div_trunc_zero(b: int)
    requires
        b > 0,
    ensures
        div_trunc(0, b) == 0,
{
    assert(0int / b == 0) by (nonlinear_arith)
        requires
            b > 0,
    ;
}

} // verus!
