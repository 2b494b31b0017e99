//! Saturating fixed-point arithmetic with `FP_ONE` as the unit.
//!
//! Every executable operation is proved equal to a spec-level model over
//! unbounded integers (`sat_add`, `sat_mul`, ...), so the physics step built
//! on top of these operations has an exact mathematical description.
//! Out-of-range results clamp to the `i64` range instead of panicking, the
//! fixed-point analogue of a floating-point computation running off to
//! infinity: the simulation keeps producing states, however degenerate.

use vstd::prelude::*;

verus! {

/// The fixed-point unit: values are interpreted as multiples of 1/FP_ONE.
pub const FP_ONE: i64 = 65536;

/// Fixed-point approximation of pi/2 (rounded so that PI_FP = 2 * HALF_PI_FP).
pub const HALF_PI_FP: i64 = 102944;

/// Fixed-point approximation of pi.
pub const PI_FP: i64 = 205888;

/// Fixed-point approximation of 2*pi; the period of the trigonometric tables.
pub const TWO_PI_FP: i64 = 411776;

/// Clamp an unbounded integer into the i64 range.
pub open spec fn sat64(x: int) -> int {
    if x > i64::MAX as int {
        i64::MAX as int
    } else if x < i64::MIN as int {
        i64::MIN as int
    } else {
        x
    }
}

/// Truncated (round-toward-zero) division, as Rust's `/` computes it
/// for a positive divisor.
pub open spec fn tdiv(a: int, b: int) -> int {
    if a >= 0 {
        a / b
    } else {
        -((-a) / b)
    }
}

/// Saturating addition.
pub open spec fn sat_add(a: int, b: int) -> int {
    sat64(a + b)
}

/// Saturating subtraction.
pub open spec fn sat_sub(a: int, b: int) -> int {
    sat64(a - b)
}

/// Saturating negation.
pub open spec fn sat_neg(a: int) -> int {
    sat64(-a)
}

/// Saturating fixed-point multiplication: (a * b) / FP_ONE, truncated.
pub open spec fn sat_mul(a: int, b: int) -> int {
    sat64(tdiv(a * b, FP_ONE as int))
}

/// Saturating fixed-point division: (a * FP_ONE) / b, truncated.
/// Division by zero saturates to the signed extreme, the fixed-point
/// analogue of the infinity a float division by zero would produce.
pub open spec fn sat_div(a: int, b: int) -> int {
    if b == 0 {
        if a >= 0 {
            i64::MAX as int
        } else {
            i64::MIN as int
        }
    } else if b > 0 {
        sat64(tdiv(a * FP_ONE, b))
    } else {
        sat64(tdiv(-(a * FP_ONE), -b))
    }
}

/// The product of two i64-range values fits in an i128.
proof fn lemma_i64_product_fits(a: int, b: int)
    requires
        i64::MIN <= a <= i64::MAX,
        i64::MIN <= b <= i64::MAX,
    ensures
        i128::MIN <= a * b <= i128::MAX,
{
    assert(i128::MIN <= a * b <= i128::MAX) by (nonlinear_arith)
        requires
            i64::MIN <= a <= i64::MAX,
            i64::MIN <= b <= i64::MAX,
    ;
}

/// Clamp a wide intermediate back into i64.
pub fn sat_i64(x: i128) -> (r: i64)
    ensures
        r as int == sat64(x as int),
{
    if x > i64::MAX as i128 {
        i64::MAX
    } else if x < i64::MIN as i128 {
        i64::MIN
    } else {
        x as i64
    }
}

/// Saturating addition on i64.
pub fn add_fp(a: i64, b: i64) -> (r: i64)
    ensures
        r as int == sat_add(a as int, b as int),
{
    sat_i64(a as i128 + b as i128)
}

/// Saturating subtraction on i64.
pub fn sub_fp(a: i64, b: i64) -> (r: i64)
    ensures
        r as int == sat_sub(a as int, b as int),
{
    sat_i64(a as i128 - b as i128)
}

/// Saturating negation on i64.
pub fn neg_fp(a: i64) -> (r: i64)
    ensures
        r as int == sat_neg(a as int),
{
    sat_i64(-(a as i128))
}

/// Saturating fixed-point multiplication on i64.
pub fn mul_fp(a: i64, b: i64) -> (r: i64)
    ensures
        r as int == sat_mul(a as int, b as int),
{
    proof {
        lemma_i64_product_fits(a as int, b as int);
    }
    let p: i128 = (a as i128) * (b as i128);
    let q: i128 = p / (FP_ONE as i128);
    sat_i64(q)
}

/// Saturating fixed-point division on i64.
pub fn div_fp(a: i64, b: i64) -> (r: i64)
    ensures
        r as int == sat_div(a as int, b as int),
{
    if b == 0 {
        if a >= 0 {
            i64::MAX
        } else {
            i64::MIN
        }
    } else if b > 0 {
        proof {
            lemma_i64_product_fits(a as int, FP_ONE as int);
        }
        let p: i128 = (a as i128) * (FP_ONE as i128);
        sat_i64(p / (b as i128))
    } else {
        proof {
            lemma_i64_product_fits(a as int, FP_ONE as int);
        }
        let p: i128 = -((a as i128) * (FP_ONE as i128));
        sat_i64(p / (-(b as i128)))
    }
}

/// An angle folded into one period: the Euclidean remainder modulo 2*pi.
pub open spec fn angle_norm(x: int) -> int {
    x % (TWO_PI_FP as int)
}

/// Rational approximation of the sine on [0, PI_FP] (Bhaskara's formula):
/// sin(x) ~ 16 x (pi - x) / (5 pi^2 - 4 x (pi - x)), scaled by FP_ONE.
/// Opaque so that callers of the integrator do not drag its nonlinear
/// terms into every proof; `reveal` it where the formula itself matters.
#[verifier::opaque]
pub open spec fn sin_half(x: int) -> int {
    let t = x * (PI_FP - x);
    tdiv(16 * t * (FP_ONE as int), 5 * (PI_FP as int) * (PI_FP as int) - 4 * t)
}

/// Fixed-point sine of an arbitrary angle, in [-FP_ONE, FP_ONE].
pub open spec fn sin_val(x: int) -> int {
    let a = angle_norm(x);
    if a <= PI_FP {
        sin_half(a)
    } else {
        -sin_half(a - PI_FP)
    }
}

/// Fixed-point cosine: the sine shifted a quarter turn.
pub open spec fn cos_val(x: int) -> int {
    sin_val(x + HALF_PI_FP)
}

/// Fold an angle into [0, TWO_PI_FP).
pub fn reduce_angle(x: i64) -> (r: i64)
    ensures
        r as int == angle_norm(x as int),
        0 <= r < TWO_PI_FP,
{
    let m: i64 = x % TWO_PI_FP;
    proof {
        let t = TWO_PI_FP as int;
        vstd::arithmetic::div_mod::lemma_mod_bound(x as int, t);
        if x < 0 {
            let e = (-(x as int)) % t;
            let q = (-(x as int)) / t;
            vstd::arithmetic::div_mod::lemma_mod_bound(-(x as int), t);
            vstd::arithmetic::div_mod::lemma_fundamental_div_mod(-(x as int), t);
            if e == 0 {
                vstd::arithmetic::div_mod::lemma_fundamental_div_mod_converse(
                    x as int, t, -q, 0);
            } else {
                assert(x as int == (-q - 1) * t + (t - e)) by (nonlinear_arith)
                    requires
                        -(x as int) == q * t + e,
                ;
                vstd::arithmetic::div_mod::lemma_fundamental_div_mod_converse(
                    x as int, t, -q - 1, t - e);
            }
        }
    }
    if m < 0 {
        m + TWO_PI_FP
    } else {
        m
    }
}

/// Sine on the folded half period, proved to stay within [0, FP_ONE].
fn sin_half_fp(x: i64) -> (r: i64)
    requires
        0 <= x <= PI_FP,
    ensures
        r as int == sin_half(x as int),
        0 <= r <= FP_ONE,
{
    proof {
        assert(0 <= (x as int) * (PI_FP - x as int)
            && 4 * ((x as int) * (PI_FP - x as int)) <= (PI_FP as int) * (PI_FP as int))
            by (nonlinear_arith)
            requires
                0 <= x as int <= PI_FP as int,
        ;
    }
    let t: i128 = (x as i128) * ((PI_FP - x) as i128);
    let num: i128 = 16 * t * (FP_ONE as i128);
    let den: i128 = 5 * (PI_FP as i128) * (PI_FP as i128) - 4 * t;
    let q: i128 = num / den;
    proof {
        reveal(sin_half);
        vstd::arithmetic::div_mod::lemma_div_pos_is_pos(num as int, den as int);
        assert(num as int <= (FP_ONE as int) * (den as int)) by (nonlinear_arith)
            requires
                num as int == 16 * (t as int) * (FP_ONE as int),
                den as int == 5 * (PI_FP as int) * (PI_FP as int) - 4 * (t as int),
                4 * (t as int) <= (PI_FP as int) * (PI_FP as int),
                t as int >= 0,
        ;
        vstd::arithmetic::div_mod::lemma_div_is_ordered(
            num as int, (FP_ONE as int) * (den as int), den as int);
        vstd::arithmetic::div_mod::lemma_div_multiples_vanish(
            FP_ONE as int, den as int);
        assert((den as int) * (FP_ONE as int) == (FP_ONE as int) * (den as int));
    }
    q as i64
}

/// Fixed-point sine of an arbitrary angle.
pub fn sin_fp(x: i64) -> (r: i64)
    ensures
        r as int == sin_val(x as int),
        -FP_ONE <= r <= FP_ONE,
{
    let a = reduce_angle(x);
    if a <= PI_FP {
        sin_half_fp(a)
    } else {
        let s = sin_half_fp(a - PI_FP);
        -s
    }
}

/// Folding an angle before shifting it by less than a full period leaves
/// the folded result unchanged.
proof fn lemma_norm_shift(x: int, h: int)
    requires
        0 <= h < TWO_PI_FP,
    ensures
        angle_norm(angle_norm(x) + h) == angle_norm(x + h),
{
    let t = TWO_PI_FP as int;
    vstd::arithmetic::div_mod::lemma_add_mod_noop(x, h, t);
    vstd::arithmetic::div_mod::lemma_small_mod(h as nat, t as nat);
}

/// Fixed-point cosine of an arbitrary angle.
pub fn cos_fp(x: i64) -> (r: i64)
    ensures
        r as int == cos_val(x as int),
        -FP_ONE <= r <= FP_ONE,
{
    let a = reduce_angle(x);
    let r = sin_fp(a + HALF_PI_FP);
    proof {
        lemma_norm_shift(x as int, HALF_PI_FP as int);
        assert(angle_norm(a as int + HALF_PI_FP as int)
            == angle_norm(x as int + HALF_PI_FP as int));
    }
    r
}

/// Law: the sine and cosine are periodic with period 2*pi, so an angle that
/// accumulates without wrapping drives the same motion as its folded value.
pub proof fn lemma_trig_periodic(x: int)
    ensures
        sin_val(x + TWO_PI_FP as int) == sin_val(x),
        cos_val(x + TWO_PI_FP as int) == cos_val(x),
{
    let t = TWO_PI_FP as int;
    vstd::arithmetic::div_mod::lemma_mod_add_multiples_vanish(x, t);
    vstd::arithmetic::div_mod::lemma_mod_add_multiples_vanish(x + HALF_PI_FP as int, t);
}

} // verus!
