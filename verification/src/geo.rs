//! Great-circle distance by the haversine formula, in fixed point.
//!
//! Coordinates arrive in millionths of a degree. Angles are carried in
//! billionths of a radian, ratios in billionths of a unit. The formula
//! `a = sin²(Δφ/2) + cos φ₁ · cos φ₂ · sin²(Δλ/2)`,
//! `c = 2 · atan2(√a, √(1 − a))`, `d = 6371 km · c` is evaluated with a
//! truncated sine series on the first quadrant, an integer square root,
//! and an arctangent series after two halvings of its argument. Every
//! step is an exact integer recurrence, stated by a spec function that
//! the executable code provably matches; the distance of a coordinate
//! pair from itself is proved to be zero and the distance is proved
//! symmetric in its two arguments.

use vstd::prelude::*;
use vstd::arithmetic::div_mod::{
    lemma_div_is_ordered, lemma_div_pos_is_pos, lemma_div_multiples_vanish,
};
use vstd::arithmetic::mul::{lemma_mul_upper_bound, lemma_mul_nonnegative};
use crate::units::{rdiv, rdiv_u64};
use crate::weather::Coord;

verus! {

/// One unit, in billionths.
pub const FP_ONE: u64 = 1_000_000_000;

/// Pi in billionths of a radian, rounded to nearest.
pub const PI_FP: u64 = 3_141_592_654;

/// Pi over two in billionths of a radian, rounded to nearest.
pub const HALF_PI_FP: u64 = 1_570_796_327;

/// Billionths of a radian per millionth of a degree, scaled by 10^15:
/// pi / 180 * 10^9 * 10^15.
pub const RAD_PER_MICRODEG_E15: u128 = 17_453_292_519_943_295;

/// Bounds a product and its quotient by the product of the bounds.
proof fn lemma_muldiv_bound(a: int, b: int, amax: int, bmax: int, d: int)
    requires
        0 <= a <= amax,
        0 <= b <= bmax,
        0 < d,
    ensures
        0 <= a * b <= amax * bmax,
        0 <= (a * b) / d <= (amax * bmax) / d,
{
    lemma_mul_upper_bound(a, amax, b, bmax);
    lemma_mul_nonnegative(a, b);
    lemma_div_pos_is_pos(a * b, d);
    lemma_div_is_ordered(a * b, amax * bmax, d);
}

/// `r` is the integer square root of `n`, rounded down.
pub open spec fn is_sqrt(n: int, r: int) -> bool {
    0 <= r && r * r <= n && n < (r + 1) * (r + 1)
}

/// The integer square root of a nonnegative `n`, rounded down.
pub open spec fn sqrt_floor(n: int) -> int {
    choose|r: int| #[trigger] is_sqrt(n, r)
}

/// The integer square root is unique, so any witness equals
/// `sqrt_floor`.
pub proof fn lemma_sqrt_is(n: int, r: int)
    requires
        0 <= n,
        is_sqrt(n, r),
    ensures
        sqrt_floor(n) == r,
{
    let r2 = sqrt_floor(n);
    assert(is_sqrt(n, r2));
    assert(r == r2) by (nonlinear_arith)
        requires
            is_sqrt(n, r),
            is_sqrt(n, r2),
    ;
}

/// The integer square root, by binary search.
fn isqrt(n: u64) -> (r: u64)
    requires
        n <= 2_250_000_000_000_000_000u64,
    ensures
        r as int == sqrt_floor(n as int),
        is_sqrt(n as int, r as int),
        r <= 1_500_000_000,
{
    if n == 0 {
        proof {
            assert(is_sqrt(0, 0));
            lemma_sqrt_is(0, 0);
        }
        return 0;
    }
    let mut lo: u64 = 0;
    let mut hi: u64 = 1_500_000_001;
    proof {
        assert((1_500_000_001 as int) * (1_500_000_001 as int) > n as int);
    }
    while lo + 1 < hi
        invariant
            lo < hi <= 1_500_000_001,
            (lo as int) * (lo as int) <= n as int,
            (hi as int) * (hi as int) > n as int,
            n <= 2_250_000_000_000_000_000u64,
        decreases hi - lo,
    {
        let mid = lo + (hi - lo) / 2;
        proof {
            lemma_mul_upper_bound(mid as int, 1_500_000_000, mid as int, 1_500_000_000);
        }
        if mid * mid <= n {
            lo = mid;
        } else {
            hi = mid;
        }
    }
    proof {
        assert(hi == lo + 1);
        assert(is_sqrt(n as int, lo as int));
        lemma_sqrt_is(n as int, lo as int);
    }
    lo
}

/// Division rounded to nearest on wide words; mirrors `rdiv` exactly.
fn rdiv_u128(n: u128, d: u128) -> (r: u128)
    requires
        0 < d < 0x4000_0000_0000_0000_0000_0000_0000_0000u128,
        n < 0x4000_0000_0000_0000_0000_0000_0000_0000u128,
    ensures
        r as int == rdiv(n as int, d as int),
        r <= n,
{
    let r = (2 * n + d) / (2 * d);
    proof {
        crate::units::lemma_rdiv_rounds(n as int, d as int);
        assert(r <= n) by {
            let q = rdiv(n as int, d as int);
            if q > n {
                assert((d as int) * q >= (d as int) * (n as int + 1)) by (nonlinear_arith)
                    requires
                        d >= 1,
                        q >= n as int + 1,
                ;
                assert((d as int) * (n as int + 1) >= n as int + d as int) by (nonlinear_arith)
                    requires
                        d >= 1,
                        n >= 0,
                ;
            }
        }
    }
    r
}

/// `rdiv` is monotone in a nonnegative dividend.
pub proof fn lemma_rdiv_monotone(n1: int, n2: int, d: int)
    requires
        0 <= n1 <= n2,
        0 < d,
    ensures
        rdiv(n1, d) <= rdiv(n2, d),
{
    lemma_div_is_ordered(2 * n1 + d, 2 * n2 + d, 2 * d);
}

/// Half of a coordinate difference, taken from millionths of a degree
/// to billionths of a radian, rounded to nearest.
pub open spec fn spec_half_rad(d: int) -> int {
    rdiv(d * 17_453_292_519_943_295, 2_000_000_000_000_000)
}

/// A coordinate taken from millionths of a degree to billionths of a
/// radian, rounded to nearest.
pub open spec fn spec_rad(d: int) -> int {
    rdiv(d * 17_453_292_519_943_295, 1_000_000_000_000_000)
}

/// Converts half of an absolute coordinate difference to billionths of
/// a radian.
fn half_rad(d: u64) -> (r: u64)
    requires
        d <= 360_000_000,
    ensures
        r as int == spec_half_rad(d as int),
        r <= 3_141_592_654,
        d <= 180_000_000 ==> r <= 1_570_796_327,
{
    let n: u128 = (d as u128) * RAD_PER_MICRODEG_E15;
    let q = rdiv_u128(n, 2_000_000_000_000_000);
    proof {
        lemma_muldiv_bound(d as int, 17_453_292_519_943_295, 360_000_000, 17_453_292_519_943_295, 1);
        lemma_rdiv_monotone(n as int, (360_000_000 * 17_453_292_519_943_295) as int, 2_000_000_000_000_000);
        if d <= 180_000_000 {
            lemma_muldiv_bound(d as int, 17_453_292_519_943_295, 180_000_000, 17_453_292_519_943_295, 1);
            lemma_rdiv_monotone(n as int, (180_000_000 * 17_453_292_519_943_295) as int, 2_000_000_000_000_000);
        }
    }
    q as u64
}

/// Converts an absolute latitude to billionths of a radian.
fn full_rad(d: u64) -> (r: u64)
    requires
        d <= 90_000_000,
    ensures
        r as int == spec_rad(d as int),
        r <= 1_570_796_327,
{
    let n: u128 = (d as u128) * RAD_PER_MICRODEG_E15;
    let q = rdiv_u128(n, 1_000_000_000_000_000);
    proof {
        lemma_muldiv_bound(d as int, 17_453_292_519_943_295, 90_000_000, 17_453_292_519_943_295, 1);
        lemma_rdiv_monotone(n as int, (90_000_000 * 17_453_292_519_943_295) as int, 1_000_000_000_000_000);
    }
    q as u64
}


/// A scaled quotient keeps its bound: `(k x)/b <= x/a` when `k a <= b`.
proof fn lemma_div_scaled_le(x: int, k: int, a: int, b: int)
    requires
        0 <= x,
        1 <= k,
        1 <= a,
        k * a <= b,
    ensures
        (k * x) / b <= x / a,
{
    assert(b >= 1) by (nonlinear_arith)
        requires
            k >= 1,
            a >= 1,
            k * a <= b,
    ;
    vstd::arithmetic::div_mod::lemma_fundamental_div_mod(x, a);
    vstd::arithmetic::div_mod::lemma_mod_bound(x, a);
    vstd::arithmetic::div_mod::lemma_fundamental_div_mod(k * x, b);
    vstd::arithmetic::div_mod::lemma_mod_bound(k * x, b);
    let q1 = x / a;
    let q2 = (k * x) / b;
    lemma_div_pos_is_pos(x, a);
    assert(k * x <= k * a * q1 + k * (a - 1)) by (nonlinear_arith)
        requires
            x == a * q1 + x % a,
            0 <= x % a <= a - 1,
            k >= 1,
    ;
    assert(k * a * q1 <= b * q1) by (nonlinear_arith)
        requires
            k * a <= b,
            q1 >= 0,
    ;
    assert(k * (a - 1) < b) by (nonlinear_arith)
        requires
            k * a <= b,
            k >= 1,
            a >= 1,
    ;
    assert(q2 <= q1) by (nonlinear_arith)
        requires
            k * x == b * q2 + (k * x) % b,
            0 <= (k * x) % b,
            k * x <= b * q1 + k * (a - 1),
            k * (a - 1) < b,
            b >= 1,
    ;
}

/// One power step of the sine recurrence grows by less than a factor
/// of three while the squared argument stays below 2.56.
proof fn lemma_sin_step_le(p: int, s: int)
    requires
        0 <= p,
        0 <= s <= 2_560_000_000,
    ensures
        0 <= (p * s) / 1_000_000_000 <= 3 * p,
{
    assert(p * s <= p * 2_560_000_000) by (nonlinear_arith)
        requires
            0 <= p,
            s <= 2_560_000_000,
    ;
    assert(p * 2_560_000_000 <= 1_000_000_000 * (3 * p)) by (nonlinear_arith)
        requires
            0 <= p,
    ;
    lemma_div_is_ordered(p * s, 1_000_000_000 * (3 * p), 1_000_000_000);
    lemma_div_multiples_vanish(3 * p, 1_000_000_000);
    lemma_mul_nonnegative(p, s);
    lemma_div_pos_is_pos(p * s, 1_000_000_000);
}

/// One power step of the arctangent recurrence shrinks while the
/// squared argument stays below one.
proof fn lemma_atan_step_le(p: int, s: int)
    requires
        0 <= p,
        0 <= s <= 1_000_000_000,
    ensures
        0 <= (p * s) / 1_000_000_000 <= p,
{
    assert(p * s <= 1_000_000_000 * p) by (nonlinear_arith)
        requires
            0 <= p,
            s <= 1_000_000_000,
    ;
    lemma_div_is_ordered(p * s, 1_000_000_000 * p, 1_000_000_000);
    lemma_div_multiples_vanish(p, 1_000_000_000);
    lemma_mul_nonnegative(p, s);
    lemma_div_pos_is_pos(p * s, 1_000_000_000);
}

/// The truncated sine series on the first quadrant, in billionths:
/// `sin x = x - x^3/3! + x^5/5! - x^7/7! + x^9/9! - x^11/11!`, each
/// power an exact fixed-point recurrence. Pairing consecutive terms
/// shows the sum is never negative.
pub open spec fn spec_sin_nn(x: int) -> int {
    let s = (x * x) / 1_000_000_000;
    let p3 = (x * s) / 1_000_000_000;
    let p5 = (p3 * s) / 1_000_000_000;
    let p7 = (p5 * s) / 1_000_000_000;
    let p9 = (p7 * s) / 1_000_000_000;
    let p11 = (p9 * s) / 1_000_000_000;
    (x + p5 / 120 + p9 / 362880) - (p3 / 6 + p7 / 5040 + p11 / 39916800)
}

/// The truncated sine series on the first quadrant.
fn sin_quarter(x: u64) -> (r: u64)
    requires
        x <= 1_600_000_000,
    ensures
        r as int == spec_sin_nn(x as int),
        r <= 1_700_000_000,
{
    let xl = x as u128;
    proof {
        lemma_muldiv_bound(xl as int, xl as int, 1_600_000_000, 1_600_000_000, 1_000_000_000);
    }
    let s = (xl * xl) / 1_000_000_000;
    proof {
        lemma_muldiv_bound(xl as int, s as int, 1_600_000_000, 2_560_000_000, 1_000_000_000);
    }
    let p3 = (xl * s) / 1_000_000_000;
    proof {
        lemma_muldiv_bound(p3 as int, s as int, 4_096_000_000, 2_560_000_000, 1_000_000_000);
    }
    let p5 = (p3 * s) / 1_000_000_000;
    proof {
        lemma_muldiv_bound(p5 as int, s as int, 10_485_760_000, 2_560_000_000, 1_000_000_000);
    }
    let p7 = (p5 * s) / 1_000_000_000;
    proof {
        lemma_muldiv_bound(p7 as int, s as int, 26_843_545_600, 2_560_000_000, 1_000_000_000);
    }
    let p9 = (p7 * s) / 1_000_000_000;
    proof {
        lemma_muldiv_bound(p9 as int, s as int, 68_719_476_736, 2_560_000_000, 1_000_000_000);
        lemma_div_is_ordered(p5 as int, 10_485_760_000, 120);
        lemma_div_pos_is_pos(p5 as int, 120);
        lemma_div_is_ordered(p9 as int, 68_719_476_736, 362880);
        lemma_div_pos_is_pos(p9 as int, 362880);
    }
    let p11 = (p9 * s) / 1_000_000_000;
    let pos = xl + p5 / 120 + p9 / 362880;
    let neg = p3 / 6 + p7 / 5040 + p11 / 39916800;
    proof {
        lemma_sin_step_le(xl as int, s as int);
        lemma_sin_step_le(p3 as int, s as int);
        lemma_sin_step_le(p5 as int, s as int);
        lemma_sin_step_le(p7 as int, s as int);
        lemma_sin_step_le(p9 as int, s as int);
        lemma_div_is_ordered(p3 as int, 3 * (xl as int), 6);
        lemma_div_scaled_le(xl as int, 3, 2, 6);
        assert((3 * (xl as int)) / 6 <= (xl as int) / 2);
        assert((xl as int) / 2 <= xl as int) by {
            lemma_div_is_ordered(xl as int, 2 * (xl as int), 2);
            lemma_div_multiples_vanish(xl as int, 2);
        }
        lemma_div_is_ordered(p7 as int, 3 * (p5 as int), 5040);
        lemma_div_scaled_le(p5 as int, 3, 1680, 5040);
        vstd::arithmetic::div_mod::lemma_div_is_ordered_by_denominator(p5 as int, 120, 1680);
        lemma_div_is_ordered(p11 as int, 3 * (p9 as int), 39916800);
        lemma_div_scaled_le(p9 as int, 3, 13305600, 39916800);
        vstd::arithmetic::div_mod::lemma_div_is_ordered_by_denominator(p9 as int, 362880, 13305600);
        assert(neg <= pos);
        assert(pos <= 1_600_000_000 + 87_381_333 + 189_399);
    }
    (pos - neg) as u64
}

/// The truncated arctangent series for a small ratio, in billionths:
/// `atan t = t - t^3/3 + t^5/5 - t^7/7 + t^9/9 - t^11/11 + t^13/13`,
/// each power an exact fixed-point recurrence. The powers shrink, so
/// pairing consecutive terms shows the sum is never negative.
pub open spec fn spec_atan_t(t: int) -> int {
    let s = (t * t) / 1_000_000_000;
    let p3 = (t * s) / 1_000_000_000;
    let p5 = (p3 * s) / 1_000_000_000;
    let p7 = (p5 * s) / 1_000_000_000;
    let p9 = (p7 * s) / 1_000_000_000;
    let p11 = (p9 * s) / 1_000_000_000;
    let p13 = (p11 * s) / 1_000_000_000;
    (t + p5 / 5 + p9 / 9 + p13 / 13) - (p3 / 3 + p7 / 7 + p11 / 11)
}

/// The truncated arctangent series for a small ratio.
fn atan_small(t: u64) -> (r: u64)
    requires
        t <= 250_000_000,
    ensures
        r as int == spec_atan_t(t as int),
        r <= 252_000_000,
{
    proof {
        lemma_muldiv_bound(t as int, t as int, 250_000_000, 250_000_000, 1_000_000_000);
    }
    let s = (t * t) / 1_000_000_000;
    proof {
        lemma_muldiv_bound(t as int, s as int, 250_000_000, 62_500_000, 1_000_000_000);
    }
    let p3 = (t * s) / 1_000_000_000;
    proof {
        lemma_muldiv_bound(p3 as int, s as int, 15_625_000, 62_500_000, 1_000_000_000);
    }
    let p5 = (p3 * s) / 1_000_000_000;
    proof {
        lemma_muldiv_bound(p5 as int, s as int, 976_562, 62_500_000, 1_000_000_000);
    }
    let p7 = (p5 * s) / 1_000_000_000;
    proof {
        lemma_muldiv_bound(p7 as int, s as int, 61_035, 62_500_000, 1_000_000_000);
    }
    let p9 = (p7 * s) / 1_000_000_000;
    proof {
        lemma_muldiv_bound(p9 as int, s as int, 3_814, 62_500_000, 1_000_000_000);
    }
    let p11 = (p9 * s) / 1_000_000_000;
    proof {
        lemma_muldiv_bound(p11 as int, s as int, 238, 62_500_000, 1_000_000_000);
        lemma_div_is_ordered(p5 as int, 976_562, 5);
        lemma_div_pos_is_pos(p5 as int, 5);
        lemma_div_is_ordered(p9 as int, 3_814, 9);
        lemma_div_pos_is_pos(p9 as int, 9);
    }
    let p13 = (p11 * s) / 1_000_000_000;
    proof {
        lemma_div_is_ordered(p13 as int, 14, 13);
        lemma_div_pos_is_pos(p13 as int, 13);
    }
    let pos = t + p5 / 5 + p9 / 9 + p13 / 13;
    let neg = p3 / 3 + p7 / 7 + p11 / 11;
    proof {
        lemma_atan_step_le(t as int, s as int);
        lemma_atan_step_le(p3 as int, s as int);
        lemma_atan_step_le(p5 as int, s as int);
        lemma_atan_step_le(p7 as int, s as int);
        lemma_atan_step_le(p9 as int, s as int);
        lemma_atan_step_le(p11 as int, s as int);
        lemma_div_is_ordered(p3 as int, t as int, 3);
        vstd::arithmetic::div_mod::lemma_div_nonincreasing(t as int, 3);
        lemma_div_is_ordered(p7 as int, p5 as int, 7);
        vstd::arithmetic::div_mod::lemma_div_is_ordered_by_denominator(p5 as int, 5, 7);
        lemma_div_is_ordered(p11 as int, p9 as int, 11);
        vstd::arithmetic::div_mod::lemma_div_is_ordered_by_denominator(p9 as int, 9, 11);
        assert(neg <= pos);
    }
    (pos - neg) as u64
}

/// The arctangent of a ratio `t` in [0, 1] (in billionths): the
/// argument is halved twice through
/// `atan t = 2 atan(t / (1 + sqrt(1 + t^2)))`, then the series is
/// applied and the result quadrupled.
pub open spec fn spec_atan_reduced(t: int) -> int {
    let u1 = sqrt_floor(1_000_000_000_000_000_000 + t * t);
    let t1 = (t * 1_000_000_000) / (1_000_000_000 + u1);
    let u2 = sqrt_floor(1_000_000_000_000_000_000 + t1 * t1);
    let t2 = (t1 * 1_000_000_000) / (1_000_000_000 + u2);
    4 * spec_atan_t(t2)
}

/// The arctangent of a ratio in [0, 1], by two halvings and the series.
fn atan_reduced(t: u64) -> (r: u64)
    requires
        t <= 1_000_000_000,
    ensures
        r as int == spec_atan_reduced(t as int),
        r <= 1_010_000_000,
{
    proof {
        lemma_muldiv_bound(t as int, t as int, 1_000_000_000, 1_000_000_000, 1);
    }
    let u1 = isqrt(1_000_000_000_000_000_000 + t * t);
    proof {
        assert(u1 >= 1_000_000_000) by (nonlinear_arith)
            requires
                is_sqrt(1_000_000_000_000_000_000 + (t as int) * (t as int), u1 as int),
                (t as int) * (t as int) >= 0,
        ;
        lemma_muldiv_bound(t as int, 1_000_000_000, 1_000_000_000, 1_000_000_000, 1);
        vstd::arithmetic::div_mod::lemma_div_is_ordered_by_denominator(
            (t as int) * 1_000_000_000,
            2_000_000_000,
            1_000_000_000 + u1 as int,
        );
        lemma_div_is_ordered((t as int) * 1_000_000_000, 1_000_000_000_000_000_000, 2_000_000_000);
        lemma_div_pos_is_pos((t as int) * 1_000_000_000, 1_000_000_000 + u1 as int);
    }
    let t1 = (t * 1_000_000_000) / (1_000_000_000 + u1);
    proof {
        lemma_muldiv_bound(t1 as int, t1 as int, 500_000_000, 500_000_000, 1);
    }
    let u2 = isqrt(1_000_000_000_000_000_000 + t1 * t1);
    proof {
        assert(u2 >= 1_000_000_000) by (nonlinear_arith)
            requires
                is_sqrt(1_000_000_000_000_000_000 + (t1 as int) * (t1 as int), u2 as int),
                (t1 as int) * (t1 as int) >= 0,
        ;
        lemma_muldiv_bound(t1 as int, 1_000_000_000, 500_000_000, 1_000_000_000, 1);
        vstd::arithmetic::div_mod::lemma_div_is_ordered_by_denominator(
            (t1 as int) * 1_000_000_000,
            2_000_000_000,
            1_000_000_000 + u2 as int,
        );
        lemma_div_is_ordered((t1 as int) * 1_000_000_000, 500_000_000_000_000_000, 2_000_000_000);
        lemma_div_pos_is_pos((t1 as int) * 1_000_000_000, 1_000_000_000 + u2 as int);
    }
    let t2 = (t1 * 1_000_000_000) / (1_000_000_000 + u2);
    let a = atan_small(t2);
    4 * a
}

/// The two-argument arctangent on the first quadrant, in billionths of
/// a radian, for `y` and `x` both in [0, 1] and not both zero.
pub open spec fn spec_atan2(y: int, x: int) -> int {
    if x == 0 {
        1_570_796_327
    } else if y <= x {
        spec_atan_reduced((y * 1_000_000_000) / x)
    } else {
        1_570_796_327 - spec_atan_reduced((x * 1_000_000_000) / y)
    }
}

/// The two-argument arctangent on the first quadrant.
fn atan2_fp(y: u64, x: u64) -> (r: u64)
    requires
        y <= 1_000_000_000,
        x <= 1_000_000_000,
        y > 0 || x > 0,
    ensures
        r as int == spec_atan2(y as int, x as int),
        r <= 1_570_796_327,
{
    if x == 0 {
        HALF_PI_FP
    } else if y <= x {
        proof {
            lemma_muldiv_bound(y as int, 1_000_000_000, 1_000_000_000, 1_000_000_000, 1);
            lemma_mul_upper_bound(y as int, x as int, 1_000_000_000, 1_000_000_000);
            lemma_div_is_ordered((y as int) * 1_000_000_000, (x as int) * 1_000_000_000, x as int);
            lemma_div_multiples_vanish(1_000_000_000, x as int);
            lemma_div_pos_is_pos((y as int) * 1_000_000_000, x as int);
        }
        let t = (y * 1_000_000_000) / x;
        atan_reduced(t)
    } else {
        proof {
            lemma_muldiv_bound(x as int, 1_000_000_000, 1_000_000_000, 1_000_000_000, 1);
            lemma_mul_upper_bound(x as int, y as int, 1_000_000_000, 1_000_000_000);
            lemma_div_is_ordered((x as int) * 1_000_000_000, (y as int) * 1_000_000_000, y as int);
            lemma_div_multiples_vanish(1_000_000_000, y as int);
            lemma_div_pos_is_pos((x as int) * 1_000_000_000, y as int);
        }
        let t = (x * 1_000_000_000) / y;
        let a = atan_reduced(t);
        HALF_PI_FP - a
    }
}

/// The absolute value of an integer.
pub open spec fn iabs(x: int) -> int {
    if x < 0 {
        -x
    } else {
        x
    }
}

/// The haversine distance between two coordinates, in hundredths of a
/// kilometer, as the exact fixed-point recurrence the executable code
/// follows: half-angle sines, the cosine product, the clamped ratio
/// `a`, its square roots, the arctangent, and the scaling by the
/// earth's radius of 6371 km.
pub open spec fn spec_distance_km_centi(c1: crate::weather::Coord, c2: crate::weather::Coord) -> int {
    let hlat = spec_half_rad(iabs(c2.lat - c1.lat));
    let hlon0 = spec_half_rad(iabs(c2.lon - c1.lon));
    let hlon = if hlon0 > 1_570_796_327 {
        3_141_592_654 - hlon0
    } else {
        hlon0
    };
    let sh1 = spec_sin_nn(hlat);
    let sh2 = spec_sin_nn(hlon);
    let cos1 = spec_sin_nn(1_570_796_327 - spec_rad(iabs(c1.lat as int)));
    let cos2 = spec_sin_nn(1_570_796_327 - spec_rad(iabs(c2.lat as int)));
    let q1 = (sh1 * sh1) / 1_000_000_000;
    let p = (cos1 * cos2) / 1_000_000_000;
    let q2 = (sh2 * sh2) / 1_000_000_000;
    let a_raw = q1 + (p * q2) / 1_000_000_000;
    let a = if a_raw > 1_000_000_000 {
        1_000_000_000
    } else {
        a_raw
    };
    let y = sqrt_floor(a * 1_000_000_000);
    let x = sqrt_floor((1_000_000_000 - a) * 1_000_000_000);
    let c = 2 * spec_atan2(y, x);
    rdiv(c * 637_100, 1_000_000_000)
}

/// The haversine distance between two coordinates, in hundredths of a
/// kilometer.
#[verifier::rlimit(100)]
pub fn distance_km_centi(c1: &Coord, c2: &Coord) -> (r: u64)
    requires
        c1.wf(),
        c2.wf(),
    ensures
        r as int == spec_distance_km_centi(*c1, *c2),
        r <= 2_100_000,
        *c1 == *c2 ==> r == 0,
{
    proof {
        if *c1 == *c2 {
            lemma_distance_self_zero(*c1);
        }
    }
    let dlat: u64 = if c2.lat >= c1.lat {
        (c2.lat - c1.lat) as u64
    } else {
        (c1.lat - c2.lat) as u64
    };
    let dlon: u64 = if c2.lon >= c1.lon {
        (c2.lon - c1.lon) as u64
    } else {
        (c1.lon - c2.lon) as u64
    };
    let hlat = half_rad(dlat);
    let hlon0 = half_rad(dlon);
    let hlon = if hlon0 > HALF_PI_FP {
        PI_FP - hlon0
    } else {
        hlon0
    };
    let sh1 = sin_quarter(hlat);
    let sh2 = sin_quarter(hlon);
    let al1: u64 = if c1.lat >= 0 {
        c1.lat as u64
    } else {
        (-c1.lat) as u64
    };
    let al2: u64 = if c2.lat >= 0 {
        c2.lat as u64
    } else {
        (-c2.lat) as u64
    };
    let l1 = full_rad(al1);
    let l2 = full_rad(al2);
    let cos1 = sin_quarter(HALF_PI_FP - l1);
    let cos2 = sin_quarter(HALF_PI_FP - l2);
    proof {
        lemma_muldiv_bound(sh1 as int, sh1 as int, 1_700_000_000, 1_700_000_000, 1_000_000_000);
        lemma_muldiv_bound(cos1 as int, cos2 as int, 1_700_000_000, 1_700_000_000, 1_000_000_000);
        lemma_muldiv_bound(sh2 as int, sh2 as int, 1_700_000_000, 1_700_000_000, 1_000_000_000);
    }
    let q1 = (sh1 as u128) * (sh1 as u128) / 1_000_000_000;
    let p = (cos1 as u128) * (cos2 as u128) / 1_000_000_000;
    let q2 = (sh2 as u128) * (sh2 as u128) / 1_000_000_000;
    proof {
        lemma_muldiv_bound(p as int, q2 as int, 2_890_000_000, 2_890_000_000, 1_000_000_000);
    }
    let a_raw = q1 + p * q2 / 1_000_000_000;
    let a: u64 = if a_raw > 1_000_000_000 {
        1_000_000_000
    } else {
        a_raw as u64
    };
    let y = isqrt(a * 1_000_000_000);
    let x = isqrt((1_000_000_000 - a) * 1_000_000_000);
    proof {
        assert(y <= 1_000_000_000) by (nonlinear_arith)
            requires
                is_sqrt((a as int) * 1_000_000_000, y as int),
                a <= 1_000_000_000,
        ;
        assert(x <= 1_000_000_000) by (nonlinear_arith)
            requires
                is_sqrt((1_000_000_000 - a as int) * 1_000_000_000, x as int),
                a <= 1_000_000_000,
        ;
        if y == 0 && x == 0 {
            assert(false) by (nonlinear_arith)
                requires
                    is_sqrt((a as int) * 1_000_000_000, y as int),
                    is_sqrt((1_000_000_000 - a as int) * 1_000_000_000, x as int),
                    y == 0,
                    x == 0,
                    0 <= a <= 1_000_000_000,
            ;
        }
    }
    let ang = atan2_fp(y, x);
    let c = 2 * ang;
    let km = rdiv_u64(c * 637_100, 1_000_000_000);
    proof {
        lemma_rdiv_monotone(
            (c as int) * 637_100,
            (3_141_592_654 * 637_100) as int,
            1_000_000_000,
        );
    }
    km
}

/// The distance of a coordinate pair from itself is exactly zero.
#[verifier::rlimit(100)]
pub proof fn lemma_distance_self_zero(c: crate::weather::Coord)
    ensures
        spec_distance_km_centi(c, c) == 0,
{
    vstd::arithmetic::div_mod::lemma_basic_div(2_000_000_000_000_000, 4_000_000_000_000_000);
    vstd::arithmetic::div_mod::lemma_basic_div(1_000_000_000, 2_000_000_000);
    vstd::arithmetic::div_mod::lemma_div_of0(1_000_000_000);
    vstd::arithmetic::div_mod::lemma_div_of0(2_000_000_000);
    vstd::arithmetic::div_mod::lemma_div_of0(120);
    vstd::arithmetic::div_mod::lemma_div_of0(362880);
    vstd::arithmetic::div_mod::lemma_div_of0(6);
    vstd::arithmetic::div_mod::lemma_div_of0(5040);
    vstd::arithmetic::div_mod::lemma_div_of0(39916800);
    vstd::arithmetic::div_mod::lemma_div_of0(5);
    vstd::arithmetic::div_mod::lemma_div_of0(9);
    vstd::arithmetic::div_mod::lemma_div_of0(13);
    vstd::arithmetic::div_mod::lemma_div_of0(3);
    vstd::arithmetic::div_mod::lemma_div_of0(7);
    vstd::arithmetic::div_mod::lemma_div_of0(11);
    assert(iabs(c.lat - c.lat) == 0);
    assert(iabs(c.lon - c.lon) == 0);
    assert(spec_half_rad(0) == 0);
    assert(spec_sin_nn(0) == 0);
    let cos1 = spec_sin_nn(1_570_796_327 - spec_rad(iabs(c.lat as int)));
    assert(cos1 * 0 == 0);
    assert(is_sqrt(0 as int, 0 as int));
    lemma_sqrt_is(0 as int, 0 as int);
    assert(is_sqrt(1_000_000_000_000_000_000 as int, 1_000_000_000 as int));
    lemma_sqrt_is(1_000_000_000_000_000_000 as int, 1_000_000_000 as int);
    assert(spec_atan_t(0) == 0);
    assert(spec_atan_reduced(0) == 0);
    assert(spec_atan2(0, 1_000_000_000) == 0);
    assert(rdiv(0, 1_000_000_000) == 0);
    let hlat = spec_half_rad(iabs(c.lat - c.lat));
    let hlon0 = spec_half_rad(iabs(c.lon - c.lon));
    let hlon = if hlon0 > 1_570_796_327 {
        3_141_592_654 - hlon0
    } else {
        hlon0
    };
    assert(hlat == 0);
    assert(hlon == 0);
    let sh1 = spec_sin_nn(hlat);
    let sh2 = spec_sin_nn(hlon);
    assert(sh1 == 0);
    assert(sh2 == 0);
    let cos2 = spec_sin_nn(1_570_796_327 - spec_rad(iabs(c.lat as int)));
    let q1 = (sh1 * sh1) / 1_000_000_000;
    let p = (cos1 * cos2) / 1_000_000_000;
    let q2 = (sh2 * sh2) / 1_000_000_000;
    assert(q1 == 0);
    assert(q2 == 0);
    let a_raw = q1 + (p * q2) / 1_000_000_000;
    assert(p * q2 == 0);
    assert(a_raw == 0);
    let a = if a_raw > 1_000_000_000 {
        1_000_000_000
    } else {
        a_raw
    };
    assert(a == 0);
    assert(a * 1_000_000_000 == 0);
    assert((1_000_000_000 - a) * 1_000_000_000 == 1_000_000_000_000_000_000);
    let y = sqrt_floor(a * 1_000_000_000);
    let x = sqrt_floor((1_000_000_000 - a) * 1_000_000_000);
    assert(y == 0);
    assert(x == 1_000_000_000);
    let cc = 2 * spec_atan2(y, x);
    assert(cc == 0);
    assert(cc * 637_100 == 0);
    assert(spec_distance_km_centi(c, c) == rdiv(cc * 637_100, 1_000_000_000));
}

/// The distance is symmetric in its two coordinates.
pub proof fn lemma_distance_symmetric(c1: crate::weather::Coord, c2: crate::weather::Coord)
    ensures
        spec_distance_km_centi(c1, c2) == spec_distance_km_centi(c2, c1),
{
    assert(iabs(c2.lat - c1.lat) == iabs(c1.lat - c2.lat));
    assert(iabs(c2.lon - c1.lon) == iabs(c1.lon - c2.lon));
    let cos1 = spec_sin_nn(1_570_796_327 - spec_rad(iabs(c1.lat as int)));
    let cos2 = spec_sin_nn(1_570_796_327 - spec_rad(iabs(c2.lat as int)));
    assert(cos1 * cos2 == cos2 * cos1);
}

} // verus!
