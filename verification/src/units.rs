//! Unit conversions, all in fixed-point integers.
//!
//! The weather provider reports temperatures in kelvin, pressure in
//! hectopascals and wind speed in meters per second. Display is imperial:
//! fahrenheit, inches of mercury, miles per hour. Quantities are carried
//! as scaled integers - temperatures in hundredths of a kelvin, speeds in
//! thousandths of a meter per second - and every conversion rounds to the
//! nearest representable value, so the two-decimal display below is the
//! correctly rounded value of the exact conversion formula.

use vstd::prelude::*;
use vstd::arithmetic::div_mod::lemma_fundamental_div_mod;

verus! {

/// Largest magnitude, in hundredths of a kelvin, that a temperature field
/// may carry (100 000 K: far beyond any atmospheric value).
pub const TEMP_LIMIT: i64 = 10_000_000;

/// Largest wind speed, in thousandths of a meter per second, that a wind
/// field may carry (1 000 m/s).
pub const SPEED_LIMIT: i64 = 1_000_000;

/// Division of `n` by `d > 0`, rounded to the nearest integer, ties away
/// from zero.
pub open spec fn rdiv(n: int, d: int) -> int
    recommends
        d > 0,
{
    if n >= 0 {
        (2 * n + d) / (2 * d)
    } else {
        -((2 * (-n) + d) / (2 * d))
    }
}

/// `rdiv` rounds correctly: the result times the divisor differs from the
/// dividend by at most half the divisor.
pub proof fn lemma_rdiv_rounds(n: int, d: int)
    requires
        d > 0,
    ensures
        -d <= 2 * (d * rdiv(n, d) - n),
        2 * (d * rdiv(n, d) - n) <= d,
{
    if n >= 0 {
        let q = (2 * n + d) / (2 * d);
        lemma_fundamental_div_mod(2 * n + d, 2 * d);
        let r = (2 * n + d) % (2 * d);
        assert(2 * n + d == 2 * d * q + r);
        assert(0 <= r < 2 * d);
        assert(2 * d * q == 2 * (d * q)) by (nonlinear_arith);
        assert(2 * (d * q - n) == d - r);
    } else {
        let m = -n;
        let q = (2 * m + d) / (2 * d);
        lemma_fundamental_div_mod(2 * m + d, 2 * d);
        let r = (2 * m + d) % (2 * d);
        assert(2 * m + d == 2 * d * q + r);
        assert(0 <= r < 2 * d);
        assert(2 * d * q == 2 * (d * q)) by (nonlinear_arith);
        assert(d * (-q) == -(d * q)) by (nonlinear_arith);
        assert(2 * (d * (-q) - n) == -(d - r));
    }
}

/// Rounded division on machine words; mirrors `rdiv` exactly.
pub fn rdiv_u64(n: u64, d: u64) -> (r: u64)
    requires
        0 < d < 0x4000_0000_0000_0000u64,
        n < 0x4000_0000_0000_0000u64,
    ensures
        r == rdiv(n as int, d as int),
        r <= n,
{
    let r = (2 * n + d) / (2 * d);
    proof {
        lemma_fundamental_div_mod(2 * (n as int) + d, 2 * (d as int));
        lemma_rdiv_rounds(n as int, d as int);
        assert(r <= n) by {
            let q = rdiv(n as int, d as int);
            if q > n {
                assert(d * q >= d * (n + 1)) by (nonlinear_arith)
                    requires
                        d >= 1,
                        q >= n + 1,
                ;
                assert(d * (n + 1) >= n + d) by (nonlinear_arith)
                    requires
                        d >= 1,
                        n >= 0,
                ;
            }
        }
    }
    r
}

/// Kelvin to celsius, both in hundredths of a degree: `C = K - 273.15`.
pub open spec fn spec_celsius_centi(k: int) -> int {
    k - 27315
}

/// Kelvin to fahrenheit, both in hundredths of a degree:
/// `F = (K - 273.15) * 9/5 + 32`, rounded to the nearest hundredth.
pub open spec fn spec_fahrenheit_centi(k: int) -> int {
    rdiv(9 * (k - 27315), 5) + 3200
}

/// Hectopascals to hundredths of an inch of mercury:
/// `inHg = hPa * 0.02953`, rounded to the nearest hundredth.
pub open spec fn spec_inhg_centi(p: int) -> int {
    rdiv(2953 * p, 1000)
}

/// Thousandths of a meter per second to hundredths of a mile per hour:
/// `mph = m/s * 2.23694`, rounded to the nearest hundredth.
pub open spec fn spec_mph_centi(s: int) -> int {
    rdiv(223694 * s, 1000000)
}

/// Hundredths of a kilometer to hundredths of a mile:
/// `mi = km * 0.621371`, rounded to the nearest hundredth.
pub open spec fn spec_miles_centi(km: int) -> int {
    rdiv(621371 * km, 1000000)
}

/// Kelvin to celsius in hundredths of a degree.
pub fn celsius_centi(k: i64) -> (r: i64)
    requires
        -TEMP_LIMIT <= k <= TEMP_LIMIT,
    ensures
        r == spec_celsius_centi(k as int),
{
    k - 27315
}

/// Kelvin to fahrenheit in hundredths of a degree.
pub fn fahrenheit_centi(k: i64) -> (r: i64)
    requires
        -TEMP_LIMIT <= k <= TEMP_LIMIT,
    ensures
        r == spec_fahrenheit_centi(k as int),
{
    let d: i64 = 9 * (k - 27315);
    if d >= 0 {
        let q = rdiv_u64(d as u64, 5);
        q as i64 + 3200
    } else {
        let q = rdiv_u64((-d) as u64, 5);
        -(q as i64) + 3200
    }
}

/// Hectopascals to hundredths of an inch of mercury.
pub fn inhg_centi(p: u32) -> (r: u64)
    ensures
        r == spec_inhg_centi(p as int),
{
    rdiv_u64(2953 * (p as u64), 1000)
}

/// Thousandths of a meter per second to hundredths of a mile per hour.
pub fn mph_centi(s: i64) -> (r: i64)
    requires
        -SPEED_LIMIT <= s <= SPEED_LIMIT,
    ensures
        r == spec_mph_centi(s as int),
{
    if s >= 0 {
        let q = rdiv_u64(223694 * (s as u64), 1000000);
        q as i64
    } else {
        let q = rdiv_u64(223694 * ((-s) as u64), 1000000);
        -(q as i64)
    }
}

/// Hundredths of a kilometer to hundredths of a mile.
pub fn miles_centi(km: u64) -> (r: u64)
    requires
        km <= 10_000_000,
    ensures
        r == spec_miles_centi(km as int),
{
    rdiv_u64(621371 * km, 1000000)
}

/// The fahrenheit conversion agrees with the exact formula
/// `(K - 273.15) * 9/5 + 32` to two decimal places: five times the
/// computed hundredths-of-a-degree value differs from nine times the
/// hundredths-of-a-kelvin excess over 273.15 by at most two, i.e. the
/// computed value is within half a hundredth of the exact one. Together
/// with the definitional `spec_celsius_centi(k) == k - 27315` this is the
/// two-decimal agreement of both conversions.
pub proof fn lemma_fahrenheit_two_decimals(k: int)
    ensures
        -2 <= 5 * (spec_fahrenheit_centi(k) - 3200) - 9 * (k - 27315),
        5 * (spec_fahrenheit_centi(k) - 3200) - 9 * (k - 27315) <= 2,
        spec_celsius_centi(k) == k - 27315,
{
    lemma_rdiv_rounds(9 * (k - 27315), 5);
}

} // verus!
