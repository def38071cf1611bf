//! Integer units shared by the whole library.

use vstd::prelude::*;

verus! {

/// World units in one pixel.
pub const UNITS_PER_PIXEL: i64 = 1000;

/// World units in one meter (42.85 pixels).
pub const UNITS_PER_METER: i64 = 42_850;

/// The value that stands for a ratio of exactly one.
pub const RATIO_ONE: i64 = 1_000_000;

/// Microseconds in one second.
pub const MICROS_PER_SECOND: u64 = 1_000_000;

/// Quotient of `a` by a positive `b`, rounded toward zero.
pub open spec fn trunc_div(a: int, b: int) -> int
    recommends
        b > 0,
{
    if a >= 0 {
        a / b
    } else {
        -((-a) / b)
    }
}

/// The length of `pixels` whole pixels.
pub open spec fn pixels_to_units(pixels: int) -> int {
    pixels * UNITS_PER_PIXEL
}

/// The length of `millimeters` thousandths of a meter, rounded toward zero.
pub open spec fn millimeters_to_units(millimeters: int) -> int {
    trunc_div(millimeters * UNITS_PER_METER, 1000)
}

/// The thousandths of a meter in a length, rounded toward zero.
pub open spec fn whole_millimeters(units: int) -> int {
    trunc_div(units * 1000, UNITS_PER_METER as int)
}

/// The pixel nearest to a non-negative length; a length half way between two
/// pixels goes to the higher one.
pub open spec fn nearest_pixel(units: int) -> int
    recommends
        units >= 0,
{
    (units + UNITS_PER_PIXEL / 2) / (UNITS_PER_PIXEL as int)
}

/// The number of whole pixels in a length, rounded toward zero.
pub open spec fn whole_pixels(units: int) -> int {
    trunc_div(units, UNITS_PER_PIXEL as int)
}

/// Exec form of [`trunc_div`].
pub fn div_toward_zero(a: i64, b: i64) -> (q: i64)
    requires
        b > 0,
    ensures
        q == trunc_div(a as int, b as int),
{
    if a >= 0 {
        a / b
    } else if a == i64::MIN {
        // -MIN does not fit; (MIN + b) / b - 1 has the same value.
        let shifted: i64 = a + b;
        assert((-(a as int)) / (b as int) == (-(shifted as int)) / (b as int) + 1) by {
            vstd::arithmetic::div_mod::lemma_div_plus_one(-(shifted as int), b as int);
        }
        let q: i64 = (0 - shifted) / b;
        0 - q - 1
    } else {
        let q: i64 = (0 - a) / b;
        0 - q
    }
}

/// Converts whole pixels to world units.
pub fn from_pixels(pixels: i64) -> (units: i64)
    requires
        i64::MIN <= pixels_to_units(pixels as int) <= i64::MAX,
    ensures
        units == pixels_to_units(pixels as int),
{
    pixels * UNITS_PER_PIXEL
}

/// Converts thousandths of a meter to world units.
pub fn from_millimeters(millimeters: i64) -> (units: i64)
    requires
        i64::MIN <= millimeters * UNITS_PER_METER <= i64::MAX,
    ensures
        units == millimeters_to_units(millimeters as int),
{
    div_toward_zero(millimeters * UNITS_PER_METER, 1000)
}

/// Thousandths of a meter in a length, rounded toward zero.
pub fn to_whole_millimeters(units: i64) -> (millimeters: i64)
    requires
        i64::MIN <= units * 1000 <= i64::MAX,
    ensures
        millimeters == whole_millimeters(units as int),
{
    div_toward_zero(units * 1000, UNITS_PER_METER)
}

/// Whole pixels in a length, rounded toward zero.
pub fn to_whole_pixels(units: i64) -> (pixels: i64)
    ensures
        pixels == whole_pixels(units as int),
{
    div_toward_zero(units, UNITS_PER_PIXEL)
}

/// Quotient and remainder of `x` by a positive `d`, the quotient rounded toward
/// negative infinity, so that the remainder is never negative.
pub fn floor_div_rem(x: i128, d: i128) -> (result: (i128, i128))
    requires
        d > 0,
    ensures
        result.0 == x / d,
        result.1 == x % d,
        0 <= result.1 < d,
        x >= 0 ==> 0 <= result.0 <= x,
        x < 0 ==> x <= result.0 < 0,
{
    proof {
        vstd::arithmetic::div_mod::lemma_fundamental_div_mod(x as int, d as int);
        vstd::arithmetic::div_mod::lemma_mod_bound(x as int, d as int);
        if x >= 0 {
            vstd::arithmetic::div_mod::lemma_div_pos_is_pos(x as int, d as int);
            vstd::arithmetic::div_mod::lemma_div_nonincreasing(x as int, d as int);
        } else {
            let q = (x as int) / (d as int);
            let r = (x as int) % (d as int);
            assert(q < 0 && x <= q) by (nonlinear_arith)
                requires
                    x == d * q + r,
                    0 <= r < d,
                    x < 0,
                    d > 0,
            ;
        }
    }
    let quotient = match x.checked_div_euclid(d) {
        Some(quotient) => quotient,
        None => 0,
    };
    let remainder = match x.checked_rem_euclid(d) {
        Some(remainder) => remainder,
        None => 0,
    };
    (quotient, remainder)
}

} // verus!
