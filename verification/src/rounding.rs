//! Truncating integer division and rounding to the nearest multiple.
//!
//! The reference time service reports its difference to a client timestamp
//! both in milliseconds and in whole seconds; the seconds value is the
//! millisecond difference rounded to the nearest multiple of 1000 with the
//! classic `(n + d/2) / d * d` formula under truncating division.  For
//! negative numerators that formula is asymmetric, and the asymmetry is part
//! of the interface, so everything here is specified with an explicitly
//! truncating division rather than the Euclidean one of the specification
//! language.

use vstd::prelude::*;

verus! {

/// Division that truncates toward zero, as Rust's `/` does on signed
/// integers.
pub open spec fn trunc_div(a: int, b: int) -> int {
    if (a >= 0) == (b >= 0) {
        (vstd::math::abs(a) / vstd::math::abs(b)) as int
    } else {
        -((vstd::math::abs(a) / vstd::math::abs(b)) as int)
    }
}

/// The remainder that pairs with `trunc_div`: it has the sign of the
/// numerator and `trunc_div(a, b) * b + trunc_rem(a, b) == a`.
pub open spec fn trunc_rem(a: int, b: int) -> int {
    a - trunc_div(a, b) * b
}

/// `n` rounded to the nearest multiple of `d` by `(n + d/2) / d * d` under
/// truncating division: ties round up in magnitude for positive `n`, while
/// negative `n` inherits the asymmetry of truncation.
pub open spec fn round_to_nearest_spec(n: int, d: int) -> int {
    trunc_div(n + trunc_div(d, 2), d) * d
}

/// The absolute value of `x`, as a `u128` so that `i128::MIN` needs no
/// special case at the call sites.
pub fn magnitude_i128(x: i128) -> (m: u128)
    ensures
        m == vstd::math::abs(x as int),
{
    if x >= 0 {
        x as u128
    } else {
        let y: i128 = -(x + 1);
        (y as u128) + 1
    }
}

/// Truncating division on `i128`, matching `trunc_div`.
pub fn div_trunc(a: i128, b: i128) -> (q: i128)
    requires
        b != 0,
        trunc_div(a as int, b as int) <= i128::MAX,
    ensures
        q == trunc_div(a as int, b as int),
{
    let ua = magnitude_i128(a);
    let ub = magnitude_i128(b);
    let uq = ua / ub;
    proof {
        vstd::arithmetic::div_mod::lemma_div_nonincreasing(ua as int, ub as int);
    }
    if (a < 0) != (b < 0) {
        if uq >= 0x8000_0000_0000_0000_0000_0000_0000_0000u128 {
            i128::MIN
        } else {
            -(uq as i128)
        }
    } else {
        uq as i128
    }
}

/// Rounds `number` to the nearest multiple of `denominator` with the exact
/// formula `(number + denominator/2) / denominator * denominator` under
/// truncating division.  The preconditions only keep every intermediate
/// value inside `i128`.
pub fn round_to_nearest(number: i128, denominator: i128) -> (r: i128)
    requires
        denominator != 0,
        i128::MIN <= number + trunc_div(denominator as int, 2) <= i128::MAX,
        trunc_div(number + trunc_div(denominator as int, 2), denominator as int) <= i128::MAX,
        i128::MIN <= round_to_nearest_spec(number as int, denominator as int) <= i128::MAX,
    ensures
        r == round_to_nearest_spec(number as int, denominator as int),
{
    let half = div_trunc(denominator, 2);
    let sum = number + half;
    let q = div_trunc(sum, denominator);
    q * denominator
}

} // verus!
