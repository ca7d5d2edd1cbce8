//! Angles in microradians: wrapping into one turn and clamping.

use vstd::prelude::*;

verus! {

/// Angle steps per radian.
pub const UNITS_PER_RADIAN: i64 = 1_000_000;

/// One full turn (2π), rounded down to whole microradians.
pub const TWO_PI: i64 = 6_283_185;

/// Half a turn (π), rounded down to whole microradians.
pub const PI: i64 = 3_141_592;

/// A quarter turn (π/2), rounded down to whole microradians.
pub const HALF_PI: i64 = 1_570_796;

/// The largest pitch magnitude that keeps the camera away from the poles
/// (π/2 − ε, with ε one microradian).
pub const SAFE_HALF_PI: i64 = HALF_PI - 1;

pub open spec fn clamp_spec(v: int, lo: int, hi: int) -> int {
    if v < lo {
        lo
    } else if v > hi {
        hi
    } else {
        v
    }
}

/// Rust's truncating division (the quotient is rounded toward zero).
pub open spec fn div_trunc(a: int, b: int) -> int {
    if a >= 0 {
        a / b
    } else {
        -((-a) / b)
    }
}

/// `a` wrapped into `[0, TWO_PI)`.
pub open spec fn wrap_spec(a: int) -> int {
    a % (TWO_PI as int)
}

/// Wraps an angle into `[0, TWO_PI)`.
pub fn wrap_angle(a: i128) -> (r: i64)
    ensures
        r == wrap_spec(a as int),
        0 <= r < TWO_PI,
{
    let m: i128 = a % (TWO_PI as i128);
    let w: i128 = if m < 0 {
        m + TWO_PI as i128
    } else {
        m
    };
    w as i64
}

/// Clamps a value into `[lo, hi]`.
pub fn clamp_i128(v: i128, lo: i128, hi: i128) -> (r: i128)
    requires
        lo <= hi,
    ensures
        r == clamp_spec(v as int, lo as int, hi as int),
        lo <= r <= hi,
{
    if v < lo {
        lo
    } else if v > hi {
        hi
    } else {
        v
    }
}

/// Keeps a pitch inside `[-SAFE_HALF_PI, SAFE_HALF_PI]`.
pub fn clamp_pitch(p: i128) -> (r: i64)
    ensures
        r == clamp_spec(p as int, -SAFE_HALF_PI, SAFE_HALF_PI as int),
        -SAFE_HALF_PI <= r <= SAFE_HALF_PI,
{
    clamp_i128(p, -SAFE_HALF_PI as i128, SAFE_HALF_PI as i128) as i64
}

} // verus!
