//! Shared scalar helpers: angle conversion, clamping, and uniform draws.

use vstd::prelude::*;

use crate::fixed::{fx_div, fx_mul, Fix, ONE_RAW};
use crate::rng::next_u64;

verus! {

/// Raw fixed-point value of pi.
pub const PI_RAW: i64 = 3_141_593;

/// Raw fixed-point value of 180.
pub const DEG_180_RAW: i64 = 180_000_000;

pub open spec fn deg_to_rad_spec(d: int) -> int {
    fx_div(fx_mul(d, PI_RAW as int), DEG_180_RAW as int)
}

/// `degrees * pi / 180`.
pub fn degrees_to_radians(degrees: Fix) -> (r: Fix)
    ensures
        r@ == deg_to_rad_spec(degrees@),
{
    degrees.mul(Fix::from_raw(PI_RAW)).div(Fix::from_raw(DEG_180_RAW))
}

pub open spec fn clamp_spec(x: int, min: int, max: int) -> int {
    if x < min {
        min
    } else if x > max {
        max
    } else {
        x
    }
}

/// `x` forced into `[min, max]`.
pub fn clamp(x: Fix, min: Fix, max: Fix) -> (r: Fix)
    ensures
        r@ == clamp_spec(x@, min@, max@),
{
    if x.lt(min) {
        return min;
    }
    if x.gt(max) {
        return max;
    }
    x
}

/// A uniform draw in `[0, 1)`.
pub fn random_double(rng: &mut rand::rngs::StdRng) -> (r: Fix)
    ensures
        0 <= r@ < ONE_RAW as int,
{
    let u: u64 = next_u64(rng);
    let m: u64 = u % (ONE_RAW as u64);
    Fix::from_raw(m as i64)
}

/// A uniform draw in `[min, max)`; a window that is empty or backwards
/// yields `min`, so the draw never fails.
pub fn random_range(rng: &mut rand::rngs::StdRng, min: Fix, max: Fix) -> (r: Fix)
    ensures
        max@ <= min@ ==> r@ == min@,
        max@ > min@ ==> min@ <= r@ < max@,
{
    if max.le(min) {
        return min;
    }
    let span: i128 = (max.raw as i128) - (min.raw as i128);
    let u: u64 = next_u64(rng);
    let off: u128 = (u as u128) % (span as u128);
    let res: i128 = (min.raw as i128) + (off as i128);
    Fix::from_raw(res as i64)
}

} // verus!
