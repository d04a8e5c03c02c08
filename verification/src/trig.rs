//! Truncated Maclaurin series for sine, cosine and tangent, the pieces the
//! camera needs to turn a field of view into a viewport height.
//!
//! The series are evaluated in fixed point exactly as the specs state; they
//! are meant for arguments within a half turn, where the omitted tail is
//! below the representation's resolution scale.

use vstd::prelude::*;

use crate::fixed::{fx_add, fx_div, fx_mul, fx_sub, Fix, ONE_RAW};

verus! {

/// `sin x` through the ninth power:
/// `x - x^3/6 + x^5/120 - x^7/5040 + x^9/362880`.
pub open spec fn sin_spec(x: int) -> int {
    let x2 = fx_mul(x, x);
    let x3 = fx_mul(x2, x);
    let x5 = fx_mul(x3, x2);
    let x7 = fx_mul(x5, x2);
    let x9 = fx_mul(x7, x2);
    fx_add(
        fx_sub(fx_add(fx_sub(x, fx_div(x3, 6_000_000)), fx_div(x5, 120_000_000)), fx_div(x7, 5_040_000_000)),
        fx_div(x9, 362_880_000_000),
    )
}

/// `cos x` through the eighth power:
/// `1 - x^2/2 + x^4/24 - x^6/720 + x^8/40320`.
pub open spec fn cos_spec(x: int) -> int {
    let x2 = fx_mul(x, x);
    let x4 = fx_mul(x2, x2);
    let x6 = fx_mul(x4, x2);
    let x8 = fx_mul(x4, x4);
    fx_add(
        fx_sub(
            fx_add(fx_sub(ONE_RAW as int, fx_div(x2, 2_000_000)), fx_div(x4, 24_000_000)),
            fx_div(x6, 720_000_000),
        ),
        fx_div(x8, 40_320_000_000),
    )
}

/// `tan x` as the quotient of the two series.
pub open spec fn tan_spec(x: int) -> int {
    fx_div(sin_spec(x), cos_spec(x))
}

pub fn sin(x: Fix) -> (r: Fix)
    ensures
        r@ == sin_spec(x@),
{
    let x2 = x.mul(x);
    let x3 = x2.mul(x);
    let x5 = x3.mul(x2);
    let x7 = x5.mul(x2);
    let x9 = x7.mul(x2);
    x.sub(x3.div(Fix::from_raw(6_000_000))).add(x5.div(Fix::from_raw(120_000_000))).sub(
        x7.div(Fix::from_raw(5_040_000_000)),
    ).add(x9.div(Fix::from_raw(362_880_000_000)))
}

pub fn cos(x: Fix) -> (r: Fix)
    ensures
        r@ == cos_spec(x@),
{
    let x2 = x.mul(x);
    let x4 = x2.mul(x2);
    let x6 = x4.mul(x2);
    let x8 = x4.mul(x4);
    Fix::one().sub(x2.div(Fix::from_raw(2_000_000))).add(x4.div(Fix::from_raw(24_000_000))).sub(
        x6.div(Fix::from_raw(720_000_000)),
    ).add(x8.div(Fix::from_raw(40_320_000_000)))
}

pub fn tan(x: Fix) -> (r: Fix)
    ensures
        r@ == tan_spec(x@),
{
    sin(x).div(cos(x))
}

} // verus!
