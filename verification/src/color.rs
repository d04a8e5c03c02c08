//! Pixel output: sample averaging, clamping, quantization, and the plain
//! text line of one pixel's three channel values.

use vstd::prelude::*;

use crate::fixed::{fx_div, fx_mul, sat, Fix, ONE_RAW, SCALE};
use crate::utils::{clamp, clamp_spec};
use crate::vec3::{Vec3, V3};

verus! {

/// Raw fixed-point value of the clamp ceiling `0.999`.
pub const CLAMP_MAX_RAW: i64 = 999_000;

/// Decimal digits of a natural number, most significant first, as ASCII.
pub open spec fn dec_spec(n: nat) -> Seq<u8>
    decreases n,
{
    if n < 10 {
        seq![(n + 48) as u8]
    } else {
        dec_spec(n / 10).push((n % 10 + 48) as u8)
    }
}

/// Append the decimal digits of `n`.
pub fn push_decimal(out: &mut Vec<u8>, n: u32)
    ensures
        final(out)@ == old(out)@ + dec_spec(n as nat),
    decreases n,
{
    if n < 10 {
        out.push((n as u8) + 48);
        proof {
            assert(out@ =~= old(out)@ + dec_spec(n as nat));
        }
    } else {
        push_decimal(out, n / 10);
        out.push(((n % 10) as u8) + 48);
        proof {
            assert(out@ =~= old(out)@ + dec_spec(n as nat));
        }
    }
}

/// One channel quantized: the averaged value clamped into `[0, 0.999]`,
/// then `floor(256 * value)`, an integer in `[0, 255]`.
pub open spec fn quantize_spec(c: int, scale: int) -> int {
    let v = clamp_spec(fx_mul(c, scale), 0, CLAMP_MAX_RAW as int);
    (256 * v) / (SCALE as int)
}

/// The averaging factor `1 / samples`.
pub open spec fn sample_scale_spec(spp: int) -> int {
    fx_div(ONE_RAW as int, sat(spp * (SCALE as int)))
}

/// The text of one pixel: three quantized channels separated by spaces,
/// closed by a newline.
pub open spec fn color_line_spec(col: V3, spp: int) -> Seq<u8> {
    let scale = sample_scale_spec(spp);
    dec_spec(quantize_spec(col.x, scale) as nat) + seq![32u8] + dec_spec(
        quantize_spec(col.y, scale) as nat,
    ) + seq![32u8] + dec_spec(quantize_spec(col.z, scale) as nat) + seq![10u8]
}

/// Quantization stays within one output byte.
pub proof fn lemma_quantize_range(c: int, scale: int)
    ensures
        0 <= quantize_spec(c, scale) <= 255,
{
    let v = clamp_spec(fx_mul(c, scale), 0, CLAMP_MAX_RAW as int);
    assert(0 <= v <= CLAMP_MAX_RAW as int);
    assert(0 <= (256 * v) / (SCALE as int) <= 255) by (nonlinear_arith)
        requires
            0 <= v <= 999_000,
            SCALE == 1_000_000i64,
    ;
}

/// One channel quantized, executable.
fn quantize(c: Fix, scale: Fix) -> (q: u32)
    ensures
        q as int == quantize_spec(c@, scale@),
{
    let v = clamp(c.mul(scale), Fix::zero(), Fix::from_raw(CLAMP_MAX_RAW));
    let q64: u64 = (256u64 * (v.raw as u64)) / (SCALE as u64);
    proof {
        lemma_quantize_range(c@, scale@);
    }
    q64 as u32
}

/// Append one pixel's line: the accumulated color scaled by `1 / samples`,
/// each channel clamped and quantized.
pub fn write_color(fp: &mut Vec<u8>, color: Vec3, samples_per_pixel: i32)
    ensures
        final(fp)@ == old(fp)@ + color_line_spec(color@, samples_per_pixel as int),
{
    let scale = Fix::one().div(Fix::from_int(samples_per_pixel as i64));
    let r = quantize(color.x, scale);
    let g = quantize(color.y, scale);
    let b = quantize(color.z, scale);
    push_decimal(fp, r);
    fp.push(32);
    push_decimal(fp, g);
    fp.push(32);
    push_decimal(fp, b);
    fp.push(10);
    proof {
        assert(fp@ =~= old(fp)@ + color_line_spec(color@, samples_per_pixel as int));
    }
}

} // verus!
