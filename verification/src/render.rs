//! The recursive color integrator and the per-pixel sampling loop that
//! together turn a scene and a camera into a plain text image.

use vstd::prelude::*;

use crate::camera::Camera;
use crate::color::{color_line_spec, write_color};
use crate::fixed::{fx_add, fx_mul, fx_sub, Fix, HALF_RAW, MAX_RAW, ONE_RAW};
use crate::hittable_list::{list_hit_spec, HittableList};
use crate::ray::Ray;
use crate::utils::random_double;
use crate::vec3::{v3, v_add, v_mul, v_scale, v_unit, Vec3, V3};

verus! {

/// Raw lower bound of the bounce search window, suppressing
/// self-intersection at a scattered ray's origin.
pub const T_MIN_BOUNCE_RAW: i64 = 1_000;

/// The sky gradient a missed ray samples: the unit direction's height
/// remapped to `[0, 1]` blends white into sky blue.
pub open spec fn sky_spec(dir: V3) -> V3 {
    let u = v_unit(dir);
    let t = fx_mul(HALF_RAW as int, fx_add(u.y, ONE_RAW as int));
    v_add(
        v_scale(v3(ONE_RAW as int, ONE_RAW as int, ONE_RAW as int), fx_sub(ONE_RAW as int, t)),
        v_scale(v3(500_000, 700_000, ONE_RAW as int), t),
    )
}

/// One ray's color: black once the recursion budget is spent; the sky
/// gradient when nothing is hit; otherwise the scattered bounce tinted by
/// the material's attenuation, or black on absorption.
pub fn ray_color(r: &Ray, world: &HittableList, depth: i32, rng: &mut rand::rngs::StdRng) -> (c:
    Vec3)
    ensures
        depth <= 0 ==> c@ == v3(0, 0, 0),
        depth > 0 && list_hit_spec(world.objects@, *r, T_MIN_BOUNCE_RAW as int, MAX_RAW as int)
            is None ==> c@ == sky_spec(r@.dir),
        depth > 0 && list_hit_spec(world.objects@, *r, T_MIN_BOUNCE_RAW as int, MAX_RAW as int)
            is Some ==> ({
            let m = (list_hit_spec(
                world.objects@,
                *r,
                T_MIN_BOUNCE_RAW as int,
                MAX_RAW as int,
            )->0).material;
            ||| (m is Diffuse && exists|rest: V3|
                c@ == #[trigger] v_mul(m->Diffuse_0.albedo@, rest))
            ||| (m is Metal && (c@ == v3(0, 0, 0) || exists|rest: V3|
                c@ == #[trigger] v_mul(m->Metal_0.albedo@, rest)))
            ||| (m is Dieletric && exists|rest: V3|
                c@ == #[trigger] v_mul(v3(ONE_RAW as int, ONE_RAW as int, ONE_RAW as int), rest))
        }),
    decreases depth,
{
    if depth <= 0 {
        return Vec3::zero();
    }

    match world.hit(r, Fix::from_raw(T_MIN_BOUNCE_RAW), Fix::from_raw(MAX_RAW)) {
        Some(result) => match result.material.scatter(r, &result, rng) {
            Some((attenuation, scattered)) => {
                let rest = ray_color(&scattered, world, depth - 1, rng);
                let c = attenuation.mul(rest);
                proof {
                    assert(c@ == v_mul(attenuation@, rest@));
                }
                c
            },
            None => Vec3::zero(),
        },
        None => {
            let unit_direction = r.direction().unit_vector();
            let t = Fix::from_raw(HALF_RAW).mul(unit_direction.y.add(Fix::one()));
            Vec3::only(Fix::one()).scale(Fix::one().sub(t)).add(
                Vec3::new(Fix::from_raw(500_000), Fix::from_raw(700_000), Fix::one()).scale(t),
            )
        },
    }
}

/// The pixel lines of an image, in emission order.
pub open spec fn ppm_body_spec(cols: Seq<V3>, spp: int) -> Seq<u8>
    decreases cols.len(),
{
    if cols.len() == 0 {
        Seq::<u8>::empty()
    } else {
        ppm_body_spec(cols.drop_last(), spp) + color_line_spec(cols.last(), spp)
    }
}

/// The plain text image header: magic number, dimensions, channel maximum.
pub open spec fn ppm_header_spec(w: int, h: int) -> Seq<u8> {
    seq![80u8, 51u8, 10u8] + crate::color::dec_spec(w as nat) + seq![32u8]
        + crate::color::dec_spec(h as nat) + seq![10u8] + seq![50u8, 53u8, 53u8, 10u8]
}

/// Append the image header for a `w` by `h` image.
pub fn write_ppm_header(out: &mut Vec<u8>, w: u32, h: u32)
    ensures
        final(out)@ == old(out)@ + ppm_header_spec(w as int, h as int),
{
    out.push(80);
    out.push(51);
    out.push(10);
    crate::color::push_decimal(out, w);
    out.push(32);
    crate::color::push_decimal(out, h);
    out.push(10);
    out.push(50);
    out.push(53);
    out.push(53);
    out.push(10);
    proof {
        assert(final(out)@ =~= old(out)@ + ppm_header_spec(w as int, h as int));
    }
}

/// Render the scene: rows from the top of the image down, columns left to
/// right, each pixel the average of `samples_per_pixel` jittered samples
/// through the camera and the integrator.  The result is a complete image:
/// the header followed by exactly one quantized line per pixel.
pub fn render(
    world: &HittableList,
    cam: &Camera,
    image_width: u32,
    image_height: u32,
    samples_per_pixel: i32,
    max_depth: i32,
    rng: &mut rand::rngs::StdRng,
) -> (out: Vec<u8>)
    ensures
        exists|cols: Seq<V3>|
            cols.len() == image_width * image_height && out@ == ppm_header_spec(
                image_width as int,
                image_height as int,
            ) + #[trigger] ppm_body_spec(cols, samples_per_pixel as int),
{
    let mut out: Vec<u8> = Vec::new();
    write_ppm_header(&mut out, image_width, image_height);
    let ghost header = out@;
    let ghost mut cols: Seq<V3> = Seq::empty();

    let w_minus_1 = Fix::from_int(image_width as i64 - 1);
    let h_minus_1 = Fix::from_int(image_height as i64 - 1);

    let mut j: u32 = image_height;
    while j > 0
        invariant
            j <= image_height,
            cols.len() == (image_height - j) * image_width,
            out@ == header + ppm_body_spec(cols, samples_per_pixel as int),
            w_minus_1@ == crate::fixed::sat((image_width as int - 1) * 1_000_000),
            h_minus_1@ == crate::fixed::sat((image_height as int - 1) * 1_000_000),
        decreases j,
    {
        j = j - 1;
        let mut i: u32 = 0;
        while i < image_width
            invariant
                i <= image_width,
                j < image_height,
                cols.len() == (image_height - 1 - j) * image_width + i,
                out@ == header + ppm_body_spec(cols, samples_per_pixel as int),
                w_minus_1@ == crate::fixed::sat((image_width as int - 1) * 1_000_000),
                h_minus_1@ == crate::fixed::sat((image_height as int - 1) * 1_000_000),
            decreases image_width - i,
        {
            let mut color = Vec3::only(Fix::zero());
            let mut s: i32 = 0;
            while s < samples_per_pixel
                invariant
                    true,
                decreases samples_per_pixel - s,
            {
                let u = Fix::from_int(i as i64).add(random_double(rng)).div(w_minus_1);
                let v = Fix::from_int(j as i64).add(random_double(rng)).div(h_minus_1);
                let r = cam.get_ray(u, v, rng);
                color = color.add(ray_color(&r, world, max_depth, rng));
                s = s + 1;
            }
            let ghost cols_before = cols;
            write_color(&mut out, color, samples_per_pixel);
            proof {
                cols = cols.push(color@);
                assert(cols.drop_last() =~= cols_before);
                assert(cols.last() == color@);
            }
            i = i + 1;
        }
        proof {
            assert((image_height - 1 - j) * (image_width as int) + image_width == (image_height - j)
                * (image_width as int)) by (nonlinear_arith);
        }
    }
    proof {
        assert(cols.len() == (image_height as int) * (image_width as int)) by (nonlinear_arith)
            requires
                cols.len() == (image_height - 0) * (image_width as int),
        ;
        assert(cols.len() == (image_width as int) * (image_height as int)) by (nonlinear_arith)
            requires
                cols.len() == (image_height as int) * (image_width as int),
        ;
    }
    out
}

} // verus!
