//! The camera: an orthonormal view basis with a viewport, emitting one ray
//! per screen sample, with an optional lens disk for depth of field.

use vstd::prelude::*;

use crate::fixed::{fx_add, fx_div, fx_mul, Fix, ONE_RAW};
use crate::ray::{Ray, RayV};
use crate::trig::{tan, tan_spec};
use crate::utils::{deg_to_rad_spec, degrees_to_radians};
use crate::vec3::{
    v3, v_add, v_cross, v_div, v_scale, v_sub, v_unit, Vec3, TWO_RAW, V3,
};

verus! {

/// Spec-level image of a camera.
pub ghost struct CamV {
    pub origin: V3,
    pub lower_left_corner: V3,
    pub horizontal: V3,
    pub vertical: V3,
    pub u: V3,
    pub v: V3,
    pub w: V3,
    pub lens_radius: int,
}

/// The derived camera state, step for step as the constructor computes it.
pub open spec fn camera_new_spec(
    lookfrom: V3,
    lookat: V3,
    vup: V3,
    vfov: int,
    aspect_ratio: int,
    aperture: int,
    focus_dist: int,
) -> CamV {
    let theta = deg_to_rad_spec(vfov);
    let h = tan_spec(fx_div(theta, TWO_RAW as int));
    let viewport_height = fx_mul(TWO_RAW as int, h);
    let viewport_width = fx_mul(aspect_ratio, viewport_height);
    let w = v_unit(v_sub(lookfrom, lookat));
    let u = v_unit(v_cross(vup, w));
    let v = v_cross(w, u);
    let origin = lookfrom;
    let horizontal = v_scale(v_scale(u, viewport_width), focus_dist);
    let vertical = v_scale(v_scale(v, viewport_height), focus_dist);
    let lower_left_corner = v_sub(
        v_sub(
            v_sub(origin, v_div(horizontal, TWO_RAW as int)),
            v_div(vertical, TWO_RAW as int),
        ),
        v_scale(w, focus_dist),
    );
    CamV {
        origin,
        lower_left_corner,
        horizontal,
        vertical,
        u,
        v,
        w,
        lens_radius: fx_div(aperture, TWO_RAW as int),
    }
}

/// The lens offset for a disk sample: the sample scaled by the lens radius
/// and spread over the screen basis.
pub open spec fn offset_spec(cam: CamV, d: V3) -> V3 {
    let rd = v_scale(d, cam.lens_radius);
    v_add(v_scale(cam.u, rd.x), v_scale(cam.v, rd.y))
}

/// The ray for screen coordinates `(s, t)` and lens sample `d`.
pub open spec fn get_ray_spec(cam: CamV, s: int, t: int, d: V3) -> RayV {
    let offset = offset_spec(cam, d);
    RayV {
        orig: v_add(cam.origin, offset),
        dir: v_sub(
            v_sub(
                v_add(v_add(cam.lower_left_corner, v_scale(cam.horizontal, s)), v_scale(cam.vertical, t)),
                cam.origin,
            ),
            offset,
        ),
    }
}

/// Scaling anything by the scalar zero yields zero exactly.
proof fn lemma_fx_mul_zero(a: int)
    ensures
        fx_mul(a, 0) == 0,
{
    assert(a * 0 == 0) by (nonlinear_arith);
}

/// A pinhole camera ignores the lens draw entirely: with a zero lens
/// radius the offset is the zero vector for every sample.
pub proof fn lemma_pinhole_offset(cam: CamV, d: V3)
    requires
        cam.lens_radius == 0,
    ensures
        offset_spec(cam, d) == v3(0, 0, 0),
        get_ray_spec(cam, 0, 0, d) == get_ray_spec(cam, 0, 0, v3(0, 0, 0)),
{
    lemma_fx_mul_zero(d.x);
    lemma_fx_mul_zero(d.y);
    lemma_fx_mul_zero(d.z);
    lemma_fx_mul_zero(cam.u.x);
    lemma_fx_mul_zero(cam.u.y);
    lemma_fx_mul_zero(cam.u.z);
    lemma_fx_mul_zero(cam.v.x);
    lemma_fx_mul_zero(cam.v.y);
    lemma_fx_mul_zero(cam.v.z);
    assert(offset_spec(cam, d) == v3(0, 0, 0));
    assert(offset_spec(cam, v3(0, 0, 0)) == v3(0, 0, 0));
}

#[derive(Clone, Copy, Debug, PartialEq, Eq, Structural)]
pub struct Camera {
    pub origin: Vec3,
    pub lower_left_corner: Vec3,
    pub horizontal: Vec3,
    pub vertical: Vec3,
    pub u: Vec3,
    pub v: Vec3,
    pub w: Vec3,
    pub lens_radius: Fix,
}

impl View for Camera {
    type V = CamV;

    open spec fn view(&self) -> CamV {
        CamV {
            origin: self.origin@,
            lower_left_corner: self.lower_left_corner@,
            horizontal: self.horizontal@,
            vertical: self.vertical@,
            u: self.u@,
            v: self.v@,
            w: self.w@,
            lens_radius: self.lens_radius@,
        }
    }
}

impl Camera {
    /// One ray through normalized screen coordinates `(u, v)`, its origin
    /// jittered over the lens disk; with a zero aperture the draw cannot
    /// move the ray.
    pub fn get_ray(&self, u: Fix, v: Fix, rng: &mut rand::rngs::StdRng) -> (r: Ray)
        ensures
            exists|d: V3|
                fx_add(fx_mul(d.x, d.x), fx_mul(d.y, d.y)) < ONE_RAW as int && d.z == 0 && r@
                    == #[trigger] get_ray_spec(self@, u@, v@, d),
            self.lens_radius@ == 0 ==> r@ == get_ray_spec(self@, u@, v@, v3(0, 0, 0)),
    {
        let sample = Vec3::random_in_unit_disk(rng);
        let rd = sample.scale(self.lens_radius);
        let offset = self.u.scale(rd.x).add(self.v.scale(rd.y));
        let out = Ray::new(
            self.origin.add(offset),
            self.lower_left_corner.add(self.horizontal.scale(u)).add(self.vertical.scale(v)).sub(
                self.origin,
            ).sub(offset),
        );
        proof {
            assert(out@ == get_ray_spec(self@, u@, v@, sample@));
            if self.lens_radius@ == 0 {
                lemma_pinhole_offset(self@, sample@);
            }
        }
        out
    }

    /// Build the camera from its parameters: view basis from the look
    /// direction and up vector, viewport from the field of view, focus
    /// scaling, and half the aperture as lens radius.
    pub fn new(
        lookfrom: Vec3,
        lookat: Vec3,
        vup: Vec3,
        vfov: Fix,
        aspect_ratio: Fix,
        aperture: Fix,
        focus_dist: Fix,
    ) -> (cam: Camera)
        ensures
            cam@ == camera_new_spec(
                lookfrom@,
                lookat@,
                vup@,
                vfov@,
                aspect_ratio@,
                aperture@,
                focus_dist@,
            ),
    {
        let two = Fix::from_raw(TWO_RAW);
        let thea = degrees_to_radians(vfov);
        let h = tan(thea.div(two));
        let viewport_height = two.mul(h);
        let viewport_width = aspect_ratio.mul(viewport_height);

        let w = lookfrom.sub(lookat).unit_vector();
        let u = vup.cross(&w).unit_vector();
        let v = w.cross(&u);

        let origin = lookfrom;
        let horizontal = u.scale(viewport_width).scale(focus_dist);
        let vertical = v.scale(viewport_height).scale(focus_dist);
        let lower_left_corner = origin.sub(horizontal.div(two)).sub(vertical.div(two)).sub(
            w.scale(focus_dist),
        );
        let lens_radius = aperture.div(two);

        Camera { origin, horizontal, vertical, lower_left_corner, u, v, w, lens_radius }
    }
}

} // verus!
