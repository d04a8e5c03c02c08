//! The intersection protocol: what a successful ray-object hit reports.

use vstd::prelude::*;

use crate::fixed::{fx_neg, Fix};
use crate::material::Material;
use crate::ray::Ray;
use crate::vec3::{lemma_dot_neg_right, v_dot, v_neg, v_ok, Vec3, V3};

verus! {

/// The record of one intersection: the hit point, the orientation-corrected
/// unit normal, the ray parameter, whether the geometric outward normal
/// already opposed the ray, and the material met there.
#[derive(Clone, Copy, Debug, PartialEq, Eq, Structural)]
pub struct HitRecord {
    pub p: Vec3,
    pub normal: Vec3,
    pub t: Fix,
    pub font_face: bool,
    pub material: Material,
}

/// The stored normal: the geometric outward normal, flipped when it does
/// not already oppose the incoming ray.
pub open spec fn face_normal_spec(ray_dir: V3, outward: V3) -> V3 {
    if v_dot(ray_dir, outward) < 0 {
        outward
    } else {
        v_neg(outward)
    }
}

impl HitRecord {
    pub fn set_face_normal(&mut self, r: &Ray, outward_normal: &Vec3)
        ensures
            final(self).font_face == (v_dot(r@.dir, outward_normal@) < 0),
            final(self).normal@ == face_normal_spec(r@.dir, outward_normal@),
            final(self).p == old(self).p,
            final(self).t == old(self).t,
            final(self).material == old(self).material,
    {
        self.font_face = r.direction().dot(outward_normal).lt(Fix::zero());
        self.normal = if self.font_face {
            *outward_normal
        } else {
            outward_normal.neg()
        };
    }

    pub fn new_with_face_normal(
        t: Fix,
        point: Vec3,
        outward_normal: Vec3,
        material: Material,
        ray: &Ray,
    ) -> (r: HitRecord)
        ensures
            r.t == t,
            r.p == point,
            r.material == material,
            r.font_face == (v_dot(ray@.dir, outward_normal@) < 0),
            r.normal@ == face_normal_spec(ray@.dir, outward_normal@),
            v_ok(outward_normal@) ==> v_dot(ray@.dir, r.normal@) <= 0,
    {
        let font_face = ray.direction().dot(&outward_normal).lt(Fix::zero());
        let normal = if font_face {
            outward_normal
        } else {
            outward_normal.neg()
        };
        proof {
            if !font_face && v_ok(outward_normal@) {
                lemma_dot_neg_right(ray@.dir, outward_normal@);
                assert(v_dot(ray@.dir, v_neg(outward_normal@)) == fx_neg(
                    v_dot(ray@.dir, outward_normal@),
                ));
            }
        }
        HitRecord { p: point, normal, t, font_face, material }
    }
}

} // verus!
