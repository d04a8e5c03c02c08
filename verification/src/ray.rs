//! Rays: an origin with a direction, evaluated parametrically.

use vstd::prelude::*;

use crate::fixed::Fix;
use crate::vec3::{v3, v_add, v_scale, Vec3, V3};

verus! {

/// Spec-level image of a ray.
pub ghost struct RayV {
    pub orig: V3,
    pub dir: V3,
}

/// `origin + t * direction`.
pub open spec fn ray_at_spec(r: RayV, t: int) -> V3 {
    v_add(r.orig, v_scale(r.dir, t))
}

#[derive(Clone, Copy, Debug, PartialEq, Eq, Structural)]
pub struct Ray {
    pub orig: Vec3,
    pub dir: Vec3,
}

impl View for Ray {
    type V = RayV;

    open spec fn view(&self) -> RayV {
        RayV { orig: self.orig@, dir: self.dir@ }
    }
}

impl Ray {
    pub fn new(origin: Vec3, direction: Vec3) -> (r: Ray)
        ensures
            r@.orig == origin@,
            r@.dir == direction@,
    {
        Ray { orig: origin, dir: direction }
    }

    pub fn origin(&self) -> (r: Vec3)
        ensures
            r@ == self@.orig,
    {
        self.orig
    }

    pub fn direction(&self) -> (r: Vec3)
        ensures
            r@ == self@.dir,
    {
        self.dir
    }

    pub fn at(&self, t: Fix) -> (r: Vec3)
        ensures
            r@ == ray_at_spec(self@, t@),
    {
        self.orig.add(self.dir.scale(t))
    }
}

} // verus!
