//! The one geometric primitive: a sphere, intersected by solving the
//! ray-sphere quadratic.

use vstd::prelude::*;

use crate::fixed::{abs_i, fix_of, fx_add, fx_div, fx_mul, fx_neg, fx_sqrt, fx_sub, Fix, MAX_RAW};
use crate::hittable::{face_normal_spec, HitRecord};
use crate::material::Material;
use crate::ray::{ray_at_spec, Ray, RayV};
use crate::vec3::{v_div, v_dot, v_len_sq, v_ok, v_sub, vec_of, Vec3, V3};

verus! {

/// A sphere with its owned material.  A negative radius is legitimate (it
/// turns the normal inward for hollow spheres); a zero radius degenerates
/// as the divisions below define.
#[derive(Clone, Copy, Debug, PartialEq, Eq, Structural)]
pub struct Sphere {
    pub center: Vec3,
    pub radius: Fix,
    pub material: Material,
}

impl Sphere {
    pub fn new(cen: Vec3, r: Fix, m: Material) -> (s: Sphere)
        ensures
            s.center == cen,
            s.radius == r,
            s.material == m,
    {
        Sphere { center: cen, radius: r, material: m }
    }
}

/// The solved ray-sphere quadratic: the nearest root strictly inside the
/// open window, its hit point, and the geometric outward normal; `None`
/// when the discriminant is negative or both roots fall outside.  The open
/// upper end is what lets the scene scan keep the first of two hits at the
/// same distance.
pub open spec fn sphere_roots_spec(
    ray: RayV,
    center: V3,
    radius: int,
    t_min: int,
    t_max: int,
) -> Option<(int, V3, V3)> {
    let oc = v_sub(ray.orig, center);
    let a = v_len_sq(ray.dir);
    let half_b = v_dot(oc, ray.dir);
    let c = fx_sub(v_len_sq(oc), fx_mul(radius, radius));
    let disc = fx_sub(fx_mul(half_b, half_b), fx_mul(a, c));
    if disc < 0 {
        None
    } else {
        let sqrt_d = fx_sqrt(disc);
        let root1 = fx_div(fx_sub(fx_neg(half_b), sqrt_d), a);
        if t_min < root1 && root1 < t_max {
            let point = ray_at_spec(ray, root1);
            Some((root1, point, v_div(v_sub(point, center), radius)))
        } else {
            let root2 = fx_div(fx_add(fx_neg(half_b), sqrt_d), a);
            if t_min < root2 && root2 < t_max {
                let point = ray_at_spec(ray, root2);
                Some((root2, point, v_div(v_sub(point, center), radius)))
            } else {
                None
            }
        }
    }
}

/// The hit record a sphere reports, as a value: the solved quadratic with
/// the face-normal correction applied.
pub open spec fn sphere_hit_rec(s: Sphere, ray: Ray, t_min: int, t_max: int) -> Option<HitRecord> {
    match sphere_roots_spec(ray@, s.center@, s.radius@, t_min, t_max) {
        None => None,
        Some((t, p, outward)) => Some(
            HitRecord {
                p: vec_of(p),
                normal: vec_of(face_normal_spec(ray@.dir, outward)),
                t: fix_of(t),
                font_face: v_dot(ray@.dir, outward) < 0,
                material: s.material,
            },
        ),
    }
}

/// Solve the quadratic for a ray against the sphere `(center, radius)`,
/// returning the nearest root strictly between `t_min` and `t_max` with
/// its hit point and outward normal.
pub fn solve_sphere_equation(ray: &Ray, center: Vec3, radius: Fix, t_min: Fix, t_max: Fix) -> (r:
    Option<(Fix, Vec3, Vec3)>)
    ensures
        ({
            let s = sphere_roots_spec(ray@, center@, radius@, t_min@, t_max@);
            &&& (r is Some <==> s is Some)
            &&& r is Some ==> (r->0).0@ == (s->0).0 && (r->0).1@ == (s->0).1 && (r->0).2@
                == (s->0).2
        }),
{
    let oc = ray.origin().sub(center);
    let a = ray.direction().length_squared();
    let half_b = oc.dot(&ray.direction());
    let c = oc.length_squared().sub(radius.mul(radius));

    let discriminant = half_b.mul(half_b).sub(a.mul(c));
    if discriminant.lt(Fix::zero()) {
        return None;
    }

    let sqrt_d = discriminant.sqrt();
    let mut root = half_b.neg().sub(sqrt_d).div(a);
    if root.le(t_min) || root.ge(t_max) {
        root = half_b.neg().add(sqrt_d).div(a);
        if root.le(t_min) || root.ge(t_max) {
            return None;
        }
    }

    let point = ray.at(root);
    Some((root, point, point.sub(center).div(radius)))
}

impl Sphere {
    /// The nearest intersection in the window, as an orientation-corrected
    /// hit record; the stored normal never points with the ray.
    pub fn hit(&self, ray: &Ray, t_min: Fix, t_max: Fix) -> (r: Option<HitRecord>)
        ensures
            r == sphere_hit_rec(*self, *ray, t_min@, t_max@),
            r is Some ==> v_dot(ray@.dir, (r->0).normal@) <= 0,
    {
        match solve_sphere_equation(ray, self.center, self.radius, t_min, t_max) {
            None => None,
            Some((root, point, outward_normal)) => {
                proof {
                    assert(v_ok(outward_normal@));
                }
                Some(
                    HitRecord::new_with_face_normal(root, point, outward_normal, self.material, ray),
                )
            },
        }
    }
}

/// Exact-arithmetic form of the unit-normal law: every root of the
/// ray-sphere quadratic places the hit point exactly `radius` from the
/// center, so the geometric outward normal has unit length.
///
/// With `a = d . d`, `hb = oc . d` and `c = oc . oc - radius^2`, a real
/// root `t = n / a` of the quadratic satisfies `n^2 + 2 hb n + a c == 0`
/// (both signs of the square root do).  The vector from the center to the
/// hit point, cleared of denominators, is `a oc + n d`, and its squared
/// length comes out as exactly `(a radius)^2`.
pub proof fn lemma_hit_point_on_sphere(
    dx: int,
    dy: int,
    dz: int,
    ocx: int,
    ocy: int,
    ocz: int,
    radius: int,
    n: int,
)
    requires
        n * n + 2 * (ocx * dx + ocy * dy + ocz * dz) * n + (dx * dx + dy * dy + dz * dz) * ((ocx
            * ocx + ocy * ocy + ocz * ocz) - radius * radius) == 0,
    ensures
        ({
            let a = dx * dx + dy * dy + dz * dz;
            (a * ocx + n * dx) * (a * ocx + n * dx) + (a * ocy + n * dy) * (a * ocy + n * dy) + (a
                * ocz + n * dz) * (a * ocz + n * dz) == (a * radius) * (a * radius)
        }),
{
    let a = dx * dx + dy * dy + dz * dz;
    let hb = ocx * dx + ocy * dy + ocz * dz;
    let c = (ocx * ocx + ocy * ocy + ocz * ocz) - radius * radius;
    lemma_add_sq_expand(a, n, ocx, dx);
    lemma_add_sq_expand(a, n, ocy, dy);
    lemma_add_sq_expand(a, n, ocz, dz);
    assert((a * a) * (ocx * ocx) + (a * a) * (ocy * ocy) + (a * a) * (ocz * ocz) == (a * a) * (c
        + radius * radius)) by (nonlinear_arith)
        requires
            (ocx * ocx + ocy * ocy + ocz * ocz) - radius * radius == c,
    ;
    assert(2 * (a * (n * (ocx * dx))) + 2 * (a * (n * (ocy * dy))) + 2 * (a * (n * (ocz * dz))) == a
        * (2 * hb * n)) by (nonlinear_arith)
        requires
            ocx * dx + ocy * dy + ocz * dz == hb,
    ;
    assert((n * n) * (dx * dx) + (n * n) * (dy * dy) + (n * n) * (dz * dz) == a * (n * n))
        by (nonlinear_arith)
        requires
            dx * dx + dy * dy + dz * dz == a,
    ;
    assert((a * a) * (c + radius * radius) + a * (2 * hb * n) + a * (n * n) == (a * radius) * (a
        * radius)) by (nonlinear_arith)
        requires
            n * n + 2 * hb * n + a * c == 0,
    ;
}

/// `(a u + n d)^2` expanded.
proof fn lemma_add_sq_expand(a: int, n: int, u: int, d: int)
    ensures
        (a * u + n * d) * (a * u + n * d) == (a * a) * (u * u) + 2 * (a * (n * (u * d))) + (n * n)
            * (d * d),
{
    assert((a * u + n * d) * (a * u + n * d) == (a * a) * (u * u) + 2 * (a * (n * (u * d))) + (n
        * n) * (d * d)) by (nonlinear_arith);
}

/// Exact-arithmetic form of the head-on intersection law.
///
/// A unit direction is scaled by `s`; the ray origin sits at distance
/// `dist` from the center, aimed straight at it, so `s * oc == -dist * d`
/// componentwise.  Then the quadratic's pieces collapse: `half_b` is
/// `-dist * s`, the discriminant is the perfect square `(s * radius)^2`,
/// the nearest-root numerator equals `(dist - radius) * s` (the root is
/// `dist - radius` once the division by `a = s^2` and the scale cancel),
/// and the hit point lies exactly `radius` from the center.
pub proof fn lemma_ray_through_center(
    dx: int,
    dy: int,
    dz: int,
    ocx: int,
    ocy: int,
    ocz: int,
    s: int,
    dist: int,
    radius: int,
)
    requires
        s > 0,
        dx * dx + dy * dy + dz * dz == s * s,
        s * ocx == -dist * dx,
        s * ocy == -dist * dy,
        s * ocz == -dist * dz,
        0 < radius <= dist,
    ensures
        ocx * dx + ocy * dy + ocz * dz == -dist * s,
        ocx * ocx + ocy * ocy + ocz * ocz == dist * dist,
        (ocx * dx + ocy * dy + ocz * dz) * (ocx * dx + ocy * dy + ocz * dz) - (dx * dx + dy * dy
            + dz * dz) * ((ocx * ocx + ocy * ocy + ocz * ocz) - radius * radius) == (s * radius) * (
        s * radius),
        -(ocx * dx + ocy * dy + ocz * dz) - s * radius == (dist - radius) * s,
        (s * ocx + (dist - radius) * dx) * (s * ocx + (dist - radius) * dx) + (s * ocy + (dist
            - radius) * dy) * (s * ocy + (dist - radius) * dy) + (s * ocz + (dist - radius) * dz) * (
        s * ocz + (dist - radius) * dz) == (radius * s) * (radius * s),
{
    assert(s * (ocx * dx) == -dist * (dx * dx)) by (nonlinear_arith)
        requires
            s * ocx == -dist * dx,
    ;
    assert(s * (ocy * dy) == -dist * (dy * dy)) by (nonlinear_arith)
        requires
            s * ocy == -dist * dy,
    ;
    assert(s * (ocz * dz) == -dist * (dz * dz)) by (nonlinear_arith)
        requires
            s * ocz == -dist * dz,
    ;
    assert(s * (ocx * dx + ocy * dy + ocz * dz) == s * (-dist * s)) by (nonlinear_arith)
        requires
            s * (ocx * dx) == -dist * (dx * dx),
            s * (ocy * dy) == -dist * (dy * dy),
            s * (ocz * dz) == -dist * (dz * dz),
            dx * dx + dy * dy + dz * dz == s * s,
    ;
    assert(ocx * dx + ocy * dy + ocz * dz == -dist * s) by (nonlinear_arith)
        requires
            s * (ocx * dx + ocy * dy + ocz * dz) == s * (-dist * s),
            s > 0,
    ;
    assert((s * s) * (ocx * ocx) == (dist * dist) * (dx * dx)) by (nonlinear_arith)
        requires
            s * ocx == -dist * dx,
    ;
    assert((s * s) * (ocy * ocy) == (dist * dist) * (dy * dy)) by (nonlinear_arith)
        requires
            s * ocy == -dist * dy,
    ;
    assert((s * s) * (ocz * ocz) == (dist * dist) * (dz * dz)) by (nonlinear_arith)
        requires
            s * ocz == -dist * dz,
    ;
    assert((s * s) * (ocx * ocx + ocy * ocy + ocz * ocz) == (s * s) * (dist * dist))
        by (nonlinear_arith)
        requires
            (s * s) * (ocx * ocx) == (dist * dist) * (dx * dx),
            (s * s) * (ocy * ocy) == (dist * dist) * (dy * dy),
            (s * s) * (ocz * ocz) == (dist * dist) * (dz * dz),
            dx * dx + dy * dy + dz * dz == s * s,
    ;
    assert(ocx * ocx + ocy * ocy + ocz * ocz == dist * dist) by (nonlinear_arith)
        requires
            (s * s) * (ocx * ocx + ocy * ocy + ocz * ocz) == (s * s) * (dist * dist),
            s > 0,
    ;
    assert((-dist * s) * (-dist * s) - (s * s) * (dist * dist - radius * radius) == (s * radius) * (
    s * radius)) by (nonlinear_arith);
    assert(-(-dist * s) - s * radius == (dist - radius) * s) by (nonlinear_arith);
    assert(s * ocx + (dist - radius) * dx == -radius * dx) by (nonlinear_arith)
        requires
            s * ocx == -dist * dx,
    ;
    assert(s * ocy + (dist - radius) * dy == -radius * dy) by (nonlinear_arith)
        requires
            s * ocy == -dist * dy,
    ;
    assert(s * ocz + (dist - radius) * dz == -radius * dz) by (nonlinear_arith)
        requires
            s * ocz == -dist * dz,
    ;
    assert((-radius * dx) * (-radius * dx) == (radius * radius) * (dx * dx)) by (nonlinear_arith);
    assert((-radius * dy) * (-radius * dy) == (radius * radius) * (dy * dy)) by (nonlinear_arith);
    assert((-radius * dz) * (-radius * dz) == (radius * radius) * (dz * dz)) by (nonlinear_arith);
    assert((radius * radius) * (dx * dx) + (radius * radius) * (dy * dy) + (radius * radius) * (dz
        * dz) == (radius * s) * (radius * s)) by (nonlinear_arith)
        requires
            dx * dx + dy * dy + dz * dz == s * s,
    ;
}

} // verus!
