//! Material scattering laws: diffuse, metal, dielectric.
//!
//! Each law is split into its deterministic core, which takes any random
//! draw as an explicit argument and carries an exact contract, and a
//! sampling wrapper that feeds it a fresh draw.

use vstd::prelude::*;

use crate::fixed::{fx_add, fx_div, fx_min, fx_mul, fx_neg, fx_sqrt, fx_sub, Fix, ONE_RAW};
use crate::hittable::HitRecord;
use crate::ray::Ray;
use crate::utils::random_double;
use crate::vec3::{
    v3, v_add, v_dot, v_len_sq, v_near_zero, v_neg, v_reflect, v_refract, v_scale, v_unit, Vec3,
    V3,
};

verus! {

/// Diffuse scatter direction for a given sample: the corrected normal plus
/// the sample, falling back to the normal when the sum cancels to nothing.
pub open spec fn diffuse_dir_spec(normal: V3, u: V3) -> V3 {
    if v_near_zero(v_add(normal, u)) {
        normal
    } else {
        v_add(normal, u)
    }
}

/// Metal scatter direction for a given sample: the mirrored ray direction
/// perturbed by the fuzz-scaled sample.
pub open spec fn metal_dir_spec(reflected: V3, fuzz: int, sample: V3) -> V3 {
    v_add(reflected, v_scale(sample, fuzz))
}

/// Base reflectivity of a dielectric boundary.
pub open spec fn schlick_r0(idx: int) -> int {
    fx_div(fx_sub(ONE_RAW as int, idx), fx_add(ONE_RAW as int, idx))
}

/// Fifth power by squaring, the order the reflectance evaluation uses.
pub open spec fn fx_pow5(x: int) -> int {
    fx_mul(fx_mul(fx_mul(x, x), fx_mul(x, x)), x)
}

/// Schlick's reflectance polynomial.
pub open spec fn schlick_spec(cos: int, idx: int) -> int {
    let r0 = fx_mul(schlick_r0(idx), schlick_r0(idx));
    fx_add(r0, fx_mul(fx_sub(ONE_RAW as int, r0), fx_pow5(fx_sub(ONE_RAW as int, cos))))
}

/// At normal incidence the Schlick reflectance is exactly the squared base
/// reflectivity: the angular term vanishes.
pub proof fn lemma_schlick_normal_incidence(idx: int)
    ensures
        schlick_spec(ONE_RAW as int, idx) == fx_mul(schlick_r0(idx), schlick_r0(idx)),
{
    assert(fx_sub(ONE_RAW as int, ONE_RAW as int) == 0);
    assert(fx_pow5(0) == 0);
    let r0 = fx_mul(schlick_r0(idx), schlick_r0(idx));
    assert(fx_mul(fx_sub(ONE_RAW as int, r0), 0) == 0);
    assert(fx_add(r0, 0) == r0);
}

/// Dielectric scatter direction for a given reflectance sample.
pub open spec fn dielectric_dir_spec(
    ir: int,
    front_face: bool,
    ray_dir: V3,
    normal: V3,
    sample: int,
) -> V3 {
    let ratio = if front_face {
        fx_div(ONE_RAW as int, ir)
    } else {
        ir
    };
    let unit_dir = v_unit(ray_dir);
    let cos_theta = fx_min(v_dot(v_neg(unit_dir), normal), ONE_RAW as int);
    let sin_theta = fx_sqrt(fx_sub(ONE_RAW as int, fx_mul(cos_theta, cos_theta)));
    let cannot_refract = fx_mul(ratio, sin_theta) > ONE_RAW as int;
    if cannot_refract || schlick_spec(cos_theta, ratio) > sample {
        v_reflect(unit_dir, normal)
    } else {
        v_refract(unit_dir, normal, ratio)
    }
}

#[derive(Clone, Copy, Debug, PartialEq, Eq, Structural)]
pub struct Diffuse {
    pub albedo: Vec3,
}

impl Diffuse {
    pub fn new(a: Vec3) -> (r: Diffuse)
        ensures
            r.albedo == a,
    {
        Diffuse { albedo: a }
    }

    /// A diffuse surface never absorbs: the result is always a scattered
    /// ray from the hit point, tinted by the albedo, whose direction
    /// follows the diffuse law for some point of the unit sphere.
    pub fn scatter(&self, r_in: &Ray, rec: &HitRecord, rng: &mut rand::rngs::StdRng) -> (r: Option<
        (Vec3, Ray),
    >)
        ensures
            r is Some,
            (r->0).0 == self.albedo,
            (r->0).1@.orig == rec.p@,
            exists|p: V3|
                v_len_sq(p) < ONE_RAW as int && (r->0).1@.dir == #[trigger] diffuse_dir_spec(
                    rec.normal@,
                    v_unit(p),
                ),
    {
        let u = Vec3::random_unit_vector(rng);
        let mut scatter_direction = rec.normal.add(u);
        if scatter_direction.near_zero() {
            scatter_direction = rec.normal;
        }
        let out = Ray::new(rec.p, scatter_direction);
        proof {
            let p = choose|p: V3| #[trigger] v_unit(p) == u@ && v_len_sq(p) < ONE_RAW as int;
            assert(out@.dir == diffuse_dir_spec(rec.normal@, v_unit(p)));
        }
        Some((self.albedo, out))
    }
}

#[derive(Clone, Copy, Debug, PartialEq, Eq, Structural)]
pub struct Metal {
    pub albedo: Vec3,
    pub fuzz: Fix,
}

impl Metal {
    /// The fuzz parameter is clamped to at most one at construction.
    pub fn new(a: Vec3, f: Fix) -> (r: Metal)
        ensures
            r.albedo == a,
            r.fuzz@ == if f@ < ONE_RAW as int {
                f@
            } else {
                ONE_RAW as int
            },
    {
        Metal {
            albedo: a,
            fuzz: if f.lt(Fix::one()) {
                f
            } else {
                Fix::one()
            },
        }
    }

    /// The deterministic core of metal scattering: given the fuzz sample,
    /// the ray is absorbed exactly when the perturbed reflection no longer
    /// points away from the surface.
    pub fn scatter_with(&self, r_in: &Ray, rec: &HitRecord, sample: &Vec3) -> (r: Option<
        (Vec3, Ray),
    >)
        ensures
            ({
                let dir = metal_dir_spec(
                    v_reflect(v_unit(r_in@.dir), rec.normal@),
                    self.fuzz@,
                    sample@,
                );
                &&& (r is Some <==> v_dot(dir, rec.normal@) > 0)
                &&& r is Some ==> (r->0).0 == self.albedo && (r->0).1@.orig == rec.p@
                    && (r->0).1@.dir == dir
            }),
    {
        let reflected = r_in.direction().unit_vector().reflect(&rec.normal);
        let scattered = Ray::new(rec.p, reflected.add(sample.scale(self.fuzz)));
        if scattered.direction().dot(&rec.normal).gt(Fix::zero()) {
            Some((self.albedo, scattered))
        } else {
            None
        }
    }

    /// Metal scattering with a fresh sphere sample: whatever was drawn, a
    /// scattered ray leaves the hit point away from the surface or the ray
    /// is absorbed.
    pub fn scatter(&self, r_in: &Ray, rec: &HitRecord, rng: &mut rand::rngs::StdRng) -> (r: Option<
        (Vec3, Ray),
    >)
        ensures
            r is Some ==> (r->0).0 == self.albedo && (r->0).1@.orig == rec.p@ && v_dot(
                (r->0).1@.dir,
                rec.normal@,
            ) > 0,
            r is Some ==> exists|s: V3|
                v_len_sq(s) < ONE_RAW as int && (r->0).1@.dir == #[trigger] metal_dir_spec(
                    v_reflect(v_unit(r_in@.dir), rec.normal@),
                    self.fuzz@,
                    s,
                ),
            r is None ==> exists|s: V3|
                v_len_sq(s) < ONE_RAW as int && v_dot(
                    #[trigger] metal_dir_spec(
                        v_reflect(v_unit(r_in@.dir), rec.normal@),
                        self.fuzz@,
                        s,
                    ),
                    rec.normal@,
                ) <= 0,
    {
        let sample = Vec3::random_in_unit_sphere(rng);
        self.scatter_with(r_in, rec, &sample)
    }
}

#[derive(Clone, Copy, Debug, PartialEq, Eq, Structural)]
pub struct Dieletric {
    pub ir: Fix,
}

impl Dieletric {
    pub fn new(index_of_refraction: Fix) -> (r: Dieletric)
        ensures
            r.ir == index_of_refraction,
    {
        Dieletric { ir: index_of_refraction }
    }

    /// Schlick's polynomial approximation of the Fresnel reflectance.
    pub fn reflectance(cosine: Fix, ref_idx: Fix) -> (r: Fix)
        ensures
            r@ == schlick_spec(cosine@, ref_idx@),
    {
        let one = Fix::one();
        let mut r0 = one.sub(ref_idx).div(one.add(ref_idx));
        r0 = r0.mul(r0);
        let base = one.sub(cosine);
        let sq = base.mul(base);
        let pow5 = sq.mul(sq).mul(base);
        r0.add(one.sub(r0).mul(pow5))
    }

    /// A dielectric never absorbs: the result is always a full-strength
    /// scattered ray from the hit point, reflected or refracted by the
    /// Schlick test against one uniform draw.
    pub fn scatter(&self, r_in: &Ray, rec: &HitRecord, rng: &mut rand::rngs::StdRng) -> (r: Option<
        (Vec3, Ray),
    >)
        ensures
            r is Some,
            (r->0).0@ == v3(ONE_RAW as int, ONE_RAW as int, ONE_RAW as int),
            (r->0).1@.orig == rec.p@,
            exists|s: int|
                0 <= s < ONE_RAW as int && (r->0).1@.dir == #[trigger] dielectric_dir_spec(
                    self.ir@,
                    rec.font_face,
                    r_in@.dir,
                    rec.normal@,
                    s,
                ),
    {
        let attenuation = Vec3::only(Fix::one());
        let refraction_ratio = if rec.font_face {
            Fix::one().div(self.ir)
        } else {
            self.ir
        };
        let unit_direction = r_in.direction().unit_vector();
        let cos_theta = unit_direction.neg().dot(&rec.normal).min(Fix::one());
        let sin_theta = Fix::one().sub(cos_theta.mul(cos_theta)).sqrt();
        let cannot_refract = refraction_ratio.mul(sin_theta).gt(Fix::one());
        let sample = random_double(rng);
        let direction = if cannot_refract || Dieletric::reflectance(cos_theta, refraction_ratio).gt(
            sample,
        ) {
            unit_direction.reflect(&rec.normal)
        } else {
            unit_direction.refract(&rec.normal, refraction_ratio)
        };
        let out = Ray::new(rec.p, direction);
        proof {
            assert(out@.dir == dielectric_dir_spec(
                self.ir@,
                rec.font_face,
                r_in@.dir,
                rec.normal@,
                sample@,
            ));
        }
        Some((attenuation, out))
    }
}

/// The closed set of scattering laws, dispatched by variant.
#[derive(Clone, Copy, Debug, PartialEq, Eq, Structural)]
pub enum Material {
    Diffuse(Diffuse),
    Metal(Metal),
    Dieletric(Dieletric),
}

impl Material {
    /// Scatter by the law of the variant: diffuse and dielectric surfaces
    /// always scatter; metal absorbs exactly when the perturbed reflection
    /// would re-enter the surface.
    pub fn scatter(&self, r_in: &Ray, rec: &HitRecord, rng: &mut rand::rngs::StdRng) -> (r: Option<
        (Vec3, Ray),
    >)
        ensures
            self is Diffuse ==> r is Some && (r->0).0 == self->Diffuse_0.albedo && (r->0).1@.orig
                == rec.p@,
            self is Metal && r is Some ==> (r->0).0 == self->Metal_0.albedo && (r->0).1@.orig == rec.p@
                && v_dot((r->0).1@.dir, rec.normal@) > 0,
            self is Dieletric ==> r is Some && (r->0).0@ == v3(
                ONE_RAW as int,
                ONE_RAW as int,
                ONE_RAW as int,
            ) && (r->0).1@.orig == rec.p@,
            r is Some ==> (r->0).1@.orig == rec.p@,
    {
        match self {
            Material::Diffuse(d) => d.scatter(r_in, rec, rng),
            Material::Metal(m) => m.scatter(r_in, rec, rng),
            Material::Dieletric(dl) => dl.scatter(r_in, rec, rng),
        }
    }
}

} // verus!
