//! Three-component fixed-point vectors: the one value type the renderer
//! uses for points, directions and colors alike.

use vstd::prelude::*;

use crate::fixed::{
    abs_i, fix_of, fx_add, fx_div, fx_min, fx_mul, fx_neg, fx_sqrt, fx_sub, sat, Fix, MAX_RAW,
    ONE_RAW,
};
use crate::utils::{random_double, random_range};

verus! {

/// Near-zero threshold: one raw step, the smallest positive magnitude the
/// representation can hold.
pub const EPS_RAW: i64 = 1;

/// Raw fixed-point value of two.
pub const TWO_RAW: i64 = 2_000_000;

/// Spec-level image of a vector: its three raw components as integers.
pub ghost struct V3 {
    pub x: int,
    pub y: int,
    pub z: int,
}

pub open spec fn v3(x: int, y: int, z: int) -> V3 {
    V3 { x, y, z }
}

/// Every component within the symmetric raw range; all vector operations
/// return such vectors.
pub open spec fn v_ok(a: V3) -> bool {
    abs_i(a.x) <= MAX_RAW as int && abs_i(a.y) <= MAX_RAW as int && abs_i(a.z) <= MAX_RAW as int
}

pub open spec fn v_add(a: V3, b: V3) -> V3 {
    v3(fx_add(a.x, b.x), fx_add(a.y, b.y), fx_add(a.z, b.z))
}

pub open spec fn v_sub(a: V3, b: V3) -> V3 {
    v3(fx_sub(a.x, b.x), fx_sub(a.y, b.y), fx_sub(a.z, b.z))
}

pub open spec fn v_neg(a: V3) -> V3 {
    v3(fx_neg(a.x), fx_neg(a.y), fx_neg(a.z))
}

/// Elementwise product, the attenuation tint.
pub open spec fn v_mul(a: V3, b: V3) -> V3 {
    v3(fx_mul(a.x, b.x), fx_mul(a.y, b.y), fx_mul(a.z, b.z))
}

pub open spec fn v_scale(a: V3, k: int) -> V3 {
    v3(fx_mul(a.x, k), fx_mul(a.y, k), fx_mul(a.z, k))
}

pub open spec fn v_div(a: V3, k: int) -> V3 {
    v3(fx_div(a.x, k), fx_div(a.y, k), fx_div(a.z, k))
}

pub open spec fn v_dot(a: V3, b: V3) -> int {
    fx_add(fx_add(fx_mul(a.x, b.x), fx_mul(a.y, b.y)), fx_mul(a.z, b.z))
}

pub open spec fn v_cross(a: V3, b: V3) -> V3 {
    v3(
        fx_sub(fx_mul(a.y, b.z), fx_mul(a.z, b.y)),
        fx_sub(fx_mul(a.z, b.x), fx_mul(a.x, b.z)),
        fx_sub(fx_mul(a.x, b.y), fx_mul(a.y, b.x)),
    )
}

pub open spec fn v_len_sq(a: V3) -> int {
    v_dot(a, a)
}

pub open spec fn v_len(a: V3) -> int {
    fx_sqrt(v_len_sq(a))
}

/// Normalization by per-component division; a vector whose length rounds
/// to zero comes back as the zero vector rather than failing.
pub open spec fn v_unit(a: V3) -> V3 {
    v_div(a, v_len(a))
}

pub open spec fn v_near_zero(a: V3) -> bool {
    abs_i(a.x) < EPS_RAW as int && abs_i(a.y) < EPS_RAW as int && abs_i(a.z) < EPS_RAW as int
}

/// `v - 2 (v . n) n`.
pub open spec fn v_reflect(v: V3, n: V3) -> V3 {
    v_sub(v, v_scale(n, fx_mul(TWO_RAW as int, v_dot(v, n))))
}

/// Snell refraction of the unit direction `uv` at a surface with unit
/// normal `n` and index ratio `ratio`.
pub open spec fn v_refract(uv: V3, n: V3, ratio: int) -> V3 {
    let cos_theta = fx_min(v_dot(v_neg(uv), n), ONE_RAW as int);
    let perp = v_scale(v_add(uv, v_scale(n, cos_theta)), ratio);
    let par = v_scale(n, fx_neg(fx_sqrt(sat(abs_i(fx_sub(ONE_RAW as int, v_len_sq(perp)))))));
    v_add(perp, par)
}

/// A vector with fixed-point components.
#[derive(Clone, Copy, Debug, PartialEq, Eq, Structural)]
pub struct Vec3 {
    pub x: Fix,
    pub y: Fix,
    pub z: Fix,
}

impl View for Vec3 {
    type V = V3;

    open spec fn view(&self) -> V3 {
        v3(self.x@, self.y@, self.z@)
    }
}

/// The vector holding raw values known to fit the representation.
pub open spec fn vec_of(v: V3) -> Vec3 {
    Vec3 { x: fix_of(v.x), y: fix_of(v.y), z: fix_of(v.z) }
}

impl Vec3 {
    pub fn new(x: Fix, y: Fix, z: Fix) -> (r: Vec3)
        ensures
            r@ == v3(x@, y@, z@),
    {
        Vec3 { x, y, z }
    }

    pub fn only(value: Fix) -> (r: Vec3)
        ensures
            r@ == v3(value@, value@, value@),
    {
        Vec3::new(value, value, value)
    }

    pub fn zero() -> (r: Vec3)
        ensures
            r@ == v3(0, 0, 0),
    {
        Vec3::new(Fix::zero(), Fix::zero(), Fix::zero())
    }

    pub fn add(self, rhs: Vec3) -> (r: Vec3)
        ensures
            r@ == v_add(self@, rhs@),
    {
        Vec3::new(self.x.add(rhs.x), self.y.add(rhs.y), self.z.add(rhs.z))
    }

    pub fn sub(self, rhs: Vec3) -> (r: Vec3)
        ensures
            r@ == v_sub(self@, rhs@),
    {
        Vec3::new(self.x.sub(rhs.x), self.y.sub(rhs.y), self.z.sub(rhs.z))
    }

    pub fn neg(self) -> (r: Vec3)
        ensures
            r@ == v_neg(self@),
    {
        Vec3::new(self.x.neg(), self.y.neg(), self.z.neg())
    }

    /// Elementwise product.
    pub fn mul(self, rhs: Vec3) -> (r: Vec3)
        ensures
            r@ == v_mul(self@, rhs@),
    {
        Vec3::new(self.x.mul(rhs.x), self.y.mul(rhs.y), self.z.mul(rhs.z))
    }

    pub fn scale(self, k: Fix) -> (r: Vec3)
        ensures
            r@ == v_scale(self@, k@),
    {
        Vec3::new(self.x.mul(k), self.y.mul(k), self.z.mul(k))
    }

    pub fn div(self, k: Fix) -> (r: Vec3)
        ensures
            r@ == v_div(self@, k@),
    {
        Vec3::new(self.x.div(k), self.y.div(k), self.z.div(k))
    }

    pub fn dot(&self, rhs: &Vec3) -> (r: Fix)
        ensures
            r@ == v_dot(self@, rhs@),
    {
        self.x.mul(rhs.x).add(self.y.mul(rhs.y)).add(self.z.mul(rhs.z))
    }

    pub fn cross(&self, rhs: &Vec3) -> (r: Vec3)
        ensures
            r@ == v_cross(self@, rhs@),
    {
        Vec3::new(
            self.y.mul(rhs.z).sub(self.z.mul(rhs.y)),
            self.z.mul(rhs.x).sub(self.x.mul(rhs.z)),
            self.x.mul(rhs.y).sub(self.y.mul(rhs.x)),
        )
    }

    pub fn length_squared(&self) -> (r: Fix)
        ensures
            r@ == v_len_sq(self@),
    {
        self.dot(self)
    }

    pub fn length(&self) -> (r: Fix)
        ensures
            r@ == v_len(self@),
    {
        self.length_squared().sqrt()
    }

    pub fn unit_vector(&self) -> (r: Vec3)
        ensures
            r@ == v_unit(self@),
    {
        self.div(self.length())
    }

    pub fn near_zero(&self) -> (r: bool)
        ensures
            r == v_near_zero(self@),
    {
        let eps = Fix::from_raw(EPS_RAW);
        self.x.abs().lt(eps) && self.y.abs().lt(eps) && self.z.abs().lt(eps)
    }

    pub fn reflect(&self, n: &Vec3) -> (r: Vec3)
        ensures
            r@ == v_reflect(self@, n@),
    {
        let d = self.dot(n);
        self.sub(n.scale(Fix::from_raw(TWO_RAW).mul(d)))
    }

    pub fn refract(&self, n: &Vec3, ratio: Fix) -> (r: Vec3)
        ensures
            r@ == v_refract(self@, n@, ratio@),
    {
        let cos_theta = self.neg().dot(n).min(Fix::one());
        let perp = self.add(n.scale(cos_theta)).scale(ratio);
        let par = n.scale(Fix::one().sub(perp.length_squared()).abs().sqrt().neg());
        perp.add(par)
    }

    pub fn random(rng: &mut rand::rngs::StdRng) -> (r: Vec3)
        ensures
            0 <= r@.x < ONE_RAW as int,
            0 <= r@.y < ONE_RAW as int,
            0 <= r@.z < ONE_RAW as int,
    {
        let x = random_double(rng);
        let y = random_double(rng);
        let z = random_double(rng);
        Vec3::new(x, y, z)
    }

    pub fn random_range(rng: &mut rand::rngs::StdRng, min: Fix, max: Fix) -> (r: Vec3)
        ensures
            max@ <= min@ ==> r@ == v3(min@, min@, min@),
            max@ > min@ ==> {
                &&& min@ <= r@.x < max@
                &&& min@ <= r@.y < max@
                &&& min@ <= r@.z < max@
            },
    {
        let x = random_range(rng, min, max);
        let y = random_range(rng, min, max);
        let z = random_range(rng, min, max);
        Vec3::new(x, y, z)
    }

    /// Rejection sampling: draw until the squared length falls below one,
    /// rejecting boundary draws too.  The attempt count is bounded so the
    /// loop provably ends; an exhausted budget falls back to the origin,
    /// which also lies inside the sphere.
    pub fn random_in_unit_sphere(rng: &mut rand::rngs::StdRng) -> (r: Vec3)
        ensures
            v_len_sq(r@) < ONE_RAW as int,
            v_ok(r@),
    {
        let one = Fix::one();
        let minus_one = one.neg();
        let mut attempts: u64 = 0;
        while attempts < 64
            invariant
                one@ == ONE_RAW as int,
                minus_one@ == -(ONE_RAW as int),
            decreases 64 - attempts,
        {
            let p = Vec3::random_range(rng, minus_one, one);
            if p.length_squared().lt(Fix::one()) {
                return p;
            }
            attempts = attempts + 1;
        }
        Vec3::zero()
    }

    /// A point in the unit sphere, normalized.
    pub fn random_unit_vector(rng: &mut rand::rngs::StdRng) -> (r: Vec3)
        ensures
            exists|p: V3| #[trigger] v_unit(p) == r@ && v_len_sq(p) < ONE_RAW as int,
    {
        let s = Vec3::random_in_unit_sphere(rng);
        let r = s.unit_vector();
        proof {
            assert(v_unit(s@) == r@ && v_len_sq(s@) < ONE_RAW as int);
        }
        r
    }

    /// A point in the unit sphere, flipped if needed so that it points into
    /// the hemisphere of `normal`.
    pub fn random_in_hemisphere(normal: &Vec3, rng: &mut rand::rngs::StdRng) -> (r: Vec3)
        ensures
            v_len_sq(r@) < ONE_RAW as int,
            v_dot(r@, normal@) >= 0,
    {
        let in_unit_sphere = Vec3::random_in_unit_sphere(rng);
        if in_unit_sphere.dot(normal).gt(Fix::zero()) {
            in_unit_sphere
        } else {
            proof {
                lemma_dot_neg(in_unit_sphere@, normal@);
                lemma_len_sq_neg(in_unit_sphere@);
            }
            in_unit_sphere.neg()
        }
    }

    /// Rejection sampling on the lens plane: a point with `x^2 + y^2 < 1`
    /// and `z == 0`, with the same bounded attempt budget as the sphere
    /// sampler.
    pub fn random_in_unit_disk(rng: &mut rand::rngs::StdRng) -> (r: Vec3)
        ensures
            fx_add(fx_mul(r@.x, r@.x), fx_mul(r@.y, r@.y)) < ONE_RAW as int,
            r@.z == 0,
    {
        let one = Fix::one();
        let minus_one = one.neg();
        let mut attempts: u64 = 0;
        while attempts < 64
            invariant
                one@ == ONE_RAW as int,
                minus_one@ == -(ONE_RAW as int),
            decreases 64 - attempts,
        {
            let x = random_range(rng, minus_one, one);
            let y = random_range(rng, minus_one, one);
            let p = Vec3::new(x, y, Fix::zero());
            let xx = p.x.mul(p.x);
            let yy = p.y.mul(p.y);
            if xx.add(yy).lt(Fix::one()) {
                return p;
            }
            attempts = attempts + 1;
        }
        Vec3::zero()
    }
}

/// Negating one factor negates a saturated product.
proof fn lemma_mul_neg(a: int, b: int)
    ensures
        fx_mul(-a, b) == fx_neg(fx_mul(a, b)),
{
    assert((-a) * b == -(a * b)) by (nonlinear_arith);
    assert(abs_i(-(a * b)) == abs_i(a * b));
}

/// Negating a vector with in-range components negates its dot products.
pub proof fn lemma_dot_neg(a: V3, b: V3)
    requires
        v_ok(a),
    ensures
        v_dot(v_neg(a), b) == fx_neg(v_dot(a, b)),
{
    lemma_mul_neg(a.x, b.x);
    lemma_mul_neg(a.y, b.y);
    lemma_mul_neg(a.z, b.z);
}

/// The same, with the negation on the right operand.
pub proof fn lemma_dot_neg_right(a: V3, b: V3)
    requires
        v_ok(b),
    ensures
        v_dot(a, v_neg(b)) == fx_neg(v_dot(a, b)),
{
    assert(a.x * (-b.x) == -(a.x * b.x)) by (nonlinear_arith);
    assert(a.y * (-b.y) == -(a.y * b.y)) by (nonlinear_arith);
    assert(a.z * (-b.z) == -(a.z * b.z)) by (nonlinear_arith);
    assert(abs_i(-(a.x * b.x)) == abs_i(a.x * b.x));
    assert(abs_i(-(a.y * b.y)) == abs_i(a.y * b.y));
    assert(abs_i(-(a.z * b.z)) == abs_i(a.z * b.z));
}

/// Exact-arithmetic form of the mirror law: reflecting about a unit normal
/// keeps the squared length.
///
/// The normal is unit at scale `s` (its dot with itself is `s^2`); the
/// reflected vector is cleared of denominators, `r == s^2 v - 2 (v . n) n`,
/// and its squared length comes out as exactly `s^4` times that of `v`.
pub proof fn lemma_reflect_preserves_length(
    vx: int,
    vy: int,
    vz: int,
    nx: int,
    ny: int,
    nz: int,
    s: int,
)
    requires
        nx * nx + ny * ny + nz * nz == s * s,
    ensures
        ({
            let d = vx * nx + vy * ny + vz * nz;
            let rx = s * s * vx - 2 * d * nx;
            let ry = s * s * vy - 2 * d * ny;
            let rz = s * s * vz - 2 * d * nz;
            rx * rx + ry * ry + rz * rz == (s * s) * (s * s) * (vx * vx + vy * vy + vz * vz)
        }),
{
    let a = s * s;
    let d = vx * nx + vy * ny + vz * nz;
    lemma_sq_expand(a, d, vx, nx);
    lemma_sq_expand(a, d, vy, ny);
    lemma_sq_expand(a, d, vz, nz);
    lemma_sum_factor(d * d, nx * nx, ny * ny, nz * nz, a);
    lemma_dot_factor(a, d, vx * nx, vy * ny, vz * nz);
    lemma_sum_factor(a * a, vx * vx, vy * vy, vz * vz, vx * vx + vy * vy + vz * vz);
    assert(4 * ((d * d) * a) == 4 * (a * (d * d))) by (nonlinear_arith);
}

/// `(a v - 2 d n)^2` expanded.
proof fn lemma_sq_expand(a: int, d: int, v: int, n: int)
    ensures
        (a * v - 2 * d * n) * (a * v - 2 * d * n) == (a * a) * (v * v) - 4 * (a * (d * (v * n))) + 4
            * ((d * d) * (n * n)),
{
    lemma_sub_sq(a * v, 2 * d * n);
    assert((a * v) * (a * v) == (a * a) * (v * v)) by (nonlinear_arith);
    assert((a * v) * (2 * d * n) == 2 * (a * (d * (v * n)))) by (nonlinear_arith);
    assert((2 * d * n) * (2 * d * n) == 4 * ((d * d) * (n * n))) by (nonlinear_arith);
}

/// The square of a difference.
proof fn lemma_sub_sq(x: int, y: int)
    ensures
        (x - y) * (x - y) == x * x - 2 * (x * y) + y * y,
{
    assert((x - y) * (x - y) == x * x - 2 * (x * y) + y * y) by (nonlinear_arith);
}

/// A common factor distributed over a three-part sum.
proof fn lemma_sum_factor(k: int, p: int, q: int, r: int, t: int)
    requires
        p + q + r == t,
    ensures
        k * p + k * q + k * r == k * t,
{
    assert(k * p + k * q + k * r == k * t) by (nonlinear_arith)
        requires
            p + q + r == t,
    ;
}

/// The mixed term collapses through the dot product.
proof fn lemma_dot_factor(a: int, d: int, p: int, q: int, r: int)
    requires
        p + q + r == d,
    ensures
        4 * (a * (d * p)) + 4 * (a * (d * q)) + 4 * (a * (d * r)) == 4 * (a * (d * d)),
{
    assert(4 * (a * (d * p)) + 4 * (a * (d * q)) + 4 * (a * (d * r)) == 4 * (a * (d * d)))
        by (nonlinear_arith)
        requires
            p + q + r == d,
    ;
}

/// Negating a vector with in-range components keeps its squared length.
pub proof fn lemma_len_sq_neg(a: V3)
    requires
        v_ok(a),
    ensures
        v_len_sq(v_neg(a)) == v_len_sq(a),
{
    assert((-a.x) * (-a.x) == a.x * a.x) by (nonlinear_arith);
    assert((-a.y) * (-a.y) == a.y * a.y) by (nonlinear_arith);
    assert((-a.z) * (-a.z) == a.z * a.z) by (nonlinear_arith);
}

} // verus!
