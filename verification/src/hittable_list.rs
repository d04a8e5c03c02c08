//! The scene aggregate: an insertion-ordered list of spheres scanned
//! linearly for the globally nearest hit.

use vstd::prelude::*;

use crate::fixed::Fix;
use crate::hittable::HitRecord;
use crate::material::{Dieletric, Diffuse, Material, Metal};
use crate::ray::Ray;
use crate::sphere::{sphere_hit_rec, Sphere};
use crate::utils::{random_double, random_range};
use crate::vec3::{v3, Vec3};

verus! {

pub struct HittableList {
    pub objects: Vec<Sphere>,
}

/// The nearest hit over a prefix of the scene, folded in insertion order:
/// each accepted hit narrows the window for the objects after it, so the
/// first inserted wins exact ties.
pub open spec fn list_hit_spec(objs: Seq<Sphere>, ray: Ray, t_min: int, t_max: int) -> Option<
    HitRecord,
>
    decreases objs.len(),
{
    if objs.len() == 0 {
        None
    } else {
        let prev = list_hit_spec(objs.drop_last(), ray, t_min, t_max);
        let closest = match prev {
            Some(rec) => rec.t@,
            None => t_max,
        };
        match sphere_hit_rec(objs.last(), ray, t_min, closest) {
            Some(rec2) => Some(rec2),
            None => prev,
        }
    }
}

impl HittableList {
    pub fn new() -> (r: Self)
        ensures
            r.objects@ == Seq::<Sphere>::empty(),
    {
        HittableList { objects: Vec::new() }
    }

    pub fn clear(&mut self)
        ensures
            final(self).objects@ == Seq::<Sphere>::empty(),
    {
        self.objects.clear()
    }

    pub fn push(&mut self, p: Sphere)
        ensures
            final(self).objects@ == old(self).objects@.push(p),
    {
        self.objects.push(p);
    }

    /// Linear scan for the nearest hit: the upper bound of the window
    /// shrinks to each accepted hit's parameter.
    pub fn hit(&self, r: &Ray, t_min: Fix, t_max: Fix) -> (res: Option<HitRecord>)
        ensures
            res == list_hit_spec(self.objects@, *r, t_min@, t_max@),
    {
        let mut temp_rec: Option<HitRecord> = None;
        let mut closest_so_far = t_max;
        let n = self.objects.len();
        let mut i: usize = 0;
        while i < n
            invariant
                i <= n,
                n == self.objects@.len(),
                temp_rec == list_hit_spec(self.objects@.take(i as int), *r, t_min@, t_max@),
                closest_so_far@ == (match temp_rec {
                    Some(rec) => rec.t@,
                    None => t_max@,
                }),
            decreases n - i,
        {
            let s = self.objects[i];
            let ghost prefix = self.objects@.take(i as int);
            match s.hit(r, t_min, closest_so_far) {
                Some(result) => {
                    closest_so_far = result.t;
                    temp_rec = Some(result);
                },
                None => {},
            }
            proof {
                let next = self.objects@.take(i as int + 1);
                assert(next.drop_last() =~= prefix);
                assert(next.last() == self.objects@[i as int]);
            }
            i = i + 1;
        }
        proof {
            assert(self.objects@.take(n as int) =~= self.objects@);
        }
        temp_rec
    }

    /// The demonstration scene: a large diffuse ground sphere, a grid of
    /// small spheres with randomly drawn materials, and three fixed large
    /// spheres of glass, diffuse and metal.
    pub fn random_scene(rng: &mut rand::rngs::StdRng) -> (r: Self)
        ensures
            4 <= r.objects@.len(),
            r.objects@[0].center@ == v3(0, -1_000_000_000, 0),
            r.objects@[0].radius@ == 1_000_000_000,
            r.objects@[0].material matches Material::Diffuse(d) && d.albedo@ == v3(
                500_000,
                500_000,
                500_000,
            ),
            r.objects@[r.objects@.len() - 3].material matches Material::Dieletric(g) && g.ir@
                == 1_500_000,
            r.objects@[r.objects@.len() - 2].material matches Material::Diffuse(d) && d.albedo@
                == v3(400_000, 200_000, 100_000),
            r.objects@[r.objects@.len() - 1].material matches Material::Metal(m) && m.albedo@ == v3(
                700_000,
                600_000,
                500_000,
            ) && m.fuzz@ == 0,
    {
        let mut world = Self::new();

        let ground_material = Material::Diffuse(Diffuse::new(Vec3::only(Fix::from_raw(500_000))));
        world.push(
            Sphere::new(
                Vec3::new(Fix::zero(), Fix::from_int(-1000), Fix::zero()),
                Fix::from_int(1000),
                ground_material,
            ),
        );

        let mut a: i64 = -11;
        while a < 11
            invariant
                1 <= world.objects@.len(),
                world.objects@[0].center@ == v3(0, -1_000_000_000, 0),
                world.objects@[0].radius@ == 1_000_000_000,
                world.objects@[0].material matches Material::Diffuse(d) && d.albedo@ == v3(
                    500_000,
                    500_000,
                    500_000,
                ),
                world.objects@.len() <= 1 + (a + 11) * 22,
                -11 <= a <= 11,
            decreases 11 - a,
        {
            let mut b: i64 = -11;
            while b < 11
                invariant
                    1 <= world.objects@.len(),
                    world.objects@[0].center@ == v3(0, -1_000_000_000, 0),
                    world.objects@[0].radius@ == 1_000_000_000,
                    world.objects@[0].material matches Material::Diffuse(d) && d.albedo@ == v3(
                        500_000,
                        500_000,
                        500_000,
                    ),
                    world.objects@.len() <= 1 + (a + 11) * 22 + (b + 11),
                    -11 <= a < 11,
                    -11 <= b <= 11,
                decreases 11 - b,
            {
                let choose_mat = random_double(rng);
                let center = Vec3::new(
                    Fix::from_int(a).add(Fix::from_raw(900_000).mul(random_double(rng))),
                    Fix::from_raw(200_000),
                    Fix::from_int(b).add(Fix::from_raw(900_000).mul(random_double(rng))),
                );

                let away = center.sub(
                    Vec3::new(Fix::from_int(4), Fix::from_raw(200_000), Fix::zero()),
                );
                if away.length().gt(Fix::from_raw(900_000)) {
                    if choose_mat.lt(Fix::from_raw(800_000)) {
                        let albedo = Vec3::random(rng).mul(Vec3::random(rng));
                        let sphere = Sphere::new(
                            center,
                            Fix::from_raw(200_000),
                            Material::Diffuse(Diffuse::new(albedo)),
                        );
                        world.push(sphere);
                    } else if choose_mat.lt(Fix::from_raw(950_000)) {
                        let albedo = Vec3::random_range(rng, Fix::from_raw(500_000), Fix::one());
                        let fuzz = random_range(rng, Fix::zero(), Fix::from_raw(500_000));
                        let sphere = Sphere::new(
                            center,
                            Fix::from_raw(200_000),
                            Material::Metal(Metal::new(albedo, fuzz)),
                        );
                        world.push(sphere);
                    } else {
                        let sphere = Sphere::new(
                            center,
                            Fix::from_raw(200_000),
                            Material::Dieletric(Dieletric::new(Fix::from_raw(1_500_000))),
                        );
                        world.push(sphere);
                    }
                }
                b = b + 1;
            }
            a = a + 1;
        }

        world.push(
            Sphere::new(
                Vec3::new(Fix::zero(), Fix::one(), Fix::zero()),
                Fix::one(),
                Material::Dieletric(Dieletric::new(Fix::from_raw(1_500_000))),
            ),
        );

        world.push(
            Sphere::new(
                Vec3::new(Fix::from_int(-4), Fix::one(), Fix::zero()),
                Fix::one(),
                Material::Diffuse(
                    Diffuse::new(
                        Vec3::new(
                            Fix::from_raw(400_000),
                            Fix::from_raw(200_000),
                            Fix::from_raw(100_000),
                        ),
                    ),
                ),
            ),
        );

        world.push(
            Sphere::new(
                Vec3::new(Fix::from_int(4), Fix::one(), Fix::zero()),
                Fix::one(),
                Material::Metal(
                    Metal::new(
                        Vec3::new(
                            Fix::from_raw(700_000),
                            Fix::from_raw(600_000),
                            Fix::from_raw(500_000),
                        ),
                        Fix::zero(),
                    ),
                ),
            ),
        );
        world
    }
}

} // verus!
