use raytracer::fixed::Fix;
use raytracer::hittable::HitRecord;
use raytracer::material::{Dieletric, Diffuse, Material, Metal};
use raytracer::ray::Ray;
use raytracer::rng::rng_from_seed;
use raytracer::vec3::Vec3;

fn v(x: i64, y: i64, z: i64) -> Vec3 {
    Vec3::new(Fix::from_raw(x), Fix::from_raw(y), Fix::from_raw(z))
}

/// A record for a surface at the origin with normal (0, 1, 0), met by a
/// ray sliding in almost parallel to it.
fn grazing_hit(material: Material) -> (Ray, HitRecord) {
    let ray = Ray::new(v(-1_000_000, 1_000, 0), v(1_000_000, -1_000, 0));
    let rec = HitRecord::new_with_face_normal(
        Fix::one(),
        Vec3::zero(),
        v(0, 1_000_000, 0),
        material,
        &ray,
    );
    (ray, rec)
}

#[test]
fn schlick_at_normal_incidence_is_the_squared_base() {
    // r0 = (1 - 1.5) / (1 + 1.5) = -0.2, squared 0.04
    let r = Dieletric::reflectance(Fix::one(), Fix::from_raw(1_500_000));
    assert_eq!(r, Fix::from_raw(40_000));
}

#[test]
fn diffuse_never_absorbs() {
    let mut rng = rng_from_seed(9);
    let albedo = v(700_000, 300_000, 300_000);
    let diffuse = Diffuse::new(albedo);
    let (ray, rec) = grazing_hit(Material::Diffuse(diffuse));
    for _ in 0..50 {
        let (att, scattered) = diffuse.scatter(&ray, &rec, &mut rng).unwrap();
        assert_eq!(att, albedo);
        assert_eq!(scattered.origin(), rec.p);
    }
}

#[test]
fn metal_scatter_keeps_rays_off_the_surface() {
    let mut rng = rng_from_seed(9);
    let metal = Metal::new(v(800_000, 800_000, 800_000), Fix::zero());
    let (ray, rec) = grazing_hit(Material::Metal(metal));
    for _ in 0..50 {
        if let Some((att, scattered)) = metal.scatter(&ray, &rec, &mut rng) {
            assert_eq!(att, metal.albedo);
            assert!(scattered.direction().dot(&rec.normal).gt(Fix::zero()));
        }
    }
}

#[test]
fn metal_absorbs_exactly_when_the_sample_buries_the_ray() {
    let metal = Metal::new(v(800_000, 800_000, 800_000), Fix::one());
    let (ray, rec) = grazing_hit(Material::Metal(metal));
    // the grazing reflection leaves the surface at height 0.001; a sample
    // pushing 0.5 down buries it, one pushing 0.5 up does not
    let buried = metal.scatter_with(&ray, &rec, &v(0, -500_000, 0));
    assert!(buried.is_none());
    let lifted = metal.scatter_with(&ray, &rec, &v(0, 500_000, 0)).unwrap();
    assert!(lifted.1.direction().dot(&rec.normal).gt(Fix::zero()));
}

#[test]
fn metal_fuzz_is_clamped_to_one() {
    let m = Metal::new(v(800_000, 800_000, 800_000), Fix::from_int(7));
    assert_eq!(m.fuzz, Fix::one());
    let m2 = Metal::new(v(800_000, 800_000, 800_000), Fix::from_raw(300_000));
    assert_eq!(m2.fuzz, Fix::from_raw(300_000));
}

#[test]
fn dielectric_never_absorbs_and_keeps_full_strength() {
    let mut rng = rng_from_seed(9);
    let glass = Dieletric::new(Fix::from_raw(1_500_000));
    // head-on hit on a glass surface from outside
    let ray = Ray::new(v(0, 2_000_000, 0), v(0, -1_000_000, 0));
    let rec = HitRecord::new_with_face_normal(
        Fix::one(),
        v(0, 1_000_000, 0),
        v(0, 1_000_000, 0),
        Material::Dieletric(glass),
        &ray,
    );
    for _ in 0..50 {
        let (att, scattered) = glass.scatter(&ray, &rec, &mut rng).unwrap();
        assert_eq!(att, Vec3::only(Fix::one()));
        assert_eq!(scattered.origin(), rec.p);
    }
}

#[test]
fn enum_dispatch_matches_each_law() {
    let mut rng = rng_from_seed(13);
    let albedo = v(700_000, 300_000, 300_000);
    let m = Material::Diffuse(Diffuse::new(albedo));
    let (ray, rec) = grazing_hit(m);
    let (att, _) = m.scatter(&ray, &rec, &mut rng).unwrap();
    assert_eq!(att, albedo);

    let glass = Material::Dieletric(Dieletric::new(Fix::from_raw(1_500_000)));
    let (ray2, rec2) = grazing_hit(glass);
    let (att2, _) = glass.scatter(&ray2, &rec2, &mut rng).unwrap();
    assert_eq!(att2, Vec3::only(Fix::one()));
}

#[test]
fn face_normal_orientation_follows_the_ray() {
    let ray = Ray::new(Vec3::zero(), v(0, -1_000_000, 0));
    // outward normal opposing the ray stays as it is
    let rec = HitRecord::new_with_face_normal(
        Fix::one(),
        Vec3::zero(),
        v(0, 1_000_000, 0),
        Material::Dieletric(Dieletric::new(Fix::from_raw(1_500_000))),
        &ray,
    );
    assert!(rec.font_face);
    assert_eq!(rec.normal, v(0, 1_000_000, 0));
    // one pointing with the ray is flipped
    let rec2 = HitRecord::new_with_face_normal(
        Fix::one(),
        Vec3::zero(),
        v(0, -1_000_000, 0),
        Material::Dieletric(Dieletric::new(Fix::from_raw(1_500_000))),
        &ray,
    );
    assert!(!rec2.font_face);
    assert_eq!(rec2.normal, v(0, 1_000_000, 0));
}

#[test]
fn set_face_normal_updates_in_place() {
    let ray = Ray::new(Vec3::zero(), v(0, -1_000_000, 0));
    let mut rec = HitRecord::new_with_face_normal(
        Fix::one(),
        Vec3::zero(),
        v(0, 1_000_000, 0),
        Material::Diffuse(Diffuse::new(Vec3::only(Fix::one()))),
        &ray,
    );
    rec.set_face_normal(&ray, &v(0, -1_000_000, 0));
    assert!(!rec.font_face);
    assert_eq!(rec.normal, v(0, 1_000_000, 0));
}
