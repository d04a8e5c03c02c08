use raytracer::fixed::Fix;
use raytracer::hittable_list::HittableList;
use raytracer::material::{Diffuse, Material};
use raytracer::ray::Ray;
use raytracer::rng::rng_from_seed;
use raytracer::sphere::{solve_sphere_equation, Sphere};
use raytracer::vec3::Vec3;

fn v(x: i64, y: i64, z: i64) -> Vec3 {
    Vec3::new(Fix::from_raw(x), Fix::from_raw(y), Fix::from_raw(z))
}

fn grey() -> Material {
    Material::Diffuse(Diffuse::new(Vec3::only(Fix::from_raw(500_000))))
}

#[test]
fn vector_operators_compute_componentwise() {
    let a = v(1_000_000, 2_000_000, 3_000_000);
    let b = v(4_000_000, 5_000_000, 6_000_000);
    assert_eq!(a.add(b), v(5_000_000, 7_000_000, 9_000_000));
    assert_eq!(b.sub(a), v(3_000_000, 3_000_000, 3_000_000));
    assert_eq!(a.neg(), v(-1_000_000, -2_000_000, -3_000_000));
    assert_eq!(a.mul(b), v(4_000_000, 10_000_000, 18_000_000));
    assert_eq!(a.scale(Fix::from_int(2)), v(2_000_000, 4_000_000, 6_000_000));
    assert_eq!(a.div(Fix::from_int(2)), v(500_000, 1_000_000, 1_500_000));
    // 1*4 + 2*5 + 3*6 = 32
    assert_eq!(a.dot(&b), Fix::from_int(32));
    // (1,2,3) x (4,5,6) = (-3, 6, -3)
    assert_eq!(a.cross(&b), v(-3_000_000, 6_000_000, -3_000_000));
}

#[test]
fn unit_vector_of_an_exact_triple_is_exact() {
    // (3,4,0) has length 5
    let a = v(3_000_000, 4_000_000, 0);
    assert_eq!(a.length(), Fix::from_int(5));
    assert_eq!(a.unit_vector(), v(600_000, 800_000, 0));
}

#[test]
fn unit_vector_of_the_zero_vector_stays_zero() {
    assert_eq!(Vec3::zero().unit_vector(), Vec3::zero());
}

#[test]
fn reflect_preserves_length_of_an_exact_unit_pair() {
    // v = (0.6, -0.8, 0) and n = (0, 1, 0), both unit
    let d = v(600_000, -800_000, 0);
    let n = v(0, 1_000_000, 0);
    let r = d.reflect(&n);
    assert_eq!(r, v(600_000, 800_000, 0));
    assert_eq!(r.length(), Fix::one());
    assert_eq!(d.length(), Fix::one());
}

#[test]
fn ray_evaluates_parametrically() {
    let r = Ray::new(v(1_000_000, 0, 0), v(0, 2_000_000, 0));
    assert_eq!(r.origin(), v(1_000_000, 0, 0));
    assert_eq!(r.direction(), v(0, 2_000_000, 0));
    assert_eq!(r.at(Fix::from_raw(500_000)), v(1_000_000, 1_000_000, 0));
}

#[test]
fn head_on_hit_lands_at_distance_minus_radius() {
    // Sphere center 5 in front of the origin, radius 1; the ray aims dead
    // center, so t = 5 - 1 = 4 and the hit point is radius from the center.
    let sphere = Sphere::new(v(0, 0, -5_000_000), Fix::one(), grey());
    let ray = Ray::new(Vec3::zero(), v(0, 0, -1_000_000));
    let rec = sphere.hit(&ray, Fix::zero(), Fix::from_int(100)).unwrap();
    assert_eq!(rec.t, Fix::from_int(4));
    assert_eq!(rec.p, v(0, 0, -4_000_000));
    assert_eq!(rec.normal, v(0, 0, 1_000_000));
    assert!(rec.font_face);
    // the hit point lies exactly one radius from the center
    assert_eq!(rec.p.sub(sphere.center).length(), Fix::one());
}

#[test]
fn hit_normal_is_unit_and_opposes_the_ray() {
    let sphere = Sphere::new(v(0, 0, -5_000_000), Fix::one(), grey());
    let ray = Ray::new(Vec3::zero(), v(0, 0, -1_000_000));
    let rec = sphere.hit(&ray, Fix::zero(), Fix::from_int(100)).unwrap();
    assert_eq!(rec.normal.length_squared(), Fix::one());
    assert!(ray.direction().dot(&rec.normal).le(Fix::zero()));
}

#[test]
fn ray_from_inside_flips_the_normal() {
    // origin inside the sphere: the geometric normal points with the ray
    // and is flipped, and the front-face flag records it.
    let sphere = Sphere::new(Vec3::zero(), Fix::one(), grey());
    let ray = Ray::new(Vec3::zero(), v(0, 0, -1_000_000));
    let rec = sphere.hit(&ray, Fix::zero(), Fix::from_int(100)).unwrap();
    assert!(!rec.font_face);
    assert_eq!(rec.t, Fix::one());
    assert_eq!(rec.normal, v(0, 0, 1_000_000));
    assert!(ray.direction().dot(&rec.normal).le(Fix::zero()));
}

#[test]
fn negative_radius_turns_the_normal_inward() {
    // the hollow-sphere trick: a negative radius flips the geometric
    // normal, and the orientation correction flips it back
    let sphere = Sphere::new(v(0, 0, -5_000_000), Fix::from_int(-1), grey());
    let ray = Ray::new(Vec3::zero(), v(0, 0, -1_000_000));
    let rec = sphere.hit(&ray, Fix::zero(), Fix::from_int(100)).unwrap();
    assert_eq!(rec.t, Fix::from_int(4));
    assert!(!rec.font_face);
    assert_eq!(rec.normal, v(0, 0, 1_000_000));
}

#[test]
fn zero_radius_degenerates_to_a_zero_normal() {
    // radius zero is documented boundary behavior: the normal's division
    // by zero yields the zero vector instead of failing
    let sphere = Sphere::new(v(0, 0, -5_000_000), Fix::zero(), grey());
    let ray = Ray::new(Vec3::zero(), v(0, 0, -1_000_000));
    let rec = sphere.hit(&ray, Fix::zero(), Fix::from_int(100)).unwrap();
    assert_eq!(rec.t, Fix::from_int(5));
    assert_eq!(rec.normal, Vec3::zero());
}

#[test]
fn missing_ray_reports_no_hit() {
    let sphere = Sphere::new(v(0, 0, -5_000_000), Fix::one(), grey());
    let ray = Ray::new(Vec3::zero(), v(0, 1_000_000, 0));
    assert!(sphere.hit(&ray, Fix::zero(), Fix::from_int(100)).is_none());
}

#[test]
fn hit_outside_the_window_reports_no_hit() {
    let sphere = Sphere::new(v(0, 0, -5_000_000), Fix::one(), grey());
    let ray = Ray::new(Vec3::zero(), v(0, 0, -1_000_000));
    // both roots (4 and 6) lie above the window
    assert!(sphere.hit(&ray, Fix::zero(), Fix::from_int(3)).is_none());
    // the near root is below, the far one inside: the far root is taken
    let rec = sphere
        .hit(&ray, Fix::from_int(5), Fix::from_int(100))
        .unwrap();
    assert_eq!(rec.t, Fix::from_int(6));
    assert!(!rec.font_face);
}

#[test]
fn solver_reports_roots_directly() {
    let ray = Ray::new(Vec3::zero(), v(0, 0, -1_000_000));
    let (t, p, n) = solve_sphere_equation(
        &ray,
        v(0, 0, -5_000_000),
        Fix::one(),
        Fix::zero(),
        Fix::from_int(100),
    )
    .unwrap();
    assert_eq!(t, Fix::from_int(4));
    assert_eq!(p, v(0, 0, -4_000_000));
    assert_eq!(n, v(0, 0, 1_000_000));
}

#[test]
fn nearest_object_wins_the_scan() {
    let mut world = HittableList::new();
    world.push(Sphere::new(v(0, 0, -10_000_000), Fix::one(), grey()));
    world.push(Sphere::new(v(0, 0, -5_000_000), Fix::one(), grey()));
    let ray = Ray::new(Vec3::zero(), v(0, 0, -1_000_000));
    let rec = world.hit(&ray, Fix::zero(), Fix::from_int(100)).unwrap();
    assert_eq!(rec.t, Fix::from_int(4));
}

#[test]
fn first_inserted_wins_an_exact_tie() {
    let red = Material::Diffuse(Diffuse::new(v(1_000_000, 0, 0)));
    let blue = Material::Diffuse(Diffuse::new(v(0, 0, 1_000_000)));
    let mut world = HittableList::new();
    world.push(Sphere::new(v(0, 0, -5_000_000), Fix::one(), red));
    world.push(Sphere::new(v(0, 0, -5_000_000), Fix::one(), blue));
    let ray = Ray::new(Vec3::zero(), v(0, 0, -1_000_000));
    let rec = world.hit(&ray, Fix::zero(), Fix::from_int(100)).unwrap();
    assert_eq!(rec.material, red);
}

#[test]
fn empty_scene_never_hits() {
    let world = HittableList::new();
    let ray = Ray::new(Vec3::zero(), v(0, 0, -1_000_000));
    assert!(world.hit(&ray, Fix::zero(), Fix::from_int(100)).is_none());
}

#[test]
fn clear_empties_the_scene() {
    let mut world = HittableList::new();
    world.push(Sphere::new(v(0, 0, -5_000_000), Fix::one(), grey()));
    world.clear();
    let ray = Ray::new(Vec3::zero(), v(0, 0, -1_000_000));
    assert!(world.hit(&ray, Fix::zero(), Fix::from_int(100)).is_none());
}

#[test]
fn sphere_samples_fall_inside_the_unit_sphere() {
    let mut rng = rng_from_seed(3);
    for _ in 0..50 {
        let p = Vec3::random_in_unit_sphere(&mut rng);
        assert!(p.length_squared().lt(Fix::one()));
    }
}

#[test]
fn disk_samples_fall_inside_the_unit_disk() {
    let mut rng = rng_from_seed(3);
    for _ in 0..50 {
        let p = Vec3::random_in_unit_disk(&mut rng);
        assert_eq!(p.z, Fix::zero());
        assert!(p.x.mul(p.x).add(p.y.mul(p.y)).lt(Fix::one()));
    }
}

#[test]
fn hemisphere_samples_agree_with_the_normal() {
    let mut rng = rng_from_seed(3);
    let n = v(0, 1_000_000, 0);
    for _ in 0..50 {
        let p = Vec3::random_in_hemisphere(&n, &mut rng);
        assert!(p.dot(&n).ge(Fix::zero()));
    }
}

#[test]
fn random_scene_has_its_fixed_furniture() {
    let mut rng = rng_from_seed(5);
    let world = HittableList::random_scene(&mut rng);
    assert!(world.objects.len() >= 4);
    let ground = world.objects[0];
    assert_eq!(ground.center, v(0, -1_000_000_000, 0));
    assert_eq!(ground.radius, Fix::from_int(1000));
    let last = world.objects[world.objects.len() - 1];
    match last.material {
        Material::Metal(m) => {
            assert_eq!(m.fuzz, Fix::zero());
            assert_eq!(m.albedo, v(700_000, 600_000, 500_000));
        }
        _ => panic!("expected the metal sphere last"),
    }
}
