use raytracer::camera::Camera;
use raytracer::color::write_color;
use raytracer::fixed::Fix;
use raytracer::hittable_list::HittableList;
use raytracer::material::{Diffuse, Material};
use raytracer::ray::Ray;
use raytracer::render::{ray_color, render};
use raytracer::rng::rng_from_seed;
use raytracer::sphere::Sphere;
use raytracer::vec3::Vec3;

fn v(x: i64, y: i64, z: i64) -> Vec3 {
    Vec3::new(Fix::from_raw(x), Fix::from_raw(y), Fix::from_raw(z))
}

fn two_sphere_scene() -> HittableList {
    let mut world = HittableList::new();
    world.push(Sphere::new(
        v(0, -100_500_000, -1_000_000),
        Fix::from_int(100),
        Material::Diffuse(Diffuse::new(v(800_000, 800_000, 0))),
    ));
    world.push(Sphere::new(
        v(0, 0, -1_000_000),
        Fix::from_raw(500_000),
        Material::Diffuse(Diffuse::new(v(700_000, 300_000, 300_000))),
    ));
    world
}

fn pinhole_camera() -> Camera {
    Camera::new(
        Vec3::zero(),
        v(0, 0, -1_000_000),
        v(0, 1_000_000, 0),
        Fix::from_int(90),
        Fix::from_raw(1_777_777),
        Fix::zero(),
        Fix::one(),
    )
}

#[test]
fn depth_zero_is_black_for_any_ray_and_scene() {
    let mut rng = rng_from_seed(1);
    let world = two_sphere_scene();
    let rays = [
        Ray::new(Vec3::zero(), v(0, 0, -1_000_000)),
        Ray::new(v(3_000_000, 1_000_000, 0), v(-1_000_000, 2_000_000, 5_000_000)),
    ];
    for ray in rays.iter() {
        assert_eq!(ray_color(ray, &world, 0, &mut rng), Vec3::zero());
        assert_eq!(ray_color(ray, &world, -3, &mut rng), Vec3::zero());
    }
}

#[test]
fn sky_straight_up_is_sky_blue() {
    let mut rng = rng_from_seed(1);
    let world = HittableList::new();
    let ray = Ray::new(Vec3::zero(), v(0, 1_000_000, 0));
    let c = ray_color(&ray, &world, 50, &mut rng);
    assert_eq!(c, v(500_000, 700_000, 1_000_000));
}

#[test]
fn sky_straight_down_is_white() {
    let mut rng = rng_from_seed(1);
    let world = HittableList::new();
    let ray = Ray::new(Vec3::zero(), v(0, -1_000_000, 0));
    let c = ray_color(&ray, &world, 50, &mut rng);
    assert_eq!(c, v(1_000_000, 1_000_000, 1_000_000));
}

#[test]
fn sky_horizontal_is_the_midpoint() {
    let mut rng = rng_from_seed(1);
    let world = HittableList::new();
    let ray = Ray::new(Vec3::zero(), v(1_000_000, 0, 0));
    let c = ray_color(&ray, &world, 50, &mut rng);
    assert_eq!(c, v(750_000, 850_000, 1_000_000));
}

#[test]
fn pinhole_camera_ignores_the_lens_draw() {
    let cam = pinhole_camera();
    let mut rng1 = rng_from_seed(2);
    let mut rng2 = rng_from_seed(987_654_321);
    let s = Fix::from_raw(250_000);
    let t = Fix::from_raw(750_000);
    let r1 = cam.get_ray(s, t, &mut rng1);
    let r2 = cam.get_ray(s, t, &mut rng2);
    // whatever the two generators drew, the rays agree and start at the
    // camera origin
    assert_eq!(r1, r2);
    assert_eq!(r1.origin(), cam.origin);
}

#[test]
fn camera_with_a_lens_starts_near_but_not_always_at_the_origin() {
    let cam = Camera::new(
        Vec3::zero(),
        v(0, 0, -1_000_000),
        v(0, 1_000_000, 0),
        Fix::from_int(90),
        Fix::from_raw(1_777_777),
        Fix::from_int(2),
        Fix::one(),
    );
    assert_eq!(cam.lens_radius, Fix::one());
    let mut rng = rng_from_seed(2);
    let mut moved = false;
    for _ in 0..20 {
        let r = cam.get_ray(Fix::from_raw(500_000), Fix::from_raw(500_000), &mut rng);
        if r.origin() != cam.origin {
            moved = true;
        }
    }
    assert!(moved);
}

#[test]
fn write_color_quantizes_and_clamps() {
    let mut out: Vec<u8> = Vec::new();
    // 0.5, 0.25 and an out-of-range 1.0 with one sample per pixel
    write_color(&mut out, v(500_000, 250_000, 1_000_000), 1);
    assert_eq!(out, b"128 64 255\n".to_vec());

    let mut out2: Vec<u8> = Vec::new();
    // two samples: the accumulated 1.0 averages to 0.5
    write_color(&mut out2, v(1_000_000, 0, 2_000_000), 2);
    assert_eq!(out2, b"128 0 255\n".to_vec());

    let mut out3: Vec<u8> = Vec::new();
    write_color(&mut out3, v(-500_000, 0, 999_000), 1);
    assert_eq!(out3, b"0 0 255\n".to_vec());
}

#[test]
fn render_emits_a_complete_image() {
    let world = HittableList::new();
    let cam = pinhole_camera();
    let mut rng = rng_from_seed(3);
    let out = render(&world, &cam, 2, 2, 1, 1, &mut rng);
    assert!(out.starts_with(b"P3\n2 2\n255\n"));
    // one line per pixel after the three header lines
    let newlines = out.iter().filter(|b| **b == 10).count();
    assert_eq!(newlines, 3 + 4);
}

#[test]
fn seeded_render_is_reproducible() {
    let world = two_sphere_scene();
    let cam = pinhole_camera();
    let mut rng1 = rng_from_seed(42);
    let out1 = render(&world, &cam, 20, 11, 1, 1, &mut rng1);
    let mut rng2 = rng_from_seed(42);
    let out2 = render(&world, &cam, 20, 11, 1, 1, &mut rng2);
    assert_eq!(out1, out2);
    assert!(out1.starts_with(b"P3\n20 11\n255\n"));
    let newlines = out1.iter().filter(|b| **b == 10).count();
    assert_eq!(newlines, 3 + 20 * 11);

    // a different seed jitters the samples differently somewhere
    let mut rng3 = rng_from_seed(43);
    let out3 = render(&world, &cam, 20, 11, 1, 1, &mut rng3);
    assert_ne!(out1, out3);
}

#[test]
fn bounced_light_is_tinted_by_the_albedo() {
    let mut rng = rng_from_seed(8);
    let world = two_sphere_scene();
    // depth 1: any hit scatters once into a depth-0 black, so the small
    // sphere dead ahead must come out black
    let ray = Ray::new(Vec3::zero(), v(0, 0, -1_000_000));
    assert_eq!(ray_color(&ray, &world, 1, &mut rng), Vec3::zero());
}
