use raytracer::fixed::{Fix, MAX_RAW};
use raytracer::rng::rng_from_seed;
use raytracer::trig::{cos, sin, tan};
use raytracer::utils::{clamp, degrees_to_radians, random_double, random_range, PI_RAW};

#[test]
fn add_and_sub_are_exact_in_range() {
    let a = Fix::from_raw(2_500_000);
    let b = Fix::from_raw(1_500_000);
    assert_eq!(a.add(b), Fix::from_raw(4_000_000));
    assert_eq!(a.sub(b), Fix::from_raw(1_000_000));
    assert_eq!(b.sub(a), Fix::from_raw(-1_000_000));
}

#[test]
fn add_saturates_at_the_raw_ceiling() {
    let top = Fix::from_raw(MAX_RAW);
    assert_eq!(top.add(Fix::one()), Fix::from_raw(MAX_RAW));
    let bottom = Fix::from_raw(-MAX_RAW);
    assert_eq!(bottom.sub(Fix::one()), Fix::from_raw(-MAX_RAW));
}

#[test]
fn negation_is_total_even_at_the_word_minimum() {
    assert_eq!(Fix::from_raw(i64::MIN).neg(), Fix::from_raw(MAX_RAW));
    assert_eq!(Fix::from_raw(-5).neg(), Fix::from_raw(5));
}

#[test]
fn multiplication_truncates_toward_zero() {
    // 2.5 * 4 = 10
    assert_eq!(
        Fix::from_raw(2_500_000).mul(Fix::from_int(4)),
        Fix::from_int(10)
    );
    // (-1/3) * 1 keeps its truncated magnitude
    let third = Fix::one().div(Fix::from_int(3));
    assert_eq!(third, Fix::from_raw(333_333));
    assert_eq!(third.neg().mul(Fix::one()), Fix::from_raw(-333_333));
}

#[test]
fn division_by_zero_yields_zero() {
    assert_eq!(Fix::one().div(Fix::zero()), Fix::zero());
}

#[test]
fn square_roots_are_floored() {
    assert_eq!(Fix::from_int(4).sqrt(), Fix::from_int(2));
    assert_eq!(Fix::from_int(2).sqrt(), Fix::from_raw(1_414_213));
    assert_eq!(Fix::from_int(-3).sqrt(), Fix::zero());
}

#[test]
fn clamp_forces_into_the_window() {
    let lo = Fix::zero();
    let hi = Fix::from_raw(999_000);
    assert_eq!(clamp(Fix::from_int(2), lo, hi), hi);
    assert_eq!(clamp(Fix::from_int(-2), lo, hi), lo);
    assert_eq!(clamp(Fix::from_raw(500_000), lo, hi), Fix::from_raw(500_000));
}

#[test]
fn degrees_to_radians_is_exact_for_half_turn() {
    assert_eq!(degrees_to_radians(Fix::from_int(180)), Fix::from_raw(PI_RAW));
}

#[test]
fn taylor_trig_hits_the_eighth_turn_exactly() {
    let eighth = degrees_to_radians(Fix::from_int(45));
    assert_eq!(eighth, Fix::from_raw(785_398));
    assert_eq!(sin(eighth), Fix::from_raw(707_107));
    assert_eq!(cos(eighth), Fix::from_raw(707_107));
    assert_eq!(tan(eighth), Fix::one());
}

#[test]
fn random_double_stays_in_the_unit_window() {
    let mut rng = rng_from_seed(7);
    for _ in 0..100 {
        let d = random_double(&mut rng);
        assert!(d.raw >= 0 && d.raw < 1_000_000);
    }
}

#[test]
fn random_range_returns_min_on_an_empty_window() {
    let mut rng = rng_from_seed(7);
    let five = Fix::from_int(5);
    assert_eq!(random_range(&mut rng, five, five), five);
    assert_eq!(random_range(&mut rng, five, Fix::from_int(3)), five);
}

#[test]
fn random_range_stays_inside_a_real_window() {
    let mut rng = rng_from_seed(11);
    let lo = Fix::from_int(-1);
    let hi = Fix::one();
    for _ in 0..100 {
        let d = random_range(&mut rng, lo, hi);
        assert!(d.raw >= -1_000_000 && d.raw < 1_000_000);
    }
}
