//! Tests of the geometric primitives, the random source, the spatial hash,
//! the sintering model and the fixed-point scalar layer.

use aglogen_core::fixed::{fx_exp, fx_from_int, fx_ln, fx_mul, fx_ratio, fx_sqrt, FX_ONE};
use aglogen_core::geometry::{Sphere, Vector3};
use aglogen_core::rng::{create_rng, random_point_on_sphere};
use aglogen_core::sintering::{sintered_contact_distance, SinteringDistribution};
use aglogen_core::spatial::SpatialHash;

fn fx(v: f64) -> i64 {
    (v * FX_ONE as f64).round() as i64
}

fn to_f(v: i64) -> f64 {
    v as f64 / FX_ONE as f64
}

#[test]
fn test_vector3_operations() {
    let v1 = Vector3::new(fx(1.0), fx(2.0), fx(3.0));
    let v2 = Vector3::new(fx(4.0), fx(5.0), fx(6.0));

    let sum = v1.add(&v2);
    assert!((to_f(sum.x) - 5.0).abs() < 1e-5);
    assert!((to_f(sum.y) - 7.0).abs() < 1e-5);
    assert!((to_f(sum.z) - 9.0).abs() < 1e-5);
}

#[test]
fn test_sphere_intersection() {
    let s1 = Sphere::new(Vector3::zero(), fx(1.0));
    let s2 = Sphere::new(Vector3::new(fx(1.5), 0, 0), fx(1.0));
    let s3 = Sphere::new(Vector3::new(fx(3.0), 0, 0), fx(1.0));

    assert!(s1.intersects(&s2)); // overlapping
    assert!(!s1.intersects(&s3)); // not overlapping
}

#[test]
fn test_deterministic_rng() {
    let mut rng1 = create_rng(42);
    let mut rng2 = create_rng(42);

    for _ in 0..100 {
        let (x1, y1, z1) = random_point_on_sphere(&mut rng1);
        let (x2, y2, z2) = random_point_on_sphere(&mut rng2);

        assert_eq!(x1, x2);
        assert_eq!(y1, y2);
        assert_eq!(z1, z2);
    }
}

#[test]
fn test_point_on_unit_sphere() {
    let mut rng = create_rng(123);

    for _ in 0..1000 {
        let (x, y, z) = random_point_on_sphere(&mut rng);
        let r = (to_f(x) * to_f(x) + to_f(y) * to_f(y) + to_f(z) * to_f(z)).sqrt();
        assert!((r - 1.0).abs() < 1e-3, "norm {} too far from 1", r);
    }
}

#[test]
fn test_spatial_hash() {
    let mut hash = SpatialHash::new(fx(2.0));

    let s1 = Sphere::new(Vector3::new(0, 0, 0), fx(1.0));
    let s2 = Sphere::new(Vector3::new(fx(1.5), 0, 0), fx(1.0));
    let s3 = Sphere::new(Vector3::new(fx(10.0), 0, 0), fx(1.0));

    hash.insert(0, &s1);
    hash.insert(1, &s2);
    hash.insert(2, &s3);

    // s1 should find s2 nearby but not s3.
    let neighbors = hash.query_potential_collisions(&s1);
    assert!(neighbors.contains(&0));
    assert!(neighbors.contains(&1));
    assert!(!neighbors.contains(&2));
}

#[test]
fn test_spatial_hash_remove() {
    let mut hash = SpatialHash::new(fx(2.0));
    let s1 = Sphere::new(Vector3::new(0, 0, 0), fx(1.0));
    let s2 = Sphere::new(Vector3::new(fx(1.5), 0, 0), fx(1.0));
    hash.insert(0, &s1);
    hash.insert(1, &s2);
    hash.remove(1, &s2);
    let neighbors = hash.query_potential_collisions(&s1);
    assert!(neighbors.contains(&0));
    assert!(!neighbors.contains(&1));
    hash.clear();
    let after_clear = hash.query_potential_collisions(&s1);
    assert!(after_clear.is_empty());
}

#[test]
fn test_fixed_sintering() {
    let dist = SinteringDistribution::fixed(fx(0.9));
    let mut rng = create_rng(42);

    for _ in 0..10 {
        let coeff = dist.sample(&mut rng);
        assert_eq!(coeff, fx(0.9));
    }
}

#[test]
fn test_uniform_sintering() {
    let dist = SinteringDistribution::uniform(fx(0.85), fx(0.95));
    let mut rng = create_rng(42);

    let mut min_seen: i64 = i64::MAX;
    let mut max_seen: i64 = 0;

    for _ in 0..1000 {
        let coeff = dist.sample(&mut rng);
        assert!(coeff >= fx(0.85) && coeff <= fx(0.95));
        min_seen = min_seen.min(coeff);
        max_seen = max_seen.max(coeff);
    }

    // Should span most of the range.
    assert!(to_f(min_seen) < 0.87);
    assert!(to_f(max_seen) > 0.93);
}

#[test]
fn test_normal_sintering() {
    let dist = SinteringDistribution::normal(fx(0.9), fx(0.03));
    let mut rng = create_rng(42);

    let mut sum: f64 = 0.0;
    let n = 1000;

    for _ in 0..n {
        let coeff = dist.sample(&mut rng);
        assert!(coeff >= fx(0.5) && coeff <= FX_ONE);
        sum += to_f(coeff);
    }

    let mean = sum / n as f64;
    // The mean should be close to 0.9.
    assert!((mean - 0.9).abs() < 0.05);
}

#[test]
fn test_sintered_contact_distance() {
    let r1 = fx(1.0);
    let r2 = fx(1.0);

    // No sintering.
    assert!((to_f(sintered_contact_distance(r1, r2, FX_ONE)) - 2.0).abs() < 1e-5);

    // Ten percent sintering.
    assert!((to_f(sintered_contact_distance(r1, r2, fx(0.9))) - 1.8).abs() < 1e-5);
}

#[test]
fn test_fixed_point_values() {
    // Exact expected values of the scalar layer.
    assert_eq!(FX_ONE, 1048576);
    assert_eq!(fx_from_int(3), 3 * FX_ONE);
    assert_eq!(fx_ratio(4, 5), 838860); // 0.8, truncated
    assert_eq!(fx_mul(fx_from_int(3), fx_from_int(4)), fx_from_int(12));
    assert_eq!(fx_sqrt(fx_from_int(4)), fx_from_int(2));
    assert_eq!(fx_ln(FX_ONE), 0);
    assert_eq!(fx_exp(0), FX_ONE);
    // ln(2) and exp(1) to fixed-point resolution.
    assert!((to_f(fx_ln(fx_from_int(2))) - std::f64::consts::LN_2).abs() < 1e-4);
    assert!((to_f(fx_exp(FX_ONE)) - std::f64::consts::E).abs() < 1e-3);
}
