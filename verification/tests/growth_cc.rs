//! Tests of the cluster-cluster growth algorithms: Brownian, ballistic,
//! and tunable.

use aglogen_core::ballistic_cc::{run_ballistic_cc, BallisticCcParams};
use aglogen_core::cca::{run_cca, CcaParams};
use aglogen_core::fixed::FX_ONE;
use aglogen_core::tunable_cc::{calculate_com_distance, run_tunable_cc, TunableCcParams};

fn fx(v: f64) -> i64 {
    (v * FX_ONE as f64).round() as i64
}

fn to_f(v: i64) -> f64 {
    v as f64 / FX_ONE as f64
}

#[test]
fn test_cca_deterministic() {
    let params = CcaParams {
        n_particles: 20,
        box_size: fx(20.0),
        single_agglomerate: true,
        ..Default::default()
    };

    let r1 = run_cca(&params, 42);
    let r2 = run_cca(&params, 42);

    assert_eq!(r1.coordinates.len(), r2.coordinates.len());
    assert_eq!(r1.coordinates, r2.coordinates);
    assert_eq!(r1.radii, r2.radii);
}

#[test]
fn test_cca_single_agglomerate() {
    let params = CcaParams {
        n_particles: 50,
        box_size: fx(30.0),
        single_agglomerate: true,
        ..Default::default()
    };

    let result = run_cca(&params, 123);

    // All particles are reported.
    assert_eq!(result.coordinates.len(), 50);
    // A connected agglomerate has a meaningful dimension.
    assert!(to_f(result.fractal_dimension) > 1.0, "Df should be > 1 for a connected agglomerate");
    // Connectivity shows in the coordination numbers.
    assert!(to_f(result.coordination_mean) > 0.5, "Particles should be connected");
}

#[test]
fn test_cca_multi_agglomerate() {
    // A large box and few iterations may leave several disjoint clusters;
    // every particle is still reported.
    let params = CcaParams {
        n_particles: 30,
        box_size: fx(100.0),
        max_iterations: 100,
        single_agglomerate: false,
        ..Default::default()
    };

    let result = run_cca(&params, 456);

    assert_eq!(result.coordinates.len(), 30);
}

#[test]
fn test_cca_polydisperse() {
    let params = CcaParams {
        n_particles: 30,
        radius_min: fx(0.8),
        radius_max: fx(1.2),
        box_size: fx(30.0),
        single_agglomerate: true,
        ..Default::default()
    };

    assert!(params.is_polydisperse());

    let result = run_cca(&params, 789);

    let min_r = *result.radii.iter().min().unwrap();
    let max_r = *result.radii.iter().max().unwrap();

    assert!(max_r > min_r, "Radii should vary");
    assert!(min_r >= fx(0.8));
    assert!(max_r <= fx(1.2));
}

#[test]
fn test_cca_scenario_coordination() {
    // The full polydisperse single-agglomerate scenario: radii within
    // bounds and visible connectivity.
    let params = CcaParams {
        n_particles: 30,
        radius_min: fx(0.8),
        radius_max: fx(1.2),
        box_size: fx(30.0),
        single_agglomerate: true,
        ..Default::default()
    };
    let result = run_cca(&params, 123);
    let min_r = *result.radii.iter().min().unwrap();
    let max_r = *result.radii.iter().max().unwrap();
    assert!(max_r > min_r);
    assert!(min_r >= fx(0.8) && max_r <= fx(1.2));
    assert!(
        to_f(result.coordination_mean) > 0.5,
        "coordination mean {}",
        to_f(result.coordination_mean)
    );
}

#[test]
fn test_ballistic_cc_deterministic() {
    let params = BallisticCcParams { n_particles: 30, ..Default::default() };

    let r1 = run_ballistic_cc(&params, 42);
    let r2 = run_ballistic_cc(&params, 42);

    assert_eq!(r1.coordinates.len(), r2.coordinates.len());
    assert_eq!(r1.coordinates, r2.coordinates);
}

#[test]
fn test_ballistic_cc_produces_agglomerate() {
    let params = BallisticCcParams { n_particles: 50, ..Default::default() };

    let result = run_ballistic_cc(&params, 123);

    // The pool converges to one agglomerate holding every particle.
    assert_eq!(result.coordinates.len(), 50);
    assert!(
        to_f(result.fractal_dimension) > 1.0,
        "Df should be > 1.0, got {}",
        to_f(result.fractal_dimension)
    );
}

#[test]
fn test_ballistic_cc_polydisperse() {
    let params = BallisticCcParams {
        n_particles: 30,
        radius_min: fx(0.8),
        radius_max: fx(1.2),
        ..Default::default()
    };

    assert!(params.is_polydisperse());

    let result = run_ballistic_cc(&params, 789);

    let min_r = *result.radii.iter().min().unwrap();
    let max_r = *result.radii.iter().max().unwrap();
    assert!(max_r > min_r, "Radii should vary");
}

#[test]
fn test_tunable_cc_deterministic() {
    let params = TunableCcParams {
        n_particles: 30,
        target_df: fx(1.8),
        target_kf: fx(1.3),
        ..Default::default()
    };

    let r1 = run_tunable_cc(&params, 42);
    let r2 = run_tunable_cc(&params, 42);

    assert_eq!(r1.coordinates.len(), r2.coordinates.len());
    assert_eq!(r1.coordinates, r2.coordinates);
    assert_eq!(r1.seed, r2.seed);
}

#[test]
fn test_tunable_cc_produces_agglomerate() {
    let params = TunableCcParams {
        n_particles: 50,
        target_df: fx(1.8),
        target_kf: fx(1.3),
        ..Default::default()
    };

    let result = run_tunable_cc(&params, 123);

    // The pool converges to one agglomerate holding every particle.
    assert_eq!(result.coordinates.len(), 50);
    assert!(
        to_f(result.fractal_dimension) > 1.0 && to_f(result.fractal_dimension) < 3.0,
        "Df should be between 1 and 3, got {}",
        to_f(result.fractal_dimension)
    );
}

#[test]
fn test_tunable_cc_no_overlaps() {
    let params = TunableCcParams { n_particles: 30, ..Default::default() };

    let result = run_tunable_cc(&params, 456);

    // No pair of final particles overlaps beyond tolerance.  Every merge
    // passes an overlap scan at fixed-point resolution, and later rigid
    // rotations of a merged cluster round each coordinate to the 2^-20
    // grid, so accumulated erosion stays within a few times 1e-4.
    for i in 0..result.coordinates.len() {
        for j in (i + 1)..result.coordinates.len() {
            let c1 = result.coordinates[i];
            let c2 = result.coordinates[j];
            let dist = ((to_f(c1.x) - to_f(c2.x)).powi(2) + (to_f(c1.y) - to_f(c2.y)).powi(2)
                + (to_f(c1.z) - to_f(c2.z)).powi(2))
                .sqrt();
            let min_dist = to_f(result.radii[i]) + to_f(result.radii[j]);
            assert!(
                dist >= min_dist - 5e-4,
                "Overlap detected between particles {} and {}: dist={}, min={}",
                i,
                j,
                dist,
                min_dist
            );
        }
    }
}

#[test]
fn test_tunable_cc_polydisperse() {
    let params = TunableCcParams {
        n_particles: 30,
        radius_min: fx(0.8),
        radius_max: fx(1.2),
        ..Default::default()
    };

    assert!(params.is_polydisperse());

    let result = run_tunable_cc(&params, 789);

    let min_r = *result.radii.iter().min().unwrap();
    let max_r = *result.radii.iter().max().unwrap();

    assert!(max_r > min_r, "Radii should vary");
    assert!(min_r >= fx(0.8));
    assert!(max_r <= fx(1.2));
}

#[test]
fn test_com_distance_calculation() {
    let kf = fx(1.3);
    let df = fx(1.8);
    let rp = fx(1.0);

    // For equal-sized clusters merging.
    let dist = calculate_com_distance(10, 10, kf, df, rp);

    assert!(dist.is_some(), "Distance should be calculable");
    let d = dist.unwrap();
    assert!(d > 0, "Distance should be positive");
    assert!(to_f(d) < 100.0, "Distance should be reasonable");
}
