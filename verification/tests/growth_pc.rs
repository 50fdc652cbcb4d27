//! Tests of the particle-cluster growth algorithms: diffusion-limited,
//! ballistic, and tunable.

use aglogen_core::ballistic::{run_ballistic, BallisticParams};
use aglogen_core::dla::{run_dla, DlaParams};
use aglogen_core::fixed::FX_ONE;
use aglogen_core::geometry::check_non_overlap;
use aglogen_core::tunable::{run_tunable, TunableParams};

fn fx(v: f64) -> i64 {
    (v * FX_ONE as f64).round() as i64
}

fn to_f(v: i64) -> f64 {
    v as f64 / FX_ONE as f64
}

#[test]
fn test_dla_deterministic() {
    let params = DlaParams { n_particles: 50, ..Default::default() };

    let r1 = run_dla(&params, 42);
    let r2 = run_dla(&params, 42);

    assert_eq!(r1.coordinates.len(), r2.coordinates.len());
    assert_eq!(r1.coordinates, r2.coordinates);
    assert_eq!(r1.radii, r2.radii);
    assert_eq!(r1.fractal_dimension, r2.fractal_dimension);
    assert_eq!(r1.porosity, r2.porosity);
    assert_eq!(r1.coordination_mean, r2.coordination_mean);
}

#[test]
fn test_dla_fractal_dimension_range() {
    let params = DlaParams {
        n_particles: 30,
        sticking_probability: FX_ONE,
        ..Default::default()
    };

    let result = run_dla(&params, 123);

    assert!(to_f(result.fractal_dimension) > 0.5);
    assert!(to_f(result.fractal_dimension) < 4.0);
}

#[test]
fn test_dla_grows_all_particles() {
    let params = DlaParams { n_particles: 40, ..Default::default() };
    let result = run_dla(&params, 7);
    assert_eq!(result.coordinates.len(), 40);
    assert_eq!(result.rg_evolution.len(), 40);
    for r in &result.radii {
        assert_eq!(*r, params.seed_radius);
    }
}

#[test]
fn test_dla_non_overlap() {
    // Walk steps are half a radius, so a placement can penetrate a second
    // neighbor by at most that much; the contact neighbor itself is exact.
    let params = DlaParams { n_particles: 40, ..Default::default() };
    let result = run_dla(&params, 11);
    let eps = fx(0.5) + 64;
    assert!(check_non_overlap(&result.coordinates, &result.radii, eps));
}

#[test]
fn test_ballistic_deterministic() {
    let params = BallisticParams { n_particles: 50, ..Default::default() };

    let r1 = run_ballistic(&params, 42);
    let r2 = run_ballistic(&params, 42);

    assert_eq!(r1.coordinates.len(), r2.coordinates.len());
    assert_eq!(r1.coordinates, r2.coordinates);
    assert_eq!(r1.radii, r2.radii);
    assert_eq!(r1.fractal_dimension, r2.fractal_dimension);
}

#[test]
fn test_ballistic_produces_denser_structure() {
    let params = BallisticParams { n_particles: 200, ..Default::default() };

    let result = run_ballistic(&params, 456);

    // Ballistic growth typically lands near three, denser than
    // diffusion-limited growth.
    assert!(to_f(result.fractal_dimension) > 2.0, "df {}", to_f(result.fractal_dimension));
    assert!(to_f(result.fractal_dimension) <= 3.0);
}

#[test]
fn test_ballistic_polydisperse() {
    let params = BallisticParams {
        n_particles: 30,
        radius_min: fx(0.8),
        radius_max: fx(1.2),
        ..Default::default()
    };

    assert!(params.is_polydisperse());

    let result = run_ballistic(&params, 456);

    let min_r = *result.radii.iter().min().unwrap();
    let max_r = *result.radii.iter().max().unwrap();

    assert!(max_r > min_r, "Radii should vary: min={}, max={}", to_f(min_r), to_f(max_r));
    assert!(min_r >= fx(0.8), "Min radius should be >= 0.8");
    assert!(max_r <= fx(1.2), "Max radius should be <= 1.2");
}

#[test]
fn test_ballistic_monodisperse() {
    let params = BallisticParams {
        n_particles: 20,
        radius_min: fx(1.0),
        radius_max: fx(1.0),
        ..Default::default()
    };

    assert!(!params.is_polydisperse());

    let result = run_ballistic(&params, 789);

    // All radii exactly equal.
    for r in &result.radii {
        assert_eq!(*r, fx(1.0));
    }
}

#[test]
fn test_tunable_deterministic() {
    let params = TunableParams {
        n_particles: 50,
        target_df: fx(1.8),
        target_kf: fx(1.3),
        ..Default::default()
    };

    let r1 = run_tunable(&params, 42);
    let r2 = run_tunable(&params, 42);

    assert_eq!(r1.coordinates.len(), r2.coordinates.len());
    assert_eq!(r1.coordinates, r2.coordinates);
    assert_eq!(r1.seed, r2.seed);
}

#[test]
fn test_tunable_target_df() {
    let params = TunableParams {
        n_particles: 200,
        target_df: fx(1.8),
        target_kf: fx(1.3),
        ..Default::default()
    };

    let result = run_tunable(&params, 123);

    assert_eq!(result.coordinates.len(), 200);
    assert!(to_f(result.fractal_dimension) > 1.0 && to_f(result.fractal_dimension) < 3.0);
}

#[test]
fn test_tunable_df_tracks_target() {
    // The fitted dimension stays within a tolerance band of the target.
    let params = TunableParams {
        n_particles: 200,
        target_df: fx(1.8),
        target_kf: fx(1.3),
        ..Default::default()
    };
    let result = run_tunable(&params, 321);
    assert!(
        (to_f(result.fractal_dimension) - 1.8).abs() < 0.7,
        "df {} too far from target",
        to_f(result.fractal_dimension)
    );
}

#[test]
fn test_tunable_polydisperse() {
    let params = TunableParams {
        n_particles: 50,
        target_df: fx(2.0),
        radius_min: fx(0.8),
        radius_max: fx(1.2),
        ..Default::default()
    };

    assert!(params.is_polydisperse());

    let result = run_tunable(&params, 789);

    let min_r = *result.radii.iter().min().unwrap();
    let max_r = *result.radii.iter().max().unwrap();

    assert!(max_r > min_r, "Radii should vary");
    assert!(min_r >= fx(0.8));
    assert!(max_r <= fx(1.2));
}

#[test]
fn test_tunable_non_overlap() {
    // Tunable placement accepts a candidate only after an overlap scan, so
    // the tolerance is a few fixed-point units.
    let params = TunableParams { n_particles: 40, ..Default::default() };
    let result = run_tunable(&params, 5);
    assert!(check_non_overlap(&result.coordinates, &result.radii, 64));
}
