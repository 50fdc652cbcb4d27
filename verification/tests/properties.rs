//! Tests of the crate-wide properties: parameter validation, the exact
//! single-sphere gyration value, and the dimension ranges of moderately
//! sized agglomerates.

use aglogen_core::ballistic::BallisticParams;
use aglogen_core::cca::CcaParams;
use aglogen_core::dla::{run_dla, DlaParams};
use aglogen_core::fixed::FX_ONE;
use aglogen_core::metrics::calculate_radius_of_gyration;
use aglogen_core::geometry::Vector3;
use aglogen_core::result::ParamError;
use aglogen_core::sintering::SinteringDistribution;
use aglogen_core::tunable::TunableParams;

fn fx(v: f64) -> i64 {
    (v * FX_ONE as f64).round() as i64
}

fn to_f(v: i64) -> f64 {
    v as f64 / FX_ONE as f64
}

#[test]
fn test_param_validation_particle_count() {
    assert_eq!(
        DlaParams::new(0, FX_ONE, 200, FX_ONE).unwrap_err(),
        ParamError::InvalidParticleCount
    );
    assert!(DlaParams::new(10, FX_ONE, 200, FX_ONE).is_ok());
}

#[test]
fn test_param_validation_sticking() {
    assert_eq!(
        DlaParams::new(10, -1, 200, FX_ONE).unwrap_err(),
        ParamError::InvalidStickingProbability
    );
    assert_eq!(
        DlaParams::new(10, FX_ONE + 1, 200, FX_ONE).unwrap_err(),
        ParamError::InvalidStickingProbability
    );
}

#[test]
fn test_param_validation_radius() {
    assert_eq!(
        BallisticParams::new(10, FX_ONE, 0, None, SinteringDistribution::default()).unwrap_err(),
        ParamError::InvalidRadius
    );
    assert_eq!(
        BallisticParams::new(10, FX_ONE, fx(1.2), Some(fx(0.8)), SinteringDistribution::default())
            .unwrap_err(),
        ParamError::InvalidRadius
    );
    assert!(
        BallisticParams::new(10, FX_ONE, fx(0.8), Some(fx(1.2)), SinteringDistribution::default())
            .is_ok()
    );
}

#[test]
fn test_param_validation_box_size() {
    assert_eq!(
        CcaParams::new(10, FX_ONE, FX_ONE, None, 0, true).unwrap_err(),
        ParamError::InvalidBoxSize
    );
    assert!(CcaParams::new(10, FX_ONE, FX_ONE, None, fx(20.0), true).is_ok());
}

#[test]
fn test_param_validation_target() {
    assert_eq!(
        TunableParams::new(10, fx(5.0), fx(1.3), FX_ONE, None).unwrap_err(),
        ParamError::InvalidTarget
    );
    assert_eq!(
        TunableParams::new(10, fx(1.8), fx(50.0), FX_ONE, None).unwrap_err(),
        ParamError::InvalidTarget
    );
    assert!(TunableParams::new(10, fx(1.8), fx(1.3), FX_ONE, None).is_ok());
}

#[test]
fn test_single_sphere_rg_matches_closed_form() {
    // Rg of one sphere equals r * sqrt(3/5) for several radii, wherever
    // the sphere sits.
    for &(radius, x) in &[(0.5, 0.0), (1.0, 4.0), (2.0, -9.0), (1.3, 100.0)] {
        let rg = calculate_radius_of_gyration(
            &vec![Vector3::new(fx(x), fx(0.5 * x), fx(-x))],
            &vec![fx(radius)],
        );
        let expected = radius * (3.0f64 / 5.0).sqrt();
        assert!(
            (to_f(rg) - expected).abs() < 1e-3,
            "radius {}: rg {} vs {}",
            radius,
            to_f(rg),
            expected
        );
    }
}

#[test]
fn test_dla_df_moderate_range() {
    // A moderately sized diffusion-limited agglomerate lands in the open,
    // tenuous band.
    let params = DlaParams { n_particles: 150, ..Default::default() };
    let result = run_dla(&params, 42);
    let df = to_f(result.fractal_dimension);
    assert!(df >= 1.0 && df <= 2.8, "DLA df {} out of band", df);
}
