//! Tests of the agglomerate metrics: center of gravity, radius of
//! gyration, fits, coordination, porosity and the inertia descriptors.

use aglogen_core::fixed::FX_ONE;
use aglogen_core::geometry::Vector3;
use aglogen_core::metrics::{
    calculate_center_of_gravity, calculate_coordination, calculate_fractal_dimension,
    calculate_inertia_tensor, calculate_porosity, calculate_radius_of_gyration,
};

fn fx(v: f64) -> i64 {
    (v * FX_ONE as f64).round() as i64
}

fn to_f(v: i64) -> f64 {
    v as f64 / FX_ONE as f64
}

#[test]
fn test_center_of_gravity() {
    let coords = vec![Vector3::new(0, 0, 0), Vector3::new(fx(2.0), 0, 0)];
    let radii = vec![fx(1.0), fx(1.0)];

    let cg = calculate_center_of_gravity(&coords, &radii);
    assert_eq!(cg.x, fx(1.0));
    assert_eq!(cg.y, 0);
    assert_eq!(cg.z, 0);
}

#[test]
fn test_radius_of_gyration() {
    // A single particle at the origin: Rg = r * sqrt(3/5).
    let coords = vec![Vector3::new(0, 0, 0)];
    let radii = vec![fx(1.0)];

    let rg = calculate_radius_of_gyration(&coords, &radii);
    let expected = (3.0f64 / 5.0).sqrt();
    assert!((to_f(rg) - expected).abs() < 1e-4, "rg {} vs {}", to_f(rg), expected);
}

#[test]
fn test_radius_of_gyration_off_origin() {
    // The positional term vanishes exactly wherever the sphere sits.
    let at_origin = calculate_radius_of_gyration(&vec![Vector3::new(0, 0, 0)], &vec![fx(1.0)]);
    let shifted = calculate_radius_of_gyration(
        &vec![Vector3::new(fx(7.0), fx(-3.0), fx(11.0))],
        &vec![fx(1.0)],
    );
    assert_eq!(at_origin, shifted);
}

#[test]
fn test_inertia_tensor_symmetric() {
    // Six particles at unit distance along each semi-axis.
    let coords = vec![
        Vector3::new(fx(1.0), 0, 0),
        Vector3::new(fx(-1.0), 0, 0),
        Vector3::new(0, fx(1.0), 0),
        Vector3::new(0, fx(-1.0), 0),
        Vector3::new(0, 0, fx(1.0)),
        Vector3::new(0, 0, fx(-1.0)),
    ];
    let radii = vec![fx(0.5); 6];

    let result = calculate_inertia_tensor(&coords, &radii);

    // A symmetric distribution has anisotropy close to one and
    // asphericity near zero.
    assert!((to_f(result.anisotropy) - 1.0).abs() < 0.1);
    assert!(to_f(result.asphericity).abs() < 0.1);
}

#[test]
fn test_inertia_tensor_elongated() {
    // A chain along the x axis.
    let coords = vec![
        Vector3::new(0, 0, 0),
        Vector3::new(fx(2.0), 0, 0),
        Vector3::new(fx(4.0), 0, 0),
        Vector3::new(fx(6.0), 0, 0),
        Vector3::new(fx(8.0), 0, 0),
    ];
    let radii = vec![fx(1.0); 5];

    let result = calculate_inertia_tensor(&coords, &radii);

    // An elongated structure has high anisotropy and asphericity.
    assert!(to_f(result.anisotropy) > 1.5);
    assert!(to_f(result.asphericity) > 0.1);
}

#[test]
fn test_coordination_pair() {
    let coords = vec![Vector3::new(0, 0, 0), Vector3::new(fx(2.0), 0, 0)];
    let radii = vec![fx(1.0), fx(1.0)];
    let counts = calculate_coordination(&coords, &radii, fx(0.1));
    assert_eq!(counts, vec![1u32, 1u32]);
}

#[test]
fn test_porosity_single_sphere() {
    // One unit sphere: porosity = 1 - v / (4/3 pi (2 rg)^3)
    // with rg = sqrt(3/5), so roughly 0.731.
    let coords = vec![Vector3::new(0, 0, 0)];
    let radii = vec![fx(1.0)];
    let porosity = calculate_porosity(&coords, &radii);
    assert!(porosity >= 0 && porosity <= FX_ONE);
    assert!((to_f(porosity) - 0.731).abs() < 0.01, "porosity {}", to_f(porosity));
}

#[test]
fn test_fit_defaults_on_few_samples() {
    // Fewer than three valid samples yield the neutral default (2, 1, 0).
    let fit = calculate_fractal_dimension(&vec![1usize, 2], &vec![fx(0.8), fx(1.1)]);
    assert_eq!(fit.0, 2 * FX_ONE);
    assert_eq!(fit.1, FX_ONE);
    assert_eq!(fit.2, 0);
}

#[test]
fn test_fit_recovers_line() {
    // Samples drawn from an exact power law N = (Rg / 1)^2 come back with
    // a dimension near two.
    let mut ns: Vec<usize> = Vec::new();
    let mut rgs: Vec<i64> = Vec::new();
    for k in 2..40usize {
        ns.push(k * k);
        rgs.push(fx(k as f64));
    }
    let fit = calculate_fractal_dimension(&ns, &rgs);
    assert!((to_f(fit.0) - 2.0).abs() < 0.05, "df {}", to_f(fit.0));
}
