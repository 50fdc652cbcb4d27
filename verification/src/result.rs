//! Simulation result types and parameter validation errors.

use vstd::prelude::*;
use crate::fixed::FX_ONE;
use crate::geometry::Vector3;
use crate::metrics::{
    anisotropy_s, acylindricity_s, asphericity_s, calculate_coordination,
    calculate_inertia_tensor, calculate_porosity, contact_count_s, coordination_stats,
    counts_mean_s, counts_std_s, porosity_s, FX_TENTH,
};

verus! {

/// Nominal spread reported alongside a particle-cluster convention fit.
pub const FIT_SPREAD_PC: i64 = 20972;

/// Nominal spread reported alongside a tunable convention fit.
pub const FIT_SPREAD_TUNABLE: i64 = 52429;

/// A parameter rejected at construction.
#[derive(Debug, Clone, Copy, PartialEq, Eq, Structural)]
pub enum ParamError {
    /// The particle count is zero.
    InvalidParticleCount,
    /// The sticking probability lies outside `[0, 1]`.
    InvalidStickingProbability,
    /// A radius bound is non-positive, or the bounds are out of order.
    InvalidRadius,
    /// The box size is non-positive.
    InvalidBoxSize,
    /// The target fractal dimension or prefactor lies outside its range.
    InvalidTarget,
}

/// The outcome of one simulation run: the final particles, the growth
/// history, and the derived shape and fractal descriptors.
#[derive(Debug, Clone)]
pub struct SimulationResult {
    /// Final particle centers.
    pub coordinates: Vec<Vector3>,
    /// Final particle radii.
    pub radii: Vec<i64>,
    /// Radius of gyration of the (largest) cluster after each growth step.
    pub rg_evolution: Vec<i64>,
    /// Particle count of the (largest) cluster at each recorded step; the
    /// fitted dimension and prefactor are the power-law fit of
    /// `rg_evolution` against these counts.
    pub n_evolution: Vec<usize>,
    /// Fitted fractal dimension, within `[1, 3]`.
    pub fractal_dimension: i64,
    /// Nominal spread of the fitted dimension.
    pub fractal_dimension_std: i64,
    /// Fitted prefactor.
    pub prefactor: i64,
    /// Porosity, within `[0, 1]`.
    pub porosity: i64,
    /// Mean coordination number.
    pub coordination_mean: i64,
    /// Spread of the coordination numbers.
    pub coordination_std: i64,
    /// The seed the run was driven by; replaying it reproduces the result.
    pub seed: u64,
    /// Anisotropy of the inertia tensor.
    pub anisotropy: i64,
    /// Asphericity of the inertia tensor.
    pub asphericity: i64,
    /// Acylindricity of the inertia tensor.
    pub acylindricity: i64,
    /// Principal moments of inertia, sorted ascending.
    pub principal_moments: Vec<i64>,
    /// Principal axes matching the moments.
    pub principal_axes: Vec<Vector3>,
}

/// The coordination counts of every particle, as a sequence.
pub open spec fn coordination_seq_s(coords: Seq<Vector3>, radii: Seq<i64>, tol: int) -> Seq<u32> {
    Seq::new(
        coords.len(),
        |i: int| contact_count_s(coords, radii, tol, i, coords.len() as int) as u32,
    )
}

/// The descriptors a finished result carries, tied to its particle data.
pub open spec fn result_consistent_s(r: SimulationResult, tol: int) -> bool {
    &&& r.coordinates.len() == r.radii.len()
    &&& r.porosity as int == porosity_s(r.coordinates@, r.radii@)
    &&& 0 <= r.porosity <= FX_ONE
    &&& r.coordination_mean as int == counts_mean_s(
        coordination_seq_s(r.coordinates@, r.radii@, tol),
    )
    &&& r.coordination_std as int == counts_std_s(coordination_seq_s(r.coordinates@, r.radii@, tol))
    &&& FX_ONE <= r.fractal_dimension <= 3 * FX_ONE
    &&& r.prefactor >= FX_TENTH
    &&& r.principal_moments.len() == 3
    &&& r.principal_axes.len() == 3
    &&& 1 <= r.principal_moments@[0] <= r.principal_moments@[1] <= r.principal_moments@[2]
    &&& r.anisotropy as int == anisotropy_s(
        r.principal_moments@[0] as int,
        r.principal_moments@[2] as int,
    )
    &&& r.asphericity as int == asphericity_s(
        r.principal_moments@[0] as int,
        r.principal_moments@[1] as int,
        r.principal_moments@[2] as int,
    )
    &&& r.acylindricity as int == acylindricity_s(
        r.principal_moments@[0] as int,
        r.principal_moments@[1] as int,
        r.principal_moments@[2] as int,
    )
}

/// Package the final particle data and growth history into a result record,
/// computing the porosity, coordination statistics and inertia descriptors.
pub fn finish_result(
    coordinates: Vec<Vector3>,
    radii: Vec<i64>,
    rg_evolution: Vec<i64>,
    n_evolution: Vec<usize>,
    contact_tolerance: i64,
    fit: (i64, i64, i64),
    fit_std: i64,
    seed: u64,
) -> (r: SimulationResult)
    requires
        coordinates.len() == radii.len(),
        coordinates.len() < 0x100000000,
        FX_ONE <= fit.0 <= 3 * FX_ONE,
        fit.1 >= FX_TENTH,
    ensures
        r.coordinates == coordinates,
        r.radii == radii,
        r.rg_evolution == rg_evolution,
        r.n_evolution == n_evolution,
        r.fractal_dimension == fit.0,
        r.prefactor == fit.1,
        r.fractal_dimension_std == fit_std,
        r.seed == seed,
        result_consistent_s(r, contact_tolerance as int),
{
    let porosity = calculate_porosity(&coordinates, &radii);
    let counts = calculate_coordination(&coordinates, &radii, contact_tolerance);
    proof {
        assert(counts@ =~= coordination_seq_s(coordinates@, radii@, contact_tolerance as int));
    }
    let (coordination_mean, coordination_std) = coordination_stats(&counts);
    let inertia = calculate_inertia_tensor(&coordinates, &radii);
    SimulationResult {
        coordinates,
        radii,
        rg_evolution,
        n_evolution,
        fractal_dimension: fit.0,
        fractal_dimension_std: fit_std,
        prefactor: fit.1,
        porosity,
        coordination_mean,
        coordination_std,
        seed,
        anisotropy: inertia.anisotropy,
        asphericity: inertia.asphericity,
        acylindricity: inertia.acylindricity,
        principal_moments: inertia.principal_moments,
        principal_axes: inertia.principal_axes,
    }
}

} // verus!
