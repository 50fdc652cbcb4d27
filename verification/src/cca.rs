//! Cluster-Cluster Aggregation (CCA) simulation engine.
//!
//! All particles start as individual clusters inside a periodic cubic box,
//! move by Brownian motion (larger clusters more slowly) and merge upon
//! collision, forming hierarchical fractal structures.  Wrapping moves a
//! cluster's particles together with its center, so internal geometry never
//! distorts; every one of the `n_particles` particles survives to the end.

use vstd::prelude::*;
use crate::cluster::{
    lemma_pool_count_push, lemma_pool_count_remove, lemma_pool_count_update, pool_count_s,
    radii_in_range_s, split_spheres, Cluster,
};
use crate::fixed::{
    fx_add, fx_add_s, fx_cbrt, fx_cbrt_s, fx_div, fx_div_s, fx_mul, fx_mul_s, fx_sqrt, fx_sqrt_s,
    fx_sub, fx_sub_s, FX_ONE,
};
use crate::geometry::{v3_len_s, Sphere, Vector3};
use crate::metrics::{
    calc_fd_s, calculate_fractal_dimension, mass_of, mass_s, FX_FOUR_THIRDS_PI, FX_TENTH,
};
use crate::result::{finish_result, ParamError, SimulationResult, FIT_SPREAD_PC};
use crate::rng::{create_rng, random_direction, SplitMix64};
use crate::sintering::{half_s, FX_HALF};
use crate::ballistic::radius_range_valid_s;

verus! {

/// CCA simulation parameters.
#[derive(Debug, Clone)]
pub struct CcaParams {
    pub n_particles: usize,
    pub sticking_probability: i64,
    pub radius_min: i64,
    pub radius_max: i64,
    pub box_size: i64,
    pub max_iterations: usize,
    pub step_size_factor: i64,
    /// If true (the default), iterate until one agglomerate remains; if
    /// false, stop at `max_iterations` (multi-agglomerate mode).
    pub single_agglomerate: bool,
}

/// The box size that gives the target volume fraction: the cube root of
/// the total particle volume over the fraction.
pub open spec fn optimal_box_size_s(n: int, mean_radius: int, fraction: int) -> int {
    let pv = fx_mul_s(FX_FOUR_THIRDS_PI as int, mass_s(mean_radius));
    let total = fx_mul_s(crate::fixed::fx_clip_s(n * (FX_ONE as int)), pv);
    fx_cbrt_s(fx_div_s(total, fraction))
}

impl CcaParams {
    /// The parameter ranges a run relies on.
    pub open spec fn valid(self) -> bool {
        &&& self.n_particles >= 1
        &&& self.n_particles < 0x100000000
        &&& 0 <= self.sticking_probability <= FX_ONE
        &&& radius_range_valid_s(self.radius_min as int, self.radius_max as int)
        &&& self.box_size > 0
        &&& self.step_size_factor > 0
    }

    /// Calculate the box size that yields a target volume fraction for the
    /// given particle count and mean radius.
    pub fn optimal_box_size(n_particles: usize, mean_radius: i64, target_volume_fraction: i64) -> (
        r: i64)
        ensures
            r as int == optimal_box_size_s(
                n_particles as int,
                mean_radius as int,
                target_volume_fraction as int,
            ),
            r >= 0,
    {
        let pv = fx_mul(FX_FOUR_THIRDS_PI, mass_of(mean_radius));
        let wide: u64 = n_particles as u64;
        let nf = crate::fixed::fx_from_int(if wide > 0x7fffffffffffffffu64 {
            i64::MAX
        } else {
            wide as i64
        });
        proof {
            if (n_particles as u64) > 0x7fffffffffffffffu64 {
                assert(crate::fixed::fx_clip_s((n_particles as int) * (FX_ONE as int))
                    == i64::MAX as int) by (nonlinear_arith)
                    requires (n_particles as int) > 0x7fffffffffffffff && FX_ONE == 1048576;
            }
        }
        let total = fx_mul(nf, pv);
        fx_cbrt(fx_div(total, target_volume_fraction))
    }

    /// Validate the caller-facing parameters; an absent `radius_max`
    /// defaults to `radius_min`, and the remaining fields take their
    /// defaults.  Rejects a zero particle count, a sticking probability
    /// outside `[0, 1]`, a bad radius range, and a non-positive box size,
    /// in that order.
    pub fn new(
        n_particles: usize,
        sticking_probability: i64,
        radius_min: i64,
        radius_max: Option<i64>,
        box_size: i64,
        single_agglomerate: bool,
    ) -> (r: Result<CcaParams, ParamError>)
        ensures
            ({
                let rmax = if radius_max is Some {
                    radius_max->0
                } else {
                    radius_min
                };
                match r {
                    Ok(p) => {
                        &&& p.valid()
                        &&& p == (CcaParams {
                            n_particles,
                            sticking_probability,
                            radius_min,
                            radius_max: rmax,
                            box_size,
                            max_iterations: 100000usize,
                            step_size_factor: (2 * FX_ONE) as i64,
                            single_agglomerate,
                        })
                    },
                    Err(e) => {
                        &&& (n_particles < 1 || n_particles >= 0x100000000 || sticking_probability
                            < 0 || sticking_probability > FX_ONE || !radius_range_valid_s(
                            radius_min as int,
                            rmax as int,
                        ) || box_size <= 0)
                        &&& e == (if n_particles < 1 || n_particles >= 0x100000000 {
                            ParamError::InvalidParticleCount
                        } else if sticking_probability < 0 || sticking_probability > FX_ONE {
                            ParamError::InvalidStickingProbability
                        } else if !radius_range_valid_s(radius_min as int, rmax as int) {
                            ParamError::InvalidRadius
                        } else {
                            ParamError::InvalidBoxSize
                        })
                    },
                }
            }),
    {
        let rmax = match radius_max {
            Some(v) => v,
            None => radius_min,
        };
        if n_particles < 1 || (n_particles as u64) >= 0x100000000u64 {
            return Err(ParamError::InvalidParticleCount);
        }
        if sticking_probability < 0 || sticking_probability > FX_ONE {
            return Err(ParamError::InvalidStickingProbability);
        }
        if radius_min <= 0 || rmax < radius_min || rmax >= 0x4000000000000000i64 {
            return Err(ParamError::InvalidRadius);
        }
        if box_size <= 0 {
            return Err(ParamError::InvalidBoxSize);
        }
        Ok(
            CcaParams {
                n_particles,
                sticking_probability,
                radius_min,
                radius_max: rmax,
                box_size,
                max_iterations: 100000,
                step_size_factor: 2 * FX_ONE,
                single_agglomerate,
            },
        )
    }

    /// Whether the particle radii vary.
    pub fn is_polydisperse(&self) -> (r: bool)
        ensures
            r == (self.radius_min != self.radius_max),
    {
        self.radius_min != self.radius_max
    }

    /// Draw a radius within the configured range.  A monodisperse
    /// configuration yields `radius_min` exactly and leaves the generator
    /// untouched; a polydisperse one consumes exactly one draw, and the
    /// value that draw places in the range is pinned.
    pub fn random_radius(&self, rng: &mut SplitMix64) -> (r: i64)
        requires
            self.radius_min <= self.radius_max,
        ensures
            self.radius_min <= r <= self.radius_max,
            self.radius_min == self.radius_max ==> r == self.radius_min && final(rng).state == old(
                rng,
            ).state,
            self.radius_min != self.radius_max ==> final(rng).state == crate::rng::rng_step_s(
                old(rng).state,
            ) && r as int == crate::fixed::fx_add_s(
                self.radius_min as int,
                crate::fixed::fx_mul_s(
                    crate::fixed::fx_sub_s(self.radius_max as int, self.radius_min as int),
                    (crate::rng::rng_out_s(final(rng).state) >> 44) as int,
                ),
            ),
    {
        if self.radius_min != self.radius_max {
            rng.next_range(self.radius_min, self.radius_max)
        } else {
            self.radius_min
        }
    }

    /// The mean radius: the midpoint of the configured range.
    pub fn mean_radius(&self) -> (r: i64)
        ensures
            r as int == half_s(fx_add_s(self.radius_min as int, self.radius_max as int)),
            radius_range_valid_s(self.radius_min as int, self.radius_max as int)
                ==> self.radius_min <= r <= self.radius_max,
    {
        let s = fx_add(self.radius_min, self.radius_max);
        if s >= 0 {
            ((s as u64) / 2) as i64
        } else {
            let m: u128 = (-(s as i128)) as u128;
            -((m / 2) as i64)
        }
    }
}

impl Default for CcaParams {
    fn default() -> (r: Self)
        ensures
            r.valid(),
            r.n_particles == 1000,
            r.radius_min == FX_ONE,
            r.radius_max == FX_ONE,
            r.sticking_probability == FX_ONE,
            r.single_agglomerate,
    {
        CcaParams {
            n_particles: 1000,
            sticking_probability: FX_ONE,
            radius_min: FX_ONE,
            radius_max: FX_ONE,
            box_size: 100 * FX_ONE,
            max_iterations: 100000,
            step_size_factor: 2 * FX_ONE,
            single_agglomerate: true,
        }
    }
}

/// One axis wrapped into `[-box/2, box/2]`.
pub open spec fn pbc_axis_s(x: int, box_size: int) -> int {
    let half = half_s(box_size);
    if x > half {
        fx_sub_s(x, box_size)
    } else if x < -half {
        fx_add_s(x, box_size)
    } else {
        x
    }
}

/// A point wrapped into the periodic box on every axis.
pub open spec fn apply_pbc_s(p: Vector3, box_size: int) -> Vector3 {
    Vector3 {
        x: pbc_axis_s(p.x as int, box_size) as i64,
        y: pbc_axis_s(p.y as int, box_size) as i64,
        z: pbc_axis_s(p.z as int, box_size) as i64,
    }
}

/// Saturating magnitude: the negation saturates like every other
/// fixed-point operation.
pub open spec fn sat_abs_s(x: int) -> int {
    if x >= 0 {
        x
    } else {
        fx_sub_s(0, x)
    }
}

/// One axis of the minimum-image separation.
pub open spec fn pd_axis_s(a: int, b: int, box_size: int) -> int {
    let d = sat_abs_s(fx_sub_s(a, b));
    if d > half_s(box_size) {
        fx_sub_s(box_size, d)
    } else {
        d
    }
}

/// Minimum-image distance between two points in the periodic box.
pub open spec fn periodic_distance_s(a: Vector3, b: Vector3, box_size: int) -> int {
    v3_len_s(
        Vector3 {
            x: pd_axis_s(a.x as int, b.x as int, box_size) as i64,
            y: pd_axis_s(a.y as int, b.y as int, box_size) as i64,
            z: pd_axis_s(a.z as int, b.z as int, box_size) as i64,
        },
    )
}

/// One axis of the offset that moves `b` into `a`'s periodic image.
pub open spec fn unwrap_axis_s(a: int, b: int, box_size: int) -> int {
    let d = fx_sub_s(a, b);
    let half = half_s(box_size);
    let dw = if d > half {
        fx_sub_s(d, box_size)
    } else if d < -half {
        fx_add_s(d, box_size)
    } else {
        d
    };
    fx_sub_s(fx_sub_s(a, dw), b)
}

/// The offset that moves point `b` into the same periodic image as `a`.
pub open spec fn unwrap_offset_s(a: Vector3, b: Vector3, box_size: int) -> Vector3 {
    Vector3 {
        x: unwrap_axis_s(a.x as int, b.x as int, box_size) as i64,
        y: unwrap_axis_s(a.y as int, b.y as int, box_size) as i64,
        z: unwrap_axis_s(a.z as int, b.z as int, box_size) as i64,
    }
}

/// One axis wrapped into the box.
fn pbc_axis(x: i64, box_size: i64) -> (r: i64)
    ensures
        r as int == pbc_axis_s(x as int, box_size as int),
{
    let half = if box_size >= 0 {
        ((box_size as u64) / 2) as i64
    } else {
        let m: u128 = (-(box_size as i128)) as u128;
        -((m / 2) as i64)
    };
    if x > half {
        fx_sub(x, box_size)
    } else if x < -half {
        fx_add(x, box_size)
    } else {
        x
    }
}

/// Apply periodic boundary conditions to a point.
pub fn apply_pbc(pos: &Vector3, box_size: i64) -> (r: Vector3)
    ensures
        r == apply_pbc_s(*pos, box_size as int),
{
    Vector3 {
        x: pbc_axis(pos.x, box_size),
        y: pbc_axis(pos.y, box_size),
        z: pbc_axis(pos.z, box_size),
    }
}

/// One axis of the minimum-image separation.
fn pd_axis(a: i64, b: i64, box_size: i64) -> (r: i64)
    ensures
        r as int == pd_axis_s(a as int, b as int, box_size as int),
{
    let diff = fx_sub(a, b);
    let d = if diff >= 0 {
        diff
    } else {
        fx_sub(0, diff)
    };
    let half = if box_size >= 0 {
        ((box_size as u64) / 2) as i64
    } else {
        let m: u128 = (-(box_size as i128)) as u128;
        -((m / 2) as i64)
    };
    if d > half {
        fx_sub(box_size, d)
    } else {
        d
    }
}

/// Minimum-image distance between two points.
pub fn periodic_distance(a: &Vector3, b: &Vector3, box_size: i64) -> (r: i64)
    ensures
        r as int == periodic_distance_s(*a, *b, box_size as int),
        r >= 0,
{
    let v = Vector3 {
        x: pd_axis(a.x, b.x, box_size),
        y: pd_axis(a.y, b.y, box_size),
        z: pd_axis(a.z, b.z, box_size),
    };
    v.length()
}

/// One axis of the unwrap offset.
fn unwrap_axis(a: i64, b: i64, box_size: i64) -> (r: i64)
    ensures
        r as int == unwrap_axis_s(a as int, b as int, box_size as int),
{
    let d = fx_sub(a, b);
    let half = if box_size >= 0 {
        ((box_size as u64) / 2) as i64
    } else {
        let m: u128 = (-(box_size as i128)) as u128;
        -((m / 2) as i64)
    };
    let dw = if d > half {
        fx_sub(d, box_size)
    } else if d < -half {
        fx_add(d, box_size)
    } else {
        d
    };
    fx_sub(fx_sub(a, dw), b)
}

/// Calculate the offset that moves point `b` into the same periodic image
/// as point `a`.
pub fn unwrap_periodic_offset(a: &Vector3, b: &Vector3, box_size: i64) -> (r: Vector3)
    ensures
        r == unwrap_offset_s(*a, *b, box_size as int),
{
    Vector3 {
        x: unwrap_axis(a.x, b.x, box_size),
        y: unwrap_axis(a.y, b.y, box_size),
        z: unwrap_axis(a.z, b.z, box_size),
    }
}

/// Two clusters hold a particle pair within contact distance under the
/// minimum-image convention.
pub open spec fn clusters_collide_s(a: Seq<Sphere>, b: Seq<Sphere>, box_size: int) -> bool {
    exists|i: int, j: int|
        0 <= i < a.len() && 0 <= j < b.len() && periodic_distance_s(
            (#[trigger] a[i]).center,
            (#[trigger] b[j]).center,
            box_size,
        ) <= fx_add_s(a[i].radius as int, b[j].radius as int)
}

/// Check whether any particle of one cluster touches any particle of the
/// other, with periodic distances.
fn check_cluster_collision_pbc(a: &Cluster, b: &Cluster, box_size: i64) -> (r: bool)
    ensures
        r == clusters_collide_s(a.particles@, b.particles@, box_size as int),
{
    let na = a.particles.len();
    let nb = b.particles.len();
    let mut i: usize = 0;
    while i < na
        invariant
            na == a.particles.len(),
            nb == b.particles.len(),
            i <= na,
            forall|p: int, q: int|
                0 <= p < i && 0 <= q < nb ==> periodic_distance_s(
                    (#[trigger] a.particles@[p]).center,
                    (#[trigger] b.particles@[q]).center,
                    box_size as int,
                ) > fx_add_s(a.particles@[p].radius as int, b.particles@[q].radius as int),
        decreases na - i,
    {
        let pa = a.particles[i];
        let mut j: usize = 0;
        while j < nb
            invariant
                na == a.particles.len(),
                nb == b.particles.len(),
                i < na,
                j <= nb,
                pa == a.particles@[i as int],
                forall|p: int, q: int|
                    0 <= p < i && 0 <= q < nb ==> periodic_distance_s(
                        (#[trigger] a.particles@[p]).center,
                        (#[trigger] b.particles@[q]).center,
                        box_size as int,
                    ) > fx_add_s(a.particles@[p].radius as int, b.particles@[q].radius as int),
                forall|q: int|
                    0 <= q < j ==> periodic_distance_s(
                        pa.center,
                        (#[trigger] b.particles@[q]).center,
                        box_size as int,
                    ) > fx_add_s(pa.radius as int, b.particles@[q].radius as int),
            decreases nb - j,
        {
            let pb = b.particles[j];
            let dist = periodic_distance(&pa.center, &pb.center, box_size);
            let contact = fx_add(pa.radius, pb.radius);
            if dist <= contact {
                return true;
            }
            j = j + 1;
        }
        i = i + 1;
    }
    false
}

/// Run a CCA simulation.  The result holds exactly `n_particles` particles
/// (merging never loses one), every radius lies within the configured range
/// (and equals `radius_min` exactly in the monodisperse case), and the
/// descriptors are consistent with the final particle data.  The same
/// parameters and seed always reproduce the same result; multi-agglomerate
/// mode may end with several disjoint clusters, whose particles are all
/// still reported.
#[verifier::rlimit(100)]
pub fn run_cca(params: &CcaParams, seed: u64) -> (r: SimulationResult)
    requires
        params.valid(),
    ensures
        r.seed == seed,
        r.coordinates.len() == r.radii.len(),
        r.coordinates.len() == params.n_particles,
        forall|i: int|
            0 <= i < r.radii.len() ==> params.radius_min <= #[trigger] r.radii@[i]
                <= params.radius_max,
        params.radius_min == params.radius_max ==> forall|i: int|
            0 <= i < r.radii.len() ==> #[trigger] r.radii@[i] == params.radius_min,
        r.n_evolution@.len() == r.rg_evolution@.len(),
        r.fractal_dimension as int == calc_fd_s(r.n_evolution@, r.rg_evolution@).0,
        r.prefactor as int == calc_fd_s(r.n_evolution@, r.rg_evolution@).1,
        crate::result::result_consistent_s(r, crate::fixed::fx_mul_s(
            half_s(fx_add_s(params.radius_min as int, params.radius_max as int)),
            FX_TENTH as int,
        )),
{
    let mut rng = create_rng(seed);
    let n = params.n_particles;
    let mean_radius = params.mean_radius();

    // Bound convergence time: target a small volume fraction, and never
    // grow the user's box in single-agglomerate mode.
    let optimal_box = CcaParams::optimal_box_size(n, mean_radius, 31457);
    let effective_box_size = if params.single_agglomerate && optimal_box < params.box_size {
        optimal_box
    } else {
        params.box_size
    };

    // All particles start as individual clusters scattered in the box.
    let mut clusters: Vec<Cluster> = Vec::new();
    let mut ci: usize = 0;
    while ci < n
        invariant
            params.valid(),
            n == params.n_particles,
            ci <= n,
            clusters.len() == ci,
            pool_count_s(clusters@) == ci as int,
            forall|k: int| 0 <= k < clusters.len() ==> (#[trigger] clusters@[k]).wf(),
            forall|k: int|
                0 <= k < clusters.len() ==> radii_in_range_s(
                    (#[trigger] clusters@[k]).particles@,
                    params.radius_min as int,
                    params.radius_max as int,
                ),
        decreases n - ci,
    {
        let ux = rng.next_unit();
        let uy = rng.next_unit();
        let uz = rng.next_unit();
        let x = fx_mul(fx_sub(ux, FX_HALF), effective_box_size);
        let y = fx_mul(fx_sub(uy, FX_HALF), effective_box_size);
        let z = fx_mul(fx_sub(uz, FX_HALF), effective_box_size);
        let radius = params.random_radius(&mut rng);
        let c = Cluster::new(Sphere { center: Vector3 { x, y, z }, radius });
        proof {
            lemma_pool_count_push(clusters@, c);
        }
        clusters.push(c);
        ci = ci + 1;
    }

    let mut rg_evolution: Vec<i64> = Vec::new();
    let mut n_values: Vec<usize> = Vec::new();

    let step_size = fx_mul(mean_radius, params.step_size_factor);
    let max_iters: usize = if params.single_agglomerate {
        10000000
    } else {
        params.max_iterations
    };
    let mut iteration: usize = 0;

    while clusters.len() > 1 && iteration < max_iters
        invariant
            params.valid(),
            n == params.n_particles,
            1 <= clusters.len(),
            pool_count_s(clusters@) == n as int,
            rg_evolution.len() == n_values.len(),
            forall|k: int| 0 <= k < clusters.len() ==> (#[trigger] clusters@[k]).wf(),
            forall|k: int|
                0 <= k < clusters.len() ==> radii_in_range_s(
                    (#[trigger] clusters@[k]).particles@,
                    params.radius_min as int,
                    params.radius_max as int,
                ),
        decreases max_iters - iteration,
    {
        iteration = iteration + 1;

        // Brownian motion: smaller clusters move faster.
        let mut m: usize = 0;
        while m < clusters.len()
            invariant
                params.valid(),
                n == params.n_particles,
                m <= clusters.len(),
                pool_count_s(clusters@) == n as int,
                forall|k: int| 0 <= k < clusters.len() ==> (#[trigger] clusters@[k]).wf(),
                forall|k: int|
                    0 <= k < clusters.len() ==> radii_in_range_s(
                        (#[trigger] clusters@[k]).particles@,
                        params.radius_min as int,
                        params.radius_max as int,
                    ),
            decreases clusters.len() - m,
        {
            let (dx, dy, dz) = random_direction(&mut rng);
            let mut moved = clusters[m].duplicate();
            let mobility = fx_div(FX_ONE, fx_add(FX_ONE, fx_sqrt(moved.radius_of_gyration)));
            let amount = fx_mul(step_size, mobility);
            let delta = Vector3 {
                x: fx_mul(dx, amount),
                y: fx_mul(dy, amount),
                z: fx_mul(dz, amount),
            };
            moved.translate(delta);

            // Wrap the center; if it wrapped, carry the particles with it.
            let wrapped = apply_pbc(&moved.center_of_mass, effective_box_size);
            let wrap_delta = wrapped.sub(&moved.center_of_mass);
            if wrap_delta.x != 0 || wrap_delta.y != 0 || wrap_delta.z != 0 {
                moved.translate(wrap_delta);
            }
            proof {
                lemma_pool_count_update(clusters@, m as int, moved);
            }
            clusters.set(m, moved);
            m = m + 1;
        }

        // Find colliding pairs: a cheap bounding check, then the exact
        // particle-level test, then the sticking draw.
        let mut merges: Vec<(usize, usize)> = Vec::new();
        let mut merged_flags: Vec<bool> = Vec::new();
        let mut f: usize = 0;
        while f < clusters.len()
            invariant
                merged_flags.len() == f,
                f <= clusters.len(),
            decreases clusters.len() - f,
        {
            merged_flags.push(false);
            f = f + 1;
        }
        let mut i: usize = 0;
        while i < clusters.len()
            invariant
                params.valid(),
                merged_flags.len() == clusters.len(),
                i <= clusters.len(),
                pool_count_s(clusters@) == n as int,
                n == params.n_particles,
                forall|k: int| 0 <= k < clusters.len() ==> (#[trigger] clusters@[k]).wf(),
                forall|k: int|
                    0 <= k < clusters.len() ==> radii_in_range_s(
                        (#[trigger] clusters@[k]).particles@,
                        params.radius_min as int,
                        params.radius_max as int,
                    ),
                forall|q: int|
                    0 <= q < merges.len() ==> (#[trigger] merges@[q]).0 < clusters.len()
                        && merges@[q].1 < clusters.len() && merges@[q].0 != merges@[q].1,
            decreases clusters.len() - i,
        {
            if !merged_flags[i] {
                let mut j: usize = i + 1;
                while j < clusters.len()
                    invariant
                        params.valid(),
                        merged_flags.len() == clusters.len(),
                        i < j || j == clusters.len(),
                        i < clusters.len(),
                        j <= clusters.len(),
                        pool_count_s(clusters@) == n as int,
                        n == params.n_particles,
                        forall|k: int| 0 <= k < clusters.len() ==> (#[trigger] clusters@[k]).wf(),
                        forall|k: int|
                            0 <= k < clusters.len() ==> radii_in_range_s(
                                (#[trigger] clusters@[k]).particles@,
                                params.radius_min as int,
                                params.radius_max as int,
                            ),
                        forall|q: int|
                            0 <= q < merges.len() ==> (#[trigger] merges@[q]).0 < clusters.len()
                                && merges@[q].1 < clusters.len() && merges@[q].0 != merges@[q].1,
                    decreases clusters.len() - j,
                {
                    if !merged_flags[j] {
                        let dist = periodic_distance(
                            &clusters[i].center_of_mass,
                            &clusters[j].center_of_mass,
                            effective_box_size,
                        );
                        let max_dist = fx_add(clusters[i].bounding_radius, clusters[j].bounding_radius);
                        if dist < max_dist {
                            if check_cluster_collision_pbc(
                                &clusters[i],
                                &clusters[j],
                                effective_box_size,
                            ) {
                                let stick = if params.sticking_probability >= FX_ONE {
                                    true
                                } else {
                                    rng.next_accept(params.sticking_probability)
                                };
                                if stick {
                                    merges.push((i, j));
                                    merged_flags.set(j, true);
                                }
                            }
                        }
                    }
                    j = j + 1;
                }
            }
            i = i + 1;
        }

        // Perform the merges, highest second index first so earlier removals
        // cannot shift later ones.
        let mut sorted: Vec<(usize, usize)> = Vec::new();
        let mut s: usize = 0;
        while s < merges.len()
            invariant
                s <= merges.len(),
                forall|q: int|
                    0 <= q < merges.len() ==> (#[trigger] merges@[q]).0 != merges@[q].1,
                forall|q: int|
                    0 <= q < sorted.len() ==> (#[trigger] sorted@[q]).0 != sorted@[q].1,
            decreases merges.len() - s,
        {
            // Insertion keeping second components descending.
            let item = merges[s];
            let mut pos: usize = 0;
            while pos < sorted.len() && sorted[pos].1 > item.1
                invariant
                    pos <= sorted.len(),
                decreases sorted.len() - pos,
            {
                pos = pos + 1;
            }
            proof {
                assert(forall|q: int|
                    0 <= q < sorted@.insert(pos as int, item).len() ==> (#[trigger] sorted@.insert(
                        pos as int,
                        item,
                    )[q]).0 != sorted@.insert(pos as int, item)[q].1) by {
                    assert(forall|q: int|
                        0 <= q < sorted@.insert(pos as int, item).len()
                            ==> sorted@.insert(pos as int, item)[q] == item || sorted@.contains(
                            sorted@.insert(pos as int, item)[q],
                        ));
                }
            }
            sorted.insert(pos, item);
            s = s + 1;
        }

        let mut t: usize = 0;
        while t < sorted.len()
            invariant
                params.valid(),
                n == params.n_particles,
                t <= sorted.len(),
                1 <= clusters.len(),
                pool_count_s(clusters@) == n as int,
                forall|k: int| 0 <= k < clusters.len() ==> (#[trigger] clusters@[k]).wf(),
                forall|k: int|
                    0 <= k < clusters.len() ==> radii_in_range_s(
                        (#[trigger] clusters@[k]).particles@,
                        params.radius_min as int,
                        params.radius_max as int,
                    ),
                forall|q: int|
                    0 <= q < sorted.len() ==> (#[trigger] sorted@[q]).0 != sorted@[q].1,
            decreases sorted.len() - t,
        {
            let (mi, mj) = sorted[t];
            t = t + 1;
            if mj < clusters.len() && mi < clusters.len() && mi != mj {
                proof {
                    lemma_pool_count_remove(clusters@, mj as int);
                }
                let mut cluster_j = clusters.remove(mj);
                let adjusted_i = if mi > mj {
                    mi - 1
                } else {
                    mi
                };
                if adjusted_i < clusters.len() {
                    // Unwrap the absorbed cluster into the same periodic
                    // image as the surviving one.
                    let delta = unwrap_periodic_offset(
                        &clusters[adjusted_i].center_of_mass,
                        &cluster_j.center_of_mass,
                        effective_box_size,
                    );
                    if delta.x != 0 || delta.y != 0 || delta.z != 0 {
                        cluster_j.translate(delta);
                    }
                    let mut merged = clusters[adjusted_i].duplicate();
                    merged.merge_with(cluster_j);
                    proof {
                        lemma_pool_count_update(clusters@, adjusted_i as int, merged);
                    }
                    clusters.set(adjusted_i, merged);
                } else {
                    // Unreachable index drift: keep the pool intact.
                    proof {
                        lemma_pool_count_push(clusters@, cluster_j);
                    }
                    clusters.push(cluster_j);
                }
            }
        }

        // Track the largest cluster's growth.
        let mut best: usize = 0;
        let mut b: usize = 1;
        while b < clusters.len()
            invariant
                1 <= clusters.len(),
                b <= clusters.len(),
                best < clusters.len(),
            decreases clusters.len() - b,
        {
            if clusters[b].particles.len() >= clusters[best].particles.len() {
                best = b;
            }
            b = b + 1;
        }
        rg_evolution.push(clusters[best].radius_of_gyration);
        n_values.push(clusters[best].particles.len());
    }

    // Collect every particle from every remaining cluster.
    let mut final_particles: Vec<Sphere> = Vec::new();
    let mut g: usize = 0;
    while g < clusters.len()
        invariant
            params.valid(),
            g <= clusters.len(),
            pool_count_s(clusters@) == n as int,
            n == params.n_particles,
            final_particles.len() as int == pool_count_s(clusters@.take(g as int)),
            forall|k: int| 0 <= k < clusters.len() ==> (#[trigger] clusters@[k]).wf(),
            forall|k: int|
                0 <= k < clusters.len() ==> radii_in_range_s(
                    (#[trigger] clusters@[k]).particles@,
                    params.radius_min as int,
                    params.radius_max as int,
                ),
            radii_in_range_s(final_particles@, params.radius_min as int, params.radius_max as int),
        decreases clusters.len() - g,
    {
        proof {
            assert(clusters@.take(g + 1).drop_last() == clusters@.take(g as int));
        }
        let cn = clusters[g].particles.len();
        let mut h: usize = 0;
        while h < cn
            invariant
                g < clusters.len(),
                cn == clusters@[g as int].particles.len(),
                h <= cn,
                final_particles.len() as int == pool_count_s(clusters@.take(g as int)) + h as int,
                radii_in_range_s(
                    clusters@[g as int].particles@,
                    params.radius_min as int,
                    params.radius_max as int,
                ),
                radii_in_range_s(
                    final_particles@,
                    params.radius_min as int,
                    params.radius_max as int,
                ),
            decreases cn - h,
        {
            let p = clusters[g].particles[h];
            final_particles.push(p);
            h = h + 1;
        }
        g = g + 1;
    }
    proof {
        assert(clusters@.take(clusters@.len() as int) == clusters@);
    }

    let (coords, radii) = split_spheres(&final_particles);
    let fit = calculate_fractal_dimension(&n_values, &rg_evolution);
    let tolerance = fx_mul(mean_radius, FX_TENTH);
    finish_result(coords, radii, rg_evolution, n_values, tolerance, fit, FIT_SPREAD_PC, seed)
}

} // verus!
