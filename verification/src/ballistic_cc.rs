//! Ballistic cluster-cluster aggregation simulation engine.
//!
//! All particles start as individual clusters.  Each round picks two
//! clusters at random, launches one (the impactor) along a jittered
//! straight line toward the other (the impacted), solves, for every
//! particle pair, the quadratic for the trajectory parameter at which the
//! two touch, and merges at the smallest positive root.  A trajectory with
//! no root returns both clusters to the pool unchanged (expected
//! attrition).  This produces more open, branched structures than
//! particle-cluster ballistic growth.

use vstd::prelude::*;
use crate::cluster::{
    lemma_pool_count_push, lemma_pool_count_remove, pool_count_s, radii_in_range_s, split_spheres,
    Cluster,
};
use crate::fixed::{
    fx_add, fx_add_s, fx_cbrt, fx_div, fx_div_s, fx_from_int, fx_mul, fx_mul_s, fx_sqrt,
    fx_sqrt_s, fx_sub, fx_sub_s, FX_ONE,
};
use crate::geometry::{v3_dot_s, v3_sub_s, Sphere, Vector3};
use crate::metrics::{calc_fd_s, calculate_fractal_dimension, FX_TENTH};
use crate::result::{finish_result, ParamError, SimulationResult, FIT_SPREAD_PC};
use crate::rng::{create_rng, random_direction, random_point_on_sphere, SplitMix64};
use crate::sintering::{half_s, FX_HALF};
use crate::ballistic::radius_range_valid_s;

verus! {

/// Ballistic cluster-cluster parameters.
#[derive(Debug, Clone)]
pub struct BallisticCcParams {
    pub n_particles: usize,
    pub sticking_probability: i64,
    pub radius_min: i64,
    pub radius_max: i64,
    pub max_collision_attempts: usize,
}

impl BallisticCcParams {
    /// The parameter ranges a run relies on.
    pub open spec fn valid(self) -> bool {
        &&& self.n_particles >= 1
        &&& self.n_particles < 0x100000000
        &&& 0 <= self.sticking_probability <= FX_ONE
        &&& radius_range_valid_s(self.radius_min as int, self.radius_max as int)
    }

    /// Validate the caller-facing parameters; an absent `radius_max`
    /// defaults to `radius_min`.  Rejects a zero particle count, a sticking
    /// probability outside `[0, 1]`, and a bad radius range, in that order.
    pub fn new(
        n_particles: usize,
        sticking_probability: i64,
        radius_min: i64,
        radius_max: Option<i64>,
    ) -> (r: Result<BallisticCcParams, ParamError>)
        ensures
            ({
                let rmax = if radius_max is Some {
                    radius_max->0
                } else {
                    radius_min
                };
                match r {
                    Ok(p) => {
                        &&& p.valid()
                        &&& p == (BallisticCcParams {
                            n_particles,
                            sticking_probability,
                            radius_min,
                            radius_max: rmax,
                            max_collision_attempts: 100usize,
                        })
                    },
                    Err(e) => {
                        &&& (n_particles < 1 || n_particles >= 0x100000000 || sticking_probability
                            < 0 || sticking_probability > FX_ONE || !radius_range_valid_s(
                            radius_min as int,
                            rmax as int,
                        ))
                        &&& e == (if n_particles < 1 || n_particles >= 0x100000000 {
                            ParamError::InvalidParticleCount
                        } else if sticking_probability < 0 || sticking_probability > FX_ONE {
                            ParamError::InvalidStickingProbability
                        } else {
                            ParamError::InvalidRadius
                        })
                    },
                }
            }),
    {
        let rmax = match radius_max {
            Some(v) => v,
            None => radius_min,
        };
        if n_particles < 1 || (n_particles as u64) >= 0x100000000u64 {
            return Err(ParamError::InvalidParticleCount);
        }
        if sticking_probability < 0 || sticking_probability > FX_ONE {
            return Err(ParamError::InvalidStickingProbability);
        }
        if radius_min <= 0 || rmax < radius_min || rmax >= 0x4000000000000000i64 {
            return Err(ParamError::InvalidRadius);
        }
        Ok(
            BallisticCcParams {
                n_particles,
                sticking_probability,
                radius_min,
                radius_max: rmax,
                max_collision_attempts: 100,
            },
        )
    }

    /// Whether the particle radii vary.
    pub fn is_polydisperse(&self) -> (r: bool)
        ensures
            r == (self.radius_min != self.radius_max),
    {
        self.radius_min != self.radius_max
    }

    /// Draw a radius within the configured range.  A monodisperse
    /// configuration yields `radius_min` exactly and leaves the generator
    /// untouched; a polydisperse one consumes exactly one draw, and the
    /// value that draw places in the range is pinned.
    pub fn random_radius(&self, rng: &mut SplitMix64) -> (r: i64)
        requires
            self.radius_min <= self.radius_max,
        ensures
            self.radius_min <= r <= self.radius_max,
            self.radius_min == self.radius_max ==> r == self.radius_min && final(rng).state == old(
                rng,
            ).state,
            self.radius_min != self.radius_max ==> final(rng).state == crate::rng::rng_step_s(
                old(rng).state,
            ) && r as int == crate::fixed::fx_add_s(
                self.radius_min as int,
                crate::fixed::fx_mul_s(
                    crate::fixed::fx_sub_s(self.radius_max as int, self.radius_min as int),
                    (crate::rng::rng_out_s(final(rng).state) >> 44) as int,
                ),
            ),
    {
        if self.radius_min != self.radius_max {
            rng.next_range(self.radius_min, self.radius_max)
        } else {
            self.radius_min
        }
    }

    /// The mean radius: the midpoint of the configured range.
    pub fn mean_radius(&self) -> (r: i64)
        ensures
            r as int == half_s(fx_add_s(self.radius_min as int, self.radius_max as int)),
            radius_range_valid_s(self.radius_min as int, self.radius_max as int)
                ==> self.radius_min <= r <= self.radius_max,
    {
        let s = fx_add(self.radius_min, self.radius_max);
        if s >= 0 {
            ((s as u64) / 2) as i64
        } else {
            let m: u128 = (-(s as i128)) as u128;
            -((m / 2) as i64)
        }
    }
}

impl Default for BallisticCcParams {
    fn default() -> (r: Self)
        ensures
            r.valid(),
            r.n_particles == 1000,
            r.radius_min == FX_ONE,
            r.radius_max == FX_ONE,
            r.sticking_probability == FX_ONE,
    {
        BallisticCcParams {
            n_particles: 1000,
            sticking_probability: FX_ONE,
            radius_min: FX_ONE,
            radius_max: FX_ONE,
            max_collision_attempts: 100,
        }
    }
}

/// An orthogonal basis (u, v) of the plane perpendicular to a direction.
pub(crate) fn create_orthogonal_basis(dir: &Vector3) -> (r: (Vector3, Vector3)) {
    let not_parallel = if dir.x < 943718 && dir.x > -943718 {
        Vector3 { x: FX_ONE, y: 0, z: 0 }
    } else {
        Vector3 { x: 0, y: FX_ONE, z: 0 }
    };
    let u = dir.cross(&not_parallel).normalize();
    let v = dir.cross(&u);
    (u, v)
}

/// The contact root one particle pair contributes along a trajectory: the
/// preferred positive root of the fixed-point contact quadratic
/// `aa t^2 - 2 (d . traj) t + (d . d - contact^2)`, if it exists and lies
/// within `max_distance`.
pub open spec fn pair_root_s(pi: Sphere, pj: Sphere, trajectory: Vector3, max_distance: int)
    -> Option<int> {
    let d = v3_sub_s(pi.center, pj.center);
    let contact = fx_add_s(pi.radius as int, pj.radius as int);
    let aa = v3_dot_s(trajectory, trajectory);
    let dt = v3_dot_s(d, trajectory);
    let bb = fx_sub_s(0, fx_add_s(dt, dt));
    let cc = fx_sub_s(v3_dot_s(d, d), fx_mul_s(contact, contact));
    let disc = fx_sub_s(fx_mul_s(bb, bb), fx_mul_s(fx_mul_s(4 * FX_ONE as int, aa), cc));
    if disc >= 0 {
        let sq = fx_sqrt_s(disc);
        let two_a = fx_add_s(aa, aa);
        let t1 = fx_div_s(fx_sub_s(fx_sub_s(0, bb), sq), two_a);
        let t2 = fx_div_s(fx_add_s(fx_sub_s(0, bb), sq), two_a);
        let t = if t1 > 0 {
            t1
        } else {
            t2
        };
        if 0 < t <= max_distance {
            Some(t)
        } else {
            Option::None
        }
    } else {
        Option::None
    }
}

/// Find the first contact of a moving cluster along a trajectory: for every
/// particle pair, solve the quadratic for the trajectory parameter at which
/// the pair's distance equals its contact distance, and keep the globally
/// smallest root.  The result is exactly the minimum of the pairs' roots
/// within `max_distance`: some pair attains it and no pair beats it, and
/// `None` means no pair has one.  The moving cluster is `b`; a positive
/// result means `b` translated by `trajectory * t` first touches `a` there.
fn find_collision_with(a: &Cluster, b: &Cluster, trajectory: &Vector3, max_distance: i64) -> (r:
    Option<i64>)
    ensures
        match r {
            Some(t) => {
                &&& 0 < t <= max_distance
                &&& exists|i: int, j: int|
                    0 <= i < a.particles.len() && 0 <= j < b.particles.len()
                        && #[trigger] pair_root_s(
                        a.particles@[i],
                        b.particles@[j],
                        *trajectory,
                        max_distance as int,
                    ) == Some(t as int)
                &&& forall|i: int, j: int|
                    0 <= i < a.particles.len() && 0 <= j < b.particles.len() ==> ((
                    #[trigger] pair_root_s(
                        a.particles@[i],
                        b.particles@[j],
                        *trajectory,
                        max_distance as int,
                    )) is None || pair_root_s(
                        a.particles@[i],
                        b.particles@[j],
                        *trajectory,
                        max_distance as int,
                    )->0 >= t as int)
            },
            None => forall|i: int, j: int|
                0 <= i < a.particles.len() && 0 <= j < b.particles.len() ==> (
                #[trigger] pair_root_s(
                    a.particles@[i],
                    b.particles@[j],
                    *trajectory,
                    max_distance as int,
                )) is None,
        },
{
    let na = a.particles.len();
    let nb = b.particles.len();
    let mut best: i64 = 0;
    let mut found = false;
    let aa = trajectory.dot(trajectory);
    let mut i: usize = 0;
    while i < na
        invariant
            na == a.particles.len(),
            nb == b.particles.len(),
            i <= na,
            aa as int == v3_dot_s(*trajectory, *trajectory),
            found ==> 0 < best <= max_distance,
            found ==> exists|p: int, q: int|
                0 <= p < na && 0 <= q < nb && #[trigger] pair_root_s(
                    a.particles@[p],
                    b.particles@[q],
                    *trajectory,
                    max_distance as int,
                ) == Some(best as int),
            forall|p: int, q: int|
                0 <= p < i && 0 <= q < nb ==> ((#[trigger] pair_root_s(
                    a.particles@[p],
                    b.particles@[q],
                    *trajectory,
                    max_distance as int,
                )) is None || (found && pair_root_s(
                    a.particles@[p],
                    b.particles@[q],
                    *trajectory,
                    max_distance as int,
                )->0 >= best as int)),
        decreases na - i,
    {
        let pi = a.particles[i];
        let mut j: usize = 0;
        while j < nb
            invariant
                na == a.particles.len(),
                nb == b.particles.len(),
                i < na,
                j <= nb,
                pi == a.particles@[i as int],
                aa as int == v3_dot_s(*trajectory, *trajectory),
                found ==> 0 < best <= max_distance,
                found ==> exists|p: int, q: int|
                    0 <= p < na && 0 <= q < nb && #[trigger] pair_root_s(
                        a.particles@[p],
                        b.particles@[q],
                        *trajectory,
                        max_distance as int,
                    ) == Some(best as int),
                forall|p: int, q: int|
                    0 <= p < i && 0 <= q < nb ==> ((#[trigger] pair_root_s(
                        a.particles@[p],
                        b.particles@[q],
                        *trajectory,
                        max_distance as int,
                    )) is None || (found && pair_root_s(
                        a.particles@[p],
                        b.particles@[q],
                        *trajectory,
                        max_distance as int,
                    )->0 >= best as int)),
                forall|q: int|
                    0 <= q < j ==> ((#[trigger] pair_root_s(
                        a.particles@[i as int],
                        b.particles@[q],
                        *trajectory,
                        max_distance as int,
                    )) is None || (found && pair_root_s(
                        a.particles@[i as int],
                        b.particles@[q],
                        *trajectory,
                        max_distance as int,
                    )->0 >= best as int)),
            decreases nb - j,
        {
            let pj = b.particles[j];
            let d = pi.center.sub(&pj.center);
            let contact_dist = fx_add(pi.radius, pj.radius);

            // Quadratic in t: aa t^2 - 2 (d . traj) t + (d . d - contact^2).
            let bb = fx_sub(0, fx_add(d.dot(trajectory), d.dot(trajectory)));
            let cc = fx_sub(d.dot(&d), fx_mul(contact_dist, contact_dist));
            let disc = fx_sub(fx_mul(bb, bb), fx_mul(fx_mul(4 * FX_ONE, aa), cc));
            if disc >= 0 {
                let sq = fx_sqrt(disc);
                let two_a = fx_add(aa, aa);
                let t1 = fx_div(fx_sub(fx_sub(0, bb), sq), two_a);
                let t2 = fx_div(fx_add(fx_sub(0, bb), sq), two_a);
                let t = if t1 > 0 {
                    t1
                } else {
                    t2
                };
                if t > 0 && t <= max_distance {
                    proof {
                        assert(pair_root_s(
                            a.particles@[i as int],
                            b.particles@[j as int],
                            *trajectory,
                            max_distance as int,
                        ) == Some(t as int));
                    }
                    if !found || t < best {
                        best = t;
                        found = true;
                    }
                } else {
                    proof {
                        assert((pair_root_s(
                            a.particles@[i as int],
                            b.particles@[j as int],
                            *trajectory,
                            max_distance as int,
                        )) is None);
                    }
                }
            } else {
                proof {
                    assert((pair_root_s(
                        a.particles@[i as int],
                        b.particles@[j as int],
                        *trajectory,
                        max_distance as int,
                    )) is None);
                }
            }
            j = j + 1;
        }
        i = i + 1;
    }
    if found {
        Some(best)
    } else {
        None
    }
}


/// Replace a selected pair of clusters by their merged form: both leave the
/// pool (higher index first, so the removals cannot shift each other), the
/// moved copy of the impactor absorbs the impacted cluster's particles, and
/// the merged cluster joins the pool.  The pool's total particle count is
/// unchanged, and well-formedness and the radius range carry over.
#[verifier::rlimit(100)]
fn merge_into_pool(
    clusters: &mut Vec<Cluster>,
    working_impactor: Cluster,
    idx_impacted: usize,
    idx_impactor: usize,
    lo: i64,
    hi: i64,
)
    requires
        old(clusters).len() >= 2,
        idx_impacted < old(clusters).len(),
        idx_impactor < old(clusters).len(),
        idx_impacted != idx_impactor,
        working_impactor.wf(),
        radii_in_range_s(working_impactor.particles@, lo as int, hi as int),
        working_impactor.particles@.len() == old(clusters)@[idx_impactor as int].particles@.len(),
        forall|k: int| 0 <= k < old(clusters).len() ==> (#[trigger] old(clusters)@[k]).wf(),
        forall|k: int|
            0 <= k < old(clusters).len() ==> radii_in_range_s(
                (#[trigger] old(clusters)@[k]).particles@,
                lo as int,
                hi as int,
            ),
    ensures
        final(clusters).len() >= 1,
        pool_count_s(final(clusters)@) == pool_count_s(old(clusters)@),
        forall|k: int| 0 <= k < final(clusters).len() ==> (#[trigger] final(clusters)@[k]).wf(),
        forall|k: int|
            0 <= k < final(clusters).len() ==> radii_in_range_s(
                (#[trigger] final(clusters)@[k]).particles@,
                lo as int,
                hi as int,
            ),
{
    let (higher_idx, lower_idx) = if idx_impactor > idx_impacted {
        (idx_impactor, idx_impacted)
    } else {
        (idx_impacted, idx_impactor)
    };
    proof {
        lemma_pool_count_remove(clusters@, higher_idx as int);
    }
    let cluster_high = clusters.remove(higher_idx);
    proof {
        lemma_pool_count_remove(clusters@, lower_idx as int);
    }
    let cluster_low = clusters.remove(lower_idx);
    let impacted_cluster = if higher_idx == idx_impactor {
        cluster_low
    } else {
        cluster_high
    };
    let mut merged = working_impactor;
    merged.merge_with(impacted_cluster);
    proof {
        lemma_pool_count_push(clusters@, merged);
        assert(radii_in_range_s(merged.particles@, lo as int, hi as int));
    }
    clusters.push(merged);
}

/// The index of the cluster with the most particles (the last such one).
fn largest_index(clusters: &Vec<Cluster>) -> (r: usize)
    requires
        clusters.len() >= 1,
    ensures
        r < clusters.len(),
{
    let mut best: usize = 0;
    let mut b: usize = 1;
    while b < clusters.len()
        invariant
            1 <= clusters.len(),
            b <= clusters.len(),
            best < clusters.len(),
        decreases clusters.len() - b,
    {
        if clusters[b].particles.len() >= clusters[best].particles.len() {
            best = b;
        }
        b = b + 1;
    }
    best
}

/// Run a ballistic cluster-cluster simulation.  The pool starts as
/// `n_particles` monomers and merges under the iteration cap; the result
/// reports the pool's first remaining cluster, so it holds between one and
/// `n_particles` particles, every radius lies within the configured range
/// (and equals `radius_min` exactly in the monodisperse case), and the
/// descriptors are consistent with the final particle data.  The same
/// parameters and seed always reproduce the same result.
#[verifier::rlimit(100)]
pub fn run_ballistic_cc(params: &BallisticCcParams, seed: u64) -> (r: SimulationResult)
    requires
        params.valid(),
    ensures
        r.seed == seed,
        r.coordinates.len() == r.radii.len(),
        1 <= r.coordinates.len() <= params.n_particles,
        forall|i: int|
            0 <= i < r.radii.len() ==> params.radius_min <= #[trigger] r.radii@[i]
                <= params.radius_max,
        params.radius_min == params.radius_max ==> forall|i: int|
            0 <= i < r.radii.len() ==> #[trigger] r.radii@[i] == params.radius_min,
        r.n_evolution@.len() == r.rg_evolution@.len(),
        r.fractal_dimension as int == calc_fd_s(r.n_evolution@, r.rg_evolution@).0,
        r.prefactor as int == calc_fd_s(r.n_evolution@, r.rg_evolution@).1,
        crate::result::result_consistent_s(r, crate::fixed::fx_mul_s(
            half_s(fx_add_s(params.radius_min as int, params.radius_max as int)),
            FX_TENTH as int,
        )),
{
    let mut rng = create_rng(seed);
    let n = params.n_particles;
    let mean_radius = params.mean_radius();

    // Scatter the monomers to avoid initial overlaps.
    let spread = fx_mul(fx_mul(fx_cbrt(fx_from_int(n as i64)), mean_radius), 3 * FX_ONE);
    let mut clusters: Vec<Cluster> = Vec::new();
    let mut ci: usize = 0;
    while ci < n
        invariant
            params.valid(),
            n == params.n_particles,
            ci <= n,
            clusters.len() == ci,
            pool_count_s(clusters@) == ci as int,
            forall|k: int| 0 <= k < clusters.len() ==> (#[trigger] clusters@[k]).wf(),
            forall|k: int|
                0 <= k < clusters.len() ==> radii_in_range_s(
                    (#[trigger] clusters@[k]).particles@,
                    params.radius_min as int,
                    params.radius_max as int,
                ),
        decreases n - ci,
    {
        let ux = rng.next_unit();
        let uy = rng.next_unit();
        let uz = rng.next_unit();
        let x = fx_mul(fx_sub(ux, FX_HALF), spread);
        let y = fx_mul(fx_sub(uy, FX_HALF), spread);
        let z = fx_mul(fx_sub(uz, FX_HALF), spread);
        let radius = params.random_radius(&mut rng);
        let c = Cluster::new(Sphere { center: Vector3 { x, y, z }, radius });
        proof {
            lemma_pool_count_push(clusters@, c);
        }
        clusters.push(c);
        ci = ci + 1;
    }

    let mut rg_evolution: Vec<i64> = Vec::new();
    let mut n_values: Vec<usize> = Vec::new();

    let cap: u64 = if n as u64 > 18446744073709551615u64 / 1000 {
        18446744073709551615u64
    } else {
        (n as u64) * 1000
    };
    let mut iterations: u64 = 0;

    while clusters.len() > 1 && iterations < cap
        invariant
            params.valid(),
            n == params.n_particles,
            1 <= clusters.len(),
            pool_count_s(clusters@) == n as int,
            rg_evolution.len() == n_values.len(),
            forall|k: int| 0 <= k < clusters.len() ==> (#[trigger] clusters@[k]).wf(),
            forall|k: int|
                0 <= k < clusters.len() ==> radii_in_range_s(
                    (#[trigger] clusters@[k]).particles@,
                    params.radius_min as int,
                    params.radius_max as int,
                ),
        decreases cap - iterations,
    {
        iterations = iterations + 1;

        // Select two distinct clusters: impacted stays, impactor flies.
        let idx_impacted = rng.next_below(clusters.len());
        let pick = rng.next_below(clusters.len() - 1);
        let idx_impactor = if pick >= idx_impacted {
            pick + 1
        } else {
            pick
        };

        let impacted_gc = clusters[idx_impacted].geometric_center;
        let impactor_gc = clusters[idx_impactor].geometric_center;
        let base_direction = impacted_gc.sub(&impactor_gc).normalize();

        // Jitter the trajectory within a cone.
        let (rx, ry, rz) = random_direction(&mut rng);
        let random_offset = Vector3 { x: rx, y: ry, z: rz }.scale(314573);
        let trajectory_dir = base_direction.add(&random_offset).normalize();

        // A random lateral offset within the combined projected radius.
        let extended_radius = fx_add(
            clusters[idx_impacted].bounding_radius,
            clusters[idx_impactor].bounding_radius,
        );
        let (px, py, _pz) = random_point_on_sphere(&mut rng);
        let u_draw = rng.next_unit();
        let impact_offset = fx_mul(fx_mul(u_draw, extended_radius), FX_HALF);
        let (ub, vb) = create_orthogonal_basis(&trajectory_dir);
        let offset_on_disc = ub.scale(fx_mul(px, impact_offset)).add(
            &vb.scale(fx_mul(py, impact_offset)),
        );

        // Launch from beyond the combined bounding radius.
        let current_distance = impactor_gc.distance_to(&impacted_gc);
        let launch_distance = fx_add(current_distance, extended_radius);
        let impactor_start = impacted_gc.add(&offset_on_disc).sub(
            &trajectory_dir.scale(launch_distance),
        );

        let mut working_impactor = clusters[idx_impactor].duplicate();
        let translation = impactor_start.sub(&working_impactor.geometric_center);
        working_impactor.translate(translation);

        let collision = find_collision_with(
            &clusters[idx_impacted],
            &working_impactor,
            &trajectory_dir,
            fx_add(launch_distance, launch_distance),
        );

        match collision {
            Some(t) => {
                let stick = if params.sticking_probability >= FX_ONE {
                    true
                } else {
                    rng.next_accept(params.sticking_probability)
                };
                if stick {
                    working_impactor.translate(trajectory_dir.scale(t));
                    merge_into_pool(
                        &mut clusters,
                        working_impactor,
                        idx_impacted,
                        idx_impactor,
                        params.radius_min,
                        params.radius_max,
                    );

                    // Track the largest cluster's growth.
                    let best = largest_index(&clusters);
                    rg_evolution.push(clusters[best].radius_of_gyration);
                    n_values.push(clusters[best].particles.len());
                }
            },
            None => {
                // Fruitless trajectory: both clusters stay in the pool.
            },
        }
    }

    // Report the pool's first cluster.
    proof {
        lemma_pool_count_remove(clusters@, 0);
        crate::cluster::lemma_pool_count_nonneg(clusters@.remove(0));
    }
    let final_cluster = clusters.remove(0);
    let final_particles = final_cluster.particles;

    let (coords, radii) = split_spheres(&final_particles);
    let fit = calculate_fractal_dimension(&n_values, &rg_evolution);
    let tolerance = fx_mul(mean_radius, FX_TENTH);
    finish_result(coords, radii, rg_evolution, n_values, tolerance, fit, FIT_SPREAD_PC, seed)
}

} // verus!
