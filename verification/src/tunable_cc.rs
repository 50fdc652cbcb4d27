//! Tunable fractal dimension cluster-cluster aggregation.
//!
//! Whole clusters merge while preserving the target power law
//! `N = kf (Rg / rp)^Df` at the cluster level: the required center-of-mass
//! separation of a prospective merge is derived in closed form (an
//! Rg-based approximation substitutes when the algebra degenerates), a
//! contact particle pair is selected from candidate lists, the impactor is
//! translated to the required separation and rotated so the chosen
//! particles touch, and residual overlaps are resolved by a bounded number
//! of random rotations about the contact axis.  When any of that fails the
//! pair falls back to a ballistic-style merge that ignores the exact power
//! law for that step.  Seed clusters may themselves be pre-grown with the
//! tunable particle-cluster algorithm.

use vstd::prelude::*;
use crate::cluster::{
    lemma_pool_count_push, lemma_pool_count_remove, pool_count_s, radii_in_range_s, split_spheres,
    Cluster,
};
use crate::fixed::{
    fx_add, fx_add_s, fx_cbrt, fx_div, fx_div_s, fx_from_int, fx_mul, fx_mul_s, fx_pow,
    fx_sqrt, fx_sqrt_s, fx_sub, fx_sub_s, FX_ONE,
};
use crate::geometry::{Sphere, Vector3};
use crate::metrics::{
    calc_fd_evo_s, calculate_fractal_dimension_from_evolution, FX_TENTH, FX_THREE_FIFTHS,
};
use crate::result::{finish_result, ParamError, SimulationResult, FIT_SPREAD_TUNABLE};
use crate::rng::{create_rng, random_point_on_sphere, random_unit_angle, SplitMix64};
use crate::sintering::{half_s, sintered_contact_distance, SinteringDistribution, FX_HALF};
use crate::ballistic::radius_range_valid_s;
use crate::tunable::{run_tunable, TunableParams};

verus! {

/// Seed cluster generation strategy.
#[derive(Debug, Clone, Copy, PartialEq, Eq, Structural)]
pub enum SeedStrategy {
    /// All monomers (as in plain ballistic cluster-cluster growth).
    Monomers,
    /// Pre-grow seed clusters of the given size with the tunable
    /// particle-cluster algorithm.
    TunablePc { cluster_size: usize },
}

/// Tunable cluster-cluster parameters.
#[derive(Debug, Clone)]
pub struct TunableCcParams {
    pub n_particles: usize,
    pub target_df: i64,
    pub target_kf: i64,
    pub radius_min: i64,
    pub radius_max: i64,
    pub seed_strategy: SeedStrategy,
    pub max_rotation_attempts: usize,
    pub max_particle_selection_attempts: usize,
    pub sintering: SinteringDistribution,
}

impl TunableCcParams {
    /// The parameter ranges a run relies on.
    pub open spec fn valid(self) -> bool {
        &&& self.n_particles >= 1
        &&& self.n_particles < 0x100000000
        &&& FX_ONE <= self.target_df <= 3 * FX_ONE
        &&& crate::metrics::FX_TENTH <= self.target_kf <= 10 * FX_ONE
        &&& radius_range_valid_s(self.radius_min as int, self.radius_max as int)
        &&& self.max_rotation_attempts >= 1
        &&& self.max_particle_selection_attempts >= 1
    }

    /// Validate the caller-facing parameters; an absent `radius_max`
    /// defaults to `radius_min`, and a seed cluster size above one selects
    /// pre-grown seeds.  Rejects a zero particle count, a target dimension
    /// outside `[1, 3]` or prefactor outside `[1/10, 10]`, and a bad
    /// radius range, in that order.
    pub fn new(
        n_particles: usize,
        target_df: i64,
        target_kf: i64,
        radius_min: i64,
        radius_max: Option<i64>,
        seed_cluster_size: Option<usize>,
        max_rotation_attempts: usize,
        sintering: SinteringDistribution,
    ) -> (r: Result<TunableCcParams, ParamError>)
        ensures
            ({
                let rmax = if radius_max is Some {
                    radius_max->0
                } else {
                    radius_min
                };
                match r {
                    Ok(p) => {
                        &&& p.valid()
                        &&& p.n_particles == n_particles
                        &&& p.target_df == target_df
                        &&& p.target_kf == target_kf
                        &&& p.radius_min == radius_min
                        &&& p.radius_max == rmax
                        &&& p.sintering == sintering
                    },
                    Err(e) => {
                        &&& (n_particles < 1 || n_particles >= 0x100000000 || target_df < FX_ONE
                            || target_df > 3 * FX_ONE || target_kf < crate::metrics::FX_TENTH
                            || target_kf > 10 * FX_ONE || !radius_range_valid_s(
                            radius_min as int,
                            rmax as int,
                        ))
                        &&& e == (if n_particles < 1 || n_particles >= 0x100000000 {
                            ParamError::InvalidParticleCount
                        } else if target_df < FX_ONE || target_df > 3 * FX_ONE || target_kf
                            < crate::metrics::FX_TENTH || target_kf > 10 * FX_ONE {
                            ParamError::InvalidTarget
                        } else {
                            ParamError::InvalidRadius
                        })
                    },
                }
            }),
    {
        let rmax = match radius_max {
            Some(v) => v,
            None => radius_min,
        };
        if n_particles < 1 || (n_particles as u64) >= 0x100000000u64 {
            return Err(ParamError::InvalidParticleCount);
        }
        if target_df < FX_ONE || target_df > 3 * FX_ONE || target_kf < crate::metrics::FX_TENTH
            || target_kf > 10 * FX_ONE {
            return Err(ParamError::InvalidTarget);
        }
        if radius_min <= 0 || rmax < radius_min || rmax >= 0x4000000000000000i64 {
            return Err(ParamError::InvalidRadius);
        }
        let seed_strategy = match seed_cluster_size {
            Some(size) => if size > 1 {
                SeedStrategy::TunablePc { cluster_size: size }
            } else {
                SeedStrategy::Monomers
            },
            None => SeedStrategy::Monomers,
        };
        let rot = if max_rotation_attempts < 1 {
            1
        } else {
            max_rotation_attempts
        };
        Ok(
            TunableCcParams {
                n_particles,
                target_df,
                target_kf,
                radius_min,
                radius_max: rmax,
                seed_strategy,
                max_rotation_attempts: rot,
                max_particle_selection_attempts: 25,
                sintering,
            },
        )
    }

    /// Whether the particle radii vary.
    pub fn is_polydisperse(&self) -> (r: bool)
        ensures
            r == (self.radius_min != self.radius_max),
    {
        self.radius_min != self.radius_max
    }

    /// Draw a radius within the configured range.  A monodisperse
    /// configuration yields `radius_min` exactly and leaves the generator
    /// untouched; a polydisperse one consumes exactly one draw, and the
    /// value that draw places in the range is pinned.
    pub fn random_radius(&self, rng: &mut SplitMix64) -> (r: i64)
        requires
            self.radius_min <= self.radius_max,
        ensures
            self.radius_min <= r <= self.radius_max,
            self.radius_min == self.radius_max ==> r == self.radius_min && final(rng).state == old(
                rng,
            ).state,
            self.radius_min != self.radius_max ==> final(rng).state == crate::rng::rng_step_s(
                old(rng).state,
            ) && r as int == crate::fixed::fx_add_s(
                self.radius_min as int,
                crate::fixed::fx_mul_s(
                    crate::fixed::fx_sub_s(self.radius_max as int, self.radius_min as int),
                    (crate::rng::rng_out_s(final(rng).state) >> 44) as int,
                ),
            ),
    {
        if self.radius_min != self.radius_max {
            rng.next_range(self.radius_min, self.radius_max)
        } else {
            self.radius_min
        }
    }

    /// The mean radius: the midpoint of the configured range.
    pub fn mean_radius(&self) -> (r: i64)
        ensures
            r as int == half_s(fx_add_s(self.radius_min as int, self.radius_max as int)),
            radius_range_valid_s(self.radius_min as int, self.radius_max as int)
                ==> self.radius_min <= r <= self.radius_max,
    {
        let s = fx_add(self.radius_min, self.radius_max);
        if s >= 0 {
            ((s as u64) / 2) as i64
        } else {
            let m: u128 = (-(s as i128)) as u128;
            -((m / 2) as i64)
        }
    }
}

impl Default for TunableCcParams {
    fn default() -> (r: Self)
        ensures
            r.valid(),
            r.n_particles == 1000,
            r.target_df == 1887437,
            r.target_kf == 1363149,
            r.radius_min == FX_ONE,
            r.radius_max == FX_ONE,
            r.seed_strategy == SeedStrategy::Monomers,
            r.sintering == SinteringDistribution::Fixed(FX_ONE),
    {
        TunableCcParams {
            n_particles: 1000,
            target_df: 1887437,
            target_kf: 1363149,
            radius_min: FX_ONE,
            radius_max: FX_ONE,
            seed_strategy: SeedStrategy::Monomers,
            max_rotation_attempts: 50,
            max_particle_selection_attempts: 25,
            sintering: SinteringDistribution::Fixed(FX_ONE),
        }
    }
}

/// The required center-of-mass separation, squared, from the power-law
/// identity for a merge of `n_po1` and `n_po2` particles into
/// `n_po = n_po1 + n_po2`:
/// `rp^2 [(n_po/kf)^(2/Df) - 3/5] - n_po rp^2 (n_po1/kf)^(2/Df)
/// (1/n_po2 + 1/n_po1)`.
pub open spec fn com_distance_sq_s(n_po1: int, n_po2: int, kf: int, df: int, rp: int) -> int {
    let e = fx_div_s(2 * FX_ONE as int, df);
    let npo = crate::fixed::fx_clip_s((n_po1 + n_po2) * FX_ONE as int);
    let npo1 = crate::fixed::fx_clip_s(n_po1 * FX_ONE as int);
    let npo2 = crate::fixed::fx_clip_s(n_po2 * FX_ONE as int);
    let term1 = fx_sub_s(crate::fixed::pow_fx_s(fx_div_s(npo, kf), e), FX_THREE_FIFTHS as int);
    let term2_factor = crate::fixed::pow_fx_s(fx_div_s(npo1, kf), e);
    let term2 = fx_mul_s(
        fx_mul_s(npo, term2_factor),
        fx_add_s(fx_div_s(FX_ONE as int, npo2), fx_div_s(FX_ONE as int, npo1)),
    );
    let rp2 = fx_mul_s(rp, rp);
    fx_sub_s(fx_mul_s(rp2, term1), fx_mul_s(rp2, term2))
}

/// The fallback separation when the identity degenerates: the root of the
/// absolute difference of the squared target and part gyration radii,
/// floored at one particle diameter; `None` when even that vanishes.
pub open spec fn com_distance_approx_s(n_po1: int, n_po2: int, kf: int, df: int, rp: int)
    -> Option<int> {
    let inv = fx_div_s(FX_ONE as int, df);
    let npo = crate::fixed::fx_clip_s((n_po1 + n_po2) * FX_ONE as int);
    let npo1 = crate::fixed::fx_clip_s(n_po1 * FX_ONE as int);
    let npo2 = crate::fixed::fx_clip_s(n_po2 * FX_ONE as int);
    let rg_target = fx_mul_s(rp, crate::fixed::pow_fx_s(fx_div_s(npo, kf), inv));
    let rg1 = fx_mul_s(rp, crate::fixed::pow_fx_s(fx_div_s(npo1, kf), inv));
    let rg2 = fx_mul_s(rp, crate::fixed::pow_fx_s(fx_div_s(npo2, kf), inv));
    let diff = fx_sub_s(
        fx_sub_s(fx_mul_s(rg_target, rg_target), fx_mul_s(rg1, rg1)),
        fx_mul_s(rg2, rg2),
    );
    let mag = if diff < 0 {
        fx_sub_s(0, diff)
    } else {
        diff
    };
    let approx = fx_sqrt_s(mag);
    if approx > 0 {
        let floor = fx_add_s(rp, rp);
        Some(
            if approx < floor {
                floor
            } else {
                approx
            },
        )
    } else {
        Option::None
    }
}

/// The required center-of-mass separation for a merge: the root of the
/// power-law identity when it is positive, else the Rg-based approximation,
/// else `None`.
pub open spec fn com_distance_s(n_po1: int, n_po2: int, kf: int, df: int, rp: int) -> Option<
    int,
> {
    let dsq = com_distance_sq_s(n_po1, n_po2, kf, df, rp);
    if dsq > 0 {
        Some(fx_sqrt_s(dsq))
    } else {
        com_distance_approx_s(n_po1, n_po2, kf, df, rp)
    }
}

/// A count as a fixed-point value.
fn count_fx(n: u64) -> (r: i64)
    ensures
        r as int == crate::fixed::fx_clip_s((n as int) * (FX_ONE as int)),
{
    let c = fx_from_int(if n > 0x7fffffffffffffffu64 {
        i64::MAX
    } else {
        n as i64
    });
    proof {
        if n > 0x7fffffffffffffffu64 {
            assert(crate::fixed::fx_clip_s((n as int) * (FX_ONE as int)) == i64::MAX as int)
                by (nonlinear_arith)
                requires (n as int) > 0x7fffffffffffffff && FX_ONE == 1048576;
        }
    }
    c
}

/// Calculate the required center-of-mass separation for two clusters to
/// merge while keeping the power law, with the degenerate case recovered
/// by the Rg-based approximation.
pub fn calculate_com_distance(n_po1: usize, n_po2: usize, kf: i64, df: i64, rp: i64) -> (r:
    Option<i64>)
    requires
        n_po1 < 0x100000000,
        n_po2 < 0x100000000,
    ensures
        match com_distance_s(n_po1 as int, n_po2 as int, kf as int, df as int, rp as int) {
            Some(v) => r is Some && r->0 as int == v,
            Option::None => r is None,
        },
{
    let e = fx_div(2 * FX_ONE, df);
    let npo = count_fx(n_po1 as u64 + n_po2 as u64);
    let npo1 = count_fx(n_po1 as u64);
    let npo2 = count_fx(n_po2 as u64);
    let term1 = fx_sub(fx_pow(fx_div(npo, kf), e), FX_THREE_FIFTHS);
    let term2_factor = fx_pow(fx_div(npo1, kf), e);
    let term2 = fx_mul(
        fx_mul(npo, term2_factor),
        fx_add(fx_div(FX_ONE, npo2), fx_div(FX_ONE, npo1)),
    );
    let rp2 = fx_mul(rp, rp);
    let dsq = fx_sub(fx_mul(rp2, term1), fx_mul(rp2, term2));
    if dsq > 0 {
        return Some(fx_sqrt(dsq));
    }

    // Degenerate algebra: approximate from the gyration radii.
    let inv = fx_div(FX_ONE, df);
    let rg_target = fx_mul(rp, fx_pow(fx_div(npo, kf), inv));
    let rg1 = fx_mul(rp, fx_pow(fx_div(npo1, kf), inv));
    let rg2 = fx_mul(rp, fx_pow(fx_div(npo2, kf), inv));
    let diff = fx_sub(fx_sub(fx_mul(rg_target, rg_target), fx_mul(rg1, rg1)), fx_mul(rg2, rg2));
    let mag = if diff < 0 {
        fx_sub(0, diff)
    } else {
        diff
    };
    let approx = fx_sqrt(mag);
    if approx > 0 {
        let floor = fx_add(rp, rp);
        Some(
            if approx < floor {
                floor
            } else {
                approx
            },
        )
    } else {
        None
    }
}

/// Whether two clusters can reach each other at the required separation:
/// the sum of their bounding radii covers it.
pub fn can_clusters_connect(cluster1: &Cluster, cluster2: &Cluster, required_distance: i64) -> (r:
    bool)
    ensures
        r == (fx_add_s(cluster1.bounding_radius as int, cluster2.bounding_radius as int)
            >= required_distance as int),
{
    fx_add(cluster1.bounding_radius, cluster2.bounding_radius) >= required_distance
}

/// The overlap decision for two positioned clusters, exactly as the scan
/// computes it: clusters whose centers of mass sit beyond the plain sum of
/// bounding radii (plus slack) are declared clear without a scan -- the
/// coefficient only shrinks contact distances, so no pair can overlap out
/// there; else some particle pair must sit more than the tolerance inside
/// its sintered contact distance.
pub open spec fn overlap_check_s(a: Cluster, b: Cluster, coeff: int) -> bool {
    let dist = crate::geometry::v3_dist_s(a.center_of_mass, b.center_of_mass);
    let bc = fx_add_s(a.bounding_radius as int, b.bounding_radius as int);
    if dist > fx_add_s(bc, 2) {
        false
    } else {
        exists|i: int, j: int|
            0 <= i < a.particles.len() && 0 <= j < b.particles.len()
                && crate::geometry::v3_dist_s(
                (#[trigger] a.particles@[i]).center,
                (#[trigger] b.particles@[j]).center,
            ) < fx_sub_s(
                crate::sintering::sintered_contact_s(
                    a.particles@[i].radius as int,
                    b.particles@[j].radius as int,
                    coeff,
                ),
                2,
            )
    }
}

/// Check whether two positioned clusters overlap anywhere, under the
/// sintered contact distances: a cheap bounding-sphere rejection, then the
/// particle-level scan.
fn check_overlap(cluster1: &Cluster, cluster2: &Cluster, sintering_coeff: i64) -> (r: bool)
    ensures
        r == overlap_check_s(*cluster1, *cluster2, sintering_coeff as int),
{
    let dist = cluster1.center_of_mass.distance_to(&cluster2.center_of_mass);
    let bounding_contact = fx_add(cluster1.bounding_radius, cluster2.bounding_radius);
    if dist > fx_add(bounding_contact, 2) {
        return false;
    }
    let na = cluster1.particles.len();
    let nb = cluster2.particles.len();
    let mut i: usize = 0;
    while i < na
        invariant
            na == cluster1.particles.len(),
            nb == cluster2.particles.len(),
            i <= na,
            crate::geometry::v3_dist_s(cluster1.center_of_mass, cluster2.center_of_mass)
                <= fx_add_s(
                fx_add_s(cluster1.bounding_radius as int, cluster2.bounding_radius as int),
                2,
            ),
            forall|p: int, q: int|
                0 <= p < i && 0 <= q < nb ==> crate::geometry::v3_dist_s(
                    (#[trigger] cluster1.particles@[p]).center,
                    (#[trigger] cluster2.particles@[q]).center,
                ) >= fx_sub_s(
                    crate::sintering::sintered_contact_s(
                        cluster1.particles@[p].radius as int,
                        cluster2.particles@[q].radius as int,
                        sintering_coeff as int,
                    ),
                    2,
                ),
        decreases na - i,
    {
        let p1 = cluster1.particles[i];
        let mut j: usize = 0;
        while j < nb
            invariant
                na == cluster1.particles.len(),
                nb == cluster2.particles.len(),
                i < na,
                j <= nb,
                p1 == cluster1.particles@[i as int],
                crate::geometry::v3_dist_s(cluster1.center_of_mass, cluster2.center_of_mass)
                    <= fx_add_s(
                    fx_add_s(cluster1.bounding_radius as int, cluster2.bounding_radius as int),
                    2,
                ),
                forall|p: int, q: int|
                    0 <= p < i && 0 <= q < nb ==> crate::geometry::v3_dist_s(
                        (#[trigger] cluster1.particles@[p]).center,
                        (#[trigger] cluster2.particles@[q]).center,
                    ) >= fx_sub_s(
                        crate::sintering::sintered_contact_s(
                            cluster1.particles@[p].radius as int,
                            cluster2.particles@[q].radius as int,
                            sintering_coeff as int,
                        ),
                        2,
                    ),
                forall|q: int|
                    0 <= q < j ==> crate::geometry::v3_dist_s(
                        p1.center,
                        (#[trigger] cluster2.particles@[q]).center,
                    ) >= fx_sub_s(
                        crate::sintering::sintered_contact_s(
                            p1.radius as int,
                            cluster2.particles@[q].radius as int,
                            sintering_coeff as int,
                        ),
                        2,
                    ),
            decreases nb - j,
        {
            let p2 = cluster2.particles[j];
            let d = p1.center.distance_to(&p2.center);
            let contact = sintered_contact_distance(p1.radius, p2.radius, sintering_coeff);
            if d < fx_sub(contact, 2) {
                proof {
                    assert(crate::geometry::v3_dist_s(
                        (cluster1.particles@[i as int]).center,
                        (cluster2.particles@[j as int]).center,
                    ) < fx_sub_s(
                        crate::sintering::sintered_contact_s(
                            cluster1.particles@[i as int].radius as int,
                            cluster2.particles@[j as int].radius as int,
                            sintering_coeff as int,
                        ),
                        2,
                    ));
                }
                return true;
            }
            j = j + 1;
        }
        i = i + 1;
    }
    false
}

/// Candidate contact particles: those whose reach from the cluster's center
/// of mass could plausibly touch the other cluster at the required
/// separation (a triangle-inequality bound).
fn get_candidate_particles(cluster: &Cluster, required_distance: i64, other_bounding_radius: i64)
    -> (r: Vec<usize>)
    ensures
        forall|q: int| 0 <= q < r.len() ==> (#[trigger] r@[q]) < cluster.particles.len(),
{
    let n = cluster.particles.len();
    let mut candidates: Vec<usize> = Vec::new();
    let threshold = fx_sub(required_distance, other_bounding_radius);
    let mut i: usize = 0;
    while i < n
        invariant
            n == cluster.particles.len(),
            i <= n,
            forall|q: int| 0 <= q < candidates.len() ==> (#[trigger] candidates@[q]) < n,
        decreases n - i,
    {
        let p = cluster.particles[i];
        let dist_to_com = p.center.distance_to(&cluster.center_of_mass);
        let max_reach = fx_add(dist_to_com, p.radius);
        if max_reach >= threshold {
            candidates.push(i);
        }
        i = i + 1;
    }
    candidates
}

/// A deterministic shuffle of an index list, by repeated swaps driven by
/// the generator.
fn shuffle_indices(list: &Vec<usize>, rng: &mut SplitMix64) -> (r: Vec<usize>)
    ensures
        r.len() == list.len(),
        forall|q: int| 0 <= q < r.len() ==> list@.contains(#[trigger] r@[q]),
{
    let n = list.len();
    let mut out: Vec<usize> = Vec::new();
    let mut i: usize = 0;
    while i < n
        invariant
            n == list.len(),
            i <= n,
            out@ == list@.take(i as int),
        decreases n - i,
    {
        proof {
            assert(list@.take(i + 1) == list@.take(i as int).push(list@[i as int]));
        }
        out.push(list[i]);
        i = i + 1;
    }
    proof {
        assert(list@.take(n as int) == list@);
        assert forall|q: int| 0 <= q < out@.len() implies list@.contains(#[trigger] out@[q]) by {
            assert(list@[q] == out@[q]);
        }
    }
    let mut j: usize = 0;
    while j < n
        invariant
            n == list.len(),
            out.len() == n,
            j <= n,
            forall|q: int| 0 <= q < out@.len() ==> list@.contains(#[trigger] out@[q]),
        decreases n - j,
    {
        let k = rng.next_below(n - j) + j;
        let a = out[j];
        let b = out[k];
        let ghost before = out@;
        out.set(j, b);
        out.set(k, a);
        proof {
            assert forall|q: int| 0 <= q < out@.len() implies list@.contains(
                #[trigger] out@[q],
            ) by {
                if q == k as int {
                    assert(before.contains(a)) by {
                        assert(before[j as int] == a);
                    }
                } else if q == j as int {
                    assert(before.contains(b)) by {
                        assert(before[k as int] == b);
                    }
                } else {
                    assert(out@[q] == before[q]);
                }
            }
        }
        j = j + 1;
    }
    out
}

/// Select a contact pair from shuffled candidate lists: the first pair that
/// passes the triangle feasibility test for the required separation.  A
/// returned pair is in range and passes both feasibility inequalities: the
/// pair's combined reach spans the separation, and the reach imbalance does
/// not exceed it.
fn select_contact_particles(
    cluster1: &Cluster,
    cluster2: &Cluster,
    la1: &Vec<usize>,
    la2: &Vec<usize>,
    required_distance: i64,
    rng: &mut SplitMix64,
) -> (r: Option<(usize, usize)>)
    requires
        forall|q: int| 0 <= q < la1.len() ==> (#[trigger] la1@[q]) < cluster1.particles.len(),
        forall|q: int| 0 <= q < la2.len() ==> (#[trigger] la2@[q]) < cluster2.particles.len(),
    ensures
        match r {
            Some(pair) => {
                &&& pair.0 < cluster1.particles.len()
                &&& pair.1 < cluster2.particles.len()
                &&& ({
                    let d1 = crate::geometry::v3_dist_s(
                        cluster1.particles@[pair.0 as int].center,
                        cluster1.center_of_mass,
                    );
                    let d2 = crate::geometry::v3_dist_s(
                        cluster2.particles@[pair.1 as int].center,
                        cluster2.center_of_mass,
                    );
                    let contact = fx_add_s(
                        cluster1.particles@[pair.0 as int].radius as int,
                        cluster2.particles@[pair.1 as int].radius as int,
                    );
                    &&& fx_add_s(fx_add_s(d1, d2), contact) >= fx_sub_s(
                        required_distance as int,
                        2,
                    )
                    &&& crate::cca::sat_abs_s(fx_sub_s(d1, d2)) <= fx_add_s(
                        required_distance as int,
                        contact,
                    )
                })
            },
            Option::None => true,
        },
{
    let candidates1 = shuffle_indices(la1, rng);
    let candidates2 = shuffle_indices(la2, rng);
    proof {
        assert forall|q: int| 0 <= q < candidates1.len() implies (#[trigger] candidates1@[q])
            < cluster1.particles.len() by {
            assert(la1@.contains(candidates1@[q]));
            let p = choose|p: int| 0 <= p < la1@.len() && la1@[p] == candidates1@[q];
            assert(la1@[p] < cluster1.particles.len());
        }
        assert forall|q: int| 0 <= q < candidates2.len() implies (#[trigger] candidates2@[q])
            < cluster2.particles.len() by {
            assert(la2@.contains(candidates2@[q]));
            let p = choose|p: int| 0 <= p < la2@.len() && la2@[p] == candidates2@[q];
            assert(la2@[p] < cluster2.particles.len());
        }
    }
    let mut i: usize = 0;
    while i < candidates1.len()
        invariant
            forall|q: int|
                0 <= q < candidates1.len() ==> (#[trigger] candidates1@[q])
                    < cluster1.particles.len(),
            forall|q: int|
                0 <= q < candidates2.len() ==> (#[trigger] candidates2@[q])
                    < cluster2.particles.len(),
            i <= candidates1.len(),
        decreases candidates1.len() - i,
    {
        let m1 = candidates1[i];
        let p1 = cluster1.particles[m1];
        let d1 = p1.center.distance_to(&cluster1.center_of_mass);
        let mut j: usize = 0;
        while j < candidates2.len()
            invariant
                forall|q: int|
                    0 <= q < candidates2.len() ==> (#[trigger] candidates2@[q])
                        < cluster2.particles.len(),
                j <= candidates2.len(),
                m1 < cluster1.particles.len(),
                p1 == cluster1.particles@[m1 as int],
                d1 as int == crate::geometry::v3_dist_s(
                    cluster1.particles@[m1 as int].center,
                    cluster1.center_of_mass,
                ),
                d1 >= 0,
            decreases candidates2.len() - j,
        {
            let m2 = candidates2[j];
            let p2 = cluster2.particles[m2];
            let d2 = p2.center.distance_to(&cluster2.center_of_mass);
            let contact_dist = fx_add(p1.radius, p2.radius);

            // Triangle feasibility: the contact pair can span the gap.
            if fx_add(fx_add(d1, d2), contact_dist) >= fx_sub(required_distance, 2) {
                let gap = fx_sub(d1, d2);
                let gap_abs = if gap >= 0 {
                    gap
                } else {
                    fx_sub(0, gap)
                };
                if gap_abs <= fx_add(required_distance, contact_dist) {
                    return Some((m1, m2));
                }
            }
            j = j + 1;
        }
        i = i + 1;
    }
    None
}

/// Position the impactor at the required center-of-mass separation with the
/// chosen particles in sintered contact: translate it to a random direction
/// at the required distance, then rotate it about its center of mass so the
/// chosen particle lands on the contact point.  Returns exactly whether the
/// final pair distance lies within a tenth of the sintered contact
/// distance.  The impactor keeps its particle count and radii.
fn position_clusters_for_contact(
    cluster1: &Cluster,
    cluster2: &mut Cluster,
    m1: usize,
    m2: usize,
    required_distance: i64,
    sintering_coeff: i64,
    rng: &mut SplitMix64,
) -> (r: bool)
    requires
        old(cluster2).wf(),
        m1 < cluster1.particles.len(),
        m2 < old(cluster2).particles.len(),
    ensures
        final(cluster2).wf(),
        final(cluster2).particles.len() == old(cluster2).particles.len(),
        forall|k: int|
            0 <= k < old(cluster2).particles.len() ==> (#[trigger] final(cluster2).particles@[k]).radius
                == old(cluster2).particles@[k].radius,
        ({
            let contact = crate::sintering::sintered_contact_s(
                cluster1.particles@[m1 as int].radius as int,
                old(cluster2).particles@[m2 as int].radius as int,
                sintering_coeff as int,
            );
            r == (crate::cca::sat_abs_s(
                fx_sub_s(
                    crate::geometry::v3_dist_s(
                        final(cluster2).particles@[m2 as int].center,
                        cluster1.particles@[m1 as int].center,
                    ),
                    contact,
                ),
            ) < fx_mul_s(contact, FX_TENTH as int))
        }),
{
    let p1 = cluster1.particles[m1];
    let contact_dist = sintered_contact_distance(
        p1.radius,
        cluster2.particles[m2].radius,
        sintering_coeff,
    );

    // Place the impactor's center of mass on a random direction at the
    // required separation.
    let (dx, dy, dz) = random_point_on_sphere(rng);
    let base_direction = Vector3 { x: dx, y: dy, z: dz };
    let target_com2 = cluster1.center_of_mass.add(&base_direction.scale(required_distance));
    let translation = target_com2.sub(&cluster2.center_of_mass);
    cluster2.translate(translation);

    // Rotate the impactor about its center of mass so the chosen particle
    // lands on the contact point of the anchor particle's surface.
    let current_p2 = cluster2.particles[m2].center;
    let p1_to_p2 = current_p2.sub(&p1.center).normalize();
    let target_p2 = p1.center.add(&p1_to_p2.scale(contact_dist));
    let r_current = current_p2.sub(&cluster2.center_of_mass);
    let r_target = target_p2.sub(&cluster2.center_of_mass);
    let cross = r_current.cross(&r_target);
    let cross_len = cross.length();
    if cross_len > 16 {
        let denom = fx_mul(r_current.length(), r_target.length());
        let cos_raw = fx_div(r_current.dot(&r_target), denom);
        let cos_a = if cos_raw > FX_ONE {
            FX_ONE
        } else if cos_raw < -FX_ONE {
            -FX_ONE
        } else {
            cos_raw
        };
        let sin_a = fx_sqrt(fx_sub(FX_ONE, fx_mul(cos_a, cos_a)));
        let pivot = cluster2.center_of_mass;
        cluster2.rotate_around_axis(cross, cos_a, sin_a, pivot);
    }

    // Contact is achieved when the final pair distance is within a tenth
    // of the contact distance.
    let final_dist = cluster2.particles[m2].center.distance_to(&p1.center);
    let dev = fx_sub(final_dist, contact_dist);
    let dev_abs = if dev >= 0 {
        dev
    } else {
        fx_sub(0, dev)
    };
    dev_abs < fx_mul(contact_dist, FX_TENTH)
}

/// Try to resolve a residual overlap by random rotations of the impactor
/// about the contact axis (the line from its center of mass through the
/// contact particle).  Returns whether an overlap-free orientation was
/// found; on success the rotated impactor is kept and the overlap scan
/// clears it against the anchor cluster, and on failure the impactor is
/// left exactly as it was (the trials rotate a copy).  The impactor keeps
/// its particle count and radii.
fn resolve_overlap_by_rotation(
    cluster1: &Cluster,
    cluster2: &mut Cluster,
    m2: usize,
    max_attempts: usize,
    sintering_coeff: i64,
    rng: &mut SplitMix64,
) -> (r: bool)
    requires
        old(cluster2).wf(),
        m2 < old(cluster2).particles.len(),
    ensures
        final(cluster2).wf(),
        final(cluster2).particles.len() == old(cluster2).particles.len(),
        forall|k: int|
            0 <= k < old(cluster2).particles.len() ==> (#[trigger] final(cluster2).particles@[k]).radius
                == old(cluster2).particles@[k].radius,
        r ==> !overlap_check_s(*cluster1, *final(cluster2), sintering_coeff as int),
        !r ==> *final(cluster2) == *old(cluster2),
{
    let p2_pos = cluster2.particles[m2].center;
    let rotation_axis = p2_pos.sub(&cluster2.center_of_mass);
    let mut attempt: usize = 0;
    while attempt < max_attempts
        invariant
            cluster2.wf(),
            *cluster2 == *old(cluster2),
            cluster2.particles.len() == old(cluster2).particles.len(),
            forall|k: int|
                0 <= k < old(cluster2).particles.len() ==> (#[trigger] cluster2.particles@[k]).radius
                    == old(cluster2).particles@[k].radius,
        decreases max_attempts - attempt,
    {
        attempt = attempt + 1;
        let (cos_a, sin_a) = random_unit_angle(rng);
        let mut test_cluster = cluster2.duplicate();
        proof {
            assert(test_cluster.wf());
        }
        let pivot = test_cluster.center_of_mass;
        test_cluster.rotate_around_axis(rotation_axis, cos_a, sin_a, pivot);
        if !check_overlap(cluster1, &test_cluster, sintering_coeff) {
            *cluster2 = test_cluster;
            return true;
        }
    }
    false
}

/// Two particles sit in the ballistic contact window: their center
/// distance lies within [0.9, 1.01] of their sintered contact distance.
pub open spec fn contact_window_s(a: Sphere, b: Sphere, coeff: int) -> bool {
    let contact = crate::sintering::sintered_contact_s(a.radius as int, b.radius as int, coeff);
    fx_mul_s(contact, 943718) <= crate::geometry::v3_dist_s(a.center, b.center) <= fx_add_s(
        contact,
        fx_mul_s(contact, 10486),
    )
}

/// Fall back to a ballistic-style merge: launch the impactor from beyond
/// the pair's combined reach along a random trajectory and march it inward
/// until a sintered contact with no overlap appears.  Returns whether a
/// contact was found; a found contact leaves some particle pair inside the
/// ballistic contact window and the impactor cleared by the overlap scan
/// against the anchor cluster.  The impactor is left at its final position
/// either way and keeps its particle count and radii.
fn merge_ballistic(
    cluster1: &Cluster,
    cluster2: &mut Cluster,
    sintering_coeff: i64,
    rng: &mut SplitMix64,
) -> (r: bool)
    requires
        old(cluster2).wf(),
    ensures
        final(cluster2).wf(),
        final(cluster2).particles.len() == old(cluster2).particles.len(),
        forall|k: int|
            0 <= k < old(cluster2).particles.len() ==> (#[trigger] final(cluster2).particles@[k]).radius
                == old(cluster2).particles@[k].radius,
        r ==> !overlap_check_s(*cluster1, *final(cluster2), sintering_coeff as int),
        r ==> exists|i: int, j: int|
            0 <= i < cluster1.particles.len() && 0 <= j < final(cluster2).particles.len()
                && #[trigger] contact_window_s(
                cluster1.particles@[i],
                final(cluster2).particles@[j],
                sintering_coeff as int,
            ),
{
    let launch_dist = fx_add(
        cluster1.bounding_radius,
        fx_mul(cluster2.bounding_radius, 3 * FX_ONE),
    );

    // Smallest impactor radius fixes the march step.
    let nb = cluster2.particles.len();
    let mut min_radius: i64 = cluster2.particles[0].radius;
    let mut mi: usize = 1;
    while mi < nb
        invariant
            nb == cluster2.particles.len(),
            mi <= nb,
        decreases nb - mi,
    {
        let rad = cluster2.particles[mi].radius;
        if rad < min_radius {
            min_radius = rad;
        }
        mi = mi + 1;
    }
    let step_raw = fx_mul(min_radius, FX_HALF);
    let step = if step_raw < 1 {
        1
    } else {
        step_raw
    };

    let mut attempt: usize = 0;
    while attempt < 100
        invariant
            cluster2.wf(),
            cluster2.particles.len() == old(cluster2).particles.len(),
            forall|k: int|
                0 <= k < old(cluster2).particles.len() ==> (#[trigger] cluster2.particles@[k]).radius
                    == old(cluster2).particles@[k].radius,
        decreases 100 - attempt,
    {
        attempt = attempt + 1;
        let (dx, dy, dz) = random_point_on_sphere(rng);
        let dir = Vector3 { x: dx, y: dy, z: dz };
        let start_pos = cluster1.center_of_mass.add(&dir.scale(launch_dist));
        let translation = start_pos.sub(&cluster2.center_of_mass);
        cluster2.translate(translation);

        let trajectory = cluster1.center_of_mass.sub(&cluster2.center_of_mass).normalize();
        let mut marched: usize = 0;
        while marched < 20000
            invariant
                cluster2.wf(),
                cluster2.particles.len() == old(cluster2).particles.len(),
                forall|k: int|
                    0 <= k < old(cluster2).particles.len() ==> (#[trigger] cluster2.particles@[k]).radius
                        == old(cluster2).particles@[k].radius,
            decreases 20000 - marched,
        {
            marched = marched + 1;

            // Contact scan: any pair at its sintered contact distance.
            let na = cluster1.particles.len();
            let nb2 = cluster2.particles.len();
            let mut touching = false;
            let ghost mut ti: int = 0;
            let ghost mut tj: int = 0;
            let mut i: usize = 0;
            while i < na && !touching
                invariant
                    na == cluster1.particles.len(),
                    nb2 == cluster2.particles.len(),
                    i <= na,
                    touching ==> 0 <= ti < na && 0 <= tj < nb2 && contact_window_s(
                        cluster1.particles@[ti],
                        cluster2.particles@[tj],
                        sintering_coeff as int,
                    ),
                decreases na - i,
            {
                let p1 = cluster1.particles[i];
                let mut j: usize = 0;
                while j < nb2 && !touching
                    invariant
                        na == cluster1.particles.len(),
                        nb2 == cluster2.particles.len(),
                        i < na,
                        j <= nb2,
                        p1 == cluster1.particles@[i as int],
                        touching ==> 0 <= ti < na && 0 <= tj < nb2 && contact_window_s(
                            cluster1.particles@[ti],
                            cluster2.particles@[tj],
                            sintering_coeff as int,
                        ),
                    decreases nb2 - j,
                {
                    let p2 = cluster2.particles[j];
                    let dist = p1.center.distance_to(&p2.center);
                    let contact = sintered_contact_distance(p1.radius, p2.radius, sintering_coeff);
                    let upper = fx_add(contact, fx_mul(contact, 10486));
                    let lower = fx_mul(contact, 943718);
                    if dist <= upper && dist >= lower {
                        touching = true;
                        proof {
                            ti = i as int;
                            tj = j as int;
                        }
                    }
                    j = j + 1;
                }
                i = i + 1;
            }
            if touching {
                if !check_overlap(cluster1, cluster2, sintering_coeff) {
                    proof {
                        assert(contact_window_s(
                            cluster1.particles@[ti],
                            cluster2.particles@[tj],
                            sintering_coeff as int,
                        ));
                    }
                    return true;
                }
            }

            cluster2.translate(trajectory.scale(step));
            let away = cluster1.center_of_mass.distance_to(&cluster2.center_of_mass);
            if away > fx_add(launch_dist, launch_dist) {
                break;
            }
        }
    }
    false
}

} // verus!

verus! {

/// Initialize the pool of seed clusters.  Monomers give one single-particle
/// cluster per requested particle; pre-grown seeds are built with the
/// tunable particle-cluster algorithm in groups of the configured size, a
/// short group (attrition there may grow fewer) topped up with monomers.
/// The pool always holds exactly `n_particles` particles, and every
/// cluster is well-formed with radii in the configured range.
fn initialize_seed_clusters(params: &TunableCcParams, rng: &mut SplitMix64) -> (r: Vec<Cluster>)
    requires
        params.valid(),
    ensures
        r.len() >= 1,
        pool_count_s(r@) == params.n_particles,
        params.seed_strategy is Monomers ==> r.len() == params.n_particles,
        forall|k: int| 0 <= k < r.len() ==> (#[trigger] r@[k]).wf(),
        forall|k: int|
            0 <= k < r.len() ==> radii_in_range_s(
                (#[trigger] r@[k]).particles@,
                params.radius_min as int,
                params.radius_max as int,
            ),
{
    let n = params.n_particles;
    let mut clusters: Vec<Cluster> = Vec::new();
    let group_size: usize = match params.seed_strategy {
        SeedStrategy::Monomers => 1,
        SeedStrategy::TunablePc { cluster_size } => {
            if cluster_size < 2 {
                1
            } else {
                cluster_size
            }
        },
    };

    let mut particles_used: usize = 0;
    while particles_used < n
        invariant
            params.valid(),
            n == params.n_particles,
            group_size >= 1,
            particles_used <= n,
            clusters.len() >= 1 || particles_used == 0,
            pool_count_s(clusters@) == particles_used as int,
            params.seed_strategy is Monomers ==> group_size == 1 && clusters.len()
                == particles_used,
            forall|k: int| 0 <= k < clusters.len() ==> (#[trigger] clusters@[k]).wf(),
            forall|k: int|
                0 <= k < clusters.len() ==> radii_in_range_s(
                    (#[trigger] clusters@[k]).particles@,
                    params.radius_min as int,
                    params.radius_max as int,
                ),
        decreases n - particles_used,
    {
        let remaining = n - particles_used;
        let group = if group_size < remaining {
            group_size
        } else {
            remaining
        };
        if group <= 1 {
            let radius = params.random_radius(rng);
            let c = Cluster::new(Sphere { center: Vector3 { x: 0, y: 0, z: 0 }, radius });
            proof {
                crate::cluster::lemma_pool_count_nonneg(clusters@);
                lemma_pool_count_push(clusters@, c);
            }
            clusters.push(c);
        } else {
            // Pre-grow a seed cluster with the tunable particle-cluster
            // algorithm, seeded from this run's stream.
            let sub_seed = rng.next_u64();
            let tp = TunableParams {
                n_particles: group,
                target_df: params.target_df,
                target_kf: params.target_kf,
                radius_min: params.radius_min,
                radius_max: params.radius_max,
                max_rotations: 25,
            };
            let grown = run_tunable(&tp, sub_seed);
            let m = grown.coordinates.len();
            let mut seeds: Vec<Sphere> = Vec::new();
            let mut gi: usize = 0;
            while gi < m
                invariant
                    m == grown.coordinates.len(),
                    m == grown.radii.len(),
                    gi <= m,
                    seeds.len() == gi,
                    forall|q: int|
                        0 <= q < grown.radii.len() ==> params.radius_min
                            <= #[trigger] grown.radii@[q] <= params.radius_max,
                    radii_in_range_s(seeds@, params.radius_min as int, params.radius_max as int),
                decreases m - gi,
            {
                seeds.push(Sphere { center: grown.coordinates[gi], radius: grown.radii[gi] });
                gi = gi + 1;
            }
            let c = Cluster::from_particles(seeds);
            proof {
                crate::cluster::lemma_pool_count_nonneg(clusters@);
                lemma_pool_count_push(clusters@, c);
            }
            clusters.push(c);

            // Attrition in the pre-grown seed may leave the group short:
            // top it up with monomers so the pool stays at full count.
            let mut topped: usize = m;
            while topped < group
                invariant
                    params.valid(),
                    topped <= group,
                    group <= n - particles_used,
                    particles_used <= n,
                    n == params.n_particles,
                    pool_count_s(clusters@) == particles_used as int + topped as int,
                    forall|k: int| 0 <= k < clusters.len() ==> (#[trigger] clusters@[k]).wf(),
                    forall|k: int|
                        0 <= k < clusters.len() ==> radii_in_range_s(
                            (#[trigger] clusters@[k]).particles@,
                            params.radius_min as int,
                            params.radius_max as int,
                        ),
                decreases group - topped,
            {
                let radius = params.random_radius(rng);
                let filler = Cluster::new(
                    Sphere { center: Vector3 { x: 0, y: 0, z: 0 }, radius },
                );
                proof {
                    lemma_pool_count_push(clusters@, filler);
                }
                clusters.push(filler);
                topped = topped + 1;
            }
        }
        particles_used = particles_used + group;
    }
    clusters
}

/// Replace a merged pair in the pool: both members leave (higher index
/// first) and the merged cluster, whose size is the pair's total, joins.
/// The pool's total particle count is unchanged, and well-formedness and
/// the radius range carry over.
#[verifier::rlimit(100)]
fn replace_merged(
    clusters: &mut Vec<Cluster>,
    merged: Cluster,
    idx_a: usize,
    idx_b: usize,
    lo: i64,
    hi: i64,
)
    requires
        old(clusters).len() >= 2,
        idx_a < old(clusters).len(),
        idx_b < old(clusters).len(),
        idx_a != idx_b,
        merged.wf(),
        radii_in_range_s(merged.particles@, lo as int, hi as int),
        merged.particles@.len() == old(clusters)@[idx_a as int].particles@.len() + old(
            clusters,
        )@[idx_b as int].particles@.len(),
        forall|k: int| 0 <= k < old(clusters).len() ==> (#[trigger] old(clusters)@[k]).wf(),
        forall|k: int|
            0 <= k < old(clusters).len() ==> radii_in_range_s(
                (#[trigger] old(clusters)@[k]).particles@,
                lo as int,
                hi as int,
            ),
    ensures
        final(clusters).len() >= 1,
        pool_count_s(final(clusters)@) == pool_count_s(old(clusters)@),
        forall|k: int| 0 <= k < final(clusters).len() ==> (#[trigger] final(clusters)@[k]).wf(),
        forall|k: int|
            0 <= k < final(clusters).len() ==> radii_in_range_s(
                (#[trigger] final(clusters)@[k]).particles@,
                lo as int,
                hi as int,
            ),
{
    let (higher_idx, lower_idx) = if idx_a > idx_b {
        (idx_a, idx_b)
    } else {
        (idx_b, idx_a)
    };
    proof {
        lemma_pool_count_remove(clusters@, higher_idx as int);
    }
    let _removed_high = clusters.remove(higher_idx);
    proof {
        lemma_pool_count_remove(clusters@, lower_idx as int);
    }
    let _removed_low = clusters.remove(lower_idx);
    proof {
        lemma_pool_count_push(clusters@, merged);
    }
    clusters.push(merged);
}

/// The index of the cluster with the most particles (the last such one).
fn pool_largest(clusters: &Vec<Cluster>) -> (r: usize)
    requires
        clusters.len() >= 1,
    ensures
        r < clusters.len(),
{
    let mut best: usize = 0;
    let mut b: usize = 1;
    while b < clusters.len()
        invariant
            1 <= clusters.len(),
            b <= clusters.len(),
            best < clusters.len(),
        decreases clusters.len() - b,
    {
        if clusters[b].particles.len() >= clusters[best].particles.len() {
            best = b;
        }
        b = b + 1;
    }
    best
}

/// One merge attempt for a selected pair: derive the required separation,
/// position the impactor for an exact power-law contact (with overlap
/// resolution), and fall back to a ballistic merge when that fails.
/// Returns whether the impactor ended in a merged position; success leaves
/// the positioned impactor cleared by the overlap scan against the anchor
/// cluster.  The impactor keeps its particle count and radii.
fn attempt_merge(
    impacted: &Cluster,
    impactor: &mut Cluster,
    params: &TunableCcParams,
    sintering_coeff: i64,
    rng: &mut SplitMix64,
) -> (r: bool)
    requires
        params.valid(),
        old(impactor).wf(),
        impacted.particles.len() < 0x100000000,
        old(impactor).particles.len() < 0x100000000,
    ensures
        final(impactor).wf(),
        final(impactor).particles.len() == old(impactor).particles.len(),
        forall|k: int|
            0 <= k < old(impactor).particles.len() ==> (#[trigger] final(impactor).particles@[k]).radius
                == old(impactor).particles@[k].radius,
        r ==> !overlap_check_s(*impacted, *final(impactor), sintering_coeff as int),
{
    let rp = params.mean_radius();
    let n_po1 = impacted.particles.len();
    let n_po2 = impactor.particles.len();

    let required_distance = match calculate_com_distance(
        n_po1,
        n_po2,
        params.target_kf,
        params.target_df,
        rp,
    ) {
        Some(d) => d,
        None => {
            // Use half the combined reach for problematic cases.
            fx_mul(fx_add(impacted.bounding_radius, impactor.bounding_radius), FX_HALF)
        },
    };

    let mut merge_success = false;
    if can_clusters_connect(impacted, impactor, required_distance) {
        let la1 = get_candidate_particles(impacted, required_distance, impactor.bounding_radius);
        let la2 = get_candidate_particles(impactor, required_distance, impacted.bounding_radius);
        if la1.len() > 0 && la2.len() > 0 {
            let mut attempt: usize = 0;
            while attempt < params.max_particle_selection_attempts && !merge_success
                invariant
                    params.valid(),
                    impactor.wf(),
                    impactor.particles.len() == old(impactor).particles.len(),
                    forall|q: int|
                        0 <= q < la1.len() ==> (#[trigger] la1@[q]) < impacted.particles.len(),
                    forall|q: int|
                        0 <= q < la2.len() ==> (#[trigger] la2@[q]) < impactor.particles.len(),
                    forall|k: int|
                        0 <= k < old(impactor).particles.len() ==> (#[trigger] impactor.particles@[k]).radius
                            == old(impactor).particles@[k].radius,
                    merge_success ==> !overlap_check_s(
                        *impacted,
                        *impactor,
                        sintering_coeff as int,
                    ),
                decreases params.max_particle_selection_attempts - attempt,
            {
                attempt = attempt + 1;
                match select_contact_particles(
                    impacted,
                    impactor,
                    &la1,
                    &la2,
                    required_distance,
                    rng,
                ) {
                    Some((m1, m2)) => {
                        let positioned = position_clusters_for_contact(
                            impacted,
                            impactor,
                            m1,
                            m2,
                            required_distance,
                            sintering_coeff,
                            rng,
                        );
                        if positioned {
                            if !check_overlap(impacted, impactor, sintering_coeff) {
                                merge_success = true;
                            } else if resolve_overlap_by_rotation(
                                impacted,
                                impactor,
                                m2,
                                params.max_rotation_attempts,
                                sintering_coeff,
                                rng,
                            ) {
                                merge_success = true;
                            }
                        }
                    },
                    None => {},
                }
            }
        }
    }

    // Fallback: a ballistic merge that ignores the exact power law.
    if !merge_success {
        if merge_ballistic(impacted, impactor, sintering_coeff, rng) {
            merge_success = true;
        }
    }
    merge_success
}

/// Run a tunable cluster-cluster simulation.  The pool merges under the
/// iteration cap and the result reports the pool's first remaining cluster,
/// so it holds between one and `n_particles` particles, every radius lies
/// within the configured range (and equals `radius_min` exactly in the
/// monodisperse case), and the descriptors are consistent with the final
/// particle data.  The same parameters and seed always reproduce the same
/// result.
#[verifier::rlimit(100)]
pub fn run_tunable_cc(params: &TunableCcParams, seed: u64) -> (r: SimulationResult)
    requires
        params.valid(),
    ensures
        r.seed == seed,
        r.coordinates.len() == r.radii.len(),
        1 <= r.coordinates.len() <= params.n_particles,
        forall|i: int|
            0 <= i < r.radii.len() ==> params.radius_min <= #[trigger] r.radii@[i]
                <= params.radius_max,
        params.radius_min == params.radius_max ==> forall|i: int|
            0 <= i < r.radii.len() ==> #[trigger] r.radii@[i] == params.radius_min,
        r.n_evolution@.len() == r.rg_evolution@.len(),
        r.fractal_dimension as int == calc_fd_evo_s(
            r.n_evolution@,
            r.rg_evolution@,
            half_s(fx_add_s(params.radius_min as int, params.radius_max as int)),
        ).0,
        r.prefactor as int == calc_fd_evo_s(
            r.n_evolution@,
            r.rg_evolution@,
            half_s(fx_add_s(params.radius_min as int, params.radius_max as int)),
        ).1,
        crate::result::result_consistent_s(r, crate::fixed::fx_mul_s(
            half_s(fx_add_s(params.radius_min as int, params.radius_max as int)),
            FX_TENTH as int,
        )),
{
    let mut rng = create_rng(seed);
    let n = params.n_particles;
    let rp = params.mean_radius();

    let mut clusters: Vec<Cluster> = initialize_seed_clusters(params, &mut rng);

    // Scatter the seed clusters to avoid initial overlaps.
    let spread = fx_mul(fx_mul(fx_cbrt(count_fx(clusters.len() as u64)), rp), 5 * FX_ONE);
    let mut m: usize = 0;
    while m < clusters.len()
        invariant
            params.valid(),
            n == params.n_particles,
            m <= clusters.len(),
            clusters.len() >= 1,
            pool_count_s(clusters@) == n as int,
            forall|k: int| 0 <= k < clusters.len() ==> (#[trigger] clusters@[k]).wf(),
            forall|k: int|
                0 <= k < clusters.len() ==> radii_in_range_s(
                    (#[trigger] clusters@[k]).particles@,
                    params.radius_min as int,
                    params.radius_max as int,
                ),
        decreases clusters.len() - m,
    {
        let (dx, dy, dz) = random_point_on_sphere(&mut rng);
        let scale_draw = rng.next_unit();
        let amount = fx_mul(spread, scale_draw);
        let offset = Vector3 { x: fx_mul(dx, amount), y: fx_mul(dy, amount), z: fx_mul(
            dz,
            amount,
        ) };
        let mut moved = clusters[m].duplicate();
        moved.translate(offset);
        proof {
            crate::cluster::lemma_pool_count_update(clusters@, m as int, moved);
        }
        clusters.set(m, moved);
        m = m + 1;
    }

    let mut rg_evolution: Vec<i64> = Vec::new();
    let mut n_values: Vec<usize> = Vec::new();

    let cap: u64 = if n as u64 > 18446744073709551615u64 / 1000 {
        18446744073709551615u64
    } else {
        (n as u64) * 1000
    };
    let mut iterations: u64 = 0;

    while clusters.len() > 1 && iterations < cap
        invariant
            params.valid(),
            n == params.n_particles,
            1 <= clusters.len(),
            pool_count_s(clusters@) == n as int,
            rg_evolution.len() == n_values.len(),
            rp as int == half_s(fx_add_s(params.radius_min as int, params.radius_max as int)),
            forall|k: int| 0 <= k < clusters.len() ==> (#[trigger] clusters@[k]).wf(),
            forall|k: int|
                0 <= k < clusters.len() ==> radii_in_range_s(
                    (#[trigger] clusters@[k]).particles@,
                    params.radius_min as int,
                    params.radius_max as int,
                ),
        decreases cap - iterations,
    {
        iterations = iterations + 1;

        // Select two distinct clusters; the larger one stays put.
        let idx1 = rng.next_below(clusters.len());
        let pick = rng.next_below(clusters.len() - 1);
        let idx2 = if pick >= idx1 {
            pick + 1
        } else {
            pick
        };
        let (impacted_idx, impactor_idx) = if clusters[idx1].particles.len()
            >= clusters[idx2].particles.len() {
            (idx1, idx2)
        } else {
            (idx2, idx1)
        };

        let impacted = clusters[impacted_idx].duplicate();
        let mut impactor = clusters[impactor_idx].duplicate();
        proof {
            assert(impacted.wf());
            assert(impactor.wf());
            crate::cluster::lemma_pool_count_member(clusters@, impacted_idx as int);
            crate::cluster::lemma_pool_count_member(clusters@, impactor_idx as int);
        }

        let sintering_coeff = params.sintering.sample(&mut rng);
        let merge_success = attempt_merge(
            &impacted,
            &mut impactor,
            params,
            sintering_coeff,
            &mut rng,
        );

        if merge_success {
            let mut merged = impacted;
            merged.merge_with(impactor);
            replace_merged(
                &mut clusters,
                merged,
                impacted_idx,
                impactor_idx,
                params.radius_min,
                params.radius_max,
            );

            // Track the largest cluster's growth.
            let best = pool_largest(&clusters);
            proof {
                crate::cluster::lemma_pool_count_member(clusters@, best as int);
            }
            rg_evolution.push(clusters[best].radius_of_gyration);
            n_values.push(clusters[best].particles.len());
        }
    }

    // Report the pool's first cluster.
    proof {
        lemma_pool_count_remove(clusters@, 0);
        crate::cluster::lemma_pool_count_nonneg(clusters@.remove(0));
    }
    let final_cluster = clusters.remove(0);
    let final_particles = final_cluster.particles;

    let (coords, radii) = split_spheres(&final_particles);
    let fit = calculate_fractal_dimension_from_evolution(&n_values, &rg_evolution, rp);
    let tolerance = fx_mul(rp, FX_TENTH);
    finish_result(coords, radii, rg_evolution, n_values, tolerance, fit, FIT_SPREAD_TUNABLE, seed)
}

} // verus!
