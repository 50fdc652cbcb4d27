//! Tunable fractal dimension particle-cluster aggregation.
//!
//! Each new particle is placed at the exact distance from the center of
//! mass that keeps the power law `N = kf (Rg / rp)^Df` satisfied: the
//! distance is derived in closed form, a contact anchor is drawn from the
//! particles that can plausibly touch there, the placement direction is
//! solved by the law of cosines and randomized about the anchor axis, and
//! a placement is accepted only if it overlaps no existing particle.
//! Degenerate algebra and exhausted rotation budgets fall back to a
//! ballistic-style placement that ignores the exact power law for that one
//! particle.  After every placement the cluster is recentered on its
//! center of mass.

use vstd::prelude::*;
use crate::cluster::{rotate_vector, split_spheres};
use crate::fixed::{fx_add, fx_add_s, fx_div, fx_mul, fx_pow, fx_sqrt, fx_sub, FX_ONE};
use crate::geometry::{Sphere, Vector3};
use crate::metrics::{
    calc_fd_evo_s, calculate_center_of_gravity, calculate_fractal_dimension_from_evolution,
    calculate_radius_of_gyration, FX_TENTH, FX_THREE_FIFTHS,
};
use crate::result::{finish_result, ParamError, SimulationResult, FIT_SPREAD_TUNABLE};
use crate::rng::{create_rng, random_point_on_sphere, random_unit_angle, SplitMix64};
use crate::sintering::{half_s, FX_HALF};
use crate::ballistic::radius_range_valid_s;

verus! {

/// Tunable particle-cluster parameters.
#[derive(Debug, Clone)]
pub struct TunableParams {
    pub n_particles: usize,
    pub target_df: i64,
    pub target_kf: i64,
    pub radius_min: i64,
    pub radius_max: i64,
    pub max_rotations: usize,
}

impl TunableParams {
    /// The parameter ranges a run relies on.  The algorithm seeds the
    /// cluster with two touching particles, so at least two are asked for.
    pub open spec fn valid(self) -> bool {
        &&& self.n_particles >= 2
        &&& self.n_particles < 0x100000000
        &&& FX_ONE <= self.target_df <= 3 * FX_ONE
        &&& crate::metrics::FX_TENTH <= self.target_kf <= 10 * FX_ONE
        &&& radius_range_valid_s(self.radius_min as int, self.radius_max as int)
        &&& self.max_rotations >= 1
    }

    /// Validate the caller-facing parameters; an absent `radius_max`
    /// defaults to `radius_min`, and the remaining fields take their
    /// defaults.  Rejects a particle count below two, a target dimension
    /// outside `[1, 3]` or prefactor outside `[1/10, 10]`, and a bad
    /// radius range, in that order.
    pub fn new(
        n_particles: usize,
        target_df: i64,
        target_kf: i64,
        radius_min: i64,
        radius_max: Option<i64>,
    ) -> (r: Result<TunableParams, ParamError>)
        ensures
            ({
                let rmax = if radius_max is Some {
                    radius_max->0
                } else {
                    radius_min
                };
                match r {
                    Ok(p) => {
                        &&& p.valid()
                        &&& p == (TunableParams {
                            n_particles,
                            target_df,
                            target_kf,
                            radius_min,
                            radius_max: rmax,
                            max_rotations: 25usize,
                        })
                    },
                    Err(e) => {
                        &&& (n_particles < 2 || n_particles >= 0x100000000 || target_df < FX_ONE
                            || target_df > 3 * FX_ONE || target_kf < crate::metrics::FX_TENTH
                            || target_kf > 10 * FX_ONE || !radius_range_valid_s(
                            radius_min as int,
                            rmax as int,
                        ))
                        &&& e == (if n_particles < 2 || n_particles >= 0x100000000 {
                            ParamError::InvalidParticleCount
                        } else if target_df < FX_ONE || target_df > 3 * FX_ONE || target_kf
                            < crate::metrics::FX_TENTH || target_kf > 10 * FX_ONE {
                            ParamError::InvalidTarget
                        } else {
                            ParamError::InvalidRadius
                        })
                    },
                }
            }),
    {
        let rmax = match radius_max {
            Some(v) => v,
            None => radius_min,
        };
        if n_particles < 2 || (n_particles as u64) >= 0x100000000u64 {
            return Err(ParamError::InvalidParticleCount);
        }
        if target_df < FX_ONE || target_df > 3 * FX_ONE || target_kf < crate::metrics::FX_TENTH
            || target_kf > 10 * FX_ONE {
            return Err(ParamError::InvalidTarget);
        }
        if radius_min <= 0 || rmax < radius_min || rmax >= 0x4000000000000000i64 {
            return Err(ParamError::InvalidRadius);
        }
        Ok(
            TunableParams {
                n_particles,
                target_df,
                target_kf,
                radius_min,
                radius_max: rmax,
                max_rotations: 25,
            },
        )
    }

    /// Whether the particle radii vary.
    pub fn is_polydisperse(&self) -> (r: bool)
        ensures
            r == (self.radius_min != self.radius_max),
    {
        self.radius_min != self.radius_max
    }

    /// Draw a radius within the configured range.  A monodisperse
    /// configuration yields `radius_min` exactly and leaves the generator
    /// untouched; a polydisperse one consumes exactly one draw, and the
    /// value that draw places in the range is pinned.
    pub fn random_radius(&self, rng: &mut SplitMix64) -> (r: i64)
        requires
            self.radius_min <= self.radius_max,
        ensures
            self.radius_min <= r <= self.radius_max,
            self.radius_min == self.radius_max ==> r == self.radius_min && final(rng).state == old(
                rng,
            ).state,
            self.radius_min != self.radius_max ==> final(rng).state == crate::rng::rng_step_s(
                old(rng).state,
            ) && r as int == crate::fixed::fx_add_s(
                self.radius_min as int,
                crate::fixed::fx_mul_s(
                    crate::fixed::fx_sub_s(self.radius_max as int, self.radius_min as int),
                    (crate::rng::rng_out_s(final(rng).state) >> 44) as int,
                ),
            ),
    {
        if self.radius_min != self.radius_max {
            rng.next_range(self.radius_min, self.radius_max)
        } else {
            self.radius_min
        }
    }

    /// The mean radius: the midpoint of the configured range.
    pub fn mean_radius(&self) -> (r: i64)
        ensures
            r as int == half_s(fx_add_s(self.radius_min as int, self.radius_max as int)),
            radius_range_valid_s(self.radius_min as int, self.radius_max as int)
                ==> self.radius_min <= r <= self.radius_max,
    {
        let s = fx_add(self.radius_min, self.radius_max);
        if s >= 0 {
            ((s as u64) / 2) as i64
        } else {
            let m: u128 = (-(s as i128)) as u128;
            -((m / 2) as i64)
        }
    }
}

impl Default for TunableParams {
    fn default() -> (r: Self)
        ensures
            r.valid(),
            r.n_particles == 1000,
            r.target_df == 1887437,
            r.target_kf == 1363149,
            r.radius_min == FX_ONE,
            r.radius_max == FX_ONE,
    {
        TunableParams {
            n_particles: 1000,
            target_df: 1887437,
            target_kf: 1363149,
            radius_min: FX_ONE,
            radius_max: FX_ONE,
            max_rotations: 25,
        }
    }
}

/// A unit vector perpendicular to the given one: the normalized cross
/// product with a random direction, retried while the cross product is
/// degenerate; after the budget, a deterministic perpendicular is built
/// from a coordinate axis.
pub(crate) fn find_perpendicular_axis(v: &Vector3, rng: &mut SplitMix64) -> (r: Vector3) {
    let mut attempt: usize = 0;
    while attempt < 32
        invariant
            attempt <= 32,
        decreases 32 - attempt,
    {
        let (a, b, c) = random_point_on_sphere(rng);
        let t1 = Vector3 { x: a, y: b, z: c };
        let cross = t1.cross(v);
        let len = cross.length();
        if len > 1048 {
            return cross.normalize();
        }
        attempt = attempt + 1;
    }
    let fallback = if v.x < 943718 && v.x > -943718 {
        Vector3 { x: FX_ONE, y: 0, z: 0 }
    } else {
        Vector3 { x: 0, y: FX_ONE, z: 0 }
    };
    fallback.cross(v).normalize()
}

/// Fall back to a ballistic-style placement: march a particle of the given
/// radius inward from a random launch point until it contacts the cluster,
/// and accept the contact position if it overlaps nothing.  Attrition is
/// expected: the caller treats `None` as a skipped step.
pub(crate) fn place_particle_ballistic(
    particles: &Vec<Sphere>,
    rng: &mut SplitMix64,
    radius: i64,
) -> (r: Option<Vector3>) {
    let n = particles.len();
    if n == 0 {
        return Some(Vector3 { x: 0, y: 0, z: 0 });
    }

    // Launch from beyond the cluster's farthest reach.
    let mut max_dist: i64 = 0;
    let mut i: usize = 0;
    while i < n
        invariant
            n == particles.len(),
            i <= n,
        decreases n - i,
    {
        let p = particles[i];
        let reach = fx_add(p.center.length(), p.radius);
        if reach > max_dist {
            max_dist = reach;
        }
        i = i + 1;
    }
    let launch_dist = fx_add(max_dist, fx_mul(radius, 5 * FX_ONE));
    let step = fx_mul(radius, FX_HALF);

    let mut attempt: usize = 0;
    while attempt < 64
        invariant
            n == particles.len(),
            n >= 1,
        decreases 64 - attempt,
    {
        attempt = attempt + 1;
        let (dx, dy, dz) = random_point_on_sphere(rng);
        let outward = Vector3 { x: dx, y: dy, z: dz };
        let dir = Vector3 { x: fx_sub(0, dx), y: fx_sub(0, dy), z: fx_sub(0, dz) };
        let mut pos = outward.scale(launch_dist);

        let mut marched: usize = 0;
        while marched < 50000
            invariant
                n == particles.len(),
                n >= 1,
                marched <= 50000,
            decreases 50000 - marched,
        {
            marched = marched + 1;

            // Contact scan against every particle.
            let mut j: usize = 0;
            while j < n
                invariant
                    n == particles.len(),
                    n >= 1,
                    j <= n,
                decreases n - j,
            {
                let p = particles[j];
                let dist = pos.distance_to(&p.center);
                let contact_dist = fx_add(radius, p.radius);
                if dist <= fx_add(contact_dist, fx_mul(contact_dist, 10486)) {
                    // Snap onto this particle's surface.
                    let to_p = p.center.sub(&pos).normalize();
                    let contact_pos = p.center.sub(&to_p.scale(contact_dist));

                    // Accept only an overlap-free position.
                    let mut safe = true;
                    let mut k: usize = 0;
                    while k < n
                        invariant
                            n == particles.len(),
                            k <= n,
                        decreases n - k,
                    {
                        let q = particles[k];
                        let d2 = contact_pos.distance_to(&q.center);
                        if d2 < fx_sub(fx_add(radius, q.radius), 2) {
                            safe = false;
                        }
                        k = k + 1;
                    }
                    if safe {
                        return Some(contact_pos);
                    }
                }
                j = j + 1;
            }

            pos = pos.add(&dir.scale(step));
            if pos.length() > fx_add(launch_dist, launch_dist) {
                break;
            }
        }
    }
    None
}

/// The particle counts at which tunable growth records its history: every
/// multiple of ten among the step counts `3..=np`, plus the final count
/// `n` itself.
pub open spec fn tunable_counts_s(n: int, np: int) -> Seq<usize>
    decreases np,
{
    if np < 3 {
        Seq::empty()
    } else {
        let rest = tunable_counts_s(n, np - 1);
        if np % 10 == 0 || np == n {
            rest.push(np as usize)
        } else {
            rest
        }
    }
}

/// Run a tunable particle-cluster simulation.  The result holds between two
/// and `n_particles` particles (a failed fallback placement skips a step);
/// every radius lies within the configured range (and equals `radius_min`
/// exactly in the monodisperse case); the growth history has exactly one
/// entry per recording step, and the reported dimension and prefactor are
/// exactly the tunable-convention power-law fit of that history against the
/// recording counts; the remaining descriptors are consistent with the
/// final particle data.  The same parameters and seed always reproduce the
/// same result.
pub fn run_tunable(params: &TunableParams, seed: u64) -> (r: SimulationResult)
    requires
        params.valid(),
    ensures
        r.seed == seed,
        r.coordinates.len() == r.radii.len(),
        2 <= r.coordinates.len() <= params.n_particles,
        forall|i: int|
            0 <= i < r.radii.len() ==> params.radius_min <= #[trigger] r.radii@[i]
                <= params.radius_max,
        params.radius_min == params.radius_max ==> forall|i: int|
            0 <= i < r.radii.len() ==> #[trigger] r.radii@[i] == params.radius_min,
        r.n_evolution@ == tunable_counts_s(params.n_particles as int, params.n_particles as int),
        r.rg_evolution@.len() == r.n_evolution@.len(),
        r.fractal_dimension as int == calc_fd_evo_s(
            r.n_evolution@,
            r.rg_evolution@,
            half_s(fx_add_s(params.radius_min as int, params.radius_max as int)),
        ).0,
        r.prefactor as int == calc_fd_evo_s(
            r.n_evolution@,
            r.rg_evolution@,
            half_s(fx_add_s(params.radius_min as int, params.radius_max as int)),
        ).1,
        crate::result::result_consistent_s(r, crate::fixed::fx_mul_s(
            half_s(fx_add_s(params.radius_min as int, params.radius_max as int)),
            FX_TENTH as int,
        )),
{
    let mut rng = create_rng(seed);
    let n = params.n_particles;
    let rp = params.mean_radius();
    let kf = params.target_kf;
    let df = params.target_df;
    let exponent = fx_div(2 * FX_ONE, df);

    // Seed with two touching particles.
    let mut particles: Vec<Sphere> = Vec::new();
    let r1 = params.random_radius(&mut rng);
    particles.push(Sphere { center: Vector3 { x: 0, y: 0, z: 0 }, radius: r1 });
    let r2 = params.random_radius(&mut rng);
    let (dx, dy, dz) = random_point_on_sphere(&mut rng);
    let sum01 = fx_add(r1, r2);
    particles.push(
        Sphere {
            center: Vector3 {
                x: fx_mul(dx, sum01),
                y: fx_mul(dy, sum01),
                z: fx_mul(dz, sum01),
            },
            radius: r2,
        },
    );

    let mut rg_evolution: Vec<i64> = Vec::new();
    let mut n_values: Vec<usize> = Vec::new();

    // Recenter on the center of mass and track each particle's distance
    // from the origin.
    recenter(&mut particles);
    let mut distances: Vec<i64> = center_distances(&particles);

    let mut np: u64 = 3;
    let n_wide: u64 = n as u64;
    while np <= n_wide
        invariant
            params.valid(),
            n == params.n_particles,
            n_wide == n as u64,
            3 <= np <= n_wide + 1,
            2 <= particles.len() < np,
            distances.len() == particles.len(),
            rg_evolution.len() == n_values.len(),
            n_values@ == tunable_counts_s(n as int, np - 1),
            rp as int == half_s(fx_add_s(params.radius_min as int, params.radius_max as int)),
            params.radius_min <= rp <= params.radius_max,
            forall|k: int|
                0 <= k < particles.len() ==> params.radius_min <= #[trigger] particles@[k].radius
                    <= params.radius_max,
        decreases n_wide + 1 - np,
    {
        let np_fx = crate::fixed::fx_from_int(np as i64);
        let npm1_fx = crate::fixed::fx_from_int((np - 1) as i64);
        let new_radius = params.random_radius(&mut rng);
        let ghost len0 = particles@.len();

        // Closed-form distance from the center of mass that preserves the
        // target power law for the np-th particle.
        let gamma1 = fx_mul(
            fx_div(fx_mul(np_fx, np_fx), npm1_fx),
            fx_sub(fx_pow(fx_div(np_fx, kf), exponent), FX_THREE_FIFTHS),
        );
        let gamma2 = fx_mul(np_fx, fx_sub(fx_pow(fx_div(npm1_fx, kf), exponent), FX_THREE_FIFTHS));
        let gamma3 = fx_mul(
            fx_div(np_fx, npm1_fx),
            fx_sub(fx_pow(fx_div(FX_ONE, kf), exponent), FX_THREE_FIFTHS),
        );
        let gamma4_sq = fx_sub(fx_sub(gamma1, gamma2), gamma3);

        let mut placed = false;
        if gamma4_sq > 0 {
            let gamma = fx_mul(rp, fx_sqrt(gamma4_sq));

            // Anchor candidates: particles whose distance from the center
            // of mass could plausibly reach the target shell.
            let reach_floor = fx_sub(gamma, fx_mul(2 * FX_ONE, rp));
            let mut lb: Vec<usize> = Vec::new();
            let mut ci: usize = 0;
            while ci < particles.len()
                invariant
                    distances.len() == particles.len(),
                    ci <= particles.len(),
                    forall|q: int| 0 <= q < lb.len() ==> (#[trigger] lb@[q]) < particles.len(),
                decreases particles.len() - ci,
            {
                if distances[ci] > reach_floor {
                    lb.push(ci);
                }
                ci = ci + 1;
            }

            // Try anchors until one yields an overlap-free placement.
            while lb.len() > 0 && !placed
                invariant
                    params.valid(),
                    2 <= particles.len(),
                    distances.len() == particles.len(),
                    params.radius_min <= new_radius <= params.radius_max,
                    forall|q: int| 0 <= q < lb.len() ==> (#[trigger] lb@[q]) < particles.len(),
                    forall|k: int|
                        0 <= k < particles.len() ==> params.radius_min
                            <= #[trigger] particles@[k].radius <= params.radius_max,
                    placed ==> particles@.len() == len0 + 1,
                    !placed ==> particles@.len() == len0,
                decreases lb.len() + (if placed { 0int } else { 1int }),
            {
                let pick = rng.next_below(lb.len());
                let ref_idx = lb[pick];
                let anchor = particles[ref_idx];
                let cb = anchor.center;
                let rb = anchor.radius;
                let cb_norm = cb.length();
                if cb_norm < 16 {
                    lb.remove(pick);
                    continue;
                }

                // Law of cosines: the rotation angle from the anchor axis
                // to a point on the target shell in contact with it.
                let contact = fx_add(rb, new_radius);
                let num = fx_sub(
                    fx_add(fx_mul(gamma, gamma), fx_mul(cb_norm, cb_norm)),
                    fx_mul(contact, contact),
                );
                let den = fx_mul(fx_add(gamma, gamma), cb_norm);
                let cos_alpha = fx_div(num, den);
                if cos_alpha > FX_ONE || cos_alpha < -FX_ONE {
                    lb.remove(pick);
                    continue;
                }
                let sin_alpha = fx_sqrt(fx_sub(FX_ONE, fx_mul(cos_alpha, cos_alpha)));
                let cb_unit = cb.normalize();

                // Rotation attempts about the anchor axis.
                let mut rot: usize = 0;
                while rot < params.max_rotations && !placed
                    invariant
                        params.valid(),
                        2 <= particles.len(),
                        distances.len() == particles.len(),
                        params.radius_min <= new_radius <= params.radius_max,
                        forall|q: int|
                            0 <= q < lb.len() ==> (#[trigger] lb@[q]) < particles.len(),
                        forall|k: int|
                            0 <= k < particles.len() ==> params.radius_min
                                <= #[trigger] particles@[k].radius <= params.radius_max,
                        placed ==> particles@.len() == len0 + 1,
                        !placed ==> particles@.len() == len0,
                    decreases params.max_rotations - rot,
                {
                    rot = rot + 1;
                    let rotation_axis = find_perpendicular_axis(&cb_unit, &mut rng);
                    let ca_dir = rotate_vector(&cb_unit, &rotation_axis, cos_alpha, sin_alpha);
                    let (cos_beta, sin_beta) = random_unit_angle(&mut rng);
                    let ca_final = rotate_vector(&ca_dir, &cb_unit, cos_beta, sin_beta);
                    let ca = ca_final.scale(gamma);

                    // Accept only an overlap-free position.
                    let mut safe = true;
                    let mut k: usize = 0;
                    while k < particles.len()
                        invariant
                            k <= particles.len(),
                        decreases particles.len() - k,
                    {
                        let q = particles[k];
                        let d = ca.distance_to(&q.center);
                        if d < fx_sub(fx_add(new_radius, q.radius), 2) {
                            safe = false;
                        }
                        k = k + 1;
                    }
                    if safe {
                        particles.push(Sphere { center: ca, radius: new_radius });
                        distances.push(ca.length());
                        placed = true;
                    }
                }

                if !placed {
                    lb.remove(pick);
                }
            }
        }

        // Fallback: a ballistic-style placement that ignores the exact
        // power law for this one particle.
        if !placed {
            match place_particle_ballistic(&particles, &mut rng, new_radius) {
                Some(pos) => {
                    particles.push(Sphere { center: pos, radius: new_radius });
                    distances.push(pos.length());
                },
                None => {},
            }
        }

        // Recenter on the new center of mass so later shell distances stay
        // valid, and refresh the tracked distances.
        recenter(&mut particles);
        distances = center_distances(&particles);

        // Track the growth history periodically.
        if np % 10 == 0 || np == n_wide {
            let (coords, radii) = split_spheres(&particles);
            let rg = calculate_radius_of_gyration(&coords, &radii);
            rg_evolution.push(rg);
            n_values.push(np as usize);
        }

        np = np + 1;
    }

    let (coords, radii) = split_spheres(&particles);
    let fit = calculate_fractal_dimension_from_evolution(&n_values, &rg_evolution, rp);
    let tolerance = fx_mul(rp, FX_TENTH);
    finish_result(coords, radii, rg_evolution, n_values, tolerance, fit, FIT_SPREAD_TUNABLE, seed)
}

/// Translate the particles so their center of mass returns to the origin.
fn recenter(particles: &mut Vec<Sphere>)
    ensures
        final(particles).len() == old(particles).len(),
        forall|k: int|
            0 <= k < old(particles).len() ==> (#[trigger] final(particles)@[k]).radius == old(
                particles,
            )@[k].radius,
{
    let (coords, radii) = split_spheres(particles);
    let com = calculate_center_of_gravity(&coords, &radii);
    let n = particles.len();
    let mut i: usize = 0;
    while i < n
        invariant
            n == particles.len(),
            i <= n,
            forall|k: int|
                i <= k < n ==> (#[trigger] particles@[k]) == old(particles)@[k],
            forall|k: int|
                0 <= k < i ==> (#[trigger] particles@[k]).radius == old(particles)@[k].radius,
        decreases n - i,
    {
        let p = particles[i];
        let moved = Sphere { center: p.center.sub(&com), radius: p.radius };
        particles.set(i, moved);
        i = i + 1;
    }
}

/// The distance of every particle center from the origin.
fn center_distances(particles: &Vec<Sphere>) -> (r: Vec<i64>)
    ensures
        r.len() == particles.len(),
{
    let n = particles.len();
    let mut out: Vec<i64> = Vec::new();
    let mut i: usize = 0;
    while i < n
        invariant
            n == particles.len(),
            i <= n,
            out.len() == i,
        decreases n - i,
    {
        out.push(particles[i].center.length());
        i = i + 1;
    }
    out
}

} // verus!
