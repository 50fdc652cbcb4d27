//! Ballistic particle-cluster aggregation simulation engine.
//!
//! Particles travel in nearly straight lines toward the cluster and stick
//! on first contact, which produces denser, more compact structures than
//! diffusion-limited growth.  Radii may be polydisperse, and contacts honor
//! the sampled sintering coefficient.

use vstd::prelude::*;
use crate::cluster::{coords_of_s, lemma_views_take, radii_of_s, split_spheres};
use crate::fixed::{fx_add, fx_add_s, fx_mul, FX_ONE};
use crate::geometry::{
    v3_add_s, v3_normalize_s, v3_scale_s, v3_sub_s, Sphere, Vector3,
};
use crate::metrics::{
    calc_fd_s, calculate_fractal_dimension, calculate_radius_of_gyration, growth_counts_s,
    radius_of_gyration_s, FX_TENTH,
};
use crate::result::{finish_result, ParamError, SimulationResult, FIT_SPREAD_PC};
use crate::rng::{create_rng, random_direction, SplitMix64};
use crate::sintering::{half_s, sintered_contact_distance, SinteringDistribution, FX_HALF};
use crate::spatial::SpatialHash;

verus! {

/// Ballistic aggregation parameters.
#[derive(Debug, Clone)]
pub struct BallisticParams {
    pub n_particles: usize,
    pub sticking_probability: i64,
    pub radius_min: i64,
    pub radius_max: i64,
    pub launch_distance_factor: i64,
    pub max_ray_steps: usize,
    pub sintering: SinteringDistribution,
}

/// The radius ranges every polydisperse algorithm relies on.
pub open spec fn radius_range_valid_s(radius_min: int, radius_max: int) -> bool {
    &&& 0 < radius_min <= radius_max
    &&& radius_max < 0x4000000000000000
}

impl BallisticParams {
    /// The parameter ranges a run relies on.
    pub open spec fn valid(self) -> bool {
        &&& self.n_particles >= 1
        &&& self.n_particles < 0x100000000
        &&& 0 <= self.sticking_probability <= FX_ONE
        &&& radius_range_valid_s(self.radius_min as int, self.radius_max as int)
        &&& self.launch_distance_factor > 0
        &&& self.max_ray_steps >= 1
        &&& crate::sintering::sintering_ok_s(self.sintering)
    }

    /// Validate the caller-facing parameters; an absent `radius_max`
    /// defaults to `radius_min`, the sintering distribution is re-clamped
    /// into its legal ranges, and the remaining fields take their defaults.
    /// Rejects a zero particle count, a sticking probability outside
    /// `[0, 1]`, and a bad radius range, in that order.
    pub fn new(
        n_particles: usize,
        sticking_probability: i64,
        radius_min: i64,
        radius_max: Option<i64>,
        sintering: SinteringDistribution,
    ) -> (r: Result<BallisticParams, ParamError>)
        ensures
            ({
                let rmax = if radius_max is Some {
                    radius_max->0
                } else {
                    radius_min
                };
                match r {
                    Ok(p) => {
                        &&& p.valid()
                        &&& p == (BallisticParams {
                            n_particles,
                            sticking_probability,
                            radius_min,
                            radius_max: rmax,
                            launch_distance_factor: (2 * FX_ONE) as i64,
                            max_ray_steps: 10000usize,
                            sintering: crate::sintering::normalize_sintering_s(sintering),
                        })
                    },
                    Err(e) => {
                        &&& (n_particles < 1 || n_particles >= 0x100000000 || sticking_probability
                            < 0 || sticking_probability > FX_ONE || !radius_range_valid_s(
                            radius_min as int,
                            rmax as int,
                        ))
                        &&& e == (if n_particles < 1 || n_particles >= 0x100000000 {
                            ParamError::InvalidParticleCount
                        } else if sticking_probability < 0 || sticking_probability > FX_ONE {
                            ParamError::InvalidStickingProbability
                        } else {
                            ParamError::InvalidRadius
                        })
                    },
                }
            }),
    {
        let rmax = match radius_max {
            Some(v) => v,
            None => radius_min,
        };
        if n_particles < 1 || (n_particles as u64) >= 0x100000000u64 {
            return Err(ParamError::InvalidParticleCount);
        }
        if sticking_probability < 0 || sticking_probability > FX_ONE {
            return Err(ParamError::InvalidStickingProbability);
        }
        if radius_min <= 0 || rmax < radius_min || rmax >= 0x4000000000000000i64 {
            return Err(ParamError::InvalidRadius);
        }
        Ok(
            BallisticParams {
                n_particles,
                sticking_probability,
                radius_min,
                radius_max: rmax,
                launch_distance_factor: 2 * FX_ONE,
                max_ray_steps: 10000,
                sintering: sintering.normalized(),
            },
        )
    }

    /// Whether the particle radii vary.
    pub fn is_polydisperse(&self) -> (r: bool)
        ensures
            r == (self.radius_min != self.radius_max),
    {
        self.radius_min != self.radius_max
    }

    /// Draw a radius within the configured range.  A monodisperse
    /// configuration yields `radius_min` exactly and leaves the generator
    /// untouched; a polydisperse one consumes exactly one draw, and the
    /// value that draw places in the range is pinned.
    pub fn random_radius(&self, rng: &mut SplitMix64) -> (r: i64)
        requires
            self.radius_min <= self.radius_max,
        ensures
            self.radius_min <= r <= self.radius_max,
            self.radius_min == self.radius_max ==> r == self.radius_min && final(rng).state == old(
                rng,
            ).state,
            self.radius_min != self.radius_max ==> final(rng).state == crate::rng::rng_step_s(
                old(rng).state,
            ) && r as int == crate::fixed::fx_add_s(
                self.radius_min as int,
                crate::fixed::fx_mul_s(
                    crate::fixed::fx_sub_s(self.radius_max as int, self.radius_min as int),
                    (crate::rng::rng_out_s(final(rng).state) >> 44) as int,
                ),
            ),
    {
        if self.radius_min != self.radius_max {
            rng.next_range(self.radius_min, self.radius_max)
        } else {
            self.radius_min
        }
    }

    /// The mean radius: the midpoint of the configured range.
    pub fn mean_radius(&self) -> (r: i64)
        ensures
            r as int == half_s(fx_add_s(self.radius_min as int, self.radius_max as int)),
            radius_range_valid_s(self.radius_min as int, self.radius_max as int)
                ==> self.radius_min <= r <= self.radius_max,
    {
        let s = fx_add(self.radius_min, self.radius_max);
        if s >= 0 {
            ((s as u64) / 2) as i64
        } else {
            let m: u128 = (-(s as i128)) as u128;
            -((m / 2) as i64)
        }
    }
}

impl Default for BallisticParams {
    fn default() -> (r: Self)
        ensures
            r.valid(),
            r.n_particles == 1000,
            r.radius_min == FX_ONE,
            r.radius_max == FX_ONE,
            r.sticking_probability == FX_ONE,
            r.sintering == SinteringDistribution::Fixed(FX_ONE),
    {
        BallisticParams {
            n_particles: 1000,
            sticking_probability: FX_ONE,
            radius_min: FX_ONE,
            radius_max: FX_ONE,
            launch_distance_factor: 2 * FX_ONE,
            max_ray_steps: 10000,
            sintering: SinteringDistribution::Fixed(FX_ONE),
        }
    }
}

/// Particle `k` sits snapped onto an earlier particle `j`: its center lies
/// at the sintered contact distance from `j`'s center, under some
/// coefficient in `[1/2, 1]`, along the normalized direction of some
/// witness vector (the ray's last offset).
pub open spec fn sintered_snap_s(coords: Seq<Vector3>, radii: Seq<i64>, k: int) -> bool {
    exists|j: int, w: Vector3, c: i64|
        0 <= j < k && FX_HALF <= c <= FX_ONE && coords[k] == #[trigger] v3_add_s(
            coords[j],
            v3_scale_s(
                v3_normalize_s(w),
                crate::sintering::sintered_contact_s(
                    radii[k] as int,
                    radii[j] as int,
                    c as int,
                ) as i64 as int,
            ),
        )
}

/// Run a ballistic particle-cluster simulation.  The result holds between
/// one and `n_particles` particles; the first particle is the seed at the
/// origin and every later one sits snapped at a sintered contact distance
/// onto an earlier one; every radius lies within the configured range (and
/// equals `radius_min` exactly in the monodisperse case); the growth
/// history holds, for each prefix of the particle list, exactly that
/// prefix's radius of gyration, and the reported dimension and prefactor
/// are exactly the power-law fit of that history; the remaining descriptors
/// are consistent with the final particle data.  The same parameters and
/// seed always reproduce the same result.
pub fn run_ballistic(params: &BallisticParams, seed: u64) -> (r: SimulationResult)
    requires
        params.valid(),
    ensures
        r.seed == seed,
        r.coordinates.len() == r.radii.len(),
        1 <= r.coordinates.len() <= params.n_particles,
        forall|i: int|
            0 <= i < r.radii.len() ==> params.radius_min <= #[trigger] r.radii@[i]
                <= params.radius_max,
        params.radius_min == params.radius_max ==> forall|i: int|
            0 <= i < r.radii.len() ==> #[trigger] r.radii@[i] == params.radius_min,
        r.rg_evolution.len() == r.coordinates.len(),
        r.coordinates@[0] == (Vector3 { x: 0i64, y: 0i64, z: 0i64 }),
        forall|k: int|
            0 <= k < r.rg_evolution.len() ==> (#[trigger] r.rg_evolution@[k]) as int
                == radius_of_gyration_s(r.coordinates@.take(k + 1), r.radii@.take(k + 1)),
        forall|k: int|
            1 <= k < r.coordinates.len() ==> #[trigger] sintered_snap_s(
                r.coordinates@,
                r.radii@,
                k,
            ),
        r.n_evolution@ == growth_counts_s(r.coordinates@.len()),
        r.fractal_dimension as int == calc_fd_s(r.n_evolution@, r.rg_evolution@).0,
        r.prefactor as int == calc_fd_s(r.n_evolution@, r.rg_evolution@).1,
        crate::result::result_consistent_s(r, crate::fixed::fx_mul_s(
            half_s(fx_add_s(params.radius_min as int, params.radius_max as int)),
            FX_TENTH as int,
        )),
{
    let mut rng = create_rng(seed);
    let n = params.n_particles;
    let seed_radius = params.mean_radius();

    let mut particles: Vec<Sphere> = Vec::new();
    let first = Sphere { center: Vector3 { x: 0, y: 0, z: 0 }, radius: seed_radius };
    particles.push(first);

    let cell_raw = fx_mul(params.radius_max, 4 * FX_ONE);
    let cell = if cell_raw < 1 {
        1
    } else {
        cell_raw
    };
    let mut spatial_hash = SpatialHash::new(cell);
    spatial_hash.insert(0, &first);

    let (c0, r0) = split_spheres(&particles);
    let mut cluster_rg = calculate_radius_of_gyration(&c0, &r0);
    let mut rg_evolution: Vec<i64> = Vec::new();
    rg_evolution.push(cluster_rg);
    let mut n_values: Vec<usize> = Vec::new();
    n_values.push(1);
    proof {
        assert(particles@.take(1int) == particles@);
        assert(n_values@ =~= growth_counts_s(particles@.len()));
    }
    cluster_rg = seed_radius;

    let cap: u64 = if n as u64 > 18446744073709551615u64 / 1000 {
        18446744073709551615u64
    } else {
        (n as u64) * 1000
    };
    let mut attempts: u64 = 0;

    while particles.len() < n && attempts < cap
        invariant
            params.valid(),
            n == params.n_particles,
            1 <= particles.len() <= n,
            rg_evolution.len() == particles.len(),
            n_values.len() == particles.len(),
            spatial_hash.csize() > 0,
            forall|k: int|
                0 <= k < particles.len() ==> params.radius_min <= #[trigger] particles@[k].radius
                    <= params.radius_max,
            params.radius_min == params.radius_max ==> forall|k: int|
                0 <= k < particles.len() ==> particles@[k].radius == params.radius_min,
            particles@[0].center == (Vector3 { x: 0i64, y: 0i64, z: 0i64 }),
            n_values@ == growth_counts_s(particles@.len()),
            forall|k: int|
                0 <= k < rg_evolution.len() ==> (#[trigger] rg_evolution@[k]) as int
                    == radius_of_gyration_s(
                    coords_of_s(particles@.take(k + 1)),
                    radii_of_s(particles@.take(k + 1)),
                ),
            forall|k: int|
                1 <= k < particles.len() ==> #[trigger] sintered_snap_s(
                    coords_of_s(particles@),
                    radii_of_s(particles@),
                    k,
                ),
        decreases cap - attempts,
    {
        attempts = attempts + 1;

        let new_radius = params.random_radius(&mut rng);

        let launch_distance = fx_add(
            fx_mul(params.launch_distance_factor, cluster_rg),
            fx_mul(params.radius_max, 5 * FX_ONE),
        );
        let (dx, dy, dz) = random_direction(&mut rng);
        let start_pos = Vector3 {
            x: fx_mul(dx, launch_distance),
            y: fx_mul(dy, launch_distance),
            z: fx_mul(dz, launch_distance),
        };

        // Aim at a slightly jittered point near the origin.
        let (rx, ry, rz) = random_direction(&mut rng);
        let target = Vector3 {
            x: fx_mul(rx, FX_TENTH),
            y: fx_mul(ry, FX_TENTH),
            z: fx_mul(rz, FX_TENTH),
        };
        let direction = target.sub(&start_pos).normalize();

        let step_size = fx_mul(new_radius, FX_HALF);
        let mut pos = start_pos;
        let mut stuck = false;
        let ghost mut contact_j: int = 0;
        let ghost mut contact_w: Vector3 = Vector3 { x: 0, y: 0, z: 0 };
        let ghost mut contact_c: i64 = FX_ONE;
        let mut step: usize = 0;
        while step < params.max_ray_steps && !stuck
            invariant
                params.valid(),
                1 <= particles.len(),
                spatial_hash.csize() > 0,
                params.radius_min <= new_radius <= params.radius_max,
                stuck ==> 0 <= contact_j < particles@.len() && FX_HALF <= contact_c <= FX_ONE
                    && pos == v3_add_s(
                    particles@[contact_j].center,
                    v3_scale_s(
                        v3_normalize_s(contact_w),
                        crate::sintering::sintered_contact_s(
                            new_radius as int,
                            particles@[contact_j].radius as int,
                            contact_c as int,
                        ) as i64 as int,
                    ),
                ),
            decreases params.max_ray_steps - step,
        {
            step = step + 1;
            pos = pos.add(&direction.scale(step_size));

            // Past the cluster: give the particle up (expected attrition).
            if pos.length() > launch_distance {
                break;
            }

            let test_sphere = Sphere { center: pos, radius: new_radius };
            let candidates = spatial_hash.query_potential_collisions(&test_sphere);
            let mut ci: usize = 0;
            while ci < candidates.len() && !stuck
                invariant
                    params.valid(),
                    1 <= particles.len(),
                    ci <= candidates.len(),
                    params.radius_min <= new_radius <= params.radius_max,
                    stuck ==> 0 <= contact_j < particles@.len() && FX_HALF <= contact_c <= FX_ONE
                        && pos == v3_add_s(
                        particles@[contact_j].center,
                        v3_scale_s(
                            v3_normalize_s(contact_w),
                            crate::sintering::sintered_contact_s(
                                new_radius as int,
                                particles@[contact_j].radius as int,
                                contact_c as int,
                            ) as i64 as int,
                        ),
                    ),
                decreases candidates.len() - ci,
            {
                let idx = candidates[ci];
                ci = ci + 1;
                if idx < particles.len() {
                    let other = particles[idx];
                    let dist = pos.distance_to(&other.center);
                    let touch_dist = fx_add(new_radius, other.radius);
                    if dist < touch_dist {
                        let stick = if params.sticking_probability >= FX_ONE {
                            true
                        } else {
                            rng.next_accept(params.sticking_probability)
                        };
                        if stick {
                            // Snap to the sintered contact distance.
                            let coeff = params.sintering.sample(&mut rng);
                            let contact_dist = sintered_contact_distance(
                                new_radius,
                                other.radius,
                                coeff,
                            );
                            let new_direction = pos.sub(&other.center).normalize();
                            proof {
                                contact_j = idx as int;
                                contact_w = v3_sub_s(pos, other.center);
                                contact_c = coeff;
                            }
                            pos = other.center.add(&new_direction.scale(contact_dist));
                            stuck = true;
                        }
                    }
                }
            }
        }

        if stuck && particles.len() < n {
            let new_sphere = Sphere { center: pos, radius: new_radius };
            let idx = particles.len();
            let ghost prev = particles@;
            particles.push(new_sphere);
            spatial_hash.insert(idx, &new_sphere);
            proof {
                lemma_sintered_snap_after_push(prev, new_sphere, contact_j, contact_w, contact_c);
            }

            let (coords, radii) = split_spheres(&particles);
            cluster_rg = calculate_radius_of_gyration(&coords, &radii);
            rg_evolution.push(cluster_rg);
            n_values.push(particles.len());
            proof {
                assert(n_values@ =~= growth_counts_s(particles@.len()));
                assert(particles@.take(particles@.len() as int) == particles@);
                assert forall|k: int|
                    0 <= k < rg_evolution@.len() - 1 implies (#[trigger] rg_evolution@[k]) as int
                    == radius_of_gyration_s(
                    coords_of_s(particles@.take(k + 1)),
                    radii_of_s(particles@.take(k + 1)),
                ) by {
                    assert(particles@.take(k + 1) =~= prev.take(k + 1));
                }
            }
        }
    }

    let (coords, radii) = split_spheres(&particles);
    proof {
        assert forall|k: int|
            0 <= k < rg_evolution@.len() implies (#[trigger] rg_evolution@[k]) as int
            == radius_of_gyration_s(coords@.take(k + 1), radii@.take(k + 1)) by {
            lemma_views_take(particles@, k + 1);
        }
        assert(coords@[0] == (Vector3 { x: 0i64, y: 0i64, z: 0i64 }));
    }
    let fit = calculate_fractal_dimension(&n_values, &rg_evolution);
    let tolerance = fx_mul(seed_radius, FX_TENTH);
    finish_result(coords, radii, rg_evolution, n_values, tolerance, fit, FIT_SPREAD_PC, seed)
}

/// Appending a particle snapped at a sintered contact onto an earlier one
/// keeps every snapped fact and adds the new one.
proof fn lemma_sintered_snap_after_push(
    prev: Seq<Sphere>,
    added: Sphere,
    contact_j: int,
    contact_w: Vector3,
    contact_c: i64,
)
    requires
        prev.len() >= 1,
        0 <= contact_j < prev.len(),
        FX_HALF <= contact_c <= FX_ONE,
        forall|k: int|
            1 <= k < prev.len() ==> #[trigger] sintered_snap_s(
                coords_of_s(prev),
                radii_of_s(prev),
                k,
            ),
        added.center == v3_add_s(
            prev[contact_j].center,
            v3_scale_s(
                v3_normalize_s(contact_w),
                crate::sintering::sintered_contact_s(
                    added.radius as int,
                    prev[contact_j].radius as int,
                    contact_c as int,
                ) as i64 as int,
            ),
        ),
    ensures
        forall|k: int|
            1 <= k < prev.push(added).len() ==> #[trigger] sintered_snap_s(
                coords_of_s(prev.push(added)),
                radii_of_s(prev.push(added)),
                k,
            ),
{
    let all = prev.push(added);
    let cs = coords_of_s(all);
    let rs = radii_of_s(all);
    assert(cs.len() == all.len());
    assert forall|i: int| 0 <= i < prev.len() implies cs[i] == coords_of_s(prev)[i] && rs[i]
        == radii_of_s(prev)[i] by {
        assert(all[i] == prev[i]);
    }
    assert forall|k: int| 1 <= k < all.len() implies #[trigger] sintered_snap_s(cs, rs, k) by {
        if k < prev.len() {
            assert(sintered_snap_s(coords_of_s(prev), radii_of_s(prev), k));
            let (j, w, c) = choose|j: int, w: Vector3, c: i64|
                0 <= j < k && FX_HALF <= c <= FX_ONE && coords_of_s(prev)[k] == #[trigger] v3_add_s(
                    coords_of_s(prev)[j],
                    v3_scale_s(
                        v3_normalize_s(w),
                        crate::sintering::sintered_contact_s(
                            radii_of_s(prev)[k] as int,
                            radii_of_s(prev)[j] as int,
                            c as int,
                        ) as i64 as int,
                    ),
                );
            assert(cs[k] == v3_add_s(
                cs[j],
                v3_scale_s(
                    v3_normalize_s(w),
                    crate::sintering::sintered_contact_s(
                        rs[k] as int,
                        rs[j] as int,
                        c as int,
                    ) as i64 as int,
                ),
            ));
        } else {
            assert(cs[k] == added.center);
            assert(rs[k] == added.radius);
            assert(cs[contact_j] == prev[contact_j].center);
            assert(rs[contact_j] == prev[contact_j].radius);
            assert(cs[k] == v3_add_s(
                cs[contact_j],
                v3_scale_s(
                    v3_normalize_s(contact_w),
                    crate::sintering::sintered_contact_s(
                        rs[k] as int,
                        rs[contact_j] as int,
                        contact_c as int,
                    ) as i64 as int,
                ),
            ));
        }
    }
}

} // verus!
