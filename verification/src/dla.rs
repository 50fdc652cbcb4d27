//! Diffusion-Limited Aggregation (DLA) simulation engine.
//!
//! A single cluster grows one monomer at a time from a seed at the origin:
//! each new particle is launched on a sphere around the cluster, performs an
//! unbiased random walk, is discarded when it strays too far or runs out of
//! steps (expected attrition, silently retried), and on contact snaps to the
//! exact contact distance.

use vstd::prelude::*;
use crate::cluster::{coords_of_s, lemma_views_take, radii_of_s, split_spheres};
use crate::fixed::{fx_add, fx_add_s, fx_mul, FX_ONE};
use crate::geometry::{
    v3_add_s, v3_normalize_s, v3_scale_s, v3_sub_s, Sphere, Vector3,
};
use crate::metrics::{
    calc_fd_s, calculate_fractal_dimension, calculate_radius_of_gyration, growth_counts_s,
    radius_of_gyration_s, FX_TENTH,
};
use crate::result::{finish_result, ParamError, SimulationResult, FIT_SPREAD_PC};
use crate::rng::{create_rng, random_direction};
use crate::sintering::FX_HALF;
use crate::spatial::SpatialHash;

verus! {

/// DLA simulation parameters.
#[derive(Debug, Clone)]
pub struct DlaParams {
    pub n_particles: usize,
    pub sticking_probability: i64,
    pub lattice_size: usize,
    pub seed_radius: i64,
    pub max_walk_steps: usize,
    pub launch_distance_factor: i64,
    pub kill_distance_factor: i64,
}

impl DlaParams {
    /// The parameter ranges a run relies on.
    pub open spec fn valid(self) -> bool {
        &&& self.n_particles >= 1
        &&& self.n_particles < 0x100000000
        &&& 0 <= self.sticking_probability <= FX_ONE
        &&& self.seed_radius > 0
        &&& self.launch_distance_factor > 0
        &&& self.kill_distance_factor > 0
    }

    /// Validate the caller-facing parameters; the remaining fields take
    /// their defaults.  Rejects a zero particle count, a sticking
    /// probability outside `[0, 1]` and a non-positive seed radius, in that
    /// order, and accepts everything else.
    pub fn new(
        n_particles: usize,
        sticking_probability: i64,
        lattice_size: usize,
        seed_radius: i64,
    ) -> (r: Result<DlaParams, ParamError>)
        ensures
            match r {
                Ok(p) => {
                    &&& p.valid()
                    &&& n_particles >= 1
                    &&& n_particles < 0x100000000
                    &&& 0 <= sticking_probability <= FX_ONE
                    &&& seed_radius > 0
                    &&& p == (DlaParams {
                        n_particles,
                        sticking_probability,
                        lattice_size,
                        seed_radius,
                        max_walk_steps: 1000000usize,
                        launch_distance_factor: (2 * FX_ONE) as i64,
                        kill_distance_factor: (3 * FX_ONE) as i64,
                    })
                },
                Err(e) => {
                    &&& (n_particles < 1 || n_particles >= 0x100000000 || sticking_probability < 0
                        || sticking_probability > FX_ONE || seed_radius <= 0)
                    &&& e == (if n_particles < 1 || n_particles >= 0x100000000 {
                        ParamError::InvalidParticleCount
                    } else if sticking_probability < 0 || sticking_probability > FX_ONE {
                        ParamError::InvalidStickingProbability
                    } else {
                        ParamError::InvalidRadius
                    })
                },
            },
    {
        if n_particles < 1 || (n_particles as u64) >= 0x100000000u64 {
            return Err(ParamError::InvalidParticleCount);
        }
        if sticking_probability < 0 || sticking_probability > FX_ONE {
            return Err(ParamError::InvalidStickingProbability);
        }
        if seed_radius <= 0 {
            return Err(ParamError::InvalidRadius);
        }
        Ok(
            DlaParams {
                n_particles,
                sticking_probability,
                lattice_size,
                seed_radius,
                max_walk_steps: 1000000,
                launch_distance_factor: 2 * FX_ONE,
                kill_distance_factor: 3 * FX_ONE,
            },
        )
    }
}

impl Default for DlaParams {
    fn default() -> (r: Self)
        ensures
            r.valid(),
            r.n_particles == 1000,
            r.seed_radius == FX_ONE,
            r.sticking_probability == FX_ONE,
    {
        DlaParams {
            n_particles: 1000,
            sticking_probability: FX_ONE,
            lattice_size: 200,
            seed_radius: FX_ONE,
            max_walk_steps: 1000000,
            launch_distance_factor: 2 * FX_ONE,
            kill_distance_factor: 3 * FX_ONE,
        }
    }
}

/// Particle `k` sits snapped onto an earlier particle `j`: its center lies
/// at the contact distance from `j`'s center, along the normalized
/// direction of some witness vector (the walker's last offset).
pub open spec fn snapped_contact_s(
    coords: Seq<Vector3>,
    radii: Seq<i64>,
    base_radius: int,
    k: int,
) -> bool {
    exists|j: int, w: Vector3|
        0 <= j < k && coords[k] == #[trigger] v3_add_s(
            coords[j],
            v3_scale_s(v3_normalize_s(w), fx_add_s(base_radius, radii[j] as int) as i64 as int),
        )
}

/// Run a DLA simulation.  The result holds between one and `n_particles`
/// particles (attrition under the safety cap may leave fewer); the first
/// particle is the seed at the origin and every later one sits snapped at
/// exact contact distance onto an earlier one; every radius equals the
/// seed radius; the growth history holds, for each prefix of the particle
/// list, exactly that prefix's radius of gyration, and the reported
/// dimension and prefactor are exactly the power-law fit of that history;
/// the remaining descriptors are consistent with the final particle data.
/// The same parameters and seed always reproduce the same result.
pub fn run_dla(params: &DlaParams, seed: u64) -> (r: SimulationResult)
    requires
        params.valid(),
    ensures
        r.seed == seed,
        r.coordinates.len() == r.radii.len(),
        1 <= r.coordinates.len() <= params.n_particles,
        forall|i: int| 0 <= i < r.radii.len() ==> r.radii@[i] == params.seed_radius,
        r.rg_evolution.len() == r.coordinates.len(),
        r.coordinates@[0] == (Vector3 { x: 0i64, y: 0i64, z: 0i64 }),
        forall|k: int|
            0 <= k < r.rg_evolution.len() ==> (#[trigger] r.rg_evolution@[k]) as int
                == radius_of_gyration_s(r.coordinates@.take(k + 1), r.radii@.take(k + 1)),
        forall|k: int|
            1 <= k < r.coordinates.len() ==> #[trigger] snapped_contact_s(
                r.coordinates@,
                r.radii@,
                params.seed_radius as int,
                k,
            ),
        r.n_evolution@ == growth_counts_s(r.coordinates@.len()),
        r.fractal_dimension as int == calc_fd_s(r.n_evolution@, r.rg_evolution@).0,
        r.prefactor as int == calc_fd_s(r.n_evolution@, r.rg_evolution@).1,
        crate::result::result_consistent_s(r, crate::fixed::fx_mul_s(
            params.seed_radius as int,
            FX_TENTH as int,
        )),
{
    let mut rng = create_rng(seed);
    let n = params.n_particles;

    let mut particles: Vec<Sphere> = Vec::new();
    let first = Sphere {
        center: Vector3 { x: 0, y: 0, z: 0 },
        radius: params.seed_radius,
    };
    particles.push(first);

    let cell_raw = fx_mul(params.seed_radius, 4 * FX_ONE);
    let cell = if cell_raw < 1 {
        1
    } else {
        cell_raw
    };
    let mut spatial_hash = SpatialHash::new(cell);
    spatial_hash.insert(0, &first);

    let (c0, r0) = split_spheres(&particles);
    let mut cluster_rg = calculate_radius_of_gyration(&c0, &r0);
    let mut rg_evolution: Vec<i64> = Vec::new();
    rg_evolution.push(cluster_rg);
    let mut n_values: Vec<usize> = Vec::new();
    n_values.push(1);
    proof {
        assert(particles@.take(1int) == particles@);
        assert(n_values@ =~= growth_counts_s(particles@.len()));
    }
    cluster_rg = params.seed_radius;

    let cap: u64 = if n as u64 > 18446744073709551615u64 / 1000 {
        18446744073709551615u64
    } else {
        (n as u64) * 1000
    };
    let mut attempts: u64 = 0;

    while particles.len() < n && attempts < cap
        invariant
            params.valid(),
            n == params.n_particles,
            1 <= particles.len() <= n,
            rg_evolution.len() == particles.len(),
            n_values.len() == particles.len(),
            spatial_hash.csize() > 0,
            forall|k: int|
                0 <= k < particles.len() ==> particles@[k].radius == params.seed_radius,
            particles@[0] == (Sphere {
                center: Vector3 { x: 0i64, y: 0i64, z: 0i64 },
                radius: params.seed_radius,
            }),
            n_values@ == growth_counts_s(particles@.len()),
            forall|k: int|
                0 <= k < rg_evolution.len() ==> (#[trigger] rg_evolution@[k]) as int
                    == radius_of_gyration_s(
                    coords_of_s(particles@.take(k + 1)),
                    radii_of_s(particles@.take(k + 1)),
                ),
            forall|k: int|
                1 <= k < particles.len() ==> #[trigger] snapped_contact_s(
                    coords_of_s(particles@),
                    radii_of_s(particles@),
                    params.seed_radius as int,
                    k,
                ),
        decreases cap - attempts,
    {
        attempts = attempts + 1;

        // Launch on a sphere scaled by the current cluster size.
        let launch_distance = fx_add(
            fx_mul(params.launch_distance_factor, cluster_rg),
            fx_mul(params.seed_radius, 2 * FX_ONE),
        );
        let kill_distance = fx_mul(params.kill_distance_factor, launch_distance);
        let (dx, dy, dz) = random_direction(&mut rng);
        let mut pos = Vector3 {
            x: fx_mul(dx, launch_distance),
            y: fx_mul(dy, launch_distance),
            z: fx_mul(dz, launch_distance),
        };

        // Unbiased random walk until contact, escape, or exhaustion.
        let mut stuck = false;
        let ghost mut contact_j: int = 0;
        let ghost mut contact_w: Vector3 = Vector3 { x: 0, y: 0, z: 0 };
        let mut step: usize = 0;
        while step < params.max_walk_steps && !stuck
            invariant
                params.valid(),
                1 <= particles.len(),
                spatial_hash.csize() > 0,
                stuck ==> 0 <= contact_j < particles@.len() && pos == v3_add_s(
                    particles@[contact_j].center,
                    v3_scale_s(
                        v3_normalize_s(contact_w),
                        fx_add_s(
                            params.seed_radius as int,
                            particles@[contact_j].radius as int,
                        ) as i64 as int,
                    ),
                ),
            decreases params.max_walk_steps - step,
        {
            step = step + 1;
            if pos.length() > kill_distance {
                break;
            }
            let (sx, sy, sz) = random_direction(&mut rng);
            let step_size = fx_mul(params.seed_radius, FX_HALF);
            pos = pos.add(
                &Vector3 {
                    x: fx_mul(sx, step_size),
                    y: fx_mul(sy, step_size),
                    z: fx_mul(sz, step_size),
                },
            );

            let test_sphere = Sphere { center: pos, radius: params.seed_radius };
            let candidates = spatial_hash.query_potential_collisions(&test_sphere);
            let mut ci: usize = 0;
            while ci < candidates.len() && !stuck
                invariant
                    params.valid(),
                    1 <= particles.len(),
                    ci <= candidates.len(),
                    stuck ==> 0 <= contact_j < particles@.len() && pos == v3_add_s(
                        particles@[contact_j].center,
                        v3_scale_s(
                            v3_normalize_s(contact_w),
                            fx_add_s(
                                params.seed_radius as int,
                                particles@[contact_j].radius as int,
                            ) as i64 as int,
                        ),
                    ),
                decreases candidates.len() - ci,
            {
                let idx = candidates[ci];
                ci = ci + 1;
                if idx < particles.len() {
                    let other = particles[idx];
                    let dist = pos.distance_to(&other.center);
                    let contact_dist = fx_add(params.seed_radius, other.radius);
                    if dist < contact_dist {
                        // Collision: test the sticking probability.
                        let stick = if params.sticking_probability >= FX_ONE {
                            true
                        } else {
                            rng.next_accept(params.sticking_probability)
                        };
                        if stick {
                            // Snap to the exact contact distance.
                            let direction = pos.sub(&other.center).normalize();
                            proof {
                                contact_j = idx as int;
                                contact_w = v3_sub_s(pos, other.center);
                            }
                            pos = other.center.add(&direction.scale(contact_dist));
                            stuck = true;
                        }
                    }
                }
            }
        }

        if stuck && particles.len() < n {
            let new_sphere = Sphere { center: pos, radius: params.seed_radius };
            let idx = particles.len();
            let ghost prev = particles@;
            particles.push(new_sphere);
            spatial_hash.insert(idx, &new_sphere);
            proof {
                lemma_snapped_after_push(
                    prev,
                    new_sphere,
                    params.seed_radius as int,
                    contact_j,
                    contact_w,
                );
            }

            let (coords, radii) = split_spheres(&particles);
            cluster_rg = calculate_radius_of_gyration(&coords, &radii);
            rg_evolution.push(cluster_rg);
            n_values.push(particles.len());
            proof {
                assert(n_values@ =~= growth_counts_s(particles@.len()));
                assert(particles@.take(particles@.len() as int) == particles@);
                assert forall|k: int|
                    0 <= k < rg_evolution@.len() - 1 implies (#[trigger] rg_evolution@[k]) as int
                    == radius_of_gyration_s(
                    coords_of_s(particles@.take(k + 1)),
                    radii_of_s(particles@.take(k + 1)),
                ) by {
                    assert(particles@.take(k + 1) =~= prev.take(k + 1));
                }
            }
        }
    }

    let (coords, radii) = split_spheres(&particles);
    proof {
        assert forall|k: int|
            0 <= k < rg_evolution@.len() implies (#[trigger] rg_evolution@[k]) as int
            == radius_of_gyration_s(coords@.take(k + 1), radii@.take(k + 1)) by {
            lemma_views_take(particles@, k + 1);
        }
        assert(coords@[0] == (Vector3 { x: 0i64, y: 0i64, z: 0i64 }));
    }
    let fit = calculate_fractal_dimension(&n_values, &rg_evolution);
    let tolerance = fx_mul(params.seed_radius, FX_TENTH);
    finish_result(coords, radii, rg_evolution, n_values, tolerance, fit, FIT_SPREAD_PC, seed)
}

/// Appending a particle snapped onto an earlier one keeps every snapped
/// fact and adds the new one.
proof fn lemma_snapped_after_push(
    prev: Seq<Sphere>,
    added: Sphere,
    base_radius: int,
    contact_j: int,
    contact_w: Vector3,
)
    requires
        prev.len() >= 1,
        0 <= contact_j < prev.len(),
        forall|k: int|
            1 <= k < prev.len() ==> #[trigger] snapped_contact_s(
                coords_of_s(prev),
                radii_of_s(prev),
                base_radius,
                k,
            ),
        added.center == v3_add_s(
            prev[contact_j].center,
            v3_scale_s(
                v3_normalize_s(contact_w),
                fx_add_s(base_radius, prev[contact_j].radius as int) as i64 as int,
            ),
        ),
    ensures
        forall|k: int|
            1 <= k < prev.push(added).len() ==> #[trigger] snapped_contact_s(
                coords_of_s(prev.push(added)),
                radii_of_s(prev.push(added)),
                base_radius,
                k,
            ),
{
    let all = prev.push(added);
    let cs = coords_of_s(all);
    let rs = radii_of_s(all);
    assert(cs.len() == all.len());
    assert forall|i: int| 0 <= i < prev.len() implies cs[i] == coords_of_s(prev)[i] && rs[i]
        == radii_of_s(prev)[i] by {
        assert(all[i] == prev[i]);
    }
    assert forall|k: int| 1 <= k < all.len() implies #[trigger] snapped_contact_s(
        cs,
        rs,
        base_radius,
        k,
    ) by {
        if k < prev.len() {
            assert(snapped_contact_s(coords_of_s(prev), radii_of_s(prev), base_radius, k));
            let (j, w) = choose|j: int, w: Vector3|
                0 <= j < k && coords_of_s(prev)[k] == #[trigger] v3_add_s(
                    coords_of_s(prev)[j],
                    v3_scale_s(
                        v3_normalize_s(w),
                        fx_add_s(base_radius, radii_of_s(prev)[j] as int) as i64 as int,
                    ),
                );
            assert(cs[k] == v3_add_s(
                cs[j],
                v3_scale_s(
                    v3_normalize_s(w),
                    fx_add_s(base_radius, rs[j] as int) as i64 as int,
                ),
            ));
        } else {
            assert(cs[k] == added.center);
            assert(cs[contact_j] == prev[contact_j].center);
            assert(rs[contact_j] == prev[contact_j].radius);
            assert(cs[k] == v3_add_s(
                cs[contact_j],
                v3_scale_s(
                    v3_normalize_s(contact_w),
                    fx_add_s(base_radius, rs[contact_j] as int) as i64 as int,
                ),
            ));
        }
    }
}

} // verus!
