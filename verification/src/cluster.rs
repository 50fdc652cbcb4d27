//! Cluster entity: a non-empty group of spheres that moves and merges as
//! one, with cached derived properties.
//!
//! The well-formedness invariant `wf` pins every cached field to the exact
//! value derived from the particle list; each mutating operation recomputes
//! them, so a reader never sees a stale cache.

use vstd::prelude::*;
use crate::fixed::{fx_add, fx_add_s, fx_mul, fx_mul_s, fx_sub, fx_sub_s, FX_ONE};
use crate::geometry::{
    v3_add_s, v3_cross_s, v3_dist_s, v3_dot_s, v3_normalize_s, v3_scale_s, v3_sub_s, Sphere,
    Vector3,
};
use crate::metrics::{
    calculate_center_of_gravity, calculate_radius_of_gyration, center_of_gravity_s,
    radius_of_gyration_s, wadd_s, wdiv_s, WIDE_LIMIT,
};

verus! {

/// The centers of a particle list.
pub open spec fn coords_of_s(ps: Seq<Sphere>) -> Seq<Vector3> {
    ps.map_values(|p: Sphere| p.center)
}

/// The radii of a particle list.
pub open spec fn radii_of_s(ps: Seq<Sphere>) -> Seq<i64> {
    ps.map_values(|p: Sphere| p.radius)
}

/// Plain coordinate sum along one axis (wide, saturating).
pub open spec fn sum_axis_s(coords: Seq<Vector3>, axis: int) -> int
    decreases coords.len(),
{
    if coords.len() == 0 {
        0
    } else {
        let c = coords.last();
        let comp: int = if axis == 0 {
            c.x as int
        } else if axis == 1 {
            c.y as int
        } else {
            c.z as int
        };
        wadd_s(sum_axis_s(coords.drop_last(), axis), comp * (FX_ONE as int))
    }
}

/// Unweighted mean of the centers; the origin for an empty list.
pub open spec fn geometric_center_s(coords: Seq<Vector3>) -> Vector3 {
    let den = coords.len() as int;
    Vector3 {
        x: wdiv_s(sum_axis_s(coords, 0), den * (FX_ONE as int)) as i64,
        y: wdiv_s(sum_axis_s(coords, 1), den * (FX_ONE as int)) as i64,
        z: wdiv_s(sum_axis_s(coords, 2), den * (FX_ONE as int)) as i64,
    }
}

/// Largest reach from a point: the maximum over the particles of the
/// distance from the point to the particle's center plus its radius.
pub open spec fn bounding_radius_s(ps: Seq<Sphere>, from: Vector3) -> int
    decreases ps.len(),
{
    if ps.len() == 0 {
        0
    } else {
        let reach = fx_add_s(v3_dist_s(from, ps.last().center), ps.last().radius as int);
        let rest = bounding_radius_s(ps.drop_last(), from);
        if reach > rest {
            reach
        } else {
            rest
        }
    }
}

/// Rodrigues rotation of a vector about a unit axis, given the cosine and
/// sine of the angle:
/// `v cos + (axis x v) sin + axis (axis . v)(1 - cos)`.
pub open spec fn rotate_vec_s(v: Vector3, axis: Vector3, cos_a: int, sin_a: int) -> Vector3 {
    v3_add_s(
        v3_add_s(v3_scale_s(v, cos_a), v3_scale_s(v3_cross_s(axis, v), sin_a)),
        v3_scale_s(axis, fx_mul_s(v3_dot_s(axis, v), fx_sub_s(FX_ONE as int, cos_a))),
    )
}

/// Rotate a vector about an axis by an angle given as cosine and sine.
pub fn rotate_vector(v: &Vector3, axis: &Vector3, cos_a: i64, sin_a: i64) -> (r: Vector3)
    ensures
        r == rotate_vec_s(*v, *axis, cos_a as int, sin_a as int),
{
    let cross = axis.cross(v);
    let dot = axis.dot(v);
    let part = fx_mul(dot, fx_sub(FX_ONE, cos_a));
    v.scale(cos_a).add(&cross.scale(sin_a)).add(&axis.scale(part))
}

/// Split a particle list into its center and radius vectors.
pub fn split_spheres(particles: &Vec<Sphere>) -> (r: (Vec<Vector3>, Vec<i64>))
    ensures
        r.0@ == coords_of_s(particles@),
        r.1@ == radii_of_s(particles@),
        r.0.len() == particles.len(),
        r.1.len() == particles.len(),
{
    let n = particles.len();
    let mut coords: Vec<Vector3> = Vec::new();
    let mut radii: Vec<i64> = Vec::new();
    let mut i: usize = 0;
    while i < n
        invariant
            n == particles.len(),
            i <= n,
            coords.len() == i,
            radii.len() == i,
            forall|k: int|
                0 <= k < i ==> coords@[k] == particles@[k].center && radii@[k]
                    == particles@[k].radius,
        decreases n - i,
    {
        let p = particles[i];
        coords.push(p.center);
        radii.push(p.radius);
        i = i + 1;
    }
    proof {
        assert(coords@ =~= coords_of_s(particles@));
        assert(radii@ =~= radii_of_s(particles@));
    }
    (coords, radii)
}

/// A cluster: particles plus cached center of mass, geometric center,
/// bounding radius (from the center of mass) and radius of gyration.
#[derive(Debug, Clone)]
pub struct Cluster {
    pub particles: Vec<Sphere>,
    pub center_of_mass: Vector3,
    pub geometric_center: Vector3,
    pub bounding_radius: i64,
    pub radius_of_gyration: i64,
}

impl Cluster {
    /// The cached fields agree exactly with the particle list, which is
    /// non-empty.
    pub open spec fn wf(self) -> bool {
        &&& self.particles.len() > 0
        &&& self.center_of_mass == center_of_gravity_s(
            coords_of_s(self.particles@),
            radii_of_s(self.particles@),
        )
        &&& self.geometric_center == geometric_center_s(coords_of_s(self.particles@))
        &&& self.bounding_radius as int == bounding_radius_s(self.particles@, self.center_of_mass)
        &&& self.radius_of_gyration as int == radius_of_gyration_s(
            coords_of_s(self.particles@),
            radii_of_s(self.particles@),
        )
        &&& self.radius_of_gyration >= 0
    }

    /// Number of particles in the cluster.
    pub fn n_particles(&self) -> (r: usize)
        ensures
            r == self.particles.len(),
    {
        self.particles.len()
    }

    /// Recompute every cached field from the particle list.
    fn update_properties(&mut self)
        requires
            old(self).particles.len() > 0,
        ensures
            final(self).wf(),
            final(self).particles == old(self).particles,
    {
        let n = self.particles.len();
        let mut coords: Vec<Vector3> = Vec::new();
        let mut radii: Vec<i64> = Vec::new();
        let mut i: usize = 0;
        while i < n
            invariant
                n == self.particles.len(),
                i <= n,
                coords.len() == i,
                radii.len() == i,
                forall|k: int|
                    0 <= k < i ==> coords@[k] == self.particles@[k].center && radii@[k]
                        == self.particles@[k].radius,
            decreases n - i,
        {
            let p = self.particles[i];
            coords.push(p.center);
            radii.push(p.radius);
            i = i + 1;
        }
        proof {
            assert(coords@ =~= coords_of_s(self.particles@));
            assert(radii@ =~= radii_of_s(self.particles@));
        }
        let com = calculate_center_of_gravity(&coords, &radii);
        let rg = calculate_radius_of_gyration(&coords, &radii);

        // Geometric center: wide sums of the raw coordinates.
        let mut sx: i128 = 0;
        let mut sy: i128 = 0;
        let mut sz: i128 = 0;
        let mut j: usize = 0;
        while j < n
            invariant
                n == coords.len(),
                j <= n,
                -WIDE_LIMIT <= sx <= WIDE_LIMIT,
                -WIDE_LIMIT <= sy <= WIDE_LIMIT,
                -WIDE_LIMIT <= sz <= WIDE_LIMIT,
                sx as int == sum_axis_s(coords@.take(j as int), 0),
                sy as int == sum_axis_s(coords@.take(j as int), 1),
                sz as int == sum_axis_s(coords@.take(j as int), 2),
            decreases n - j,
        {
            proof {
                assert(coords@.take(j + 1).drop_last() == coords@.take(j as int));
            }
            let c = coords[j];
            sx = crate::metrics::wadd(sx, crate::metrics::wmul(c.x, FX_ONE));
            sy = crate::metrics::wadd(sy, crate::metrics::wmul(c.y, FX_ONE));
            sz = crate::metrics::wadd(sz, crate::metrics::wmul(c.z, FX_ONE));
            j = j + 1;
        }
        proof {
            assert(coords@.take(n as int) == coords@);
        }
        let den = crate::metrics::wide_count_scaled(n);
        let gc = Vector3 {
            x: crate::metrics::wdiv(sx, den),
            y: crate::metrics::wdiv(sy, den),
            z: crate::metrics::wdiv(sz, den),
        };

        // Bounding radius from the center of mass.
        let mut br: i64 = 0;
        let mut k: usize = 0;
        while k < n
            invariant
                n == self.particles.len(),
                k <= n,
                br as int == bounding_radius_s(self.particles@.take(k as int), com),
            decreases n - k,
        {
            proof {
                assert(self.particles@.take(k + 1).drop_last() == self.particles@.take(k as int));
            }
            let p = self.particles[k];
            let reach = fx_add(com.distance_to(&p.center), p.radius);
            if reach > br {
                br = reach;
            }
            k = k + 1;
        }
        proof {
            assert(self.particles@.take(n as int) == self.particles@);
        }
        self.center_of_mass = com;
        self.geometric_center = gc;
        self.bounding_radius = br;
        self.radius_of_gyration = rg;
    }

    /// Create a cluster from a single particle (monomer).
    pub fn new(sphere: Sphere) -> (r: Self)
        ensures
            r.wf(),
            r.particles@ == seq![sphere],
    {
        let mut particles: Vec<Sphere> = Vec::new();
        particles.push(sphere);
        let mut c = Cluster {
            particles,
            center_of_mass: Vector3 { x: 0, y: 0, z: 0 },
            geometric_center: Vector3 { x: 0, y: 0, z: 0 },
            bounding_radius: 0,
            radius_of_gyration: 0,
        };
        c.update_properties();
        proof {
            assert(c.particles@ =~= seq![sphere]);
        }
        c
    }

    /// Create a cluster from a non-empty particle list.
    pub fn from_particles(particles: Vec<Sphere>) -> (r: Self)
        requires
            particles.len() > 0,
        ensures
            r.wf(),
            r.particles == particles,
    {
        let mut c = Cluster {
            particles,
            center_of_mass: Vector3 { x: 0, y: 0, z: 0 },
            geometric_center: Vector3 { x: 0, y: 0, z: 0 },
            bounding_radius: 0,
            radius_of_gyration: 0,
        };
        c.update_properties();
        c
    }

    /// Translate every particle by a vector; the caches follow.
    pub fn translate(&mut self, delta: Vector3)
        requires
            old(self).wf(),
        ensures
            final(self).wf(),
            final(self).particles.len() == old(self).particles.len(),
            forall|k: int|
                0 <= k < old(self).particles.len() ==> final(self).particles@[k] == (Sphere {
                    center: v3_add_s(old(self).particles@[k].center, delta),
                    radius: old(self).particles@[k].radius,
                }),
    {
        let n = self.particles.len();
        let mut i: usize = 0;
        while i < n
            invariant
                n == self.particles.len(),
                i <= n,
                forall|k: int|
                    i <= k < n ==> self.particles@[k] == old(self).particles@[k],
                forall|k: int|
                    0 <= k < i ==> self.particles@[k] == (Sphere {
                        center: v3_add_s(old(self).particles@[k].center, delta),
                        radius: old(self).particles@[k].radius,
                    }),
            decreases n - i,
        {
            let p = self.particles[i];
            let moved = Sphere { center: p.center.add(&delta), radius: p.radius };
            self.particles.set(i, moved);
            i = i + 1;
        }
        self.update_properties();
    }

    /// Rotate every particle about an axis through a pivot point, the angle
    /// given as cosine and sine; the caches follow.
    pub fn rotate_around_axis(&mut self, axis: Vector3, cos_a: i64, sin_a: i64, pivot: Vector3)
        requires
            old(self).wf(),
        ensures
            final(self).wf(),
            final(self).particles.len() == old(self).particles.len(),
            forall|k: int|
                0 <= k < old(self).particles.len() ==> final(self).particles@[k] == (Sphere {
                    center: v3_add_s(
                        rotate_vec_s(
                            v3_sub_s(old(self).particles@[k].center, pivot),
                            v3_normalize_s(axis),
                            cos_a as int,
                            sin_a as int,
                        ),
                        pivot,
                    ),
                    radius: old(self).particles@[k].radius,
                }),
    {
        let unit = axis.normalize();
        let n = self.particles.len();
        let mut i: usize = 0;
        while i < n
            invariant
                n == self.particles.len(),
                i <= n,
                unit == v3_normalize_s(axis),
                forall|k: int|
                    i <= k < n ==> self.particles@[k] == old(self).particles@[k],
                forall|k: int|
                    0 <= k < i ==> self.particles@[k] == (Sphere {
                        center: v3_add_s(
                            rotate_vec_s(
                                v3_sub_s(old(self).particles@[k].center, pivot),
                                v3_normalize_s(axis),
                                cos_a as int,
                                sin_a as int,
                            ),
                            pivot,
                        ),
                        radius: old(self).particles@[k].radius,
                    }),
            decreases n - i,
        {
            let p = self.particles[i];
            let rel = p.center.sub(&pivot);
            let rot = rotate_vector(&rel, &unit, cos_a, sin_a);
            let moved = Sphere { center: rot.add(&pivot), radius: p.radius };
            self.particles.set(i, moved);
            i = i + 1;
        }
        self.update_properties();
    }

    /// Merge another cluster into this one: its particles are appended to
    /// this cluster's list, and the caches follow.
    pub fn merge_with(&mut self, other: Cluster)
        requires
            old(self).wf(),
            other.wf(),
        ensures
            final(self).wf(),
            final(self).particles@ == old(self).particles@ + other.particles@,
    {
        let n = other.particles.len();
        let mut i: usize = 0;
        while i < n
            invariant
                n == other.particles.len(),
                i <= n,
                self.particles@ == old(self).particles@ + other.particles@.take(i as int),
            decreases n - i,
        {
            proof {
                assert(other.particles@.take(i + 1) == other.particles@.take(i as int).push(
                    other.particles@[i as int],
                ));
            }
            let p = other.particles[i];
            self.particles.push(p);
            proof {
                assert(self.particles@ == old(self).particles@ + other.particles@.take(i + 1));
            }
            i = i + 1;
        }
        proof {
            assert(other.particles@.take(n as int) == other.particles@);
        }
        self.update_properties();
    }
}

} // verus!

verus! {

/// Every radius of a particle list lies within the closed range.
pub open spec fn radii_in_range_s(ps: Seq<Sphere>, lo: int, hi: int) -> bool {
    forall|p: int| 0 <= p < ps.len() ==> lo <= (#[trigger] ps[p].radius as int) <= hi
}

/// Every radius of a particle list equals one value.
pub open spec fn radii_all_equal_s(ps: Seq<Sphere>, v: int) -> bool {
    forall|p: int| 0 <= p < ps.len() ==> (#[trigger] ps[p].radius as int) == v
}

/// Total particle count over a pool of clusters.
pub open spec fn pool_count_s(cs: Seq<Cluster>) -> int
    decreases cs.len(),
{
    if cs.len() == 0 {
        0
    } else {
        pool_count_s(cs.drop_last()) + cs.last().particles@.len()
    }
}

/// Removing one cluster lowers the pool count by its size.
pub proof fn lemma_pool_count_remove(cs: Seq<Cluster>, i: int)
    requires
        0 <= i < cs.len(),
    ensures
        pool_count_s(cs.remove(i)) == pool_count_s(cs) - cs[i].particles@.len(),
    decreases cs.len(),
{
    if i == cs.len() - 1 {
        assert(cs.remove(i) =~= cs.drop_last());
    } else {
        lemma_pool_count_remove(cs.drop_last(), i);
        assert(cs.remove(i).drop_last() =~= cs.drop_last().remove(i));
        assert(cs.remove(i).last() == cs.last());
    }
}

/// One member's size is at most the pool count.
pub proof fn lemma_pool_count_member(cs: Seq<Cluster>, i: int)
    requires
        0 <= i < cs.len(),
    ensures
        cs[i].particles@.len() <= pool_count_s(cs),
    decreases cs.len(),
{
    if i == cs.len() - 1 {
        lemma_pool_count_nonneg(cs.drop_last());
    } else {
        lemma_pool_count_member(cs.drop_last(), i);
    }
}

/// A pool count is never negative.
pub proof fn lemma_pool_count_nonneg(cs: Seq<Cluster>)
    ensures
        pool_count_s(cs) >= 0,
    decreases cs.len(),
{
    if cs.len() > 0 {
        lemma_pool_count_nonneg(cs.drop_last());
    }
}

/// Appending one cluster raises the pool count by its size.
pub proof fn lemma_pool_count_push(cs: Seq<Cluster>, c: Cluster)
    ensures
        pool_count_s(cs.push(c)) == pool_count_s(cs) + c.particles@.len(),
{
    assert(cs.push(c).drop_last() =~= cs);
    assert(cs.push(c).last() == c);
}

/// Replacing one cluster adjusts the pool count by the size difference.
pub proof fn lemma_pool_count_update(cs: Seq<Cluster>, i: int, c: Cluster)
    requires
        0 <= i < cs.len(),
    ensures
        pool_count_s(cs.update(i, c)) == pool_count_s(cs) - cs[i].particles@.len()
            + c.particles@.len(),
    decreases cs.len(),
{
    if i == cs.len() - 1 {
        assert(cs.update(i, c).drop_last() =~= cs.drop_last());
        assert(cs.update(i, c).last() == c);
    } else {
        lemma_pool_count_update(cs.drop_last(), i, c);
        assert(cs.update(i, c).drop_last() =~= cs.drop_last().update(i, c));
        assert(cs.update(i, c).last() == cs.last());
    }
}

impl Cluster {
    /// An exact copy: every field agrees with the source cluster.
    pub fn duplicate(&self) -> (r: Cluster)
        ensures
            r.particles@ == self.particles@,
            r.center_of_mass == self.center_of_mass,
            r.geometric_center == self.geometric_center,
            r.bounding_radius == self.bounding_radius,
            r.radius_of_gyration == self.radius_of_gyration,
    {
        let n = self.particles.len();
        let mut ps: Vec<Sphere> = Vec::new();
        let mut i: usize = 0;
        while i < n
            invariant
                n == self.particles.len(),
                i <= n,
                ps@ == self.particles@.take(i as int),
            decreases n - i,
        {
            proof {
                assert(self.particles@.take(i + 1) == self.particles@.take(i as int).push(
                    self.particles@[i as int],
                ));
            }
            ps.push(self.particles[i]);
            i = i + 1;
        }
        proof {
            assert(self.particles@.take(n as int) == self.particles@);
        }
        Cluster {
            particles: ps,
            center_of_mass: self.center_of_mass,
            geometric_center: self.geometric_center,
            bounding_radius: self.bounding_radius,
            radius_of_gyration: self.radius_of_gyration,
        }
    }
}

} // verus!

verus! {

/// Taking a prefix commutes with splitting a particle list into views.
pub proof fn lemma_views_take(ps: Seq<Sphere>, m: int)
    requires
        0 <= m <= ps.len(),
    ensures
        coords_of_s(ps.take(m)) == coords_of_s(ps).take(m),
        radii_of_s(ps.take(m)) == radii_of_s(ps).take(m),
{
    assert(coords_of_s(ps.take(m)) =~= coords_of_s(ps).take(m));
    assert(radii_of_s(ps.take(m)) =~= radii_of_s(ps).take(m));
}

} // verus!
