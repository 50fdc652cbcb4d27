//! Spatial data structures for efficient collision detection.

use vstd::prelude::*;
use std::collections::HashMap;
use crate::geometry::{Sphere, Vector3};

verus! {

broadcast use vstd::std_specs::hash::group_hash_axioms;

/// Cell coordinate of one axis: the floor of `c / cs`, clamped into the 21
/// bits that the packed key can hold.
pub open spec fn cell_coord_s(c: int, cs: int) -> int {
    let q = c / cs;
    if q < -1048576 {
        -1048576
    } else if q > 1048575 {
        1048575
    } else {
        q
    }
}

/// Packed cell key: each axis coordinate offset into `[0, 2^21)` and the
/// three fields concatenated.
pub open spec fn pack_key_s(cx: int, cy: int, cz: int) -> u64 {
    ((cx + 1048576) * 0x40000000000 + (cy + 1048576) * 0x200000 + (cz + 1048576)) as u64
}

/// Key of the cell holding a point, for a given cell size.
pub open spec fn cell_key_s(p: Vector3, cs: int) -> u64 {
    pack_key_s(cell_coord_s(p.x as int, cs), cell_coord_s(p.y as int, cs), cell_coord_s(
        p.z as int,
        cs,
    ))
}

/// Key of the `e`-th cell (of 27) in the 3x3x3 neighborhood around the cell
/// holding a point: the offsets on the three axes are the base-3 digits of
/// `e`, shifted to `{-1, 0, 1}`, each axis clamped again.
pub open spec fn neighbor_key_s(p: Vector3, cs: int, e: int) -> u64 {
    let cx = cell_coord_s(p.x as int, cs) + e / 9 - 1;
    let cy = cell_coord_s(p.y as int, cs) + (e / 3) % 3 - 1;
    let cz = cell_coord_s(p.z as int, cs) + e % 3 - 1;
    pack_key_s(clamp21_s(cx), clamp21_s(cy), clamp21_s(cz))
}

/// Clamp into the packable coordinate range.
pub open spec fn clamp21_s(c: int) -> int {
    if c < -1048576 {
        -1048576
    } else if c > 1048575 {
        1048575
    } else {
        c
    }
}

/// An index is reachable from a query point: some cell of the 3x3x3
/// neighborhood holds it.
pub open spec fn in_neighborhood_s(
    m: Map<u64, Vec<usize>>,
    p: Vector3,
    cs: int,
    idx: usize,
) -> bool {
    exists|e: int|
        0 <= e < 27 && m.contains_key(#[trigger] neighbor_key_s(p, cs, e)) && m[neighbor_key_s(
            p,
            cs,
            e,
        )]@.contains(idx)
}

/// The sequence without any occurrence of `x`, kept in order.
pub open spec fn without_s(s: Seq<usize>, x: usize) -> Seq<usize>
    decreases s.len(),
{
    if s.len() == 0 {
        Seq::empty()
    } else {
        let rest = without_s(s.drop_last(), x);
        if s.last() == x {
            rest
        } else {
            rest.push(s.last())
        }
    }
}

/// Floor division by a positive divisor.
fn floor_div(a: i64, b: i64) -> (r: i64)
    requires
        b > 0,
    ensures
        r as int == (a as int) / (b as int),
{
    if a >= 0 {
        let q: u64 = (a as u64) / (b as u64);
        proof {
            assert((a as u64) / (b as u64) == (a as int) / (b as int)) by (nonlinear_arith)
                requires a >= 0 && b > 0;
            assert((a as int) / (b as int) <= a as int) by (nonlinear_arith)
                requires a >= 0 && b > 0;
        }
        q as i64
    } else {
        let ma: u128 = (-(a as i128)) as u128;
        let q: u128 = (ma + (b as u128) - 1) / (b as u128);
        proof {
            assert((q as int) * (b as int) >= ma as int && ((q as int) - 1) * (b as int) < ma as int
                && q as int <= ma as int) by (nonlinear_arith)
                requires
                    q as int == (ma as int + b as int - 1) / (b as int),
                    ma >= 1,
                    b > 0;
            assert((a as int) / (b as int) == -(q as int)) by (nonlinear_arith)
                requires
                    (q as int) * (b as int) >= -(a as int),
                    ((q as int) - 1) * (b as int) < -(a as int),
                    b > 0;
        }
        let w: i128 = -(q as i128);
        w as i64
    }
}

/// One axis of the packed key.
fn cell_coord(c: i64, cs: i64) -> (r: i64)
    requires
        cs > 0,
    ensures
        r as int == cell_coord_s(c as int, cs as int),
        -1048576 <= r <= 1048575,
{
    let q = floor_div(c, cs);
    if q < -1048576 {
        -1048576
    } else if q > 1048575 {
        1048575
    } else {
        q
    }
}

/// Packed key from clamped axis coordinates.
fn pack_key(cx: i64, cy: i64, cz: i64) -> (r: u64)
    requires
        -1048576 <= cx <= 1048575,
        -1048576 <= cy <= 1048575,
        -1048576 <= cz <= 1048575,
    ensures
        r == pack_key_s(cx as int, cy as int, cz as int),
{
    let ox: u64 = (cx + 1048576) as u64;
    let oy: u64 = (cy + 1048576) as u64;
    let oz: u64 = (cz + 1048576) as u64;
    ox * 0x40000000000 + oy * 0x200000 + oz
}

/// Spatial hash grid for collision candidate queries: a map from packed
/// cell keys to the indices whose insertion position fell in that cell.
pub struct SpatialHash {
    cell_size: i64,
    cells: HashMap<u64, Vec<usize>>,
}

impl View for SpatialHash {
    type V = Map<u64, Vec<usize>>;

    closed spec fn view(&self) -> Map<u64, Vec<usize>> {
        self.cells@
    }
}

impl SpatialHash {
    /// The grid's cell size.
    pub closed spec fn csize(&self) -> int {
        self.cell_size as int
    }

    pub fn new(cell_size: i64) -> (r: Self)
        requires
            cell_size > 0,
        ensures
            r.csize() == cell_size as int,
            r@ == Map::<u64, Vec<usize>>::empty(),
    {
        SpatialHash { cell_size, cells: HashMap::new() }
    }

    /// Key of the cell holding a sphere's center.
    fn key_of(&self, p: &Vector3) -> (r: u64)
        requires
            self.csize() > 0,
        ensures
            r == cell_key_s(*p, self.csize()),
    {
        let cx = cell_coord(p.x, self.cell_size);
        let cy = cell_coord(p.y, self.cell_size);
        let cz = cell_coord(p.z, self.cell_size);
        pack_key(cx, cy, cz)
    }

    /// Insert an index under the cell of the sphere's center: that cell's
    /// list gains the index at its end, and no other cell changes.
    pub fn insert(&mut self, index: usize, sphere: &Sphere)
        requires
            old(self).csize() > 0,
        ensures
            final(self).csize() == old(self).csize(),
            ({
                let k = cell_key_s(sphere.center, old(self).csize());
                let prior: Seq<usize> = if old(self)@.contains_key(k) {
                    old(self)@[k]@
                } else {
                    Seq::empty()
                };
                &&& final(self)@.contains_key(k)
                &&& final(self)@[k]@ == prior.push(index)
                &&& forall|k2: u64|
                    k2 != k ==> (final(self)@.contains_key(k2) == old(self)@.contains_key(k2)) && (
                    old(self)@.contains_key(k2) ==> final(self)@[k2] == old(self)@[k2])
            }),
    {
        let k = self.key_of(&sphere.center);
        let mut entry: Vec<usize> = match self.cells.remove(&k) {
            Some(v) => v,
            None => Vec::new(),
        };
        entry.push(index);
        self.cells.insert(k, entry);
    }

    /// Remove an index from the cell derived from the given sphere (the
    /// position it was inserted under): every occurrence of the index leaves
    /// that cell's list, order kept, and no other cell changes.
    pub fn remove(&mut self, index: usize, sphere: &Sphere)
        requires
            old(self).csize() > 0,
        ensures
            final(self).csize() == old(self).csize(),
            ({
                let k = cell_key_s(sphere.center, old(self).csize());
                &&& (old(self)@.contains_key(k) ==> final(self)@.contains_key(k) && final(self)@[k]@
                    == without_s(old(self)@[k]@, index))
                &&& (!old(self)@.contains_key(k) ==> final(self)@ == old(self)@)
                &&& forall|k2: u64|
                    k2 != k ==> (final(self)@.contains_key(k2) == old(self)@.contains_key(k2)) && (
                    old(self)@.contains_key(k2) ==> final(self)@[k2] == old(self)@[k2])
            }),
    {
        let k = self.key_of(&sphere.center);
        match self.cells.remove(&k) {
            Some(v) => {
                let n = v.len();
                let mut kept: Vec<usize> = Vec::new();
                let mut j: usize = 0;
                while j < n
                    invariant
                        n == v.len(),
                        j <= n,
                        kept@ == without_s(v@.take(j as int), index),
                    decreases n - j,
                {
                    proof {
                        assert(v@.take(j + 1).drop_last() == v@.take(j as int));
                        assert(v@.take(j + 1).last() == v@[j as int]);
                    }
                    let item = v[j];
                    if item != index {
                        kept.push(item);
                    }
                    j = j + 1;
                }
                proof {
                    assert(v@.take(n as int) == v@);
                }
                self.cells.insert(k, kept);
            },
            None => {},
        }
    }

    /// Collect the indices held by the 3x3x3 cell neighborhood around the
    /// sphere's center: an index is returned exactly when some neighborhood
    /// cell holds it (a superset of the true colliders; exact distance
    /// checks are the caller's).
    pub fn query_potential_collisions(&self, sphere: &Sphere) -> (r: Vec<usize>)
        requires
            self.csize() > 0,
        ensures
            forall|idx: usize|
                r@.contains(idx) <==> in_neighborhood_s(self@, sphere.center, self.csize(), idx),
    {
        let mut result: Vec<usize> = Vec::new();
        let cx = cell_coord(sphere.center.x, self.cell_size);
        let cy = cell_coord(sphere.center.y, self.cell_size);
        let cz = cell_coord(sphere.center.z, self.cell_size);
        let mut e: usize = 0;
        while e < 27
        invariant
            e <= 27,
            self.csize() > 0,
            cx as int == cell_coord_s(sphere.center.x as int, self.csize()),
            cy as int == cell_coord_s(sphere.center.y as int, self.csize()),
            cz as int == cell_coord_s(sphere.center.z as int, self.csize()),
            -1048576 <= cx <= 1048575,
            -1048576 <= cy <= 1048575,
            -1048576 <= cz <= 1048575,
            forall|idx: usize|
                result@.contains(idx) ==> in_neighborhood_s(
                    self@,
                    sphere.center,
                    self.csize(),
                    idx,
                ),
            forall|f: int, idx: usize|
                0 <= f < e && self@.contains_key(neighbor_key_s(sphere.center, self.csize(), f))
                    && #[trigger] self@[neighbor_key_s(sphere.center, self.csize(), f)]@.contains(
                    idx,
                ) ==> result@.contains(idx),
        decreases 27 - e,
        {
            let dx: i64 = (e as i64) / 9 - 1;
            let dy: i64 = ((e as i64) / 3) % 3 - 1;
            let dz: i64 = (e as i64) % 3 - 1;
            let nx = clamp21(cx + dx);
            let ny = clamp21(cy + dy);
            let nz = clamp21(cz + dz);
            let key = pack_key(nx, ny, nz);
            proof {
                assert(key == neighbor_key_s(sphere.center, self.csize(), e as int));
            }
            match self.cells.get(&key) {
                Some(v) => {
                    let m = v.len();
                    let mut j: usize = 0;
                    while j < m
                        invariant
                            m == v.len(),
                            j <= m,
                            self@.contains_key(key),
                            self@[key] == *v,
                            key == neighbor_key_s(sphere.center, self.csize(), e as int),
                            0 <= e < 27,
                            self.csize() > 0,
                            forall|idx: usize|
                                result@.contains(idx) ==> in_neighborhood_s(
                                    self@,
                                    sphere.center,
                                    self.csize(),
                                    idx,
                                ),
                            forall|f: int, idx: usize|
                                0 <= f < e && self@.contains_key(neighbor_key_s(
                                    sphere.center,
                                    self.csize(),
                                    f,
                                ))
                                    && #[trigger] self@[neighbor_key_s(
                                    sphere.center,
                                    self.csize(),
                                    f,
                                )]@.contains(idx) ==> result@.contains(idx),
                            forall|g: int| 0 <= g < j ==> result@.contains(#[trigger] v@[g]),
                        decreases m - j,
                    {
                        let item = v[j];
                        let ghost before = result@;
                        result.push(item);
                        proof {
                            assert(self@[key]@.contains(item)) by {
                                assert(self@[key]@[j as int] == item);
                            }
                            assert(in_neighborhood_s(self@, sphere.center, self.csize(), item)) by {
                                assert(self@.contains_key(neighbor_key_s(
                                    sphere.center,
                                    self.csize(),
                                    e as int,
                                )));
                            }
                            assert forall|idx: usize| before.contains(idx) implies result@.contains(
                                idx,
                            ) by {
                                let g = choose|g: int| 0 <= g < before.len() && before[g] == idx;
                                assert(result@[g] == idx);
                            }
                            assert forall|idx: usize| result@.contains(idx) implies before.contains(
                                idx,
                            ) || idx == item by {
                                let g = choose|g: int|
                                    0 <= g < result@.len() && result@[g] == idx;
                                if g < before.len() {
                                    assert(before[g] == idx);
                                }
                            }
                            assert forall|g: int| 0 <= g < j + 1 implies result@.contains(
                                #[trigger] v@[g],
                            ) by {
                                if g < j {
                                    assert(before.contains(v@[g]));
                                } else {
                                    assert(result@.last() == item);
                                    assert(result@.contains(item));
                                }
                            }
                            assert forall|idx: usize| result@.contains(idx) implies
                                in_neighborhood_s(self@, sphere.center, self.csize(), idx) by {
                                if before.contains(idx) {
                                } else {
                                    assert(idx == item);
                                }
                            }
                        }
                        j = j + 1;
                    }
                    proof {
                        assert(forall|idx: usize|
                            self@[key]@.contains(idx) ==> result@.contains(idx));
                    }
                },
                None => {},
            }
            e = e + 1;
        }
        result
    }

    /// Drop every entry.
    pub fn clear(&mut self)
        ensures
            final(self).csize() == old(self).csize(),
            final(self)@ == Map::<u64, Vec<usize>>::empty(),
    {
        self.cells.clear();
    }
}

/// Clamp into the packable coordinate range.
fn clamp21(c: i64) -> (r: i64)
    ensures
        r as int == clamp21_s(c as int),
        -1048576 <= r <= 1048575,
{
    if c < -1048576 {
        -1048576
    } else if c > 1048575 {
        1048575
    } else {
        c
    }
}

} // verus!
