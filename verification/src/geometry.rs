//! Geometric primitives for 3D operations, over fixed-point coordinates.

use vstd::prelude::*;
use crate::fixed::{
    abs_s, fx_add, fx_add_s, fx_clip_s, fx_div, fx_div_s, fx_mul, fx_mul_s, fx_sub, fx_sub_s,
    isqrt_s, isqrt_u128, lemma_isqrt_s_correct, FX_ONE,
};

verus! {

/// 3D vector with basic operations.  Coordinates are fixed-point values.
#[derive(Debug, Clone, Copy, PartialEq, Eq, Structural)]
pub struct Vector3 {
    pub x: i64,
    pub y: i64,
    pub z: i64,
}

/// Componentwise saturating sum.
pub open spec fn v3_add_s(a: Vector3, b: Vector3) -> Vector3 {
    Vector3 {
        x: fx_add_s(a.x as int, b.x as int) as i64,
        y: fx_add_s(a.y as int, b.y as int) as i64,
        z: fx_add_s(a.z as int, b.z as int) as i64,
    }
}

/// Componentwise saturating difference.
pub open spec fn v3_sub_s(a: Vector3, b: Vector3) -> Vector3 {
    Vector3 {
        x: fx_sub_s(a.x as int, b.x as int) as i64,
        y: fx_sub_s(a.y as int, b.y as int) as i64,
        z: fx_sub_s(a.z as int, b.z as int) as i64,
    }
}

/// Componentwise product with a fixed-point scalar.
pub open spec fn v3_scale_s(a: Vector3, s: int) -> Vector3 {
    Vector3 {
        x: fx_mul_s(a.x as int, s) as i64,
        y: fx_mul_s(a.y as int, s) as i64,
        z: fx_mul_s(a.z as int, s) as i64,
    }
}

/// Fixed-point dot product, saturating at every step.
pub open spec fn v3_dot_s(a: Vector3, b: Vector3) -> int {
    fx_add_s(
        fx_add_s(fx_mul_s(a.x as int, b.x as int), fx_mul_s(a.y as int, b.y as int)),
        fx_mul_s(a.z as int, b.z as int),
    )
}

/// Exact sum of squared components, in squared fixed-point units
/// (no division by `FX_ONE`, no saturation).
pub open spec fn v3_norm2_raw_s(a: Vector3) -> int {
    (a.x as int) * (a.x as int) + (a.y as int) * (a.y as int) + (a.z as int) * (a.z as int)
}

/// Euclidean length: the integer square root of the exact sum of squares,
/// saturated into `i64`.
pub open spec fn v3_len_s(a: Vector3) -> int {
    fx_clip_s(isqrt_s(v3_norm2_raw_s(a)))
}

/// Distance between two points: length of their saturating difference.
pub open spec fn v3_dist_s(a: Vector3, b: Vector3) -> int {
    v3_len_s(v3_sub_s(a, b))
}

/// Componentwise quotient by a fixed-point scalar.
pub open spec fn v3_normalize_s(a: Vector3) -> Vector3 {
    let len = v3_len_s(a);
    if len <= 0 {
        Vector3 { x: 0, y: 0, z: 0 }
    } else {
        Vector3 {
            x: fx_div_s(a.x as int, len) as i64,
            y: fx_div_s(a.y as int, len) as i64,
            z: fx_div_s(a.z as int, len) as i64,
        }
    }
}

/// Cross product, saturating at every step.
pub open spec fn v3_cross_s(a: Vector3, b: Vector3) -> Vector3 {
    Vector3 {
        x: fx_sub_s(fx_mul_s(a.y as int, b.z as int), fx_mul_s(a.z as int, b.y as int)) as i64,
        y: fx_sub_s(fx_mul_s(a.z as int, b.x as int), fx_mul_s(a.x as int, b.z as int)) as i64,
        z: fx_sub_s(fx_mul_s(a.x as int, b.y as int), fx_mul_s(a.y as int, b.x as int)) as i64,
    }
}

/// Exact squared magnitude of an `i64`, as an unsigned wide value.
fn sq_mag(a: i64) -> (r: u128)
    ensures
        r as int == (a as int) * (a as int),
        r <= 0x40000000000000000000000000000000u128,
{
    let m: u128 = if a >= 0 {
        a as u128
    } else {
        (-(a as i128)) as u128
    };
    assert(m * m == (a as int) * (a as int) && m * m <= 0x40000000000000000000000000000000u128)
        by (nonlinear_arith)
        requires m as int == abs_s(a as int) && m <= 0x8000000000000000u128;
    m * m
}

/// Integer square root of an exact sum of three squares, saturated into
/// a non-negative `i64`.
fn root_of_sum_of_squares(x: i64, y: i64, z: i64) -> (r: i64)
    ensures
        r as int == fx_clip_s(
            isqrt_s((x as int) * (x as int) + (y as int) * (y as int) + (z as int) * (z as int)),
        ),
        r >= 0,
{
    let sx: u128 = sq_mag(x);
    let sy: u128 = sq_mag(y);
    let sz: u128 = sq_mag(z);
    let total: u128 = sx + sy + sz;
    let root: u64 = isqrt_u128(total);
    proof {
        lemma_isqrt_s_correct(total as int);
    }
    if root > i64::MAX as u64 {
        i64::MAX
    } else {
        root as i64
    }
}

impl Vector3 {
    pub fn new(x: i64, y: i64, z: i64) -> (r: Self)
        ensures
            r == (Vector3 { x, y, z }),
    {
        Vector3 { x, y, z }
    }

    pub fn zero() -> (r: Self)
        ensures
            r == (Vector3 { x: 0i64, y: 0i64, z: 0i64 }),
    {
        Vector3 { x: 0, y: 0, z: 0 }
    }

    pub fn add(&self, other: &Vector3) -> (r: Vector3)
        ensures
            r == v3_add_s(*self, *other),
    {
        Vector3 { x: fx_add(self.x, other.x), y: fx_add(self.y, other.y), z: fx_add(
            self.z,
            other.z,
        ) }
    }

    pub fn sub(&self, other: &Vector3) -> (r: Vector3)
        ensures
            r == v3_sub_s(*self, *other),
    {
        Vector3 { x: fx_sub(self.x, other.x), y: fx_sub(self.y, other.y), z: fx_sub(
            self.z,
            other.z,
        ) }
    }

    pub fn scale(&self, s: i64) -> (r: Vector3)
        ensures
            r == v3_scale_s(*self, s as int),
    {
        Vector3 { x: fx_mul(self.x, s), y: fx_mul(self.y, s), z: fx_mul(self.z, s) }
    }

    pub fn dot(&self, other: &Vector3) -> (r: i64)
        ensures
            r as int == v3_dot_s(*self, *other),
    {
        fx_add(fx_add(fx_mul(self.x, other.x), fx_mul(self.y, other.y)), fx_mul(self.z, other.z))
    }

    pub fn cross(&self, other: &Vector3) -> (r: Vector3)
        ensures
            r == v3_cross_s(*self, *other),
    {
        Vector3 {
            x: fx_sub(fx_mul(self.y, other.z), fx_mul(self.z, other.y)),
            y: fx_sub(fx_mul(self.z, other.x), fx_mul(self.x, other.z)),
            z: fx_sub(fx_mul(self.x, other.y), fx_mul(self.y, other.x)),
        }
    }

    pub fn length_squared(&self) -> (r: i64)
        ensures
            r as int == v3_dot_s(*self, *self),
            r >= 0,
    {
        self.dot(self)
    }

    pub fn length(&self) -> (r: i64)
        ensures
            r as int == v3_len_s(*self),
            r >= 0,
    {
        root_of_sum_of_squares(self.x, self.y, self.z)
    }

    pub fn distance_to(&self, other: &Vector3) -> (r: i64)
        ensures
            r as int == v3_dist_s(*self, *other),
            r >= 0,
    {
        let d = self.sub(other);
        root_of_sum_of_squares(d.x, d.y, d.z)
    }

    pub fn normalize(&self) -> (r: Vector3)
        ensures
            r == v3_normalize_s(*self),
    {
        let len = self.length();
        if len > 0 {
            Vector3 { x: fx_div(self.x, len), y: fx_div(self.y, len), z: fx_div(self.z, len) }
        } else {
            Vector3 { x: 0, y: 0, z: 0 }
        }
    }
}

/// Sphere representation: one primary particle.
#[derive(Debug, Clone, Copy, PartialEq, Eq, Structural)]
pub struct Sphere {
    pub center: Vector3,
    pub radius: i64,
}

/// Strict overlap: the center distance is below the sum of radii.
pub open spec fn spheres_intersect_s(a: Sphere, b: Sphere) -> bool {
    v3_dist_s(a.center, b.center) < fx_add_s(a.radius as int, b.radius as int)
}

/// Contact within tolerance: the center distance is within `tolerance`
/// of the sum of radii.
pub open spec fn spheres_touch_s(a: Sphere, b: Sphere, tolerance: int) -> bool {
    abs_s(fx_sub_s(v3_dist_s(a.center, b.center), fx_add_s(a.radius as int, b.radius as int)))
        <= tolerance
}

impl Sphere {
    pub fn new(center: Vector3, radius: i64) -> (r: Self)
        ensures
            r == (Sphere { center, radius }),
    {
        Sphere { center, radius }
    }

    /// Check if this sphere intersects with another.
    pub fn intersects(&self, other: &Sphere) -> (r: bool)
        ensures
            r == spheres_intersect_s(*self, *other),
    {
        let dist = self.center.distance_to(&other.center);
        dist < fx_add(self.radius, other.radius)
    }

    /// Check if this sphere touches another (within tolerance).
    pub fn touches(&self, other: &Sphere, tolerance: i64) -> (r: bool)
        ensures
            r == spheres_touch_s(*self, *other, tolerance as int),
    {
        let dist = self.center.distance_to(&other.center);
        let contact_dist = fx_add(self.radius, other.radius);
        let gap = fx_sub(dist, contact_dist);
        if gap >= 0 {
            gap <= tolerance
        } else {
            let neg = fx_sub(0, gap);
            proof {
                assert(fx_sub_s(0, gap as int) == abs_s(gap as int));
            }
            neg <= tolerance
        }
    }
}

/// Axis-aligned bounding box.
#[derive(Debug, Clone, Copy, PartialEq, Eq, Structural)]
pub struct AABB {
    pub min: Vector3,
    pub max: Vector3,
}

/// The point lies inside the box on every axis.
pub open spec fn aabb_contains_s(b: AABB, p: Vector3) -> bool {
    &&& b.min.x <= p.x <= b.max.x
    &&& b.min.y <= p.y <= b.max.y
    &&& b.min.z <= p.z <= b.max.z
}

impl AABB {
    pub fn new(min: Vector3, max: Vector3) -> (r: Self)
        ensures
            r == (AABB { min, max }),
    {
        AABB { min, max }
    }

    /// The smallest box the loop reaches that holds every sphere: each
    /// sphere's saturated extent lies within the result on every axis.
    pub fn from_spheres(spheres: &Vec<Sphere>) -> (r: AABB)
        ensures
            spheres.len() == 0 ==> r == (AABB {
                min: Vector3 { x: 0i64, y: 0i64, z: 0i64 },
                max: Vector3 { x: 0i64, y: 0i64, z: 0i64 },
            }),
            forall|i: int|
                0 <= i < spheres.len() ==> {
                    let c = #[trigger] spheres[i].center;
                    let rad = spheres[i].radius as int;
                    &&& r.min.x as int <= fx_sub_s(c.x as int, rad)
                    &&& r.min.y as int <= fx_sub_s(c.y as int, rad)
                    &&& r.min.z as int <= fx_sub_s(c.z as int, rad)
                    &&& r.max.x as int >= fx_add_s(c.x as int, rad)
                    &&& r.max.y as int >= fx_add_s(c.y as int, rad)
                    &&& r.max.z as int >= fx_add_s(c.z as int, rad)
                },
    {
        if spheres.len() == 0 {
            return AABB {
                min: Vector3 { x: 0, y: 0, z: 0 },
                max: Vector3 { x: 0, y: 0, z: 0 },
            };
        }
        let mut mn = Vector3 { x: i64::MAX, y: i64::MAX, z: i64::MAX };
        let mut mx = Vector3 { x: i64::MIN, y: i64::MIN, z: i64::MIN };
        let n = spheres.len();
        let mut i: usize = 0;
        while i < n
            invariant
                n == spheres.len(),
                i <= n,
                forall|j: int|
                    0 <= j < i ==> {
                        let c = #[trigger] spheres[j].center;
                        let rad = spheres[j].radius as int;
                        &&& mn.x as int <= fx_sub_s(c.x as int, rad)
                        &&& mn.y as int <= fx_sub_s(c.y as int, rad)
                        &&& mn.z as int <= fx_sub_s(c.z as int, rad)
                        &&& mx.x as int >= fx_add_s(c.x as int, rad)
                        &&& mx.y as int >= fx_add_s(c.y as int, rad)
                        &&& mx.z as int >= fx_add_s(c.z as int, rad)
                    },
            decreases n - i,
        {
            let s = &spheres[i];
            let lo_x = fx_sub(s.center.x, s.radius);
            let lo_y = fx_sub(s.center.y, s.radius);
            let lo_z = fx_sub(s.center.z, s.radius);
            let hi_x = fx_add(s.center.x, s.radius);
            let hi_y = fx_add(s.center.y, s.radius);
            let hi_z = fx_add(s.center.z, s.radius);
            if lo_x < mn.x {
                mn.x = lo_x;
            }
            if lo_y < mn.y {
                mn.y = lo_y;
            }
            if lo_z < mn.z {
                mn.z = lo_z;
            }
            if hi_x > mx.x {
                mx.x = hi_x;
            }
            if hi_y > mx.y {
                mx.y = hi_y;
            }
            if hi_z > mx.z {
                mx.z = hi_z;
            }
            i = i + 1;
        }
        AABB { min: mn, max: mx }
    }

    pub fn contains(&self, point: &Vector3) -> (r: bool)
        ensures
            r == aabb_contains_s(*self, *point),
    {
        point.x >= self.min.x && point.x <= self.max.x && point.y >= self.min.y && point.y
            <= self.max.y && point.z >= self.min.z && point.z <= self.max.z
    }
}

} // verus!

verus! {

/// No two distinct particles overlap beyond the tolerance: every pair's
/// center distance reaches the sum of radii less `epsilon`.
pub open spec fn pairwise_separated_s(
    coords: Seq<Vector3>,
    radii: Seq<i64>,
    epsilon: int,
) -> bool {
    forall|i: int, j: int|
        0 <= i < j < coords.len() && j < radii.len() ==> v3_dist_s(
            #[trigger] coords[i],
            #[trigger] coords[j],
        ) >= fx_sub_s(fx_add_s(radii[i] as int, radii[j] as int), epsilon)
}

/// Check that no two particles overlap beyond the tolerance: true exactly
/// when every distinct pair's center distance reaches the sum of radii
/// less `epsilon`.
pub fn check_non_overlap(coords: &Vec<Vector3>, radii: &Vec<i64>, epsilon: i64) -> (r: bool)
    requires
        coords.len() == radii.len(),
    ensures
        r == pairwise_separated_s(coords@, radii@, epsilon as int),
{
    let n = coords.len();
    let mut i: usize = 0;
    while i < n
        invariant
            n == coords.len(),
            n == radii.len(),
            i <= n,
            forall|p: int, q: int|
                0 <= p < q < n && p < i ==> v3_dist_s(#[trigger] coords@[p], #[trigger] coords@[q])
                    >= fx_sub_s(fx_add_s(radii@[p] as int, radii@[q] as int), epsilon as int),
        decreases n - i,
    {
        let ci = coords[i];
        let ri = radii[i];
        let mut j: usize = i + 1;
        while j < n
            invariant
                n == coords.len(),
                n == radii.len(),
                i < n,
                i < j || j == n,
                j <= n,
                ci == coords@[i as int],
                ri == radii@[i as int],
                forall|q: int|
                    i < q < j ==> v3_dist_s(#[trigger] coords@[i as int], #[trigger] coords@[q])
                        >= fx_sub_s(
                        fx_add_s(radii@[i as int] as int, radii@[q] as int),
                        epsilon as int,
                    ),
            decreases n - j,
        {
            let d = ci.distance_to(&coords[j]);
            let needed = fx_sub(fx_add(ri, radii[j]), epsilon);
            if d < needed {
                return false;
            }
            j = j + 1;
        }
        i = i + 1;
    }
    true
}

} // verus!
