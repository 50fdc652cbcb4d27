//! Deterministic random number generation.
//!
//! The generator is a 64-bit counter-and-mix scheme: each step advances the
//! state by a fixed odd constant and hashes it through two multiply-xorshift
//! rounds.  Both the state step and the output are pinned exactly by spec
//! functions, so a given seed reproduces a given stream bit for bit, which
//! the growth algorithms rely on for reproducibility.

use vstd::prelude::*;
use crate::fixed::{fx_add, fx_add_s, fx_div, fx_div_s, fx_mul, fx_mul_s, fx_sub, fx_sub_s, FX_ONE};
use crate::geometry::{v3_dot_s, v3_normalize_s, Vector3};

verus! {

/// Product of two 64-bit values, reduced modulo 2^64.
pub open spec fn mul_wrap_s(a: u64, b: u64) -> u64 {
    (((a as int) * (b as int)) % 0x10000000000000000) as u64
}

/// The state after one step: the previous state plus a fixed odd constant,
/// modulo 2^64.
pub open spec fn rng_step_s(s: u64) -> u64 {
    (((s as int) + 0x9E3779B97F4A7C15) % 0x10000000000000000) as u64
}

/// The output drawn from a state: two multiply-xorshift mixing rounds and a
/// final shift.
pub open spec fn rng_out_s(s: u64) -> u64 {
    let z1 = mul_wrap_s(s ^ (s >> 30), 0xBF58476D1CE4E5B9);
    let z2 = mul_wrap_s(z1 ^ (z1 >> 27), 0x94D049BB133111EB);
    z2 ^ (z2 >> 31)
}

/// Seeded deterministic generator.
pub struct SplitMix64 {
    pub state: u64,
}

/// Product modulo 2^64.
fn mul_wrap(a: u64, b: u64) -> (r: u64)
    ensures
        r == mul_wrap_s(a, b),
{
    assert((a as u128) * (b as u128) < 0x100000000000000000000000000000000) by (nonlinear_arith)
        requires (a as u128) < 0x10000000000000000u128 && (b as u128) < 0x10000000000000000u128;
    let p: u128 = (a as u128) * (b as u128);
    (p % 0x10000000000000000u128) as u64
}

impl SplitMix64 {
    /// Draw the next 64-bit value; the state step and the output are both
    /// exact functions of the previous state.
    pub fn next_u64(&mut self) -> (r: u64)
        ensures
            final(self).state == rng_step_s(old(self).state),
            r == rng_out_s(final(self).state),
    {
        let stepped: u128 = (self.state as u128) + 0x9E3779B97F4A7C15u128;
        self.state = (stepped % 0x10000000000000000u128) as u64;
        let s = self.state;
        let z1 = mul_wrap(s ^ (s >> 30), 0xBF58476D1CE4E5B9);
        let z2 = mul_wrap(z1 ^ (z1 >> 27), 0x94D049BB133111EB);
        z2 ^ (z2 >> 31)
    }

    /// A fixed-point value uniform over `[0, FX_ONE)`: the top 20 bits of
    /// the next draw.
    pub fn next_unit(&mut self) -> (r: i64)
        ensures
            final(self).state == rng_step_s(old(self).state),
            r as int == (rng_out_s(final(self).state) >> 44) as int,
            0 <= r < FX_ONE,
    {
        let w = self.next_u64();
        let top = w >> 44;
        proof {
            assert(w >> 44 < 0x100000u64) by (bit_vector);
        }
        top as i64
    }

    /// A fixed-point value uniform over `[-FX_ONE, FX_ONE)`.
    pub fn next_signed_unit(&mut self) -> (r: i64)
        ensures
            final(self).state == rng_step_s(old(self).state),
            r as int == 2 * ((rng_out_s(final(self).state) >> 44) as int) - FX_ONE as int,
            -FX_ONE <= r < FX_ONE,
    {
        let u = self.next_unit();
        2 * u - FX_ONE
    }

    /// A fixed-point value in `[min, max]`, placed by the next unit draw.
    pub fn next_range(&mut self, min: i64, max: i64) -> (r: i64)
        requires
            min <= max,
        ensures
            final(self).state == rng_step_s(old(self).state),
            r as int == fx_add_s(
                min as int,
                fx_mul_s(
                    fx_sub_s(max as int, min as int),
                    (rng_out_s(final(self).state) >> 44) as int,
                ),
            ),
            min <= r <= max,
    {
        let u = self.next_unit();
        let d = fx_sub(max, min);
        let off = fx_mul(d, u);
        proof {
            assert(0 <= (d as int) * (u as int) / (FX_ONE as int) && (d as int) * (u as int) / (
            FX_ONE as int) <= d as int) by (nonlinear_arith)
                requires 0 <= d && 0 <= u < FX_ONE && FX_ONE == 1048576;
        }
        fx_add(min, off)
    }

    /// A uniform index below `n`: the next draw reduced modulo `n`.
    pub fn next_below(&mut self, n: usize) -> (r: usize)
        requires
            n >= 1,
        ensures
            final(self).state == rng_step_s(old(self).state),
            r as int == (rng_out_s(final(self).state) as int) % (n as int),
            r < n,
    {
        let w = self.next_u64();
        (w % (n as u64)) as usize
    }

    /// One biased coin flip: true with probability `p` (a fixed-point value
    /// in `[0, FX_ONE]`), decided by the next unit draw.
    pub fn next_accept(&mut self, p: i64) -> (r: bool)
        ensures
            final(self).state == rng_step_s(old(self).state),
            r == (((rng_out_s(final(self).state) >> 44) as int) < p as int),
    {
        let u = self.next_unit();
        u < p
    }
}

/// Create a deterministic generator from a seed.
pub fn create_rng(seed: u64) -> (r: SplitMix64)
    ensures
        r.state == seed,
{
    SplitMix64 { state: seed }
}

/// One rejection attempt toward a point on the unit sphere: three signed
/// unit draws from `state`, the acceptance test on the squared norm, and
/// the normalized sample; yields the point, the advanced state, and
/// whether the sample was accepted.
pub open spec fn sphere_try_s(state: u64) -> (Vector3, u64, bool) {
    let s1 = rng_step_s(state);
    let a = (2 * ((rng_out_s(s1) >> 44) as int) - FX_ONE as int) as i64;
    let s2 = rng_step_s(s1);
    let b = (2 * ((rng_out_s(s2) >> 44) as int) - FX_ONE as int) as i64;
    let s3 = rng_step_s(s2);
    let c = (2 * ((rng_out_s(s3) >> 44) as int) - FX_ONE as int) as i64;
    let v = Vector3 { x: a, y: b, z: c };
    let n2 = v3_dot_s(v, v);
    if 10486 <= n2 <= FX_ONE as int {
        (v3_normalize_s(v), s3, true)
    } else {
        (v, s3, false)
    }
}

/// The point produced from a state with a rejection budget of `left`, and
/// the state left behind; an exhausted budget yields the positive x axis.
pub open spec fn sphere_point_s(state: u64, left: nat) -> (Vector3, u64)
    decreases left,
{
    if left == 0 {
        (Vector3 { x: FX_ONE, y: 0, z: 0 }, state)
    } else {
        let t = sphere_try_s(state);
        if t.2 {
            (t.0, t.1)
        } else {
            sphere_point_s(t.1, (left - 1) as nat)
        }
    }
}

/// Generate a point on the unit sphere by rejection from the cube: unit-cube
/// samples outside the ball, or nearly at the origin, are rejected and the
/// accepted sample is normalized.  The result and the state left behind are
/// exact functions of the generator's state (`sphere_point_s` with a budget
/// of 32), every component lies in `[-FX_ONE, FX_ONE]`, and the result's
/// length lies within a few fixed-point units of one.
pub fn random_point_on_sphere(rng: &mut SplitMix64) -> (r: (i64, i64, i64))
    ensures
        (Vector3 { x: r.0, y: r.1, z: r.2 }, final(rng).state) == sphere_point_s(
            old(rng).state,
            32,
        ),
        -FX_ONE <= r.0 <= FX_ONE,
        -FX_ONE <= r.1 <= FX_ONE,
        -FX_ONE <= r.2 <= FX_ONE,
        FX_ONE as int - 4 <= crate::geometry::v3_len_s(Vector3 { x: r.0, y: r.1, z: r.2 })
            <= FX_ONE as int + 15,
{
    let mut attempt: usize = 0;
    while attempt < 32
        invariant
            attempt <= 32,
            sphere_point_s(old(rng).state, 32) == sphere_point_s(
                rng.state,
                (32 - attempt) as nat,
            ),
        decreases 32 - attempt,
    {
        let a = rng.next_signed_unit();
        let b = rng.next_signed_unit();
        let c = rng.next_signed_unit();
        let v = Vector3 { x: a, y: b, z: c };
        let n2 = v.length_squared();
        if n2 <= FX_ONE && n2 >= 10486 {
            let unit = v.normalize();
            proof {
                lemma_component_within_unit(v);
                lemma_normalized_near_unit(v);
            }
            return (unit.x, unit.y, unit.z);
        }
        attempt = attempt + 1;
    }
    proof {
        let s = FX_ONE as int;
        assert(s * s <= s * s && s * s < (s + 1) * (s + 1)) by (nonlinear_arith)
            requires s == 1048576;
        crate::fixed::lemma_isqrt_unique(s * s, s);
        assert(crate::geometry::v3_norm2_raw_s(Vector3 { x: FX_ONE, y: 0, z: 0 }) == s * s)
            by (nonlinear_arith)
            requires s == 1048576;
    }
    (FX_ONE, 0, 0)
}

/// A normalized vector's components lie within one fixed-point unit, for a
/// vector whose components do.
proof fn lemma_component_within_unit(v: Vector3)
    requires
        -FX_ONE as int <= v.x as int <= FX_ONE as int,
        -FX_ONE as int <= v.y as int <= FX_ONE as int,
        -FX_ONE as int <= v.z as int <= FX_ONE as int,
    ensures
        -FX_ONE as int <= v3_normalize_s(v).x as int <= FX_ONE as int,
        -FX_ONE as int <= v3_normalize_s(v).y as int <= FX_ONE as int,
        -FX_ONE as int <= v3_normalize_s(v).z as int <= FX_ONE as int,
{
    let len = crate::geometry::v3_len_s(v);
    if len > 0 {
        let raw = crate::geometry::v3_norm2_raw_s(v);
        let vx = v.x as int;
        let vy = v.y as int;
        let vz = v.z as int;
        assert(vx * vx <= raw && vy * vy <= raw && vz * vz <= raw && raw <= 3 * (FX_ONE as int) * (
        FX_ONE as int)) by (nonlinear_arith)
            requires
                raw == vx * vx + vy * vy + vz * vz,
                -(FX_ONE as int) <= vx <= FX_ONE as int,
                -(FX_ONE as int) <= vy <= FX_ONE as int,
                -(FX_ONE as int) <= vz <= FX_ONE as int;
        crate::fixed::lemma_isqrt_s_correct(raw);
        let root = crate::fixed::isqrt_s(raw);
        assert(root <= 2 * (FX_ONE as int)) by (nonlinear_arith)
            requires
                root * root <= raw,
                raw <= 3 * (FX_ONE as int) * (FX_ONE as int),
                root >= 0,
                FX_ONE == 1048576;
        assert(len == root);
        lemma_abs_component_le_root(vx, raw, root);
        lemma_abs_component_le_root(vy, raw, root);
        lemma_abs_component_le_root(vz, raw, root);
        lemma_div_within_unit(vx, len);
        lemma_div_within_unit(vy, len);
        lemma_div_within_unit(vz, len);
    }
}

/// A component whose square is at most the radicand is at most the root.
proof fn lemma_abs_component_le_root(x: int, raw: int, root: int)
    requires
        x * x <= raw,
        raw >= 0,
        root == crate::fixed::isqrt_s(raw),
    ensures
        crate::fixed::abs_s(x) <= root,
{
    crate::fixed::lemma_isqrt_s_correct(raw);
    assert(crate::fixed::abs_s(x) <= root) by (nonlinear_arith)
        requires
            x * x <= raw,
            raw < (root + 1) * (root + 1),
            root >= 0;
}

/// Dividing a component by a length at least its magnitude stays within one
/// fixed-point unit.
proof fn lemma_div_within_unit(x: int, len: int)
    requires
        len > 0,
        crate::fixed::abs_s(x) <= len,
    ensures
        -FX_ONE as int <= crate::fixed::fx_div_s(x, len) <= FX_ONE as int,
{
    assert(crate::fixed::abs_s(x) * (FX_ONE as int) / crate::fixed::abs_s(len) <= FX_ONE as int)
        by (nonlinear_arith)
        requires crate::fixed::abs_s(x) <= len && len > 0 && crate::fixed::abs_s(len) == len;
}

/// Generate a random direction for a 3D random walk.
pub fn random_direction(rng: &mut SplitMix64) -> (r: (i64, i64, i64))
    ensures
        -FX_ONE <= r.0 <= FX_ONE,
        -FX_ONE <= r.1 <= FX_ONE,
        -FX_ONE <= r.2 <= FX_ONE,
{
    random_point_on_sphere(rng)
}

} // verus!

verus! {

/// One rejection attempt toward a random angle: two signed unit draws,
/// the acceptance test on the squared norm, and the double-angle cosine
/// and sine, each clamped into `[-FX_ONE, FX_ONE]`.
pub open spec fn angle_try_s(state: u64) -> (i64, i64, u64, bool) {
    let s1 = rng_step_s(state);
    let a = 2 * ((rng_out_s(s1) >> 44) as int) - FX_ONE as int;
    let s2 = rng_step_s(s1);
    let b = 2 * ((rng_out_s(s2) >> 44) as int) - FX_ONE as int;
    let aa = fx_mul_s(a, a);
    let bb = fx_mul_s(b, b);
    let n2 = fx_add_s(aa, bb);
    if 10486 <= n2 <= FX_ONE as int {
        let c_raw = fx_div_s(fx_sub_s(aa, bb), n2);
        let s_raw = fx_div_s(fx_mul_s(fx_add_s(a, a), b), n2);
        let cv = if c_raw > FX_ONE as int {
            FX_ONE as int
        } else if c_raw < -(FX_ONE as int) {
            -(FX_ONE as int)
        } else {
            c_raw
        };
        let sv = if s_raw > FX_ONE as int {
            FX_ONE as int
        } else if s_raw < -(FX_ONE as int) {
            -(FX_ONE as int)
        } else {
            s_raw
        };
        (cv as i64, sv as i64, s2, true)
    } else {
        (0, 0, s2, false)
    }
}

/// The angle pair produced from a state with a rejection budget of `left`,
/// and the state left behind; an exhausted budget yields the zero angle.
pub open spec fn unit_angle_s(state: u64, left: nat) -> (i64, i64, u64)
    decreases left,
{
    if left == 0 {
        (FX_ONE, 0, state)
    } else {
        let t = angle_try_s(state);
        if t.3 {
            (t.0, t.1, t.2)
        } else {
            unit_angle_s(t.2, (left - 1) as nat)
        }
    }
}

/// Generate the cosine and sine of a random angle, as a fixed-point pair
/// within `[-FX_ONE, FX_ONE]`: a rejected-square sample `(a, b)` is mapped
/// through the double-angle identities `(a^2 - b^2) / n` and `2ab / n`,
/// which avoids any trigonometric table.  The pair and the state left
/// behind are exact functions of the generator's state (`unit_angle_s`
/// with a budget of 32).
pub fn random_unit_angle(rng: &mut SplitMix64) -> (r: (i64, i64))
    ensures
        (r.0, r.1, final(rng).state) == unit_angle_s(old(rng).state, 32),
        -FX_ONE <= r.0 <= FX_ONE,
        -FX_ONE <= r.1 <= FX_ONE,
{
    let mut attempt: usize = 0;
    while attempt < 32
        invariant
            attempt <= 32,
            unit_angle_s(old(rng).state, 32) == unit_angle_s(rng.state, (32 - attempt) as nat),
        decreases 32 - attempt,
    {
        let a = rng.next_signed_unit();
        let b = rng.next_signed_unit();
        let aa = fx_mul(a, a);
        let bb = fx_mul(b, b);
        let n2 = fx_add(aa, bb);
        if n2 >= 10486 && n2 <= FX_ONE {
            let c_raw = fx_div(fx_sub(aa, bb), n2);
            let s_raw = fx_div(fx_mul(fx_add(a, a), b), n2);
            let c = if c_raw > FX_ONE {
                FX_ONE
            } else if c_raw < -FX_ONE {
                -FX_ONE
            } else {
                c_raw
            };
            let s = if s_raw > FX_ONE {
                FX_ONE
            } else if s_raw < -FX_ONE {
                -FX_ONE
            } else {
                s_raw
            };
            return (c, s);
        }
        attempt = attempt + 1;
    }
    (FX_ONE, 0)
}

} // verus!

verus! {

/// The state after `k` steps.
pub open spec fn rng_step_n_s(s: u64, k: nat) -> u64
    decreases k,
{
    if k == 0 {
        s
    } else {
        rng_step_n_s(rng_step_s(s), (k - 1) as nat)
    }
}

/// Sum of the next `k` unit draws from a state.
pub open spec fn unit_sum_s(s: u64, k: nat) -> int
    decreases k,
{
    if k == 0 {
        0
    } else {
        ((rng_out_s(rng_step_s(s)) >> 44) as int) + unit_sum_s(rng_step_s(s), (k - 1) as nat)
    }
}

/// Appending one step to a multi-step advance.
pub proof fn lemma_rng_step_n_snoc(s: u64, k: nat)
    ensures
        rng_step_n_s(s, k + 1) == rng_step_s(rng_step_n_s(s, k)),
        unit_sum_s(s, k + 1) == unit_sum_s(s, k) + ((rng_out_s(rng_step_s(rng_step_n_s(s, k)))
            >> 44) as int),
    decreases k,
{
    if k == 0 {
        assert(rng_step_n_s(s, 1) == rng_step_n_s(rng_step_s(s), 0));
        assert(unit_sum_s(s, 1) == ((rng_out_s(rng_step_s(s)) >> 44) as int) + unit_sum_s(
            rng_step_s(s),
            0,
        ));
    } else {
        lemma_rng_step_n_snoc(rng_step_s(s), (k - 1) as nat);
        assert(rng_step_n_s(s, k + 1) == rng_step_n_s(rng_step_s(s), k));
        assert(rng_step_n_s(s, k) == rng_step_n_s(rng_step_s(s), (k - 1) as nat));
        assert(unit_sum_s(s, k + 1) == ((rng_out_s(rng_step_s(s)) >> 44) as int) + unit_sum_s(
            rng_step_s(s),
            k,
        ));
        assert(unit_sum_s(s, k) == ((rng_out_s(rng_step_s(s)) >> 44) as int) + unit_sum_s(
            rng_step_s(s),
            (k - 1) as nat,
        ));
    }
}

} // verus!

verus! {

/// Normalizing an accepted rejection sample lands within a few fixed-point
/// units of the unit length: for a vector with components in
/// `[-FX_ONE, FX_ONE)` whose saturating squared norm lies in
/// `[10486, FX_ONE]`, the normalized vector's length lies in
/// `[FX_ONE - 4, FX_ONE + 15]`.
proof fn lemma_normalized_near_unit(v: Vector3)
    requires
        -(FX_ONE as int) <= (v.x as int) && (v.x as int) < FX_ONE as int,
        -(FX_ONE as int) <= (v.y as int) && (v.y as int) < FX_ONE as int,
        -(FX_ONE as int) <= (v.z as int) && (v.z as int) < FX_ONE as int,
        10486 <= v3_dot_s(v, v) <= FX_ONE as int,
    ensures
        FX_ONE as int - 4 <= crate::geometry::v3_len_s(v3_normalize_s(v)) <= FX_ONE as int + 15,
{
    let s = FX_ONE as int;
    let a = v.x as int;
    let b = v.y as int;
    let c = v.z as int;
    let raw = crate::geometry::v3_norm2_raw_s(v);

    // The saturating squared norm is the sum of three unclipped floors, so
    // `s * n2 <= raw <= 3 s^2`.
    lemma_square_floor(a, fx_mul_s(a, a));
    lemma_square_floor(b, fx_mul_s(b, b));
    lemma_square_floor(c, fx_mul_s(c, c));
    let fa = fx_mul_s(a, a);
    let fb = fx_mul_s(b, b);
    let fc = fx_mul_s(c, c);
    let n2 = v3_dot_s(v, v);
    assert(n2 == fa + fb + fc);
    assert(s * n2 == s * fa + s * fb + s * fc) by (nonlinear_arith)
        requires n2 == fa + fb + fc;
    assert(s * n2 <= raw);
    assert(raw <= 3 * s * s);

    // The length is at least 100000 and at most 2 s.
    crate::fixed::lemma_isqrt_s_correct(raw);
    let root = crate::fixed::isqrt_s(raw);
    assert(raw >= s * 10486) by (nonlinear_arith)
        requires s * n2 <= raw && n2 >= 10486 && s == 1048576;
    assert(100000 <= root <= 2 * s) by (nonlinear_arith)
        requires
            root >= 0,
            root * root <= raw,
            raw < (root + 1) * (root + 1),
            raw >= s * 10486,
            raw <= 3 * s * s,
            s == 1048576;
    let len = crate::geometry::v3_len_s(v);
    assert(len == root);

    // Each component's magnitude is at most the length.
    lemma_abs_component_le_root(a, raw, root);
    lemma_abs_component_le_root(b, raw, root);
    lemma_abs_component_le_root(c, raw, root);

    // Floor characterization of each normalized component, squared, with
    // an explicit slack of one quotient step per component.
    let u = v3_normalize_s(v);
    let qa = u.x as int;
    let qb = u.y as int;
    let qc = u.z as int;
    lemma_component_quotient_square(a, len, qa);
    lemma_component_quotient_square(b, len, qb);
    lemma_component_quotient_square(c, len, qc);
    let sq = qa * qa + qb * qb + qc * qc;
    let slack = len * len * (2 * s + 1);

    // Summed: len^2 sq <= s^2 raw < len^2 sq + 3 slack.
    assert(s * s * raw == s * s * (a * a) + s * s * (b * b) + s * s * (c * c))
        by (nonlinear_arith)
        requires raw == a * a + b * b + c * c;
    assert(len * len * sq == len * len * (qa * qa) + len * len * (qb * qb) + len * len * (qc
        * qc)) by (nonlinear_arith)
        requires sq == qa * qa + qb * qb + qc * qc;
    assert(len * len * sq <= s * s * raw);
    assert(s * s * raw < len * len * sq + 3 * slack);

    // Lower bracket: from raw >= len^2.
    assert(len * len * (s * s) <= s * s * raw) by (nonlinear_arith)
        requires len * len <= raw;
    assert(len * len * (s * s) < len * len * sq + 3 * slack);
    assert(3 * slack == len * len * (6 * s + 3)) by (nonlinear_arith)
        requires slack == len * len * (2 * s + 1);
    assert(len * len * (s * s) < len * len * (sq + 6 * s + 3)) by (nonlinear_arith)
        requires len * len * (s * s) < len * len * sq + len * len * (6 * s + 3);
    assert(s * s < sq + 6 * s + 3) by (nonlinear_arith)
        requires len * len * (s * s) < len * len * (sq + 6 * s + 3) && len >= 1;

    // Upper bracket: by contradiction with len >= 100000.
    if sq > s * s + 33000000 {
        assert(len * len * (s * s + 33000001) <= len * len * sq) by (nonlinear_arith)
            requires sq >= s * s + 33000001 && len >= 1;
        assert(s * s * raw <= s * s * (len * len + 2 * len)) by (nonlinear_arith)
            requires raw < (len + 1) * (len + 1) && s == 1048576;
        assert(len * len * (s * s + 33000001) == len * len * (s * s) + 33000001 * (len * len))
            by (nonlinear_arith);
        assert(s * s * (len * len + 2 * len) == len * len * (s * s) + (2 * s * s) * len)
            by (nonlinear_arith);
        assert(33000001 * (len * len) <= (2 * s * s) * len);
        assert(33000001 * len <= 2 * s * s) by (nonlinear_arith)
            requires 33000001 * (len * len) <= (2 * s * s) * len && len >= 1;
        assert(false) by (nonlinear_arith)
            requires 33000001 * len <= 2 * s * s && len >= 100000 && s == 1048576;
    }
    assert(sq <= s * s + 33000000);

    // The normalized vector's length follows from the root brackets.
    crate::fixed::lemma_isqrt_s_correct(sq);
    let unorm = crate::fixed::isqrt_s(sq);
    assert(s - 4 <= unorm <= s + 15) by (nonlinear_arith)
        requires
            unorm >= 0,
            unorm * unorm <= sq,
            sq < (unorm + 1) * (unorm + 1),
            s * s - 6 * s - 3 < sq,
            sq <= s * s + 33000000,
            s == 1048576;
    assert(crate::geometry::v3_norm2_raw_s(u) == sq);
    assert(crate::geometry::v3_len_s(u) == unorm);
}

/// The saturating fixed-point square of a component in `(-FX_ONE, FX_ONE)`
/// is the unclipped floor of its true square over the unit:
/// `0 <= f <= FX_ONE` and `FX_ONE * f <= x^2 <= FX_ONE^2`.
proof fn lemma_square_floor(x: int, f: int)
    requires
        -(FX_ONE as int) <= x <= FX_ONE as int,
        f == fx_mul_s(x, x),
    ensures
        0 <= f <= FX_ONE as int,
        (FX_ONE as int) * f <= x * x,
        x * x <= (FX_ONE as int) * (FX_ONE as int),
{
    let s = FX_ONE as int;
    let ax = crate::fixed::abs_s(x);
    assert(ax * ax == x * x) by (nonlinear_arith)
        requires (x >= 0 ==> ax == x) && (x < 0 ==> ax == -x);
    assert(0 <= (ax * ax) / s <= s && s * ((ax * ax) / s) <= ax * ax && ax * ax <= s * s)
        by (nonlinear_arith)
        requires 0 <= ax <= s && s == 1048576;
    assert(f == (ax * ax) / s) by {
        assert(crate::fixed::fx_clip_s((ax * ax) / s) == (ax * ax) / s);
    }
}

/// Floor characterization of one normalized component, squared: for a
/// component with magnitude at most the (positive) length, the quotient
/// `q = fx_div_s(x, len)` satisfies `|q| <= FX_ONE`,
/// `len^2 q^2 <= FX_ONE^2 x^2`, and
/// `FX_ONE^2 x^2 < len^2 q^2 + len^2 (2 FX_ONE + 1)`.
proof fn lemma_component_quotient_square(x: int, len: int, q: int)
    requires
        len >= 1,
        crate::fixed::abs_s(x) <= len,
        q == crate::fixed::fx_div_s(x, len),
    ensures
        len * len * (q * q) <= (FX_ONE as int) * (FX_ONE as int) * (x * x),
        (FX_ONE as int) * (FX_ONE as int) * (x * x) < len * len * (q * q) + len * len * (2 * (
        FX_ONE as int) + 1),
{
    let s = FX_ONE as int;
    let ax = crate::fixed::abs_s(x);
    assert(ax * ax == x * x) by (nonlinear_arith)
        requires (x >= 0 ==> ax == x) && (x < 0 ==> ax == -x);
    let m = (ax * s) / len;
    assert(m * len <= ax * s && ax * s < (m + 1) * len && 0 <= m <= s) by (nonlinear_arith)
        requires m == (ax * s) / len && len >= 1 && 0 <= ax <= len && s == 1048576;
    assert(crate::fixed::abs_s(q) == m) by {
        assert(crate::fixed::fx_clip_s(m) == m);
        assert(crate::fixed::fx_clip_s(-m) == -m);
    }
    assert(q * q == m * m) by (nonlinear_arith)
        requires (q >= 0 ==> crate::fixed::abs_s(q) == q) && (q < 0 ==> crate::fixed::abs_s(q)
            == -q) && crate::fixed::abs_s(q) == m;
    assert(len * len * (m * m) <= s * s * (x * x)) by (nonlinear_arith)
        requires
            0 <= m * len,
            m * len <= ax * s,
            ax * ax == x * x,
            m >= 0,
            ax >= 0,
            len >= 1;
    assert(s * s * (x * x) < len * len * (m * m) + len * len * (2 * m + 1)) by (nonlinear_arith)
        requires
            0 <= m * len,
            m * len <= ax * s,
            ax * s < (m + 1) * len,
            ax * ax == x * x,
            m >= 0,
            ax >= 0,
            len >= 1;
    assert(len * len * (2 * m + 1) <= len * len * (2 * s + 1)) by (nonlinear_arith)
        requires m <= s && len >= 1;
}

} // verus!
