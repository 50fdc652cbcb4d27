//! Agglomerate metrics calculation.

use vstd::prelude::*;
use crate::fixed::{
    abs_s, exp_fx_s, fx_add, fx_add_s, fx_clip_s, fx_div, fx_div_s, fx_exp, fx_from_int, fx_ln,
    fx_mul, fx_mul_s, fx_sqrt, fx_sqrt_s, fx_sub, fx_sub_s, ln_fx_s, FX_ONE,
};
use crate::geometry::{v3_dist_s, Vector3};

verus! {

/// 3/5, as a fixed-point value.
pub const FX_THREE_FIFTHS: i64 = 629146;

/// 4/3 times the circle constant, as a fixed-point value.
pub const FX_FOUR_THIRDS_PI: i64 = 4392265;

/// Saturation bound of the wide (pre-division) accumulators.
pub const WIDE_LIMIT: i128 = 0x2000000000000000000000000000000i128;

/// Particle mass, proportional to the cube of its radius.
pub open spec fn mass_s(r: int) -> int {
    fx_mul_s(fx_mul_s(r, r), r)
}

/// Saturation into the wide accumulator range.
pub open spec fn wclip_s(x: int) -> int {
    if x > WIDE_LIMIT as int {
        WIDE_LIMIT as int
    } else if x < -(WIDE_LIMIT as int) {
        -(WIDE_LIMIT as int)
    } else {
        x
    }
}

/// Saturating wide sum.
pub open spec fn wadd_s(a: int, b: int) -> int {
    wclip_s(a + b)
}

/// Saturating wide product of two fixed-point values (the result carries
/// two scale factors).
pub open spec fn wmul_s(a: int, b: int) -> int {
    wclip_s(a * b)
}

/// Truncating wide quotient, saturated into `i64`; zero for a non-positive
/// divisor.
pub open spec fn wdiv_s(num: int, den: int) -> int {
    if den <= 0 {
        0
    } else {
        let m = abs_s(num) / den;
        if num < 0 {
            fx_clip_s(-m)
        } else {
            fx_clip_s(m)
        }
    }
}

/// Total mass of a set of particles.
pub open spec fn sum_mass_s(radii: Seq<i64>) -> int
    decreases radii.len(),
{
    if radii.len() == 0 {
        0
    } else {
        wadd_s(sum_mass_s(radii.drop_last()), mass_s(radii.last() as int))
    }
}

/// Mass-weighted coordinate sum along one axis, selected by `axis`
/// (0 is x, 1 is y, anything else z).
pub open spec fn sum_moment_s(coords: Seq<Vector3>, radii: Seq<i64>, axis: int) -> int
    decreases coords.len(),
{
    if coords.len() == 0 || radii.len() == 0 {
        0
    } else {
        let c = coords.last();
        let comp: int = if axis == 0 {
            c.x as int
        } else if axis == 1 {
            c.y as int
        } else {
            c.z as int
        };
        wadd_s(
            sum_moment_s(coords.drop_last(), radii.drop_last(), axis),
            wmul_s(mass_s(radii.last() as int), comp),
        )
    }
}

/// Mass-weighted center of the particles; the origin when the total mass is
/// not positive.
pub open spec fn center_of_gravity_s(coords: Seq<Vector3>, radii: Seq<i64>) -> Vector3 {
    let den = sum_mass_s(radii);
    Vector3 {
        x: wdiv_s(sum_moment_s(coords, radii, 0), den) as i64,
        y: wdiv_s(sum_moment_s(coords, radii, 1), den) as i64,
        z: wdiv_s(sum_moment_s(coords, radii, 2), den) as i64,
    }
}

/// One particle's contribution to the gyration numerator:
/// 3/5 r^5 + r^3 d^2, with `d` its distance from the center of gravity.
pub open spec fn gyration_term_s(c: Vector3, r: int, cg: Vector3) -> int {
    let m = mass_s(r);
    let r5 = fx_mul_s(fx_mul_s(m, r), r);
    let d = v3_dist_s(c, cg);
    fx_add_s(fx_mul_s(FX_THREE_FIFTHS as int, r5), fx_mul_s(m, fx_mul_s(d, d)))
}

/// Gyration numerator over all particles.
pub open spec fn sum_gyration_s(coords: Seq<Vector3>, radii: Seq<i64>, cg: Vector3) -> int
    decreases coords.len(),
{
    if coords.len() == 0 || radii.len() == 0 {
        0
    } else {
        fx_add_s(
            sum_gyration_s(coords.drop_last(), radii.drop_last(), cg),
            gyration_term_s(coords.last(), radii.last() as int, cg),
        )
    }
}

/// Saturating fixed-point mass sum (narrow accumulator).
pub open spec fn sum_mass_fx_s(radii: Seq<i64>) -> int
    decreases radii.len(),
{
    if radii.len() == 0 {
        0
    } else {
        fx_add_s(sum_mass_fx_s(radii.drop_last()), mass_s(radii.last() as int))
    }
}

/// Radius of gyration: `sqrt(Ip / mp)` with
/// `Ip = sum(3/5 r_i^5 + r_i^3 d_i^2)` and `mp = sum(r_i^3)`, `d_i` the
/// distance from particle `i` to the center of gravity; zero when there are
/// no particles or no positive mass.
pub open spec fn radius_of_gyration_s(coords: Seq<Vector3>, radii: Seq<i64>) -> int {
    if coords.len() == 0 {
        0
    } else {
        let cg = center_of_gravity_s(coords, radii);
        let ip = sum_gyration_s(coords, radii, cg);
        let mp = sum_mass_fx_s(radii);
        if mp > 0 {
            fx_sqrt_s(fx_div_s(ip, mp))
        } else {
            0
        }
    }
}

/// Saturating wide sum.
pub fn wadd(a: i128, b: i128) -> (r: i128)
    requires
        -WIDE_LIMIT <= a <= WIDE_LIMIT,
        -WIDE_LIMIT <= b <= WIDE_LIMIT,
    ensures
        r as int == wadd_s(a as int, b as int),
        -WIDE_LIMIT <= r <= WIDE_LIMIT,
{
    let s: i128 = a + b;
    if s > WIDE_LIMIT {
        WIDE_LIMIT
    } else if s < -WIDE_LIMIT {
        -WIDE_LIMIT
    } else {
        s
    }
}

/// Saturating wide product of two fixed-point values.
pub fn wmul(a: i64, b: i64) -> (r: i128)
    ensures
        r as int == wmul_s(a as int, b as int),
        -WIDE_LIMIT <= r <= WIDE_LIMIT,
{
    assert(-0x40000000000000000000000000000000 <= (a as int) * (b as int)
        && (a as int) * (b as int) <= 0x40000000000000000000000000000000) by (nonlinear_arith)
        requires
            -0x8000000000000000 <= a as int <= 0x8000000000000000,
            -0x8000000000000000 <= b as int <= 0x8000000000000000;
    let p: i128 = (a as i128) * (b as i128);
    if p > WIDE_LIMIT {
        WIDE_LIMIT
    } else if p < -WIDE_LIMIT {
        -WIDE_LIMIT
    } else {
        p
    }
}

/// Truncating wide quotient, saturated into `i64`.
pub fn wdiv(num: i128, den: i128) -> (r: i64)
    ensures
        r as int == wdiv_s(num as int, den as int),
{
    if den <= 0 {
        return 0;
    }
    let m: u128 = if num >= 0 {
        num as u128
    } else {
        let neg_limit: i128 = -0x40000000000000000000000000000000i128;
        if num >= neg_limit {
            (-num) as u128
        } else {
            assert(-(num as int) >= 0x40000000000000000000000000000000);
            ((-(num as i128 + 1)) as u128) + 1
        }
    };
    let q: u128 = m / (den as u128);
    proof {
        assert(q <= m) by (nonlinear_arith)
            requires q == m / (den as u128) && den > 0;
    }
    if num < 0 {
        if q >= 9223372036854775808u128 {
            i64::MIN
        } else {
            -(q as i64)
        }
    } else {
        if q > i64::MAX as u128 {
            i64::MAX
        } else {
            q as i64
        }
    }
}

/// A count scaled into fixed-point units, as a wide value.
pub fn wide_count_scaled(n: usize) -> (r: i128)
    ensures
        r as int == (n as int) * (FX_ONE as int),
{
    assert((n as int) * (FX_ONE as int) <= 0x10000000000000000 * 0x100000) by (nonlinear_arith)
        requires (n as int) <= 0x10000000000000000 && FX_ONE == 1048576;
    (n as i128) * (FX_ONE as i128)
}

/// Particle mass (proportional to the cube of the radius).
pub fn mass_of(r: i64) -> (m: i64)
    ensures
        m as int == mass_s(r as int),
{
    fx_mul(fx_mul(r, r), r)
}

/// Calculate the mass-weighted center of gravity of the particles.
pub fn calculate_center_of_gravity(coordinates: &Vec<Vector3>, radii: &Vec<i64>) -> (r: Vector3)
    requires
        coordinates.len() == radii.len(),
    ensures
        r == center_of_gravity_s(coordinates@, radii@),
{
    let n = coordinates.len();
    let mut num_x: i128 = 0;
    let mut num_y: i128 = 0;
    let mut num_z: i128 = 0;
    let mut den: i128 = 0;
    let mut i: usize = 0;
    while i < n
        invariant
            n == coordinates.len(),
            n == radii.len(),
            i <= n,
            -WIDE_LIMIT <= num_x <= WIDE_LIMIT,
            -WIDE_LIMIT <= num_y <= WIDE_LIMIT,
            -WIDE_LIMIT <= num_z <= WIDE_LIMIT,
            -WIDE_LIMIT <= den <= WIDE_LIMIT,
            num_x as int == sum_moment_s(coordinates@.take(i as int), radii@.take(i as int), 0),
            num_y as int == sum_moment_s(coordinates@.take(i as int), radii@.take(i as int), 1),
            num_z as int == sum_moment_s(coordinates@.take(i as int), radii@.take(i as int), 2),
            den as int == sum_mass_s(radii@.take(i as int)),
        decreases n - i,
    {
        proof {
            assert(coordinates@.take(i + 1).drop_last() == coordinates@.take(i as int));
            assert(radii@.take(i + 1).drop_last() == radii@.take(i as int));
        }
        let m = mass_of(radii[i]);
        let c = coordinates[i];
        num_x = wadd(num_x, wmul(m, c.x));
        num_y = wadd(num_y, wmul(m, c.y));
        num_z = wadd(num_z, wmul(m, c.z));
        den = wadd(den, m as i128);
        i = i + 1;
    }
    proof {
        assert(coordinates@.take(n as int) == coordinates@);
        assert(radii@.take(n as int) == radii@);
    }
    Vector3 { x: wdiv(num_x, den), y: wdiv(num_y, den), z: wdiv(num_z, den) }
}

/// Calculate the radius of gyration.
pub fn calculate_radius_of_gyration(coordinates: &Vec<Vector3>, radii: &Vec<i64>) -> (r: i64)
    requires
        coordinates.len() == radii.len(),
    ensures
        r as int == radius_of_gyration_s(coordinates@, radii@),
        r >= 0,
{
    let n = coordinates.len();
    if n == 0 {
        return 0;
    }
    let cg = calculate_center_of_gravity(coordinates, radii);
    let mut ip: i64 = 0;
    let mut mp: i64 = 0;
    let mut i: usize = 0;
    while i < n
        invariant
            n == coordinates.len(),
            n == radii.len(),
            i <= n,
            ip as int == sum_gyration_s(coordinates@.take(i as int), radii@.take(i as int), cg),
            mp as int == sum_mass_fx_s(radii@.take(i as int)),
        decreases n - i,
    {
        proof {
            assert(coordinates@.take(i + 1).drop_last() == coordinates@.take(i as int));
            assert(radii@.take(i + 1).drop_last() == radii@.take(i as int));
        }
        let rad = radii[i];
        let m = mass_of(rad);
        let r5 = fx_mul(fx_mul(m, rad), rad);
        let d = coordinates[i].distance_to(&cg);
        let term = fx_add(fx_mul(FX_THREE_FIFTHS, r5), fx_mul(m, fx_mul(d, d)));
        ip = fx_add(ip, term);
        mp = fx_add(mp, m);
        i = i + 1;
    }
    proof {
        assert(coordinates@.take(n as int) == coordinates@);
        assert(radii@.take(n as int) == radii@);
    }
    if mp > 0 {
        fx_sqrt(fx_div(ip, mp))
    } else {
        0
    }
}

} // verus!

verus! {

/// 0.01, as a fixed-point value: the slope magnitude below which a fit is
/// treated as flat.
pub const FX_CENT: i64 = 10486;

/// 0.1, as a fixed-point value: the smallest reported prefactor.
pub const FX_TENTH: i64 = 104858;

/// Natural logarithm of a particle count.
pub open spec fn ln_of_count_s(n: usize) -> int {
    ln_fx_s(fx_clip_s((n as int) * (FX_ONE as int)))
}

/// Filtered log-log points for the particle-cluster convention: pairs
/// `(ln N, ln Rg)` over the samples with `N > 1` and `Rg > 0`.
pub open spec fn fit_points_s(ns: Seq<usize>, rgs: Seq<i64>) -> Seq<(i64, i64)>
    decreases ns.len(),
{
    if ns.len() == 0 || rgs.len() == 0 {
        Seq::empty()
    } else {
        let rest = fit_points_s(ns.drop_last(), rgs.drop_last());
        if ns.last() > 1 && rgs.last() > 0 {
            rest.push(
                (ln_of_count_s(ns.last()) as i64, ln_fx_s(rgs.last() as int) as i64),
            )
        } else {
            rest
        }
    }
}

/// Filtered log-log points for the cluster-cluster (tunable) convention:
/// pairs `(ln(Rg / rp), ln N)` over the samples with `N > 1` and
/// `Rg > rp / 10`.
pub open spec fn fit_points_evo_s(ns: Seq<usize>, rgs: Seq<i64>, rp: int) -> Seq<(i64, i64)>
    decreases ns.len(),
{
    if ns.len() == 0 || rgs.len() == 0 {
        Seq::empty()
    } else {
        let rest = fit_points_evo_s(ns.drop_last(), rgs.drop_last(), rp);
        if ns.last() > 1 && (rgs.last() as int) > fx_mul_s(rp, FX_TENTH as int) {
            rest.push(
                (
                    ln_fx_s(fx_div_s(rgs.last() as int, rp)) as i64,
                    ln_of_count_s(ns.last()) as i64,
                ),
            )
        } else {
            rest
        }
    }
}

/// Sum of the first coordinates.
pub open spec fn sum_x_s(d: Seq<(i64, i64)>) -> int
    decreases d.len(),
{
    if d.len() == 0 {
        0
    } else {
        fx_add_s(sum_x_s(d.drop_last()), d.last().0 as int)
    }
}

/// Sum of the second coordinates.
pub open spec fn sum_y_s(d: Seq<(i64, i64)>) -> int
    decreases d.len(),
{
    if d.len() == 0 {
        0
    } else {
        fx_add_s(sum_y_s(d.drop_last()), d.last().1 as int)
    }
}

/// Sum of the squared first coordinates.
pub open spec fn sum_xx_s(d: Seq<(i64, i64)>) -> int
    decreases d.len(),
{
    if d.len() == 0 {
        0
    } else {
        fx_add_s(sum_xx_s(d.drop_last()), fx_mul_s(d.last().0 as int, d.last().0 as int))
    }
}

/// Sum of the coordinate products.
pub open spec fn sum_xy_s(d: Seq<(i64, i64)>) -> int
    decreases d.len(),
{
    if d.len() == 0 {
        0
    } else {
        fx_add_s(sum_xy_s(d.drop_last()), fx_mul_s(d.last().0 as int, d.last().1 as int))
    }
}

/// Total squared deviation of the second coordinates from their mean.
pub open spec fn ss_tot_s(d: Seq<(i64, i64)>, mean_y: int) -> int
    decreases d.len(),
{
    if d.len() == 0 {
        0
    } else {
        let dev = fx_sub_s(d.last().1 as int, mean_y);
        fx_add_s(ss_tot_s(d.drop_last(), mean_y), fx_mul_s(dev, dev))
    }
}

/// Total squared residual of the second coordinates against the fitted line.
pub open spec fn ss_res_s(d: Seq<(i64, i64)>, slope: int, intercept: int) -> int
    decreases d.len(),
{
    if d.len() == 0 {
        0
    } else {
        let pred = fx_add_s(intercept, fx_mul_s(slope, d.last().0 as int));
        let dev = fx_sub_s(d.last().1 as int, pred);
        fx_add_s(ss_res_s(d.drop_last(), slope, intercept), fx_mul_s(dev, dev))
    }
}

/// Least-squares slope of the points.
pub open spec fn fit_slope_s(d: Seq<(i64, i64)>) -> int {
    let nf = fx_clip_s((d.len() as int) * (FX_ONE as int));
    let denom = fx_sub_s(fx_mul_s(nf, sum_xx_s(d)), fx_mul_s(sum_x_s(d), sum_x_s(d)));
    fx_div_s(fx_sub_s(fx_mul_s(nf, sum_xy_s(d)), fx_mul_s(sum_x_s(d), sum_y_s(d))), denom)
}

/// Least-squares intercept of the points, given the slope.
pub open spec fn fit_intercept_s(d: Seq<(i64, i64)>, slope: int) -> int {
    let nf = fx_clip_s((d.len() as int) * (FX_ONE as int));
    fx_div_s(fx_sub_s(sum_y_s(d), fx_mul_s(slope, sum_x_s(d))), nf)
}

/// Coefficient of determination of the fitted line.
pub open spec fn fit_r2_s(d: Seq<(i64, i64)>, slope: int, intercept: int) -> int {
    let nf = fx_clip_s((d.len() as int) * (FX_ONE as int));
    let mean_y = fx_div_s(sum_y_s(d), nf);
    let sstot = ss_tot_s(d, mean_y);
    let ssres = ss_res_s(d, slope, intercept);
    if sstot > 0 {
        fx_sub_s(FX_ONE as int, fx_div_s(ssres, sstot))
    } else {
        0
    }
}

/// Fractal descriptors under the particle-cluster convention: the slope of
/// `ln Rg` against `ln N` is inverted into the dimension (a flat slope
/// falls back to two), the prefactor is the exponential of the intercept
/// scaled by the raw dimension, the dimension is clamped to `[1, 3]` and
/// the prefactor floored at a tenth.
pub open spec fn fd_pc_s(d: Seq<(i64, i64)>) -> (int, int, int) {
    let slope = fit_slope_s(d);
    let intercept = fit_intercept_s(d, slope);
    let df_raw = if abs_s(slope) > FX_CENT as int {
        fx_div_s(FX_ONE as int, slope)
    } else {
        2 * (FX_ONE as int)
    };
    let kf_raw = exp_fx_s(fx_mul_s(intercept, df_raw));
    let df = if df_raw < FX_ONE as int {
        FX_ONE as int
    } else if df_raw > 3 * (FX_ONE as int) {
        3 * (FX_ONE as int)
    } else {
        df_raw
    };
    let kf = if kf_raw < FX_TENTH as int {
        FX_TENTH as int
    } else {
        kf_raw
    };
    (df, kf, fit_r2_s(d, slope, intercept))
}

/// Fractal descriptors under the tunable convention: the slope of `ln N`
/// against `ln(Rg / rp)` is the dimension directly, clamped to `[1, 3]`;
/// the prefactor is the exponential of the intercept, clamped to
/// `[1/10, 10]`; a degenerate denominator yields the neutral default.
pub open spec fn fd_evo_s(d: Seq<(i64, i64)>) -> (int, int, int) {
    let nf = fx_clip_s((d.len() as int) * (FX_ONE as int));
    let denom = fx_sub_s(fx_mul_s(nf, sum_xx_s(d)), fx_mul_s(sum_x_s(d), sum_x_s(d)));
    if denom == 0 {
        (2 * (FX_ONE as int), FX_ONE as int, 0)
    } else {
        let slope = fit_slope_s(d);
        let intercept = fit_intercept_s(d, slope);
        let df = if slope < FX_ONE as int {
            FX_ONE as int
        } else if slope > 3 * (FX_ONE as int) {
            3 * (FX_ONE as int)
        } else {
            slope
        };
        let kf_raw = exp_fx_s(intercept);
        let kf = if kf_raw < FX_TENTH as int {
            FX_TENTH as int
        } else if kf_raw > 10 * (FX_ONE as int) {
            10 * (FX_ONE as int)
        } else {
            kf_raw
        };
        (df, kf, fit_r2_s(d, slope, intercept))
    }
}

/// The full particle-cluster fit: the neutral default `(2, 1, 0)` exactly
/// when fewer than three samples survive the filter (or the inputs
/// mismatch), else the regression descriptors.
pub open spec fn calc_fd_s(ns: Seq<usize>, rgs: Seq<i64>) -> (int, int, int) {
    if ns.len() < 3 || ns.len() != rgs.len() {
        (2 * (FX_ONE as int), FX_ONE as int, 0)
    } else {
        let d = fit_points_s(ns, rgs);
        if d.len() < 3 {
            (2 * (FX_ONE as int), FX_ONE as int, 0)
        } else {
            fd_pc_s(d)
        }
    }
}

/// The full tunable-convention fit.
pub open spec fn calc_fd_evo_s(ns: Seq<usize>, rgs: Seq<i64>, rp: int) -> (int, int, int) {
    if ns.len() < 3 || ns.len() != rgs.len() {
        (2 * (FX_ONE as int), FX_ONE as int, 0)
    } else {
        let d = fit_points_evo_s(ns, rgs, rp);
        if d.len() < 3 {
            (2 * (FX_ONE as int), FX_ONE as int, 0)
        } else {
            fd_evo_s(d)
        }
    }
}

/// Natural logarithm of a particle count.
fn ln_of_count(n: usize) -> (r: i64)
    ensures
        r as int == ln_of_count_s(n),
{
    let wide: u64 = n as u64;
    let w = fx_from_int(if wide > 0x7fffffffffffffffu64 {
        i64::MAX
    } else {
        wide as i64
    });
    proof {
        if (n as u64) > 0x7fffffffffffffffu64 {
            assert(fx_clip_s((n as int) * (FX_ONE as int)) == i64::MAX as int) by (nonlinear_arith)
                requires (n as int) > 0x7fffffffffffffff && FX_ONE == 1048576;
        }
    }
    fx_ln(w)
}

/// Regression sums of a point list.
fn regression_sums(d: &Vec<(i64, i64)>) -> (r: (i64, i64, i64, i64))
    ensures
        r.0 as int == sum_x_s(d@),
        r.1 as int == sum_y_s(d@),
        r.2 as int == sum_xx_s(d@),
        r.3 as int == sum_xy_s(d@),
{
    let n = d.len();
    let mut sx: i64 = 0;
    let mut sy: i64 = 0;
    let mut sxx: i64 = 0;
    let mut sxy: i64 = 0;
    let mut i: usize = 0;
    while i < n
        invariant
            n == d.len(),
            i <= n,
            sx as int == sum_x_s(d@.take(i as int)),
            sy as int == sum_y_s(d@.take(i as int)),
            sxx as int == sum_xx_s(d@.take(i as int)),
            sxy as int == sum_xy_s(d@.take(i as int)),
        decreases n - i,
    {
        proof {
            assert(d@.take(i + 1).drop_last() == d@.take(i as int));
        }
        let (x, y) = d[i];
        sx = fx_add(sx, x);
        sy = fx_add(sy, y);
        sxx = fx_add(sxx, fx_mul(x, x));
        sxy = fx_add(sxy, fx_mul(x, y));
        i = i + 1;
    }
    proof {
        assert(d@.take(n as int) == d@);
    }
    (sx, sy, sxx, sxy)
}

/// Sums of squared deviations are never negative.
proof fn lemma_ss_nonneg(d: Seq<(i64, i64)>, mean_y: int, slope: int, intercept: int)
    ensures
        ss_tot_s(d, mean_y) >= 0,
        ss_res_s(d, slope, intercept) >= 0,
    decreases d.len(),
{
    if d.len() > 0 {
        lemma_ss_nonneg(d.drop_last(), mean_y, slope, intercept);
        let dev_t = fx_sub_s(d.last().1 as int, mean_y);
        let pred = fx_add_s(intercept, fx_mul_s(slope, d.last().0 as int));
        let dev_r = fx_sub_s(d.last().1 as int, pred);
        assert(abs_s(dev_t) * abs_s(dev_t) >= 0 && abs_s(dev_r) * abs_s(dev_r) >= 0)
            by (nonlinear_arith);
        assert(abs_s(dev_t) * abs_s(dev_t) / (FX_ONE as int) >= 0) by (nonlinear_arith)
            requires abs_s(dev_t) * abs_s(dev_t) >= 0 && FX_ONE == 1048576;
        assert(abs_s(dev_r) * abs_s(dev_r) / (FX_ONE as int) >= 0) by (nonlinear_arith)
            requires abs_s(dev_r) * abs_s(dev_r) >= 0 && FX_ONE == 1048576;
    }
}

/// A fit never reports a coefficient of determination above one (a fit
/// worse than the mean may legitimately go below zero, as the convention
/// has it).
proof fn lemma_r2_upper(d: Seq<(i64, i64)>, slope: int, intercept: int)
    ensures
        fit_r2_s(d, slope, intercept) <= FX_ONE as int,
{
    let nf = fx_clip_s((d.len() as int) * (FX_ONE as int));
    let mean_y = fx_div_s(sum_y_s(d), nf);
    lemma_ss_nonneg(d, mean_y, slope, intercept);
    let sstot = ss_tot_s(d, mean_y);
    let ssres = ss_res_s(d, slope, intercept);
    if sstot > 0 {
        assert(abs_s(ssres) * (FX_ONE as int) / abs_s(sstot) >= 0) by (nonlinear_arith)
            requires ssres >= 0 && sstot > 0 && FX_ONE == 1048576;
    }
}

/// Coefficient of determination of the fitted line over the points.
fn regression_r2(d: &Vec<(i64, i64)>, slope: i64, intercept: i64) -> (r: i64)
    ensures
        r as int == fit_r2_s(d@, slope as int, intercept as int),
        r <= FX_ONE,
{
    proof {
        lemma_r2_upper(d@, slope as int, intercept as int);
    }
    let n = d.len();
    let wide: u64 = n as u64;
    let nf = fx_from_int(if wide > 0x7fffffffffffffffu64 {
        i64::MAX
    } else {
        wide as i64
    });
    proof {
        if (n as u64) > 0x7fffffffffffffffu64 {
            assert(fx_clip_s((n as int) * (FX_ONE as int)) == i64::MAX as int) by (nonlinear_arith)
                requires (n as int) > 0x7fffffffffffffff && FX_ONE == 1048576;
        }
    }
    let (_sx, sy, _sxx, _sxy) = regression_sums(d);
    let mean_y = fx_div(sy, nf);
    let mut sstot: i64 = 0;
    let mut ssres: i64 = 0;
    let mut i: usize = 0;
    while i < n
        invariant
            n == d.len(),
            i <= n,
            sstot as int == ss_tot_s(d@.take(i as int), mean_y as int),
            ssres as int == ss_res_s(d@.take(i as int), slope as int, intercept as int),
        decreases n - i,
    {
        proof {
            assert(d@.take(i + 1).drop_last() == d@.take(i as int));
        }
        let (x, y) = d[i];
        let dev_t = fx_sub(y, mean_y);
        sstot = fx_add(sstot, fx_mul(dev_t, dev_t));
        let pred = fx_add(intercept, fx_mul(slope, x));
        let dev_r = fx_sub(y, pred);
        ssres = fx_add(ssres, fx_mul(dev_r, dev_r));
        i = i + 1;
    }
    proof {
        assert(d@.take(n as int) == d@);
    }
    if sstot > 0 {
        fx_sub(FX_ONE, fx_div(ssres, sstot))
    } else {
        0
    }
}

/// Calculate the fractal dimension, prefactor and fit quality from the
/// `(N, Rg)` growth history, under the particle-cluster convention
/// (`ln Rg` regressed on `ln N`, the slope inverted).  Fewer than three
/// valid samples yield the neutral default `(2, 1, 0)`.
pub fn calculate_fractal_dimension(n_values: &Vec<usize>, rg_values: &Vec<i64>) -> (r: (
    i64,
    i64,
    i64,
))
    ensures
        (r.0 as int, r.1 as int, r.2 as int) == calc_fd_s(n_values@, rg_values@),
        FX_ONE <= r.0 <= 3 * FX_ONE,
        r.1 >= FX_TENTH,
        r.2 <= FX_ONE,
{
    if n_values.len() < 3 || n_values.len() != rg_values.len() {
        return (2 * FX_ONE, FX_ONE, 0);
    }
    let n = n_values.len();
    let mut data: Vec<(i64, i64)> = Vec::new();
    let mut i: usize = 0;
    while i < n
        invariant
            n == n_values.len(),
            n == rg_values.len(),
            i <= n,
            data@ == fit_points_s(n_values@.take(i as int), rg_values@.take(i as int)),
        decreases n - i,
    {
        proof {
            assert(n_values@.take(i + 1).drop_last() == n_values@.take(i as int));
            assert(rg_values@.take(i + 1).drop_last() == rg_values@.take(i as int));
        }
        let cnt = n_values[i];
        let rg = rg_values[i];
        if cnt > 1 && rg > 0 {
            let x = ln_of_count(cnt);
            let y = fx_ln(rg);
            data.push((x, y));
        }
        i = i + 1;
    }
    proof {
        assert(n_values@.take(n as int) == n_values@);
        assert(rg_values@.take(n as int) == rg_values@);
    }
    if data.len() < 3 {
        return (2 * FX_ONE, FX_ONE, 0);
    }
    let m = data.len();
    let wide: u64 = m as u64;
    let nf = fx_from_int(if wide > 0x7fffffffffffffffu64 {
        i64::MAX
    } else {
        wide as i64
    });
    proof {
        if (m as u64) > 0x7fffffffffffffffu64 {
            assert(fx_clip_s((m as int) * (FX_ONE as int)) == i64::MAX as int) by (nonlinear_arith)
                requires (m as int) > 0x7fffffffffffffff && FX_ONE == 1048576;
        }
    }
    let (sx, sy, sxx, sxy) = regression_sums(&data);
    let denom = fx_sub(fx_mul(nf, sxx), fx_mul(sx, sx));
    let slope = fx_div(fx_sub(fx_mul(nf, sxy), fx_mul(sx, sy)), denom);
    let intercept = fx_div(fx_sub(sy, fx_mul(slope, sx)), nf);
    let slope_abs = if slope >= 0 {
        slope
    } else {
        fx_sub(0, slope)
    };
    let df_raw = if slope_abs > FX_CENT {
        fx_div(FX_ONE, slope)
    } else {
        2 * FX_ONE
    };
    let kf_raw = fx_exp(fx_mul(intercept, df_raw));
    let df = if df_raw < FX_ONE {
        FX_ONE
    } else if df_raw > 3 * FX_ONE {
        3 * FX_ONE
    } else {
        df_raw
    };
    let kf = if kf_raw < FX_TENTH {
        FX_TENTH
    } else {
        kf_raw
    };
    let r2 = regression_r2(&data, slope, intercept);
    (df, kf, r2)
}

/// Calculate the fractal dimension, prefactor and fit quality from the
/// `(N, Rg)` growth history, under the tunable convention (`ln N`
/// regressed on `ln(Rg / rp)`, the slope taken as the dimension).  Fewer
/// than three valid samples, or a degenerate denominator, yield the
/// neutral default `(2, 1, 0)`.
pub fn calculate_fractal_dimension_from_evolution(
    n_values: &Vec<usize>,
    rg_values: &Vec<i64>,
    rp: i64,
) -> (r: (i64, i64, i64))
    ensures
        (r.0 as int, r.1 as int, r.2 as int) == calc_fd_evo_s(n_values@, rg_values@, rp as int),
        FX_ONE <= r.0 <= 3 * FX_ONE,
        FX_TENTH <= r.1 <= 10 * FX_ONE,
        r.2 <= FX_ONE,
{
    if n_values.len() < 3 || n_values.len() != rg_values.len() {
        return (2 * FX_ONE, FX_ONE, 0);
    }
    let n = n_values.len();
    let floor_rg = fx_mul(rp, FX_TENTH);
    let mut data: Vec<(i64, i64)> = Vec::new();
    let mut i: usize = 0;
    while i < n
        invariant
            n == n_values.len(),
            n == rg_values.len(),
            i <= n,
            floor_rg as int == fx_mul_s(rp as int, FX_TENTH as int),
            data@ == fit_points_evo_s(n_values@.take(i as int), rg_values@.take(i as int), rp as int),
        decreases n - i,
    {
        proof {
            assert(n_values@.take(i + 1).drop_last() == n_values@.take(i as int));
            assert(rg_values@.take(i + 1).drop_last() == rg_values@.take(i as int));
        }
        let cnt = n_values[i];
        let rg = rg_values[i];
        if cnt > 1 && rg > floor_rg {
            let x = fx_ln(fx_div(rg, rp));
            let y = ln_of_count(cnt);
            data.push((x, y));
        }
        i = i + 1;
    }
    proof {
        assert(n_values@.take(n as int) == n_values@);
        assert(rg_values@.take(n as int) == rg_values@);
    }
    if data.len() < 3 {
        return (2 * FX_ONE, FX_ONE, 0);
    }
    let m = data.len();
    let wide: u64 = m as u64;
    let nf = fx_from_int(if wide > 0x7fffffffffffffffu64 {
        i64::MAX
    } else {
        wide as i64
    });
    proof {
        if (m as u64) > 0x7fffffffffffffffu64 {
            assert(fx_clip_s((m as int) * (FX_ONE as int)) == i64::MAX as int) by (nonlinear_arith)
                requires (m as int) > 0x7fffffffffffffff && FX_ONE == 1048576;
        }
    }
    let (sx, sy, sxx, sxy) = regression_sums(&data);
    let denom = fx_sub(fx_mul(nf, sxx), fx_mul(sx, sx));
    if denom == 0 {
        return (2 * FX_ONE, FX_ONE, 0);
    }
    let slope = fx_div(fx_sub(fx_mul(nf, sxy), fx_mul(sx, sy)), denom);
    let intercept = fx_div(fx_sub(sy, fx_mul(slope, sx)), nf);
    let df = if slope < FX_ONE {
        FX_ONE
    } else if slope > 3 * FX_ONE {
        3 * FX_ONE
    } else {
        slope
    };
    let kf_raw = fx_exp(intercept);
    let kf = if kf_raw < FX_TENTH {
        FX_TENTH
    } else if kf_raw > 10 * FX_ONE {
        10 * FX_ONE
    } else {
        kf_raw
    };
    let r2 = regression_r2(&data, slope, intercept);
    (df, kf, r2)
}

} // verus!

verus! {

/// Two particles are in contact within tolerance: the center distance is
/// within `tol` of the sum of radii.
pub open spec fn in_contact_s(ci: Vector3, ri: int, cj: Vector3, rj: int, tol: int) -> bool {
    abs_s(fx_sub_s(v3_dist_s(ci, cj), fx_add_s(ri, rj))) <= tol
}

/// Number of particles with index below `j`, other than `i`, in contact
/// with particle `i`.
pub open spec fn contact_count_s(
    coords: Seq<Vector3>,
    radii: Seq<i64>,
    tol: int,
    i: int,
    j: int,
) -> int
    decreases j,
{
    if j <= 0 {
        0
    } else {
        contact_count_s(coords, radii, tol, i, j - 1) + if j - 1 != i && in_contact_s(
            coords[j - 1],
            radii[j - 1] as int,
            coords[i],
            radii[i] as int,
            tol,
        ) {
            1int
        } else {
            0int
        }
    }
}

/// Calculate the coordination number (count of touching neighbors, within
/// tolerance) of each particle.
pub fn calculate_coordination(
    coordinates: &Vec<Vector3>,
    radii: &Vec<i64>,
    tolerance: i64,
) -> (r: Vec<u32>)
    requires
        coordinates.len() == radii.len(),
        coordinates.len() < 0x100000000,
    ensures
        r.len() == coordinates.len(),
        forall|i: int|
            0 <= i < r.len() ==> r@[i] as int == contact_count_s(
                coordinates@,
                radii@,
                tolerance as int,
                i,
                coordinates@.len() as int,
            ),
{
    let n = coordinates.len();
    let mut result: Vec<u32> = Vec::new();
    let mut i: usize = 0;
    while i < n
        invariant
            n == coordinates.len(),
            n == radii.len(),
            n < 0x100000000,
            i <= n,
            result.len() == i,
            forall|k: int|
                0 <= k < i ==> result@[k] as int == contact_count_s(
                    coordinates@,
                    radii@,
                    tolerance as int,
                    k,
                    n as int,
                ),
        decreases n - i,
    {
        let ci = coordinates[i];
        let ri = radii[i];
        let mut count: u32 = 0;
        let mut j: usize = 0;
        while j < n
            invariant
                n == coordinates.len(),
                n == radii.len(),
                n < 0x100000000,
                i < n,
                j <= n,
                ci == coordinates@[i as int],
                ri == radii@[i as int],
                count as int == contact_count_s(
                    coordinates@,
                    radii@,
                    tolerance as int,
                    i as int,
                    j as int,
                ),
                count as int <= j as int,
            decreases n - j,
        {
            if j != i {
                let dist = coordinates[j].distance_to(&ci);
                let contact = fx_add(radii[j], ri);
                let gap = fx_sub(dist, contact);
                let gap_abs = if gap >= 0 {
                    gap
                } else {
                    fx_sub(0, gap)
                };
                proof {
                    assert(gap_abs as int == abs_s(gap as int));
                }
                if gap_abs <= tolerance {
                    count = count + 1;
                }
            }
            j = j + 1;
        }
        result.push(count);
        i = i + 1;
    }
    result
}

/// Total particle volume: 4/3 pi r^3 summed over the particles.
pub open spec fn sum_volume_s(radii: Seq<i64>) -> int
    decreases radii.len(),
{
    if radii.len() == 0 {
        0
    } else {
        fx_add_s(
            sum_volume_s(radii.drop_last()),
            fx_mul_s(FX_FOUR_THIRDS_PI as int, mass_s(radii.last() as int)),
        )
    }
}

/// Porosity: one minus the ratio of the particle volume to the volume of a
/// sphere of radius twice the radius of gyration, clamped to `[0, 1]`; one
/// for an empty or degenerate agglomerate.
pub open spec fn porosity_s(coords: Seq<Vector3>, radii: Seq<i64>) -> int {
    if coords.len() == 0 {
        FX_ONE as int
    } else {
        let pv = sum_volume_s(radii);
        let rg = radius_of_gyration_s(coords, radii);
        let diam = fx_add_s(rg, rg);
        let bv = fx_mul_s(FX_FOUR_THIRDS_PI as int, fx_mul_s(fx_mul_s(diam, diam), diam));
        if bv > 0 {
            let frac = fx_div_s(pv, bv);
            let clamped = if frac < 0 {
                0
            } else if frac > FX_ONE as int {
                FX_ONE as int
            } else {
                frac
            };
            fx_sub_s(FX_ONE as int, clamped)
        } else {
            FX_ONE as int
        }
    }
}

/// Calculate the porosity of the agglomerate.
pub fn calculate_porosity(coordinates: &Vec<Vector3>, radii: &Vec<i64>) -> (r: i64)
    requires
        coordinates.len() == radii.len(),
    ensures
        r as int == porosity_s(coordinates@, radii@),
        0 <= r <= FX_ONE,
{
    let n = coordinates.len();
    if n == 0 {
        return FX_ONE;
    }
    let mut pv: i64 = 0;
    let mut i: usize = 0;
    while i < n
        invariant
            n == radii.len(),
            i <= n,
            pv as int == sum_volume_s(radii@.take(i as int)),
        decreases n - i,
    {
        proof {
            assert(radii@.take(i + 1).drop_last() == radii@.take(i as int));
        }
        pv = fx_add(pv, fx_mul(FX_FOUR_THIRDS_PI, mass_of(radii[i])));
        i = i + 1;
    }
    proof {
        assert(radii@.take(n as int) == radii@);
    }
    let rg = calculate_radius_of_gyration(coordinates, radii);
    let diam = fx_add(rg, rg);
    let bv = fx_mul(FX_FOUR_THIRDS_PI, fx_mul(fx_mul(diam, diam), diam));
    if bv > 0 {
        let frac = fx_div(pv, bv);
        let clamped = if frac < 0 {
            0
        } else if frac > FX_ONE {
            FX_ONE
        } else {
            frac
        };
        fx_sub(FX_ONE, clamped)
    } else {
        FX_ONE
    }
}

/// Plain sum of coordination counts.
pub open spec fn sum_counts_s(s: Seq<u32>) -> int
    decreases s.len(),
{
    if s.len() == 0 {
        0
    } else {
        sum_counts_s(s.drop_last()) + s.last() as int
    }
}

/// Sum of squared deviations of the counts from a fixed-point mean.
pub open spec fn sum_sq_dev_s(s: Seq<u32>, mean: int) -> int
    decreases s.len(),
{
    if s.len() == 0 {
        0
    } else {
        let d = fx_sub_s(fx_clip_s((s.last() as int) * (FX_ONE as int)), mean);
        fx_add_s(sum_sq_dev_s(s.drop_last(), mean), fx_mul_s(d, d))
    }
}

/// Mean of the counts as a fixed-point value; zero for no counts.
pub open spec fn counts_mean_s(s: Seq<u32>) -> int {
    if s.len() == 0 {
        0
    } else {
        fx_div_s(
            fx_clip_s(sum_counts_s(s) * (FX_ONE as int)),
            fx_clip_s((s.len() as int) * (FX_ONE as int)),
        )
    }
}

/// Population standard deviation of the counts; zero for no counts.
pub open spec fn counts_std_s(s: Seq<u32>) -> int {
    if s.len() == 0 {
        0
    } else {
        fx_sqrt_s(
            fx_div_s(
                sum_sq_dev_s(s, counts_mean_s(s)),
                fx_clip_s((s.len() as int) * (FX_ONE as int)),
            ),
        )
    }
}

/// Mean and standard deviation of the coordination counts.
pub fn coordination_stats(counts: &Vec<u32>) -> (r: (i64, i64))
    requires
        counts.len() < 0x100000000,
    ensures
        r.0 as int == counts_mean_s(counts@),
        r.1 as int == counts_std_s(counts@),
{
    let n = counts.len();
    if n == 0 {
        return (0, 0);
    }
    let mut total: u64 = 0;
    let mut i: usize = 0;
    while i < n
        invariant
            n == counts.len(),
            n < 0x100000000,
            i <= n,
            total as int == sum_counts_s(counts@.take(i as int)),
            total as int <= (i as int) * 0x100000000,
        decreases n - i,
    {
        proof {
            assert(counts@.take(i + 1).drop_last() == counts@.take(i as int));
            assert((i as int) * 0x100000000 + 0x100000000 <= 0x100000000 * 0x100000000)
                by (nonlinear_arith)
                requires (i as int) < 0x100000000;
        }
        total = total + counts[i] as u64;
        i = i + 1;
    }
    proof {
        assert(counts@.take(n as int) == counts@);
        assert((n as int) * 0x100000000 <= 0x100000000 * 0x100000000) by (nonlinear_arith)
            requires (n as int) <= 0x100000000;
    }
    let total_fx = fx_from_int(if total > 0x7fffffffffffffffu64 {
        i64::MAX
    } else {
        total as i64
    });
    proof {
        if total > 0x7fffffffffffffffu64 {
            assert(fx_clip_s((total as int) * (FX_ONE as int)) == i64::MAX as int)
                by (nonlinear_arith)
                requires (total as int) > 0x7fffffffffffffff && FX_ONE == 1048576;
        }
    }
    let wide: u64 = n as u64;
    let nf = fx_from_int(wide as i64);
    proof {
        assert(fx_clip_s((n as int) * (FX_ONE as int)) == (n as int) * (FX_ONE as int))
            by (nonlinear_arith)
            requires 0 < (n as int) < 0x100000000 && FX_ONE == 1048576;
    }
    let mean = fx_div(total_fx, nf);
    let mut acc: i64 = 0;
    let mut j: usize = 0;
    while j < n
        invariant
            n == counts.len(),
            j <= n,
            mean as int == counts_mean_s(counts@),
            acc as int == sum_sq_dev_s(counts@.take(j as int), mean as int),
        decreases n - j,
    {
        proof {
            assert(counts@.take(j + 1).drop_last() == counts@.take(j as int));
        }
        let c_fx = fx_from_int(counts[j] as i64);
        let d = fx_sub(c_fx, mean);
        acc = fx_add(acc, fx_mul(d, d));
        j = j + 1;
    }
    proof {
        assert(counts@.take(n as int) == counts@);
    }
    let std = fx_sqrt(fx_div(acc, nf));
    (mean, std)
}

} // verus!

verus! {

/// Results from inertia tensor analysis.
#[derive(Debug, Clone)]
pub struct InertiaTensorResult {
    /// Principal moments of inertia, sorted ascending.
    pub principal_moments: Vec<i64>,
    /// Principal axes (eigenvectors), one per moment.
    pub principal_axes: Vec<Vector3>,
    /// Anisotropy factor: largest moment over smallest.
    pub anisotropy: i64,
    /// Asphericity: deviation from spherical symmetry, normalized by trace.
    pub asphericity: i64,
    /// Acylindricity: deviation from cylindrical symmetry, normalized by
    /// trace.
    pub acylindricity: i64,
}

/// The anisotropy of three sorted moments.
pub open spec fn anisotropy_s(i1: int, i3: int) -> int {
    fx_div_s(i3, i1)
}

/// The asphericity of three sorted moments.
pub open spec fn asphericity_s(i1: int, i2: int, i3: int) -> int {
    let trace = fx_add_s(fx_add_s(i1, i2), i3);
    if trace > 0 {
        fx_div_s(fx_sub_s(i3, crate::sintering::half_s(fx_add_s(i1, i2))), trace)
    } else {
        0
    }
}

/// The acylindricity of three sorted moments.
pub open spec fn acylindricity_s(i1: int, i2: int, i3: int) -> int {
    let trace = fx_add_s(fx_add_s(i1, i2), i3);
    if trace > 0 {
        fx_div_s(fx_sub_s(i2, i1), trace)
    } else {
        0
    }
}

/// Halving toward zero.
fn half_fx(a: i64) -> (r: i64)
    ensures
        r as int == crate::sintering::half_s(a as int),
{
    if a >= 0 {
        ((a as u64) / 2) as i64
    } else {
        let m: u128 = (-(a as i128)) as u128;
        let h: u128 = m / 2;
        -(h as i64)
    }
}

/// Calculate the inertia tensor about the center of mass (mass proportional
/// to the cubed radius), its principal moments and axes by cyclic Jacobi
/// rotations, and the derived shape descriptors.  Fewer than two particles
/// yield the isotropic default.  The moments come out sorted ascending and
/// at least one unit; the descriptors are exact functions of the sorted
/// moments.
pub fn calculate_inertia_tensor(coordinates: &Vec<Vector3>, radii: &Vec<i64>) -> (r:
    InertiaTensorResult)
    requires
        coordinates.len() == radii.len(),
    ensures
        r.principal_moments.len() == 3,
        r.principal_axes.len() == 3,
        1 <= r.principal_moments@[0] <= r.principal_moments@[1] <= r.principal_moments@[2],
        r.anisotropy as int == anisotropy_s(
            r.principal_moments@[0] as int,
            r.principal_moments@[2] as int,
        ),
        r.asphericity as int == asphericity_s(
            r.principal_moments@[0] as int,
            r.principal_moments@[1] as int,
            r.principal_moments@[2] as int,
        ),
        r.acylindricity as int == acylindricity_s(
            r.principal_moments@[0] as int,
            r.principal_moments@[1] as int,
            r.principal_moments@[2] as int,
        ),
        coordinates.len() < 2 ==> {
            &&& r.principal_moments@[0] == FX_ONE && r.principal_moments@[1] == FX_ONE
                && r.principal_moments@[2] == FX_ONE
            &&& r.anisotropy == FX_ONE
            &&& r.asphericity == 0
            &&& r.acylindricity == 0
        },
        coordinates.len() >= 2 ==> {
            &&& r.principal_moments@[0] as int == inertia_moments_s(coordinates@, radii@).0
            &&& r.principal_moments@[1] as int == inertia_moments_s(coordinates@, radii@).1
            &&& r.principal_moments@[2] as int == inertia_moments_s(coordinates@, radii@).2
        },
{
    let n = coordinates.len();
    if n < 2 {
        let mut moments: Vec<i64> = Vec::new();
        moments.push(FX_ONE);
        moments.push(FX_ONE);
        moments.push(FX_ONE);
        let mut axes: Vec<Vector3> = Vec::new();
        axes.push(Vector3 { x: FX_ONE, y: 0, z: 0 });
        axes.push(Vector3 { x: 0, y: FX_ONE, z: 0 });
        axes.push(Vector3 { x: 0, y: 0, z: FX_ONE });
        proof {
            assert((1048576int * 1048576int) / 1048576int == 1048576int) by (nonlinear_arith);
            assert(fx_div_s(FX_ONE as int, FX_ONE as int) == FX_ONE as int);
            assert(asphericity_s(FX_ONE as int, FX_ONE as int, FX_ONE as int) == 0);
            assert(acylindricity_s(FX_ONE as int, FX_ONE as int, FX_ONE as int) == 0);
        }
        return InertiaTensorResult {
            principal_moments: moments,
            principal_axes: axes,
            anisotropy: FX_ONE,
            asphericity: 0,
            acylindricity: 0,
        };
    }
    let cg = calculate_center_of_gravity(coordinates, radii);

    // Accumulate the symmetric tensor.
    let mut a00: i64 = 0;
    let mut a01: i64 = 0;
    let mut a02: i64 = 0;
    let mut a11: i64 = 0;
    let mut a12: i64 = 0;
    let mut a22: i64 = 0;
    let mut i: usize = 0;
    while i < n
        invariant
            n == coordinates.len(),
            n == radii.len(),
            i <= n,
            (a00 as int, a01 as int, a02 as int, a11 as int, a12 as int, a22 as int)
                == tensor_sums_s(coordinates@.take(i as int), radii@.take(i as int), cg),
        decreases n - i,
    {
        proof {
            assert(coordinates@.take(i + 1).drop_last() == coordinates@.take(i as int));
            assert(radii@.take(i + 1).drop_last() == radii@.take(i as int));
        }
        let x = fx_sub(coordinates[i].x, cg.x);
        let y = fx_sub(coordinates[i].y, cg.y);
        let z = fx_sub(coordinates[i].z, cg.z);
        let m = mass_of(radii[i]);
        let xx = fx_mul(x, x);
        let yy = fx_mul(y, y);
        let zz = fx_mul(z, z);
        a00 = fx_add(a00, fx_mul(m, fx_add(yy, zz)));
        a11 = fx_add(a11, fx_mul(m, fx_add(xx, zz)));
        a22 = fx_add(a22, fx_mul(m, fx_add(xx, yy)));
        a01 = fx_sub(a01, fx_mul(m, fx_mul(x, y)));
        a02 = fx_sub(a02, fx_mul(m, fx_mul(x, z)));
        a12 = fx_sub(a12, fx_mul(m, fx_mul(y, z)));
        i = i + 1;
    }

    proof {
        assert(coordinates@.take(n as int) == coordinates@);
        assert(radii@.take(n as int) == radii@);
    }

    // Eigenvectors start as the identity basis.
    let mut v0 = Vector3 { x: FX_ONE, y: 0, z: 0 };
    let mut v1 = Vector3 { x: 0, y: FX_ONE, z: 0 };
    let mut v2 = Vector3 { x: 0, y: 0, z: FX_ONE };
    let ghost ts0 = JacobiState { a00, a01, a02, a11, a12, a22, v0, v1, v2 };

    // Cyclic Jacobi sweeps over the three off-diagonal entries.
    let mut sweep: usize = 0;
    while sweep < 60
        invariant
            sweep <= 60,
            jacobi_run_s(ts0, 0, 60) == jacobi_run_s(
                JacobiState { a00, a01, a02, a11, a12, a22, v0, v1, v2 },
                sweep as nat,
                (60 - sweep) as nat,
            ),
        decreases 60 - sweep,
    {
        let ghost before = JacobiState { a00, a01, a02, a11, a12, a22, v0, v1, v2 };
        let pivot: usize = sweep % 3;
        let apq: i64 = if pivot == 0 {
            a01
        } else if pivot == 1 {
            a02
        } else {
            a12
        };
        if apq != 0 {
            let (app, aqq) = if pivot == 0 {
                (a00, a11)
            } else if pivot == 1 {
                (a00, a22)
            } else {
                (a11, a22)
            };
            let two_apq = fx_add(apq, apq);
            let theta = fx_div(fx_sub(aqq, app), two_apq);
            let theta_abs = if theta >= 0 {
                theta
            } else {
                fx_sub(0, theta)
            };
            let root = fx_sqrt(fx_add(fx_mul(theta, theta), FX_ONE));
            let t_mag = fx_div(FX_ONE, fx_add(theta_abs, root));
            let t = if theta >= 0 {
                t_mag
            } else {
                fx_sub(0, t_mag)
            };
            let c = fx_div(FX_ONE, fx_sqrt(fx_add(fx_mul(t, t), FX_ONE)));
            let s = fx_mul(t, c);
            let tau = fx_mul(t, apq);
            if pivot == 0 {
                // Rotate in the (0, 1) plane.
                let b02 = fx_sub(fx_mul(c, a02), fx_mul(s, a12));
                let b12 = fx_add(fx_mul(s, a02), fx_mul(c, a12));
                a00 = fx_sub(a00, tau);
                a11 = fx_add(a11, tau);
                a01 = 0;
                a02 = b02;
                a12 = b12;
                let w0 = Vector3 {
                    x: fx_sub(fx_mul(c, v0.x), fx_mul(s, v1.x)),
                    y: fx_sub(fx_mul(c, v0.y), fx_mul(s, v1.y)),
                    z: fx_sub(fx_mul(c, v0.z), fx_mul(s, v1.z)),
                };
                let w1 = Vector3 {
                    x: fx_add(fx_mul(s, v0.x), fx_mul(c, v1.x)),
                    y: fx_add(fx_mul(s, v0.y), fx_mul(c, v1.y)),
                    z: fx_add(fx_mul(s, v0.z), fx_mul(c, v1.z)),
                };
                v0 = w0;
                v1 = w1;
            } else if pivot == 1 {
                // Rotate in the (0, 2) plane.
                let b01 = fx_sub(fx_mul(c, a01), fx_mul(s, a12));
                let b12 = fx_add(fx_mul(s, a01), fx_mul(c, a12));
                a00 = fx_sub(a00, tau);
                a22 = fx_add(a22, tau);
                a02 = 0;
                a01 = b01;
                a12 = b12;
                let w0 = Vector3 {
                    x: fx_sub(fx_mul(c, v0.x), fx_mul(s, v2.x)),
                    y: fx_sub(fx_mul(c, v0.y), fx_mul(s, v2.y)),
                    z: fx_sub(fx_mul(c, v0.z), fx_mul(s, v2.z)),
                };
                let w2 = Vector3 {
                    x: fx_add(fx_mul(s, v0.x), fx_mul(c, v2.x)),
                    y: fx_add(fx_mul(s, v0.y), fx_mul(c, v2.y)),
                    z: fx_add(fx_mul(s, v0.z), fx_mul(c, v2.z)),
                };
                v0 = w0;
                v2 = w2;
            } else {
                // Rotate in the (1, 2) plane.
                let b01 = fx_sub(fx_mul(c, a01), fx_mul(s, a02));
                let b02 = fx_add(fx_mul(s, a01), fx_mul(c, a02));
                a11 = fx_sub(a11, tau);
                a22 = fx_add(a22, tau);
                a12 = 0;
                a01 = b01;
                a02 = b02;
                let w1 = Vector3 {
                    x: fx_sub(fx_mul(c, v1.x), fx_mul(s, v2.x)),
                    y: fx_sub(fx_mul(c, v1.y), fx_mul(s, v2.y)),
                    z: fx_sub(fx_mul(c, v1.z), fx_mul(s, v2.z)),
                };
                let w2 = Vector3 {
                    x: fx_add(fx_mul(s, v1.x), fx_mul(c, v2.x)),
                    y: fx_add(fx_mul(s, v1.y), fx_mul(c, v2.y)),
                    z: fx_add(fx_mul(s, v1.z), fx_mul(c, v2.z)),
                };
                v1 = w1;
                v2 = w2;
            }
        }
        proof {
            assert(JacobiState { a00, a01, a02, a11, a12, a22, v0, v1, v2 } == jacobi_step_s(
                before,
                pivot as int,
            ));
        }
        sweep = sweep + 1;
    }
    proof {
        assert(jacobi_run_s(ts0, 0, 60) == (JacobiState {
            a00,
            a01,
            a02,
            a11,
            a12,
            a22,
            v0,
            v1,
            v2,
        }));
    }

    // Clamp the moments to at least one unit and sort the three, carrying
    // their axes along.
    let mut m0: i64 = if a00 < 1 {
        1
    } else {
        a00
    };
    let mut m1: i64 = if a11 < 1 {
        1
    } else {
        a11
    };
    let mut m2: i64 = if a22 < 1 {
        1
    } else {
        a22
    };
    if m0 > m1 {
        let tm = m0;
        m0 = m1;
        m1 = tm;
        let tv = v0;
        v0 = v1;
        v1 = tv;
    }
    if m1 > m2 {
        let tm = m1;
        m1 = m2;
        m2 = tm;
        let tv = v1;
        v1 = v2;
        v2 = tv;
    }
    if m0 > m1 {
        let tm = m0;
        m0 = m1;
        m1 = tm;
        let tv = v0;
        v0 = v1;
        v1 = tv;
    }

    proof {
        assert((m0 as int, m1 as int, m2 as int) == inertia_moments_s(coordinates@, radii@));
    }
    let anisotropy = fx_div(m2, m0);
    let trace = fx_add(fx_add(m0, m1), m2);
    let asphericity = if trace > 0 {
        fx_div(fx_sub(m2, half_fx(fx_add(m0, m1))), trace)
    } else {
        0
    };
    let acylindricity = if trace > 0 {
        fx_div(fx_sub(m1, m0), trace)
    } else {
        0
    };
    let mut moments: Vec<i64> = Vec::new();
    moments.push(m0);
    moments.push(m1);
    moments.push(m2);
    let mut axes: Vec<Vector3> = Vec::new();
    axes.push(v0);
    axes.push(v1);
    axes.push(v2);
    InertiaTensorResult {
        principal_moments: moments,
        principal_axes: axes,
        anisotropy,
        asphericity,
        acylindricity,
    }
}

} // verus!

verus! {

/// A single isolated sphere's radius of gyration carries no positional
/// term: wherever the sphere sits (as long as its weighted moment stays in
/// the wide accumulator range), the center of gravity lands exactly on its
/// center, the distance term vanishes exactly, and the result is the
/// square root of 3/5 of the fifth-power term over the mass -- the
/// fixed-point form of `r * sqrt(3/5)`.
pub proof fn lemma_single_sphere_rg(c: Vector3, r: i64)
    requires
        mass_s(r as int) > 0,
        abs_s(c.x as int) * mass_s(r as int) <= WIDE_LIMIT as int,
        abs_s(c.y as int) * mass_s(r as int) <= WIDE_LIMIT as int,
        abs_s(c.z as int) * mass_s(r as int) <= WIDE_LIMIT as int,
    ensures
        ({
            let m = mass_s(r as int);
            let r5 = fx_mul_s(fx_mul_s(m, r as int), r as int);
            radius_of_gyration_s(seq![c], seq![r]) == fx_sqrt_s(
                fx_div_s(fx_mul_s(FX_THREE_FIFTHS as int, r5), m),
            )
        }),
{
    let coords: Seq<Vector3> = seq![c];
    let radii: Seq<i64> = seq![r];
    let m = mass_s(r as int);
    assert(coords.drop_last() =~= Seq::<Vector3>::empty());
    assert(radii.drop_last() =~= Seq::<i64>::empty());
    assert(coords.last() == c);
    assert(radii.last() == r);
    assert(m <= i64::MAX as int && m >= i64::MIN as int);
    assert(sum_mass_s(Seq::<i64>::empty()) == 0);
    assert(sum_mass_s(radii) == wadd_s(sum_mass_s(radii.drop_last()), m));
    assert(sum_mass_s(radii) == wadd_s(0, m));
    assert(wadd_s(0, m) == m);
    assert(sum_moment_s(Seq::<Vector3>::empty(), Seq::<i64>::empty(), 0) == 0);
    assert(sum_moment_s(Seq::<Vector3>::empty(), Seq::<i64>::empty(), 1) == 0);
    assert(sum_moment_s(Seq::<Vector3>::empty(), Seq::<i64>::empty(), 2) == 0);
    assert(sum_moment_s(coords, radii, 0) == wadd_s(
        sum_moment_s(coords.drop_last(), radii.drop_last(), 0),
        wmul_s(m, c.x as int),
    ));
    assert(sum_moment_s(coords, radii, 1) == wadd_s(
        sum_moment_s(coords.drop_last(), radii.drop_last(), 1),
        wmul_s(m, c.y as int),
    ));
    assert(sum_moment_s(coords, radii, 2) == wadd_s(
        sum_moment_s(coords.drop_last(), radii.drop_last(), 2),
        wmul_s(m, c.z as int),
    ));
    assert(sum_moment_s(coords, radii, 0) == wadd_s(0, wmul_s(m, c.x as int)));
    assert(sum_moment_s(coords, radii, 1) == wadd_s(0, wmul_s(m, c.y as int)));
    assert(sum_moment_s(coords, radii, 2) == wadd_s(0, wmul_s(m, c.z as int)));

    // The weighted moment divides back exactly to the coordinate.
    lemma_exact_moment(c.x as int, m);
    lemma_exact_moment(c.y as int, m);
    lemma_exact_moment(c.z as int, m);
    let cg = center_of_gravity_s(coords, radii);
    assert(cg == c);

    // The distance from the sphere to the center of gravity is exactly
    // zero, so the positional term vanishes.
    let zero_v = crate::geometry::v3_sub_s(c, cg);
    assert(zero_v.x == 0 && zero_v.y == 0 && zero_v.z == 0);
    assert(crate::geometry::v3_norm2_raw_s(zero_v) == 0) by {
        assert(0int * 0int == 0);
    }
    assert(crate::fixed::isqrt_s(0) == 0);
    assert(v3_dist_s(c, cg) == 0);
    assert(fx_mul_s(0, 0) == 0);
    assert(fx_mul_s(m, 0) == 0);

    let r5 = fx_mul_s(fx_mul_s(m, r as int), r as int);
    let term = fx_mul_s(FX_THREE_FIFTHS as int, r5);
    assert(gyration_term_s(c, r as int, cg) == fx_add_s(term, 0));
    assert(fx_add_s(term, 0) == term);
    assert(sum_gyration_s(Seq::<Vector3>::empty(), Seq::<i64>::empty(), cg) == 0);
    assert(sum_gyration_s(coords, radii, cg) == fx_add_s(
        sum_gyration_s(coords.drop_last(), radii.drop_last(), cg),
        gyration_term_s(c, r as int, cg),
    ));
    assert(sum_gyration_s(coords, radii, cg) == fx_add_s(0, term));
    assert(fx_add_s(0, term) == term);
    assert(sum_mass_fx_s(Seq::<i64>::empty()) == 0);
    assert(sum_mass_fx_s(radii) == fx_add_s(sum_mass_fx_s(radii.drop_last()), m));
    assert(sum_mass_fx_s(radii) == fx_add_s(0, m));
    assert(fx_add_s(0, m) == m);
}

/// A weighted moment of one particle divides back exactly to its
/// coordinate.
proof fn lemma_exact_moment(x: int, m: int)
    requires
        m > 0,
        m <= i64::MAX as int,
        -(i64::MAX as int) - 1 <= x <= i64::MAX as int,
        abs_s(x) * m <= WIDE_LIMIT as int,
    ensures
        wdiv_s(wadd_s(0, wmul_s(m, x)), wadd_s(0, m)) == x,
{
    assert(abs_s(m * x) == m * abs_s(x) && (x >= 0 ==> m * x >= 0) && (x < 0 ==> m * x < 0))
        by (nonlinear_arith)
        requires m > 0;
    assert(-(WIDE_LIMIT as int) <= m * x <= WIDE_LIMIT as int) by (nonlinear_arith)
        requires m > 0 && abs_s(x) * m <= WIDE_LIMIT as int && abs_s(m * x) == m * abs_s(x);
    assert(wmul_s(m, x) == m * x);
    assert(wadd_s(0, m) == m);
    assert(wadd_s(0, m * x) == m * x);
    assert((m * abs_s(x)) / m == abs_s(x)) by (nonlinear_arith)
        requires m > 0;
    assert(abs_s(m * x) / m == abs_s(x));
    if x >= 0 {
        assert(wdiv_s(m * x, m) == fx_clip_s(abs_s(x)));
        assert(fx_clip_s(abs_s(x)) == x);
    } else {
        assert(wdiv_s(m * x, m) == fx_clip_s(-abs_s(x)));
        assert(fx_clip_s(-abs_s(x)) == x);
    }
}

} // verus!

verus! {

/// The particle counts recorded by one-at-a-time growth: 1, 2, ..., n.
pub open spec fn growth_counts_s(n: nat) -> Seq<usize> {
    Seq::new(n, |i: int| (i + 1) as usize)
}

} // verus!

verus! {

/// One Jacobi iteration state: the symmetric tensor's six entries and the
/// three accumulated eigenvector columns.
#[derive(PartialEq, Eq, Structural)]
pub struct JacobiState {
    pub a00: i64,
    pub a01: i64,
    pub a02: i64,
    pub a11: i64,
    pub a12: i64,
    pub a22: i64,
    pub v0: Vector3,
    pub v1: Vector3,
    pub v2: Vector3,
}

/// The six tensor entries (a00, a01, a02, a11, a12, a22) accumulated over
/// the particles about the center of gravity, exactly as the fixed-point
/// accumulation computes them.
pub open spec fn tensor_sums_s(coords: Seq<Vector3>, radii: Seq<i64>, cg: Vector3) -> (
    int,
    int,
    int,
    int,
    int,
    int,
)
    decreases coords.len(),
{
    if coords.len() == 0 || radii.len() == 0 {
        (0, 0, 0, 0, 0, 0)
    } else {
        let p = tensor_sums_s(coords.drop_last(), radii.drop_last(), cg);
        let cc = coords.last();
        let x = fx_sub_s(cc.x as int, cg.x as int);
        let y = fx_sub_s(cc.y as int, cg.y as int);
        let z = fx_sub_s(cc.z as int, cg.z as int);
        let m = mass_s(radii.last() as int);
        let xx = fx_mul_s(x, x);
        let yy = fx_mul_s(y, y);
        let zz = fx_mul_s(z, z);
        (
            fx_add_s(p.0, fx_mul_s(m, fx_add_s(yy, zz))),
            fx_sub_s(p.1, fx_mul_s(m, fx_mul_s(x, y))),
            fx_sub_s(p.2, fx_mul_s(m, fx_mul_s(x, z))),
            fx_add_s(p.3, fx_mul_s(m, fx_add_s(xx, zz))),
            fx_sub_s(p.4, fx_mul_s(m, fx_mul_s(y, z))),
            fx_add_s(p.5, fx_mul_s(m, fx_add_s(xx, yy))),
        )
    }
}

/// One cyclic Jacobi rotation at the given pivot (0 rotates the (0,1)
/// plane, 1 the (0,2) plane, anything else the (1,2) plane), exactly as
/// the fixed-point sweep computes it; a zero off-diagonal entry leaves the
/// state unchanged.
pub open spec fn jacobi_step_s(ts: JacobiState, pivot: int) -> JacobiState {
    let apq: i64 = if pivot == 0 {
        ts.a01
    } else if pivot == 1 {
        ts.a02
    } else {
        ts.a12
    };
    if apq == 0 {
        ts
    } else {
        let app: i64 = if pivot == 0 {
            ts.a00
        } else if pivot == 1 {
            ts.a00
        } else {
            ts.a11
        };
        let aqq: i64 = if pivot == 0 {
            ts.a11
        } else if pivot == 1 {
            ts.a22
        } else {
            ts.a22
        };
        let two_apq = fx_add_s(apq as int, apq as int);
        let theta = fx_div_s(fx_sub_s(aqq as int, app as int), two_apq);
        let theta_abs = if theta >= 0 {
            theta
        } else {
            fx_sub_s(0, theta)
        };
        let root = fx_sqrt_s(fx_add_s(fx_mul_s(theta, theta), FX_ONE as int));
        let t_mag = fx_div_s(FX_ONE as int, fx_add_s(theta_abs, root));
        let t = if theta >= 0 {
            t_mag
        } else {
            fx_sub_s(0, t_mag)
        };
        let c = fx_div_s(FX_ONE as int, fx_sqrt_s(fx_add_s(fx_mul_s(t, t), FX_ONE as int)));
        let sn = fx_mul_s(t, c);
        let tau = fx_mul_s(t, apq as int);
        if pivot == 0 {
            JacobiState {
                a00: fx_sub_s(ts.a00 as int, tau) as i64,
                a11: fx_add_s(ts.a11 as int, tau) as i64,
                a01: 0,
                a02: fx_sub_s(fx_mul_s(c, ts.a02 as int), fx_mul_s(sn, ts.a12 as int)) as i64,
                a12: fx_add_s(fx_mul_s(sn, ts.a02 as int), fx_mul_s(c, ts.a12 as int)) as i64,
                a22: ts.a22,
                v0: Vector3 {
                    x: fx_sub_s(fx_mul_s(c, ts.v0.x as int), fx_mul_s(sn, ts.v1.x as int)) as i64,
                    y: fx_sub_s(fx_mul_s(c, ts.v0.y as int), fx_mul_s(sn, ts.v1.y as int)) as i64,
                    z: fx_sub_s(fx_mul_s(c, ts.v0.z as int), fx_mul_s(sn, ts.v1.z as int)) as i64,
                },
                v1: Vector3 {
                    x: fx_add_s(fx_mul_s(sn, ts.v0.x as int), fx_mul_s(c, ts.v1.x as int)) as i64,
                    y: fx_add_s(fx_mul_s(sn, ts.v0.y as int), fx_mul_s(c, ts.v1.y as int)) as i64,
                    z: fx_add_s(fx_mul_s(sn, ts.v0.z as int), fx_mul_s(c, ts.v1.z as int)) as i64,
                },
                v2: ts.v2,
            }
        } else if pivot == 1 {
            JacobiState {
                a00: fx_sub_s(ts.a00 as int, tau) as i64,
                a22: fx_add_s(ts.a22 as int, tau) as i64,
                a02: 0,
                a01: fx_sub_s(fx_mul_s(c, ts.a01 as int), fx_mul_s(sn, ts.a12 as int)) as i64,
                a12: fx_add_s(fx_mul_s(sn, ts.a01 as int), fx_mul_s(c, ts.a12 as int)) as i64,
                a11: ts.a11,
                v0: Vector3 {
                    x: fx_sub_s(fx_mul_s(c, ts.v0.x as int), fx_mul_s(sn, ts.v2.x as int)) as i64,
                    y: fx_sub_s(fx_mul_s(c, ts.v0.y as int), fx_mul_s(sn, ts.v2.y as int)) as i64,
                    z: fx_sub_s(fx_mul_s(c, ts.v0.z as int), fx_mul_s(sn, ts.v2.z as int)) as i64,
                },
                v2: Vector3 {
                    x: fx_add_s(fx_mul_s(sn, ts.v0.x as int), fx_mul_s(c, ts.v2.x as int)) as i64,
                    y: fx_add_s(fx_mul_s(sn, ts.v0.y as int), fx_mul_s(c, ts.v2.y as int)) as i64,
                    z: fx_add_s(fx_mul_s(sn, ts.v0.z as int), fx_mul_s(c, ts.v2.z as int)) as i64,
                },
                v1: ts.v1,
            }
        } else {
            JacobiState {
                a11: fx_sub_s(ts.a11 as int, tau) as i64,
                a22: fx_add_s(ts.a22 as int, tau) as i64,
                a12: 0,
                a01: fx_sub_s(fx_mul_s(c, ts.a01 as int), fx_mul_s(sn, ts.a02 as int)) as i64,
                a02: fx_add_s(fx_mul_s(sn, ts.a01 as int), fx_mul_s(c, ts.a02 as int)) as i64,
                a00: ts.a00,
                v1: Vector3 {
                    x: fx_sub_s(fx_mul_s(c, ts.v1.x as int), fx_mul_s(sn, ts.v2.x as int)) as i64,
                    y: fx_sub_s(fx_mul_s(c, ts.v1.y as int), fx_mul_s(sn, ts.v2.y as int)) as i64,
                    z: fx_sub_s(fx_mul_s(c, ts.v1.z as int), fx_mul_s(sn, ts.v2.z as int)) as i64,
                },
                v2: Vector3 {
                    x: fx_add_s(fx_mul_s(sn, ts.v1.x as int), fx_mul_s(c, ts.v2.x as int)) as i64,
                    y: fx_add_s(fx_mul_s(sn, ts.v1.y as int), fx_mul_s(c, ts.v2.y as int)) as i64,
                    z: fx_add_s(fx_mul_s(sn, ts.v1.z as int), fx_mul_s(c, ts.v2.z as int)) as i64,
                },
                v0: ts.v0,
            }
        }
    }
}

/// `k` cyclic Jacobi rotations starting at sweep index `s`.
pub open spec fn jacobi_run_s(ts: JacobiState, s: nat, k: nat) -> JacobiState
    decreases k,
{
    if k == 0 {
        ts
    } else {
        jacobi_run_s(jacobi_step_s(ts, (s % 3) as int), s + 1, (k - 1) as nat)
    }
}

/// A moment clamped to at least one unit.
pub open spec fn clamp_moment_s(v: int) -> int {
    if v < 1 {
        1
    } else {
        v
    }
}

/// Three values sorted ascending by three compare-swaps.
pub open spec fn sorted3_s(m0: int, m1: int, m2: int) -> (int, int, int) {
    let p = if m0 > m1 {
        (m1, m0)
    } else {
        (m0, m1)
    };
    let q = if p.1 > m2 {
        (m2, p.1)
    } else {
        (p.1, m2)
    };
    let w = if p.0 > q.0 {
        (q.0, p.0)
    } else {
        (p.0, q.0)
    };
    (w.0, w.1, q.1)
}

/// The principal moments the inertia analysis reports for two or more
/// particles: the tensor about the center of gravity, sixty cyclic Jacobi
/// rotations from the identity basis, the diagonal clamped to at least one
/// unit, sorted ascending.
pub open spec fn inertia_moments_s(coords: Seq<Vector3>, radii: Seq<i64>) -> (int, int, int) {
    let cg = center_of_gravity_s(coords, radii);
    let t = tensor_sums_s(coords, radii, cg);
    let ts0 = JacobiState {
        a00: t.0 as i64,
        a01: t.1 as i64,
        a02: t.2 as i64,
        a11: t.3 as i64,
        a12: t.4 as i64,
        a22: t.5 as i64,
        v0: Vector3 { x: FX_ONE, y: 0, z: 0 },
        v1: Vector3 { x: 0, y: FX_ONE, z: 0 },
        v2: Vector3 { x: 0, y: 0, z: FX_ONE },
    };
    let tf = jacobi_run_s(ts0, 0, 60);
    sorted3_s(
        clamp_moment_s(tf.a00 as int),
        clamp_moment_s(tf.a11 as int),
        clamp_moment_s(tf.a22 as int),
    )
}

} // verus!
