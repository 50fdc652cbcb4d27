//! Sintering coefficient sampling for particle aggregation.
//!
//! Sintering stands for the neck formation (overlap) between particles at
//! contact points.  A coefficient of one means particles just touch; values
//! below one shrink the center-to-center contact distance below the sum of
//! radii.  Coefficients are fixed-point values confined to `[1/2, 1]`,
//! sampled from a fixed value, a uniform range, or a bell-shaped
//! distribution (a sum of twelve uniform draws).

use vstd::prelude::*;
use crate::fixed::{fx_add, fx_add_s, fx_mul, fx_mul_s, fx_sub, FX_ONE};
use crate::rng::SplitMix64;

verus! {

/// Half of the fixed-point unit: the lower bound of every coefficient.
pub const FX_HALF: i64 = 524288;

/// The largest coefficient regarded as enabling sintering (just below one).
pub const SINTER_THRESHOLD: i64 = 1047527;

/// Sintering distribution type for particle contacts.
#[derive(Debug, Clone, Copy, PartialEq, Eq, Structural)]
pub enum SinteringDistribution {
    /// Fixed sintering coefficient (same for all contacts).
    Fixed(i64),
    /// Uniform draw from `[min, max]`.
    Uniform { min: i64, max: i64 },
    /// Bell-shaped draw around `mean` with spread `std`, clamped to
    /// `[1/2, 1]`.
    Normal { mean: i64, std: i64 },
}

/// Clamp into `[lo, hi]` (for `lo <= hi`).
pub open spec fn clamp_s(v: int, lo: int, hi: int) -> int {
    if v < lo {
        lo
    } else if v > hi {
        hi
    } else {
        v
    }
}

/// Halving toward zero.
pub open spec fn half_s(a: int) -> int {
    if a >= 0 {
        a / 2
    } else {
        -((-a) / 2)
    }
}

/// The distribution's mean coefficient.
pub open spec fn dist_mean_s(d: SinteringDistribution) -> int {
    match d {
        SinteringDistribution::Fixed(v) => v as int,
        SinteringDistribution::Uniform { min, max } => half_s(fx_add_s(min as int, max as int)),
        SinteringDistribution::Normal { mean, std: _ } => mean as int,
    }
}

/// The distribution's coefficients lie in the legal range `[1/2, 1]` (a
/// bell-shaped draw is clamped there by sampling itself).
pub open spec fn sintering_ok_s(d: SinteringDistribution) -> bool {
    match d {
        SinteringDistribution::Fixed(v) => FX_HALF <= v <= FX_ONE,
        SinteringDistribution::Uniform { min, max } => FX_HALF <= min <= max <= FX_ONE,
        SinteringDistribution::Normal { mean: _, std: _ } => true,
    }
}

/// The distribution with every coefficient re-clamped into its legal
/// range, exactly as the constructors clamp.
pub open spec fn normalize_sintering_s(d: SinteringDistribution) -> SinteringDistribution {
    match d {
        SinteringDistribution::Fixed(v) => SinteringDistribution::Fixed(
            clamp_s(v as int, FX_HALF as int, FX_ONE as int) as i64,
        ),
        SinteringDistribution::Uniform { min, max } => {
            let lo = clamp_s(min as int, FX_HALF as int, FX_ONE as int);
            SinteringDistribution::Uniform {
                min: lo as i64,
                max: clamp_s(max as int, lo, FX_ONE as int) as i64,
            }
        },
        SinteringDistribution::Normal { mean, std } => SinteringDistribution::Normal {
            mean: clamp_s(mean as int, FX_HALF as int, FX_ONE as int) as i64,
            std: clamp_s(crate::fixed::abs_s(std as int), 0, 209715) as i64,
        },
    }
}

/// Contact distance under sintering: the coefficient times the sum of radii.
pub open spec fn sintered_contact_s(r1: int, r2: int, coeff: int) -> int {
    fx_mul_s(coeff, fx_add_s(r1, r2))
}

/// Halving toward zero.
fn half(a: i64) -> (r: i64)
    ensures
        r as int == half_s(a as int),
{
    if a >= 0 {
        ((a as u64) / 2) as i64
    } else {
        let m: u128 = (-(a as i128)) as u128;
        let h: u128 = m / 2;
        -(h as i64)
    }
}

impl SinteringDistribution {
    /// Create a fixed sintering coefficient, clamped to `[1/2, 1]`.
    pub fn fixed(value: i64) -> (r: Self)
        ensures
            r == SinteringDistribution::Fixed(
                clamp_s(value as int, FX_HALF as int, FX_ONE as int) as i64,
            ),
    {
        let v = if value < FX_HALF {
            FX_HALF
        } else if value > FX_ONE {
            FX_ONE
        } else {
            value
        };
        SinteringDistribution::Fixed(v)
    }

    /// Create a uniform distribution; the bounds are clamped to `[1/2, 1]`
    /// with `max` at least `min`.
    pub fn uniform(min: i64, max: i64) -> (r: Self)
        ensures
            ({
                let lo = clamp_s(min as int, FX_HALF as int, FX_ONE as int);
                let hi = clamp_s(max as int, lo, FX_ONE as int);
                r == SinteringDistribution::Uniform { min: lo as i64, max: hi as i64 }
            }),
    {
        let lo = if min < FX_HALF {
            FX_HALF
        } else if min > FX_ONE {
            FX_ONE
        } else {
            min
        };
        let hi = if max < lo {
            lo
        } else if max > FX_ONE {
            FX_ONE
        } else {
            max
        };
        SinteringDistribution::Uniform { min: lo, max: hi }
    }

    /// Create a bell-shaped distribution; the mean is clamped to `[1/2, 1]`
    /// and the spread limited to a fifth of the unit.
    pub fn normal(mean: i64, std: i64) -> (r: Self)
        ensures
            ({
                let m = clamp_s(mean as int, FX_HALF as int, FX_ONE as int);
                let s = clamp_s(crate::fixed::abs_s(std as int), 0, 209715);
                r == SinteringDistribution::Normal { mean: m as i64, std: s as i64 }
            }),
    {
        let m = if mean < FX_HALF {
            FX_HALF
        } else if mean > FX_ONE {
            FX_ONE
        } else {
            mean
        };
        let a = if std >= 0 {
            std
        } else if std == i64::MIN {
            i64::MAX
        } else {
            -std
        };
        proof {
            if std == i64::MIN {
                assert(crate::fixed::abs_s(std as int) > 209715);
            }
        }
        let s = if a > 209715 {
            209715
        } else {
            a
        };
        SinteringDistribution::Normal { mean: m, std: s }
    }

    /// Sample a coefficient.  A fixed distribution returns its value and
    /// leaves the generator untouched; a uniform one consumes exactly one
    /// draw, whose placement in the range is pinned; a bell-shaped one
    /// consumes exactly twelve draws and yields their centered sum scaled
    /// by the spread, shifted to the mean and clamped to `[1/2, 1]`.
    pub fn sample(&self, rng: &mut SplitMix64) -> (r: i64)
        ensures
            sintering_ok_s(*self) ==> FX_HALF <= r <= FX_ONE,
            match *self {
                SinteringDistribution::Fixed(v) => r == v && final(rng).state == old(rng).state,
                SinteringDistribution::Uniform { min, max } => if min <= max {
                    &&& min <= r <= max
                    &&& final(rng).state == crate::rng::rng_step_s(old(rng).state)
                    &&& r as int == fx_add_s(
                        min as int,
                        fx_mul_s(
                            crate::fixed::fx_sub_s(max as int, min as int),
                            (crate::rng::rng_out_s(final(rng).state) >> 44) as int,
                        ),
                    )
                } else {
                    r == min && final(rng).state == old(rng).state
                },
                SinteringDistribution::Normal { mean, std } => {
                    &&& FX_HALF <= r <= FX_ONE
                    &&& final(rng).state == crate::rng::rng_step_n_s(old(rng).state, 12)
                    &&& r as int == clamp_s(
                        fx_add_s(
                            mean as int,
                            fx_mul_s(
                                crate::rng::unit_sum_s(old(rng).state, 12) - 6 * (FX_ONE as int),
                                std as int,
                            ),
                        ),
                        FX_HALF as int,
                        FX_ONE as int,
                    )
                },
            },
    {
        match self {
            SinteringDistribution::Fixed(v) => *v,
            SinteringDistribution::Uniform { min, max } => {
                if *min <= *max {
                    rng.next_range(*min, *max)
                } else {
                    *min
                }
            },
            SinteringDistribution::Normal { mean, std } => {
                let ghost s0 = rng.state;
                let mut acc: i64 = 0;
                let mut i: usize = 0;
                while i < 12
                    invariant
                        i <= 12,
                        0 <= acc <= (i as int) * (FX_ONE as int),
                        rng.state == crate::rng::rng_step_n_s(s0, i as nat),
                        acc as int == crate::rng::unit_sum_s(s0, i as nat),
                    decreases 12 - i,
                {
                    proof {
                        crate::rng::lemma_rng_step_n_snoc(s0, i as nat);
                    }
                    let u = rng.next_unit();
                    acc = acc + u;
                    i = i + 1;
                }
                let z = acc - 6 * FX_ONE;
                let offset = fx_mul(z, *std);
                let value = fx_add(*mean, offset);
                if value < FX_HALF {
                    FX_HALF
                } else if value > FX_ONE {
                    FX_ONE
                } else {
                    value
                }
            },
        }
    }

    /// Re-clamp every coefficient into its legal range, exactly as the
    /// constructors do.
    pub fn normalized(&self) -> (r: Self)
        ensures
            r == normalize_sintering_s(*self),
            sintering_ok_s(r),
    {
        match self {
            SinteringDistribution::Fixed(v) => Self::fixed(*v),
            SinteringDistribution::Uniform { min, max } => Self::uniform(*min, *max),
            SinteringDistribution::Normal { mean, std } => Self::normal(*mean, *std),
        }
    }

    /// The mean coefficient (for metrics calculation).
    pub fn mean(&self) -> (r: i64)
        ensures
            r as int == dist_mean_s(*self),
    {
        match self {
            SinteringDistribution::Fixed(v) => *v,
            SinteringDistribution::Uniform { min, max } => half(fx_add(*min, *max)),
            SinteringDistribution::Normal { mean, std: _ } => *mean,
        }
    }

    /// Whether sintering is enabled: the mean coefficient falls short of one.
    pub fn is_enabled(&self) -> (r: bool)
        ensures
            r == (dist_mean_s(*self) < SINTER_THRESHOLD as int),
    {
        let m = self.mean();
        m < SINTER_THRESHOLD
    }
}

impl Default for SinteringDistribution {
    /// No sintering: a fixed coefficient of one.
    fn default() -> (r: Self)
        ensures
            r == SinteringDistribution::Fixed(FX_ONE),
    {
        SinteringDistribution::Fixed(FX_ONE)
    }
}

/// Calculate the sintered contact distance between two particles: the
/// distance between centers when the particles are in contact, with the
/// sintering overlap applied.
pub fn sintered_contact_distance(r1: i64, r2: i64, sintering_coeff: i64) -> (r: i64)
    ensures
        r as int == sintered_contact_s(r1 as int, r2 as int, sintering_coeff as int),
{
    fx_mul(sintering_coeff, fx_add(r1, r2))
}

} // verus!
