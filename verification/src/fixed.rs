//! Fixed-point scalar arithmetic.
//!
//! A real quantity is stored as an `i64` scaled by `FX_ONE` (2^20).  All
//! operations are total: results that would leave the `i64` range saturate
//! at its bounds, and every function's result is pinned exactly by a spec
//! function, so two runs of any computation built from them agree bit for
//! bit.

use vstd::prelude::*;

verus! {

/// The fixed-point unit: 2^20.
pub const FX_ONE: i64 = 1048576;

/// Magnitude of an integer.
pub open spec fn abs_s(x: int) -> int {
    if x < 0 {
        -x
    } else {
        x
    }
}

/// Saturation of a mathematical integer into the `i64` range.
pub open spec fn fx_clip_s(x: int) -> int {
    if x > i64::MAX as int {
        i64::MAX as int
    } else if x < i64::MIN as int {
        i64::MIN as int
    } else {
        x
    }
}

/// Saturating fixed-point sum: `a + b`, clipped.
pub open spec fn fx_add_s(a: int, b: int) -> int {
    fx_clip_s(a + b)
}

/// Saturating fixed-point difference: `a - b`, clipped.
pub open spec fn fx_sub_s(a: int, b: int) -> int {
    fx_clip_s(a - b)
}

/// Saturating fixed-point product: `a * b / FX_ONE`, truncated toward zero,
/// then clipped.
pub open spec fn fx_mul_s(a: int, b: int) -> int {
    let m = (abs_s(a) * abs_s(b)) / (FX_ONE as int);
    if (a < 0) != (b < 0) {
        fx_clip_s(-m)
    } else {
        fx_clip_s(m)
    }
}

/// Saturating fixed-point quotient: `a * FX_ONE / b`, truncated toward zero,
/// then clipped; division by zero yields zero.
pub open spec fn fx_div_s(a: int, b: int) -> int {
    if b == 0 {
        0
    } else {
        let m = (abs_s(a) * (FX_ONE as int)) / abs_s(b);
        if (a < 0) != (b < 0) {
            fx_clip_s(-m)
        } else {
            fx_clip_s(m)
        }
    }
}

/// `r` is the integer square root of `n`.
pub open spec fn is_isqrt(n: int, r: int) -> bool {
    &&& 0 <= r
    &&& r * r <= n
    &&& n < (r + 1) * (r + 1)
}

/// Integer square root, by halving recursion.
pub open spec fn isqrt_s(n: int) -> int
    decreases n,
{
    if n <= 0 {
        0
    } else {
        let r = 2 * isqrt_s(n / 4);
        if (r + 1) * (r + 1) <= n {
            r + 1
        } else {
            r
        }
    }
}

/// Fixed-point square root of a fixed-point value: `isqrt(a * FX_ONE)`,
/// and zero for non-positive input.
pub open spec fn fx_sqrt_s(a: int) -> int {
    if a <= 0 {
        0
    } else {
        isqrt_s(a * (FX_ONE as int))
    }
}

/// The square root recursion brackets its argument.
pub proof fn lemma_isqrt_s_correct(n: int)
    requires
        n >= 0,
    ensures
        is_isqrt(n, isqrt_s(n)),
    decreases n,
{
    if n == 0 {
        assert(is_isqrt(0, 0));
    } else {
        lemma_isqrt_s_correct(n / 4);
        let r0 = isqrt_s(n / 4);
        let q = n / 4;
        assert(4 * q <= n && n <= 4 * q + 3) by (nonlinear_arith)
            requires q == n / 4 && n >= 1;
        assert((2 * r0) * (2 * r0) <= 4 * q) by (nonlinear_arith)
            requires r0 * r0 <= q;
        assert(4 * q + 3 < (2 * r0 + 2) * (2 * r0 + 2)) by (nonlinear_arith)
            requires q < (r0 + 1) * (r0 + 1);
        let r = 2 * r0;
        if (r + 1) * (r + 1) <= n {
            assert(is_isqrt(n, r + 1));
        } else {
            assert(is_isqrt(n, r));
        }
    }
}

/// Any bracketing root equals the recursion's value.
pub proof fn lemma_isqrt_unique(n: int, r: int)
    requires
        n >= 0,
        is_isqrt(n, r),
    ensures
        r == isqrt_s(n),
{
    lemma_isqrt_s_correct(n);
    let q = isqrt_s(n);
    if r < q {
        assert((r + 1) * (r + 1) <= q * q) by (nonlinear_arith)
            requires 0 <= r && r + 1 <= q;
        assert(false);
    }
    if q < r {
        assert((q + 1) * (q + 1) <= r * r) by (nonlinear_arith)
            requires 0 <= q && q + 1 <= r;
        assert(false);
    }
}

/// Magnitude of an `i64`, widened so that `i64::MIN` is representable.
fn abs_mag(a: i64) -> (r: u128)
    ensures
        r as int == abs_s(a as int),
{
    if a >= 0 {
        a as u128
    } else {
        let w: i128 = -(a as i128);
        w as u128
    }
}

/// Sign and saturation of an unsigned magnitude.
fn apply_sign(p: u128, neg: bool) -> (r: i64)
    ensures
        r as int == if neg {
            fx_clip_s(-(p as int))
        } else {
            fx_clip_s(p as int)
        },
{
    if neg {
        if p >= 9223372036854775808u128 {
            i64::MIN
        } else {
            -(p as i64)
        }
    } else {
        if p > i64::MAX as u128 {
            i64::MAX
        } else {
            p as i64
        }
    }
}

/// Saturating addition.
pub fn fx_add(a: i64, b: i64) -> (r: i64)
    ensures
        r as int == fx_add_s(a as int, b as int),
{
    let s: i128 = a as i128 + b as i128;
    if s > i64::MAX as i128 {
        i64::MAX
    } else if s < i64::MIN as i128 {
        i64::MIN
    } else {
        s as i64
    }
}

/// Saturating subtraction.
pub fn fx_sub(a: i64, b: i64) -> (r: i64)
    ensures
        r as int == fx_sub_s(a as int, b as int),
{
    let s: i128 = a as i128 - b as i128;
    if s > i64::MAX as i128 {
        i64::MAX
    } else if s < i64::MIN as i128 {
        i64::MIN
    } else {
        s as i64
    }
}

/// Saturating fixed-point multiplication.
pub fn fx_mul(a: i64, b: i64) -> (r: i64)
    ensures
        r as int == fx_mul_s(a as int, b as int),
{
    let neg: bool = (a < 0) != (b < 0);
    let ma: u128 = abs_mag(a);
    let mb: u128 = abs_mag(b);
    assert(ma * mb <= 0x40000000000000000000000000000000u128) by (nonlinear_arith)
        requires ma <= 0x8000000000000000u128 && mb <= 0x8000000000000000u128;
    let p: u128 = (ma * mb) / (FX_ONE as u128);
    apply_sign(p, neg)
}

/// Saturating fixed-point division; zero when the divisor is zero.
pub fn fx_div(a: i64, b: i64) -> (r: i64)
    ensures
        r as int == fx_div_s(a as int, b as int),
{
    if b == 0 {
        return 0;
    }
    let neg: bool = (a < 0) != (b < 0);
    let ma: u128 = abs_mag(a);
    let mb: u128 = abs_mag(b);
    assert(ma * (FX_ONE as u128) <= 0x80000000000000000000000000000000u128 - 1) by (nonlinear_arith)
        requires ma <= 0x8000000000000000u128;
    let p: u128 = (ma * (FX_ONE as u128)) / mb;
    apply_sign(p, neg)
}

/// Integer square root of an unsigned 128-bit value.
pub fn isqrt_u128(n: u128) -> (r: u64)
    ensures
        r as int == isqrt_s(n as int),
{
    proof {
        lemma_isqrt_s_correct(n as int);
    }
    if n == 0 {
        return 0;
    }
    let mut lo: u128 = 0;
    let mut hi: u128 = 0x10000000000000000u128;
    assert((n as int) < hi * hi) by (nonlinear_arith)
        requires hi == 0x10000000000000000u128 && n <= u128::MAX;
    while lo + 1 < hi
        invariant
            lo < hi,
            hi <= 0x10000000000000000u128,
            lo * lo <= n as int,
            (n as int) < hi * hi,
        decreases hi - lo,
    {
        let mid: u128 = lo + (hi - lo) / 2;
        assert(mid * mid < 0x100000000000000000000000000000000) by (nonlinear_arith)
            requires mid < 0x10000000000000000u128;
        if mid * mid <= n {
            lo = mid;
        } else {
            hi = mid;
        }
    }
    proof {
        assert(is_isqrt(n as int, lo as int));
        lemma_isqrt_unique(n as int, lo as int);
        assert(lo * lo <= n as int);
        assert(lo < 0x10000000000000000u128) by (nonlinear_arith)
            requires lo * lo <= n as int && n <= u128::MAX && lo >= 0;
    }
    lo as u64
}

/// Fixed-point square root: non-positive inputs map to zero.
pub fn fx_sqrt(a: i64) -> (r: i64)
    ensures
        r as int == fx_sqrt_s(a as int),
        r >= 0,
{
    if a <= 0 {
        return 0;
    }
    assert((a as u128) * (FX_ONE as u128) < 0x4000000000000000000000u128) by (nonlinear_arith)
        requires a as u128 <= 0x8000000000000000u128;
    let m: u128 = (a as u128) * (FX_ONE as u128);
    let r: u64 = isqrt_u128(m);
    proof {
        lemma_isqrt_s_correct(m as int);
        assert(r < 0x8000000000000000u64) by (nonlinear_arith)
            requires
                (r as int) * (r as int) <= m as int,
                m < 0x4000000000000000000000u128,
                r >= 0;
    }
    r as i64
}

/// Whole number as a fixed-point value, saturated.
pub fn fx_from_int(n: i64) -> (r: i64)
    ensures
        r as int == fx_clip_s(n * (FX_ONE as int)),
{
    assert(i128::MIN < (n as i128) * (FX_ONE as i128) && (n as i128) * (FX_ONE as i128) < i128::MAX)
        by (nonlinear_arith)
        requires i64::MIN as i128 <= n as i128 <= i64::MAX as i128;
    let p: i128 = (n as i128) * (FX_ONE as i128);
    if p > i64::MAX as i128 {
        i64::MAX
    } else if p < i64::MIN as i128 {
        i64::MIN
    } else {
        p as i64
    }
}

/// The fraction `num / den` as a fixed-point value.
pub fn fx_ratio(num: i64, den: i64) -> (r: i64)
    ensures
        r as int == fx_div_s(fx_clip_s(num * (FX_ONE as int)), fx_clip_s(den * (FX_ONE as int))),
{
    let a: i64 = fx_from_int(num);
    let b: i64 = fx_from_int(den);
    fx_div(a, b)
}

} // verus!

verus! {

/// Natural logarithm of 2, as a fixed-point value.
pub const FX_LN2: i64 = 726817;

/// 1 / ln(2), as a fixed-point value.
pub const FX_INV_LN2: i64 = 1512775;

/// The circle constant, as a fixed-point value.
pub const FX_PI: i64 = 3294199;

/// Powers of two over the integers.
pub open spec fn p2(n: nat) -> int
    decreases n,
{
    if n == 0 {
        1
    } else {
        2 * p2((n - 1) as nat)
    }
}

pub proof fn lemma_p2_pos(n: nat)
    ensures
        p2(n) >= 1,
    decreases n,
{
    if n > 0 {
        lemma_p2_pos((n - 1) as nat);
    }
}

pub proof fn lemma_p2_increases(a: nat, b: nat)
    requires
        a <= b,
    ensures
        p2(a) <= p2(b),
    decreases b,
{
    if a < b {
        lemma_p2_increases(a, (b - 1) as nat);
        lemma_p2_pos((b - 1) as nat);
    }
}

/// Fractional bits of the base-2 logarithm of `m / FX_ONE`, for
/// `m` in `[FX_ONE, 2 * FX_ONE)`, by repeated squaring: `acc` gathers the
/// produced bits most significant first.
pub open spec fn lg_acc_s(m: int, i: nat, acc: int) -> int
    decreases i,
{
    if i == 0 {
        acc
    } else {
        let m2 = (m * m) / (FX_ONE as int);
        if m2 >= 2 * (FX_ONE as int) {
            lg_acc_s(m2 / 2, (i - 1) as nat, 2 * acc + 1)
        } else {
            lg_acc_s(m2, (i - 1) as nat, 2 * acc)
        }
    }
}

/// Mantissa after halving down into `[FX_ONE, 2 * FX_ONE)`.
pub open spec fn norm_down_m(x: int) -> int
    decreases x,
{
    if x < 2 * (FX_ONE as int) {
        x
    } else {
        norm_down_m(x / 2)
    }
}

/// Number of halvings used by `norm_down_m`.
pub open spec fn norm_down_k(x: int) -> int
    decreases x,
{
    if x < 2 * (FX_ONE as int) {
        0
    } else {
        1 + norm_down_k(x / 2)
    }
}

/// Mantissa after doubling up into `[FX_ONE, 2 * FX_ONE)`.
pub open spec fn norm_up_m(x: int) -> int
    decreases 2 * (FX_ONE as int) - x,
{
    if x <= 0 {
        0
    } else if x >= FX_ONE as int {
        x
    } else {
        norm_up_m(2 * x)
    }
}

/// Number of doublings used by `norm_up_m`.
pub open spec fn norm_up_j(x: int) -> int
    decreases 2 * (FX_ONE as int) - x,
{
    if x <= 0 {
        0
    } else if x >= FX_ONE as int {
        0
    } else {
        1 + norm_up_j(2 * x)
    }
}

/// Natural logarithm of a fixed-point value: the base-2 logarithm is taken
/// to 20 fractional bits by digit extraction, then scaled by ln(2).
/// Non-positive inputs map to zero; callers filter them out.
pub open spec fn ln_fx_s(x: int) -> int {
    if x <= 0 {
        0
    } else if x >= FX_ONE as int {
        let m = norm_down_m(x);
        let k = norm_down_k(x);
        fx_mul_s(k * (FX_ONE as int) + lg_acc_s(m, 20, 0), FX_LN2 as int)
    } else {
        let m = norm_up_m(x);
        let j = norm_up_j(x);
        fx_mul_s(lg_acc_s(m, 20, 0) - j * (FX_ONE as int), FX_LN2 as int)
    }
}

/// Twenty fractional bits of the base-2 logarithm of `m0 / FX_ONE`.
fn lg_frac20(m0: u64) -> (r: u64)
    requires
        FX_ONE as u64 <= m0 < 2 * (FX_ONE as u64),
    ensures
        r as int == lg_acc_s(m0 as int, 20, 0),
        r < FX_ONE as u64,
{
    let mut m: u64 = m0;
    let mut acc: u64 = 0;
    let mut i: u64 = 0;
    while i < 20
        invariant
            FX_ONE as u64 <= m < 2 * (FX_ONE as u64),
            i <= 20,
            (acc as int) < p2(i as nat),
            lg_acc_s(m0 as int, 20, 0) == lg_acc_s(m as int, (20 - i) as nat, acc as int),
        decreases 20 - i,
    {
        proof {
            assert((m as int) * (m as int) < 0x40000000000 && (m as int) * (m as int) >= 1048576
                * 1048576) by (nonlinear_arith)
                requires 1048576 <= m as int && (m as int) < 2097152;
            lemma_p2_increases(i as nat, 20);
            reveal_with_fuel(p2, 21);
            assert(p2(20) == 1048576);
        }
        let wide: u128 = (m as u128) * (m as u128);
        proof {
            assert((wide as int) / (FX_ONE as int) >= FX_ONE as int) by (nonlinear_arith)
                requires (wide as int) >= 1048576 * 1048576;
            assert((wide as int) / (FX_ONE as int) < 4 * (FX_ONE as int)) by (nonlinear_arith)
                requires (wide as int) < 0x40000000000;
        }
        let m2: u64 = (wide / (FX_ONE as u128)) as u64;
        if m2 >= 2 * FX_ONE as u64 {
            m = m2 / 2;
            acc = 2 * acc + 1;
        } else {
            m = m2;
            acc = 2 * acc;
        }
        i = i + 1;
    }
    proof {
        reveal_with_fuel(p2, 21);
        assert(p2(20) == 1048576);
    }
    acc
}

/// Natural logarithm.
pub fn fx_ln(x: i64) -> (r: i64)
    ensures
        r as int == ln_fx_s(x as int),
{
    if x <= 0 {
        return 0;
    }
    if x >= FX_ONE {
        let mut m: u64 = x as u64;
        let mut k: u64 = 0;
        while m >= 2 * (FX_ONE as u64)
            invariant
                k <= 44,
                x >= FX_ONE,
                m as int >= (FX_ONE as int),
                (m as int) * p2(k as nat) <= x as int,
                norm_down_m(x as int) == norm_down_m(m as int),
                norm_down_k(x as int) == k + norm_down_k(m as int),
            decreases 45 - k,
        {
            proof {
                lemma_p2_pos(k as nat);
                if k >= 44 {
                    lemma_p2_increases(44, k as nat);
                    reveal_with_fuel(p2, 45);
                    assert(p2(44) == 0x100000000000);
                    assert((m as int) * p2(k as nat) >= 1048576 * 0x100000000000)
                        by (nonlinear_arith)
                        requires m as int >= 1048576 && p2(k as nat) >= 0x100000000000;
                    assert(false);
                }
                assert((m as int / 2) * (2 * p2(k as nat)) <= (m as int) * p2(k as nat))
                    by (nonlinear_arith)
                    requires m as int >= 2 && p2(k as nat) >= 1;
            }
            m = m / 2;
            k = k + 1;
        }
        let frac: u64 = lg_frac20(m);
        let t: i64 = (k * (FX_ONE as u64) + frac) as i64;
        fx_mul(t, FX_LN2)
    } else {
        let mut m: u64 = x as u64;
        let mut j: u64 = 0;
        while m < FX_ONE as u64
            invariant
                m >= 1,
                j <= 20,
                m < 2 * (FX_ONE as u64),
                m as int >= p2(j as nat),
                norm_up_m(x as int) == norm_up_m(m as int),
                norm_up_j(x as int) == j + norm_up_j(m as int),
            decreases 21 - j,
        {
            proof {
                if j >= 20 {
                    lemma_p2_increases(20, j as nat);
                    reveal_with_fuel(p2, 21);
                    assert(p2(20) == 1048576);
                    assert(false);
                }
                lemma_p2_pos(j as nat);
            }
            m = 2 * m;
            j = j + 1;
        }
        let frac: u64 = lg_frac20(m);
        let t: i64 = frac as i64 - (j as i64) * FX_ONE;
        fx_mul(t, FX_LN2)
    }
}

} // verus!

verus! {

/// Fixed-point value of 2^(1 / (2 * mask')) where `mask` marks the bit
/// position: the table entry used by `exp2f_s` for each fractional bit.
pub open spec fn exp2c_s(mask: int) -> int {
    if mask == 524288 {
        1482910
    } else if mask == 262144 {
        1246974
    } else if mask == 131072 {
        1143480
    } else if mask == 65536 {
        1095000
    } else if mask == 32768 {
        1071537
    } else if mask == 16384 {
        1059994
    } else if mask == 8192 {
        1054270
    } else if mask == 4096 {
        1051419
    } else if mask == 2048 {
        1049997
    } else if mask == 1024 {
        1049286
    } else if mask == 512 {
        1048931
    } else if mask == 256 {
        1048753
    } else if mask == 128 {
        1048665
    } else if mask == 64 {
        1048620
    } else if mask == 32 {
        1048598
    } else if mask == 16 {
        1048587
    } else if mask == 8 {
        1048582
    } else if mask == 4 {
        1048579
    } else if mask == 2 {
        1048577
    } else if mask == 1 {
        1048577
    } else {
        FX_ONE as int
    }
}

/// 2 raised to the fraction `f / FX_ONE`, by one table factor per set bit
/// of `f`, walking `mask` down from the most significant fractional bit.
pub open spec fn exp2f_s(f: int, mask: int, acc: int) -> int
    decreases mask,
{
    if mask <= 0 {
        acc
    } else {
        let acc2 = if (f / mask) % 2 == 1 {
            fx_mul_s(acc, exp2c_s(mask))
        } else {
            acc
        };
        exp2f_s(f, mask / 2, acc2)
    }
}

/// `k` saturating doublings.
pub open spec fn dbl_s(g: int, k: int) -> int
    decreases k,
{
    if k <= 0 {
        g
    } else {
        dbl_s(fx_clip_s(2 * g), k - 1)
    }
}

/// `k` halvings.
pub open spec fn hlv_s(g: int, k: int) -> int
    decreases k,
{
    if k <= 0 {
        g
    } else {
        hlv_s(g / 2, k - 1)
    }
}

/// Exponential of a fixed-point value: `exp(x) = 2^(x / ln 2)`, the binary
/// exponent split into a whole part (applied as saturating doublings or
/// halvings, clamped to 63 of them) and a fractional part taken from the
/// bit table.
pub open spec fn exp_fx_s(x: int) -> int {
    let t = fx_mul_s(x, FX_INV_LN2 as int);
    let k = if t >= 0 {
        t / (FX_ONE as int)
    } else {
        -((-t + FX_ONE as int - 1) / (FX_ONE as int))
    };
    let f = t - k * (FX_ONE as int);
    let g = exp2f_s(f, 524288, FX_ONE as int);
    if k >= 63 {
        dbl_s(g, 63)
    } else if k <= -63 {
        hlv_s(g, 63)
    } else if k >= 0 {
        dbl_s(g, k)
    } else {
        hlv_s(g, -k)
    }
}

/// Table lookup for one fractional bit.
fn exp2c(mask: u64) -> (r: i64)
    ensures
        r as int == exp2c_s(mask as int),
        r > 0,
{
    if mask == 524288 {
        1482910
    } else if mask == 262144 {
        1246974
    } else if mask == 131072 {
        1143480
    } else if mask == 65536 {
        1095000
    } else if mask == 32768 {
        1071537
    } else if mask == 16384 {
        1059994
    } else if mask == 8192 {
        1054270
    } else if mask == 4096 {
        1051419
    } else if mask == 2048 {
        1049997
    } else if mask == 1024 {
        1049286
    } else if mask == 512 {
        1048931
    } else if mask == 256 {
        1048753
    } else if mask == 128 {
        1048665
    } else if mask == 64 {
        1048620
    } else if mask == 32 {
        1048598
    } else if mask == 16 {
        1048587
    } else if mask == 8 {
        1048582
    } else if mask == 4 {
        1048579
    } else if mask == 2 {
        1048577
    } else if mask == 1 {
        1048577
    } else {
        FX_ONE
    }
}

/// Exponential.
pub fn fx_exp(x: i64) -> (r: i64)
    ensures
        r as int == exp_fx_s(x as int),
        r >= 0,
{
    let t: i64 = fx_mul(x, FX_INV_LN2);
    let mut k: i64 = 0;
    let mut f: u64 = 0;
    if t >= 0 {
        let tu: u64 = t as u64;
        k = (tu / (FX_ONE as u64)) as i64;
        f = tu % (FX_ONE as u64);
        proof {
            assert(k as int == (t as int) / (FX_ONE as int) && f as int == (t as int) - (k as int)
                * (FX_ONE as int)) by (nonlinear_arith)
                requires
                    t >= 0,
                    k as int == (t as int) / (FX_ONE as int),
                    f as int == (t as int) % (FX_ONE as int),
                    FX_ONE == 1048576;
        }
    } else {
        let mt: u128 = (-(t as i128)) as u128;
        let kk: u128 = (mt + (FX_ONE as u128 - 1)) / (FX_ONE as u128);
        proof {
            assert(kk * (FX_ONE as u128) >= mt && kk * (FX_ONE as u128) - mt < FX_ONE as u128
                && kk <= 0x100000000000u128) by (nonlinear_arith)
                requires
                    kk == (mt + 1048575) / 1048576,
                    mt >= 1,
                    mt <= 0x8000000000000000u128,
                    FX_ONE == 1048576;
        }
        k = -(kk as i64);
        f = (kk * (FX_ONE as u128) - mt) as u64;
        proof {
            assert(k as int == -((-(t as int) + FX_ONE as int - 1) / (FX_ONE as int)));
            assert(f as int == (t as int) - (k as int) * (FX_ONE as int)) by (nonlinear_arith)
                requires
                    f as int == (kk as int) * (FX_ONE as int) - (-(t as int)),
                    k as int == -(kk as int);
        }
    }
    let ghost fs = (t as int) - (k as int) * (FX_ONE as int);
    let mut g: i64 = FX_ONE;
    let mut mask: u64 = 524288;
    while mask > 0
        invariant
            g >= 0,
            exp2f_s(f as int, 524288, FX_ONE as int) == exp2f_s(f as int, mask as int, g as int),
        decreases mask,
    {
        let bit: u64 = (f / mask) % 2;
        if bit == 1 {
            g = fx_mul(g, exp2c(mask));
        }
        mask = mask / 2;
    }
    if k >= 0 {
        let kc: i64 = if k > 63 {
            63
        } else {
            k
        };
        let ghost target = dbl_s(g as int, kc as int);
        let mut i: i64 = 0;
        while i < kc
            invariant
                0 <= i <= kc,
                kc <= 63,
                g >= 0,
                dbl_s(g as int, kc - i) == target,
            decreases kc - i,
        {
            g = fx_add(g, g);
            i = i + 1;
        }
        g
    } else {
        let kc: i64 = if k < -63 {
            63
        } else {
            -k
        };
        let ghost target = hlv_s(g as int, kc as int);
        let mut i: i64 = 0;
        while i < kc
            invariant
                0 <= i <= kc,
                kc <= 63,
                g >= 0,
                hlv_s(g as int, kc - i) == target,
            decreases kc - i,
        {
            g = ((g as u64) / 2) as i64;
            i = i + 1;
        }
        g
    }
}

/// `r` is the integer cube root of `n`.
pub open spec fn is_icbrt(n: int, r: int) -> bool {
    &&& 0 <= r
    &&& r * r * r <= n
    &&& n < (r + 1) * (r + 1) * (r + 1)
}

/// Integer cube root, by halving recursion.
pub open spec fn icbrt_s(n: int) -> int
    decreases n,
{
    if n <= 0 {
        0
    } else {
        let r = 2 * icbrt_s(n / 8);
        if (r + 1) * (r + 1) * (r + 1) <= n {
            r + 1
        } else {
            r
        }
    }
}

/// The cube root recursion brackets its argument.
pub proof fn lemma_icbrt_s_correct(n: int)
    requires
        n >= 0,
    ensures
        is_icbrt(n, icbrt_s(n)),
    decreases n,
{
    if n == 0 {
        assert(is_icbrt(0, 0));
    } else {
        lemma_icbrt_s_correct(n / 8);
        let r0 = icbrt_s(n / 8);
        let q = n / 8;
        assert(8 * q <= n && n <= 8 * q + 7) by (nonlinear_arith)
            requires q == n / 8 && n >= 1;
        assert((2 * r0) * (2 * r0) * (2 * r0) <= 8 * q) by (nonlinear_arith)
            requires r0 * r0 * r0 <= q;
        assert(8 * q + 7 < (2 * r0 + 2) * (2 * r0 + 2) * (2 * r0 + 2)) by (nonlinear_arith)
            requires q < (r0 + 1) * (r0 + 1) * (r0 + 1);
        let r = 2 * r0;
        if (r + 1) * (r + 1) * (r + 1) <= n {
            assert(is_icbrt(n, r + 1));
        } else {
            assert(is_icbrt(n, r));
        }
    }
}

/// Any bracketing cube root equals the recursion's value.
pub proof fn lemma_icbrt_unique(n: int, r: int)
    requires
        n >= 0,
        is_icbrt(n, r),
    ensures
        r == icbrt_s(n),
{
    lemma_icbrt_s_correct(n);
    let q = icbrt_s(n);
    if r < q {
        assert((r + 1) * (r + 1) * (r + 1) <= q * q * q) by (nonlinear_arith)
            requires 0 <= r && r + 1 <= q;
        assert(false);
    }
    if q < r {
        assert((q + 1) * (q + 1) * (q + 1) <= r * r * r) by (nonlinear_arith)
            requires 0 <= q && q + 1 <= r;
        assert(false);
    }
}

/// Fixed-point cube root of a fixed-point value: `icbrt(a * FX_ONE^2)`,
/// and zero for non-positive input.
pub open spec fn fx_cbrt_s(a: int) -> int {
    if a <= 0 {
        0
    } else {
        icbrt_s(a * (FX_ONE as int) * (FX_ONE as int))
    }
}

/// Integer cube root of an unsigned value below 2^126.
fn icbrt_u128(n: u128) -> (r: u64)
    requires
        n < 0x40000000000000000000000000000000u128,
    ensures
        r as int == icbrt_s(n as int),
{
    proof {
        lemma_icbrt_s_correct(n as int);
    }
    if n == 0 {
        return 0;
    }
    let mut lo: u128 = 0;
    let mut hi: u128 = 0x40000000001u128;
    assert((n as int) < hi * hi * hi) by (nonlinear_arith)
        requires hi == 0x40000000001u128 && n < 0x40000000000000000000000000000000u128;
    while lo + 1 < hi
        invariant
            lo < hi,
            hi <= 0x40000000001u128,
            lo * lo * lo <= n as int,
            (n as int) < hi * hi * hi,
        decreases hi - lo,
    {
        let mid: u128 = lo + (hi - lo) / 2;
        assert(mid * mid <= 0x100000000000000000000000u128 && mid * mid * mid
            < 0x100000000000000000000000000000000) by (nonlinear_arith)
            requires mid <= 0x40000000000u128;
        if mid * mid * mid <= n {
            lo = mid;
        } else {
            hi = mid;
        }
    }
    proof {
        assert(is_icbrt(n as int, lo as int));
        lemma_icbrt_unique(n as int, lo as int);
    }
    lo as u64
}

/// Fixed-point cube root: non-positive inputs map to zero.
pub fn fx_cbrt(a: i64) -> (r: i64)
    ensures
        r as int == fx_cbrt_s(a as int),
        r >= 0,
{
    if a <= 0 {
        return 0;
    }
    assert((a as u128) * (FX_ONE as u128) <= 0x800000000000000000000u128 && (a as u128) * (
    FX_ONE as u128) * (FX_ONE as u128) < 0x40000000000000000000000000000000u128)
        by (nonlinear_arith)
        requires a as u128 <= 0x8000000000000000u128 && FX_ONE == 1048576;
    let m: u128 = (a as u128) * (FX_ONE as u128) * (FX_ONE as u128);
    let r: u64 = icbrt_u128(m);
    proof {
        lemma_icbrt_s_correct(m as int);
        assert(r < 0x8000000000000000u64) by (nonlinear_arith)
            requires
                (r as int) * (r as int) * (r as int) <= m as int,
                m < 0x40000000000000000000000000000000u128,
                r >= 0;
    }
    r as i64
}

} // verus!

verus! {

/// Power of a positive fixed-point base to a fixed-point exponent:
/// `x^e = exp(e ln x)`; non-positive bases map to zero.
pub open spec fn pow_fx_s(x: int, e: int) -> int {
    if x <= 0 {
        0
    } else {
        exp_fx_s(fx_mul_s(e, ln_fx_s(x)))
    }
}

/// Power of a fixed-point base to a fixed-point exponent.
pub fn fx_pow(x: i64, e: i64) -> (r: i64)
    ensures
        r as int == pow_fx_s(x as int, e as int),
        r >= 0,
{
    if x <= 0 {
        0
    } else {
        fx_exp(fx_mul(e, fx_ln(x)))
    }
}

} // verus!
