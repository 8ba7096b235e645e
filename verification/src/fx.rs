//! Signed 16.16 fixed-point scalars.
//!
//! A scalar value `v` stands for the real number `v / FX_ONE`. Products and
//! quotients truncate toward zero, as the hardware float-to-int conversion at
//! the boundary does. All operations carry explicit magnitude preconditions
//! so that every intermediate fits in the machine integer types.

use vstd::prelude::*;

verus! {

/// The fixed-point unit: this many raw ticks stand for the real number 1.
pub const FX_ONE: i64 = 65536;

/// Largest magnitude accepted by the multiplication and division routines.
pub const FX_MUL_LIM: i64 = 0x10_0000_0000;

/// Magnitude bound on every product of two in-limit operands, after scaling.
pub const FX_PROD_BOUND: i64 = 0x100_0000_0000_0000;

/// World bound on positions; the model clamps integrated positions into it.
pub const POS_LIM: i64 = 0x10_0000_0000;

/// World bound on velocities; the model clamps integrated velocities into it.
pub const VEL_LIM: i64 = 0x1_0000_0000;

/// Bound on accelerations (gravity and compensating forces).
pub const ACC_LIM: i64 = 0x100_0000;

/// Quotient of `a` by positive `d`, truncated toward zero.
pub open spec fn tdiv(a: int, d: int) -> int
    recommends
        d > 0,
{
    if a >= 0 {
        a / d
    } else {
        -((-a) / d)
    }
}

/// The mathematical value of the fixed-point product.
pub open spec fn fx_mul_s(a: int, b: int) -> int {
    tdiv(a * b, FX_ONE as int)
}

/// The mathematical value of the fixed-point quotient (positive divisor).
pub open spec fn fx_div_s(a: int, b: int) -> int
    recommends
        b > 0,
{
    tdiv(a * (FX_ONE as int), b)
}

/// `x` clamped into `[-lim, lim]`.
pub open spec fn clamp_s(x: int, lim: int) -> int {
    if x < -lim {
        -lim
    } else if x > lim {
        lim
    } else {
        x
    }
}

/// Truncating division shrinks magnitudes: a bound on the dividend bounds the
/// quotient by the divided bound.
pub proof fn lemma_tdiv_bound(a: int, d: int, m: int)
    requires
        d > 0,
        0 <= m,
        -m <= a <= m,
    ensures
        -(m / d) <= tdiv(a, d) <= m / d,
        -m <= tdiv(a, d) <= m,
{
    if a >= 0 {
        vstd::arithmetic::div_mod::lemma_div_is_ordered(a, m, d);
        vstd::arithmetic::div_mod::lemma_div_pos_is_pos(a, d);
        vstd::arithmetic::div_mod::lemma_div_is_ordered(0, m, d);
        vstd::arithmetic::div_mod::lemma_div_nonincreasing(a, d);
    } else {
        vstd::arithmetic::div_mod::lemma_div_is_ordered(-a, m, d);
        vstd::arithmetic::div_mod::lemma_div_pos_is_pos(-a, d);
        vstd::arithmetic::div_mod::lemma_div_is_ordered(0, m, d);
        vstd::arithmetic::div_mod::lemma_div_nonincreasing(-a, d);
    }
}

/// Magnitude bound on a product from bounds on its factors.
pub proof fn lemma_abs_mul_le(a: int, b: int, bound_a: int, bound_b: int)
    requires
        -bound_a <= a <= bound_a,
        -bound_b <= b <= bound_b,
    ensures
        -(bound_a * bound_b) <= a * b <= bound_a * bound_b,
{
    assert(-(bound_a * bound_b) <= a * b <= bound_a * bound_b) by (nonlinear_arith)
        requires
            -bound_a <= a <= bound_a,
            -bound_b <= b <= bound_b,
    ;
}

/// Magnitude bound on a fixed-point product from bounds on its factors.
pub proof fn lemma_fx_mul_s_bound(a: int, b: int, bound_a: int, bound_b: int)
    requires
        0 <= bound_a,
        0 <= bound_b,
        -bound_a <= a <= bound_a,
        -bound_b <= b <= bound_b,
    ensures
        -((bound_a * bound_b) / (FX_ONE as int)) <= fx_mul_s(a, b) <= (bound_a * bound_b) / (
        FX_ONE as int),
        -(bound_a * bound_b) <= fx_mul_s(a, b) <= bound_a * bound_b,
{
    lemma_abs_mul_le(a, b, bound_a, bound_b);
    vstd::arithmetic::mul::lemma_mul_nonnegative(bound_a, bound_b);
    lemma_tdiv_bound(a * b, FX_ONE as int, bound_a * bound_b);
}

/// A fixed-point square is nonnegative and bounded by the squared bound.
pub proof fn lemma_sq_fx_bounds(a: int, m: int)
    requires
        0 <= m,
        -m <= a <= m,
    ensures
        0 <= fx_mul_s(a, a) <= (m * m) / (FX_ONE as int),
{
    assert(0 <= a * a) by (nonlinear_arith);
    lemma_fx_mul_s_bound(a, a, m, m);
    vstd::arithmetic::mul::lemma_mul_nonnegative(m, m);
    vstd::arithmetic::div_mod::lemma_div_pos_is_pos(a * a, FX_ONE as int);
}

/// `r` is the integer square root of `n`.
pub open spec fn is_isqrt(n: int, r: int) -> bool {
    0 <= r && r * r <= n && n < (r + 1) * (r + 1)
}

/// The integer square root, as a mathematical value: the unique `r >= 0`
/// with `r * r <= n < (r + 1) * (r + 1)`.
pub open spec fn isqrt_s(n: int) -> int
    recommends
        0 <= n,
{
    choose|r: int| is_isqrt(n, r)
}

/// Any root bracketing `n` is the integer square root.
pub proof fn lemma_isqrt_s_unique(n: int, r: int)
    requires
        is_isqrt(n, r),
    ensures
        isqrt_s(n) == r,
{
    let w = choose|w: int| is_isqrt(n, w);
    assert(is_isqrt(n, w));
    if w < r {
        assert((w + 1) * (w + 1) <= r * r) by (nonlinear_arith)
            requires
                0 <= w,
                w < r,
        ;
        assert(false);
    } else if r < w {
        assert((r + 1) * (r + 1) <= w * w) by (nonlinear_arith)
            requires
                0 <= r,
                r < w,
        ;
        assert(false);
    }
}

/// Multiplying by the fixed-point one (or its negation, or zero) and
/// dividing by the fixed-point one are exact.
pub proof fn lemma_fx_identity(a: int)
    ensures
        fx_mul_s(a, FX_ONE as int) == a,
        fx_mul_s(FX_ONE as int, a) == a,
        fx_mul_s(-(FX_ONE as int), a) == -a,
        fx_mul_s(a, -(FX_ONE as int)) == -a,
        fx_div_s(a, FX_ONE as int) == a,
        fx_mul_s(0, a) == 0,
        fx_mul_s(a, 0) == 0,
{
    let f: int = FX_ONE as int;
    assert(a * f == f * a) by (nonlinear_arith);
    assert((-f) * a == -(a * f)) by (nonlinear_arith);
    assert(a * (-f) == -(a * f)) by (nonlinear_arith);
    assert(0 * a == 0) by (nonlinear_arith);
    assert(a * 0 == 0) by (nonlinear_arith);
    vstd::arithmetic::div_mod::lemma_div_of0(f);
    if a > 0 {
        assert(a * f > 0) by (nonlinear_arith)
            requires
                a > 0,
                f > 0,
        ;
        vstd::arithmetic::div_mod::lemma_div_by_multiple(a, f);
    } else if a == 0 {
    } else {
        assert(a * f < 0) by (nonlinear_arith)
            requires
                a < 0,
                f > 0,
        ;
        assert((-a) * f == -(a * f)) by (nonlinear_arith);
        vstd::arithmetic::div_mod::lemma_div_by_multiple(-a, f);
    }
}

/// Fixed-point product, truncated toward zero.
pub fn fx_mul(a: i64, b: i64) -> (r: i64)
    requires
        -FX_MUL_LIM <= a <= FX_MUL_LIM,
        -FX_MUL_LIM <= b <= FX_MUL_LIM,
    ensures
        r == fx_mul_s(a as int, b as int),
        -FX_PROD_BOUND <= r <= FX_PROD_BOUND,
{
    proof {
        lemma_fx_mul_s_bound(a as int, b as int, FX_MUL_LIM as int, FX_MUL_LIM as int);
    }
    let neg: bool = (a < 0) != (b < 0);
    let aa: u64 = if a < 0 {
        (-a) as u64
    } else {
        a as u64
    };
    let bb: u64 = if b < 0 {
        (-b) as u64
    } else {
        b as u64
    };
    proof {
        assert((aa as int) * (bb as int) <= (FX_MUL_LIM as int) * (FX_MUL_LIM as int))
            by (nonlinear_arith)
            requires
                0 <= aa <= FX_MUL_LIM,
                0 <= bb <= FX_MUL_LIM,
        ;
    }
    let p: u128 = (aa as u128) * (bb as u128);
    let q: u128 = p / (FX_ONE as u128);
    proof {
        vstd::arithmetic::div_mod::lemma_div_is_ordered(
            p as int,
            (FX_MUL_LIM as int) * (FX_MUL_LIM as int),
            FX_ONE as int,
        );
        vstd::arithmetic::div_mod::lemma_div_pos_is_pos(p as int, FX_ONE as int);
        if a >= 0 && b >= 0 {
            assert((a as int) * (b as int) == (aa as int) * (bb as int));
        } else if a < 0 && b < 0 {
            assert((a as int) * (b as int) == (aa as int) * (bb as int)) by (nonlinear_arith)
                requires
                    aa == -(a as int),
                    bb == -(b as int),
            ;
        } else if a < 0 {
            assert((a as int) * (b as int) == -((aa as int) * (bb as int))) by (nonlinear_arith)
                requires
                    aa == -(a as int),
                    bb == b as int,
            ;
        } else {
            assert((a as int) * (b as int) == -((aa as int) * (bb as int))) by (nonlinear_arith)
                requires
                    aa == a as int,
                    bb == -(b as int),
            ;
        }
    }
    let qi: i64 = q as i64;
    if neg {
        -qi
    } else {
        qi
    }
}

/// Fixed-point quotient by a positive divisor, truncated toward zero.
pub fn fx_div(a: i64, b: i64) -> (r: i64)
    requires
        -FX_MUL_LIM <= a <= FX_MUL_LIM,
        0 < b <= FX_MUL_LIM,
    ensures
        r == fx_div_s(a as int, b as int),
        -FX_PROD_BOUND <= r <= FX_PROD_BOUND,
{
    let neg: bool = a < 0;
    let aa: u64 = if a < 0 {
        (-a) as u64
    } else {
        a as u64
    };
    let n: u128 = (aa as u128) * (FX_ONE as u128);
    proof {
        assert((aa as int) * (FX_ONE as int) <= (FX_MUL_LIM as int) * (FX_ONE as int))
            by (nonlinear_arith)
            requires
                0 <= aa <= FX_MUL_LIM,
        ;
    }
    let q: u128 = n / (b as u128);
    proof {
        vstd::arithmetic::div_mod::lemma_div_is_ordered_by_denominator(n as int, 1, b as int);
        vstd::arithmetic::div_mod::lemma_div_pos_is_pos(n as int, b as int);
        if a < 0 {
            assert((a as int) * (FX_ONE as int) == -((aa as int) * (FX_ONE as int)))
                by (nonlinear_arith)
                requires
                    aa == -(a as int),
            ;
        } else {
            assert((a as int) * (FX_ONE as int) == (aa as int) * (FX_ONE as int));
        }
    }
    let qi: i64 = q as i64;
    if neg {
        -qi
    } else {
        qi
    }
}

/// Integer square root: the greatest `r` with `r * r <= n`.
pub fn isqrt(n: u64) -> (r: u64)
    ensures
        (r as int) * (r as int) <= n,
        n < (r as int + 1) * (r as int + 1),
        r == isqrt_s(n as int),
{
    let mut lo: u64 = 0;
    let mut hi: u64 = 0x1_0000_0000;
    proof {
        assert((hi as int) * (hi as int) > n as int) by (nonlinear_arith)
            requires
                hi == 0x1_0000_0000u64,
                n <= u64::MAX,
        ;
    }
    if n == 0 {
        proof {
            lemma_isqrt_s_unique(0, 0);
        }
        return 0;
    }
    while lo + 1 < hi
        invariant
            lo < hi,
            hi <= 0x1_0000_0000,
            (lo as int) * (lo as int) <= n,
            (n as int) < (hi as int) * (hi as int),
        decreases hi - lo,
    {
        let mid: u64 = lo + (hi - lo) / 2;
        proof {
            assert((mid as int) * (mid as int) <= 0x1_0000_0000_0000_0000) by (nonlinear_arith)
                requires
                    0 <= mid <= 0x1_0000_0000u64,
            ;
        }
        let sq: u128 = (mid as u128) * (mid as u128);
        if sq <= n as u128 {
            lo = mid;
        } else {
            hi = mid;
        }
    }
    proof {
        lemma_isqrt_s_unique(n as int, lo as int);
    }
    lo
}

/// `x` clamped into `[-lim, lim]`.
pub fn clamp(x: i64, lim: i64) -> (r: i64)
    requires
        0 < lim,
    ensures
        r == clamp_s(x as int, lim as int),
        -lim <= r <= lim,
{
    if x < -lim {
        -lim
    } else if x > lim {
        lim
    } else {
        x
    }
}

} // verus!
