//! Fixed-point scalars: an `i64` or `u64` that counts millionths.

use vstd::prelude::*;

verus! {

/// Raw value of the number one: a raw value `r` stands for `r / SCALE`.
pub const SCALE: i64 = 1_000_000;

/// Latest time that the animation can reach, about thirty thousand years.
pub const MAX_TIME: u64 = 1_000_000_000_000_000_000;

/// Quotient of `a` by a positive `d`, rounded toward zero.
pub open spec fn trunc_div(a: int, d: int) -> int {
    if a >= 0 {
        a / d
    } else {
        -((-a) / d)
    }
}

/// `a * num / den`, rounded toward zero.
pub open spec fn scaled(a: int, num: int, den: int) -> int {
    trunc_div(a * num, den)
}

/// Largest `r` with `r * r <= n`.
pub open spec fn floor_sqrt(n: nat) -> nat
    decreases n,
{
    if n == 0 {
        0
    } else {
        let r = floor_sqrt((n - 1) as nat);
        if (r + 1) * (r + 1) <= n {
            r + 1
        } else {
            r
        }
    }
}

/// A quotient rounded toward zero lies between zero and the exact quotient.
pub proof fn lemma_trunc_div_bounds(a: int, d: int)
    requires
        d > 0,
    ensures
        a >= 0 ==> 0 <= trunc_div(a, d) * d <= a < (trunc_div(a, d) + 1) * d,
        a <= 0 ==> (trunc_div(a, d) - 1) * d < a <= trunc_div(a, d) * d <= 0,
{
    if a >= 0 {
        assert(0 <= (a / d) * d <= a < (a / d + 1) * d && (a / d - 1) * d < a) by (nonlinear_arith)
            requires
                a >= 0,
                d > 0,
        ;
    } else {
        let b = -a;
        assert(0 <= (b / d) * d <= b < (b / d + 1) * d) by (nonlinear_arith)
            requires
                b >= 0,
                d > 0,
        ;
        assert((-(b / d)) * d == -((b / d) * d)) by (nonlinear_arith);
        assert((-(b / d) - 1) * d == -((b / d + 1) * d)) by (nonlinear_arith);
    }
}

/// Scaling by a ratio between zero and one never grows a value nor flips its sign.
pub proof fn lemma_scaled_bounds(a: int, num: int, den: int)
    requires
        0 <= num <= den,
        den > 0,
    ensures
        a >= 0 ==> 0 <= scaled(a, num, den) <= a,
        a <= 0 ==> a <= scaled(a, num, den) <= 0,
        num == 0 ==> scaled(a, num, den) == 0,
        num == den ==> scaled(a, num, den) == a,
{
    let p = a * num;
    let q = trunc_div(p, den);
    lemma_trunc_div_bounds(p, den);
    if a >= 0 {
        assert(0 <= a * num <= a * den) by (nonlinear_arith)
            requires
                a >= 0,
                0 <= num <= den,
        ;
        assert(q <= a) by (nonlinear_arith)
            requires
                q * den <= p,
                p <= a * den,
                den > 0,
        ;
        if num == den {
            assert(q >= a) by (nonlinear_arith)
                requires
                    p < (q + 1) * den,
                    p == a * den,
                    den > 0,
            ;
        }
    } else {
        assert(a * den <= a * num <= 0) by (nonlinear_arith)
            requires
                a <= 0,
                0 <= num <= den,
        ;
        assert(q >= a) by (nonlinear_arith)
            requires
                p <= q * den,
                a * den <= p,
                den > 0,
        ;
        if num == den {
            assert(q <= a) by (nonlinear_arith)
                requires
                    (q - 1) * den < p,
                    p == a * den,
                    den > 0,
            ;
        }
    }
    if num == 0 {
        assert(a * num == 0) by (nonlinear_arith)
            requires
                num == 0,
        ;
    }
}

/// `floor_sqrt(n)` is the integer part of the square root of `n`.
pub proof fn lemma_floor_sqrt_bounds(n: nat)
    ensures
        floor_sqrt(n) * floor_sqrt(n) <= n < (floor_sqrt(n) + 1) * (floor_sqrt(n) + 1),
    decreases n,
{
    let s = floor_sqrt(n);
    if n > 0 {
        lemma_floor_sqrt_bounds((n - 1) as nat);
        let r = floor_sqrt((n - 1) as nat);
        if (r + 1) * (r + 1) <= n {
            assert(s * s <= n < (s + 1) * (s + 1)) by (nonlinear_arith)
                requires
                    s == r + 1,
                    (r + 1) * (r + 1) <= n,
                    n - 1 < (r + 1) * (r + 1),
            ;
        } else {
            assert(s * s <= n < (s + 1) * (s + 1)) by (nonlinear_arith)
                requires
                    s == r,
                    r * r <= n - 1,
                    n < (r + 1) * (r + 1),
            ;
        }
    } else {
        assert(s * s <= n < (s + 1) * (s + 1)) by (nonlinear_arith)
            requires
                s == 0,
                n == 0,
        ;
    }
}

/// Only one number has its square at or below `n` and its successor's square above `n`.
pub proof fn lemma_floor_sqrt_unique(n: nat, r: nat)
    requires
        r * r <= n < (r + 1) * (r + 1),
    ensures
        r == floor_sqrt(n),
{
    lemma_floor_sqrt_bounds(n);
    let s = floor_sqrt(n);
    if r < s {
        assert((r + 1) * (r + 1) <= s * s) by (nonlinear_arith)
            requires
                0 <= r + 1 <= s,
        ;
    } else if s < r {
        assert((s + 1) * (s + 1) <= r * r) by (nonlinear_arith)
            requires
                0 <= s + 1 <= r,
        ;
    }
}

/// A value of magnitude at most `den`, scaled by `num / den`, has magnitude at most `num`.
pub proof fn lemma_scaled_small(a: int, num: int, den: int)
    requires
        -den <= a <= den,
        0 <= num,
        den > 0,
    ensures
        -num <= scaled(a, num, den) <= num,
        a >= 0 ==> scaled(a, num, den) >= 0,
        a <= 0 ==> scaled(a, num, den) <= 0,
{
    let p = a * num;
    let q = trunc_div(p, den);
    lemma_trunc_div_bounds(p, den);
    if a >= 0 {
        assert(0 <= p <= num * den) by (nonlinear_arith)
            requires
                p == a * num,
                0 <= a <= den,
                0 <= num,
        ;
        assert(q <= num) by (nonlinear_arith)
            requires
                q * den <= p,
                p <= num * den,
                den > 0,
        ;
    } else {
        assert(-(num * den) <= p <= 0) by (nonlinear_arith)
            requires
                p == a * num,
                -den <= a <= 0,
                0 <= num,
        ;
        assert(q >= -num) by (nonlinear_arith)
            requires
                p <= q * den,
                -(num * den) <= p,
                den > 0,
        ;
    }
}

/// Multiplies `a` by the ratio `num / den`, where the result fits.
pub fn mul_ratio(a: i64, num: u64, den: u64) -> (r: i64)
    requires
        den > 0,
        i64::MIN <= scaled(a as int, num as int, den as int) <= i64::MAX,
    ensures
        r == scaled(a as int, num as int, den as int),
{
    proof {
        assert(-0x8000_0000_0000_0000 * 0xffff_ffff_ffff_ffff <= (a as int) * (num as int)
            <= 0x7fff_ffff_ffff_ffff * 0xffff_ffff_ffff_ffff) by (nonlinear_arith)
            requires
                -0x8000_0000_0000_0000 <= a as int <= 0x7fff_ffff_ffff_ffff,
                0 <= num as int <= 0xffff_ffff_ffff_ffff,
        ;
    }
    let wide: i128 = (a as i128) * (num as i128);
    let q: i128 = wide / (den as i128);
    q as i64
}

/// Integer part of the square root.
pub fn isqrt(n: u64) -> (r: u64)
    ensures
        r == floor_sqrt(n as nat),
{
    let mut lo: u64 = 0;
    let mut hi: u64 = 0x1_0000_0000;
    while hi - lo > 1
        invariant
            lo < hi <= 0x1_0000_0000,
            lo * lo <= n,
            n < hi * hi,
        decreases hi - lo,
    {
        let mid: u64 = lo + (hi - lo) / 2;
        assert(mid * mid <= 0xffff_ffff * 0xffff_ffff) by (nonlinear_arith)
            requires
                0 <= mid <= 0xffff_ffff,
        ;
        if mid * mid <= n {
            lo = mid;
        } else {
            hi = mid;
        }
    }
    proof {
        lemma_floor_sqrt_unique(n as nat, lo as nat);
    }
    lo
}

} // verus!
