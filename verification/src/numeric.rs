//! Integer helpers shared by the fixed-point astronomy code: truncating
//! signed division, Euclidean remainder, an integer square root, and
//! bound and shift facts about products, quotients and remainders.

use vstd::prelude::*;

verus! {

/// Division truncated toward zero, the rounding that the fixed-point
/// formulas use for signed quantities.
pub open spec fn spec_div_trunc(a: int, d: int) -> int {
    if a >= 0 {
        a / d
    } else {
        -((-a) / d)
    }
}

/// Truncating division of a signed value by a positive divisor.
pub fn div_trunc_i128(a: i128, d: u128) -> (r: i128)
    requires
        0 < d <= i128::MAX as u128,
        a > i128::MIN,
    ensures
        r == spec_div_trunc(a as int, d as int),
{
    if a >= 0 {
        let q: u128 = (a as u128) / d;
        assert(q <= a as u128);
        q as i128
    } else {
        let n: u128 = (-a) as u128;
        let q: u128 = n / d;
        assert(q <= n);
        -(q as i128)
    }
}

/// Euclidean remainder of a signed value by a positive modulus: the
/// result is always in `[0, m)`.
pub fn mod_euclid_i128(a: i128, m: u128) -> (r: u128)
    requires
        0 < m <= i128::MAX as u128,
        a > i128::MIN,
    ensures
        r == (a as int) % (m as int),
        r < m,
{
    if a >= 0 {
        (a as u128) % m
    } else {
        let n: u128 = (-a) as u128;
        let k: u128 = n % m;
        let ghost ai = a as int;
        let ghost mi = m as int;
        let ghost ni = n as int;
        let ghost q = ni / mi;
        proof {
            vstd::arithmetic::div_mod::lemma_fundamental_div_mod(ni, mi);
        }
        if k == 0 {
            assert((a as int) % (m as int) == 0) by {
                assert(ai == (-q) * mi) by (nonlinear_arith)
                    requires
                        ni == mi * q + 0,
                        ai == -ni,
                ;
                vstd::arithmetic::div_mod::lemma_mod_multiples_basic(-q, mi);
            };
            0
        } else {
            let r: u128 = m - k;
            assert(r == (a as int) % (m as int)) by {
                assert(ai == mi * (-q - 1) + (mi - k)) by (nonlinear_arith)
                    requires
                        ni == mi * q + k,
                        ai == -ni,
                ;
                vstd::arithmetic::div_mod::lemma_mod_multiples_vanish(-q - 1, mi - k, mi);
                vstd::arithmetic::div_mod::lemma_small_mod((mi - k) as nat, mi as nat);
            };
            r
        }
    }
}

/// A product of nonnegative factors is bounded by the product of their
/// bounds.
pub proof fn lemma_mul_le(a: int, b: int, am: int, bm: int)
    by (nonlinear_arith)
    requires
        0 <= a <= am,
        0 <= b <= bm,
    ensures
        0 <= a * b <= am * bm,
{
}

/// A quotient is bounded by any value whose product with the divisor
/// dominates the dividend.
pub proof fn lemma_div_le(a: int, b: int, c: int)
    by (nonlinear_arith)
    requires
        0 <= a,
        1 <= b,
        a <= b * c,
    ensures
        0 <= a / b <= c,
{
}

/// A product of factors bounded in magnitude is bounded by the product
/// of the magnitude bounds.
pub proof fn lemma_mul_bounds_signed(a: int, b: int, m1: int, m2: int)
    by (nonlinear_arith)
    requires
        -m1 <= a <= m1,
        -m2 <= b <= m2,
        0 <= m1,
        0 <= m2,
    ensures
        -(m1 * m2) <= a * b <= m1 * m2,
{
}

/// A product of two unit-scale values, brought back to the unit scale
/// by a division truncated toward zero.
pub fn mul_div_unit(a: i64, b: i64) -> (r: i64)
    requires
        -4_000_000_000 <= a <= 4_000_000_000,
        -4_000_000_000 <= b <= 4_000_000_000,
    ensures
        r == spec_div_trunc(a as int * b as int, 1_000_000_000),
        -16_000_000_000 <= r <= 16_000_000_000,
        (-1_000_000_000 <= a && a <= 1_000_000_000 && -1_000_000_000 <= b && b
            <= 1_000_000_000) ==> -1_000_000_000 <= r <= 1_000_000_000,
{
    proof {
        lemma_mul_bounds_signed(a as int, b as int, 4_000_000_000, 4_000_000_000);
        if -1_000_000_000 <= a && a <= 1_000_000_000 && -1_000_000_000 <= b && b
            <= 1_000_000_000 {
            lemma_mul_bounds_signed(a as int, b as int, 1_000_000_000, 1_000_000_000);
        }
    }
    let p: i128 = a as i128 * b as i128;
    let q: i128 = div_trunc_i128(p, 1_000_000_000);
    q as i64
}

/// Splitting a nonnegative dividend loses at most one count of the
/// divisor to the two remainders.
pub proof fn lemma_div_sum_bounds(a: int, b: int, d: int)
    by (nonlinear_arith)
    requires
        0 <= a,
        0 <= b,
        1 <= d,
    ensures
        a / d + b / d <= (a + b) / d <= a / d + b / d + 1,
{
}

/// Shifting a value down by less than the modulus moves its remainder
/// down by the same amount, wrapping once at most.
pub proof fn lemma_mod_shift_down(g: int, f: int, w: int)
    requires
        0 < f < w,
    ensures
        g % w >= f ==> (g - f) % w == g % w - f,
        g % w < f ==> (g - f) % w == g % w - f + w,
{
    let q = g / w;
    let u = g % w;
    vstd::arithmetic::div_mod::lemma_fundamental_div_mod(g, w);
    vstd::arithmetic::div_mod::lemma_mod_bound(g, w);
    if u >= f {
        assert(g - f == q * w + (u - f)) by (nonlinear_arith)
            requires
                g == w * q + u,
        ;
        vstd::arithmetic::div_mod::lemma_fundamental_div_mod_converse_mod(g - f, w, q, u - f);
    } else {
        assert(g - f == (q - 1) * w + (u - f + w)) by (nonlinear_arith)
            requires
                g == w * q + u,
        ;
        vstd::arithmetic::div_mod::lemma_fundamental_div_mod_converse_mod(
            g - f, w, q - 1, u - f + w);
    }
}

/// Shifting a value up by less than the modulus moves its remainder up
/// by the same amount, wrapping once at most.
pub proof fn lemma_mod_small_shift(x: int, d: int, m: int)
    requires
        1 <= m,
        0 <= d < m,
    ensures
        (x + d) % m == x % m + d || (x + d) % m == x % m + d - m,
{
    let q = x / m;
    let u = x % m;
    vstd::arithmetic::div_mod::lemma_fundamental_div_mod(x, m);
    vstd::arithmetic::div_mod::lemma_mod_bound(x, m);
    if u + d < m {
        assert(x + d == q * m + (u + d)) by (nonlinear_arith)
            requires
                x == m * q + u,
        ;
        vstd::arithmetic::div_mod::lemma_fundamental_div_mod_converse_mod(x + d, m, q, u + d);
    } else {
        assert(x + d == (q + 1) * m + (u + d - m)) by (nonlinear_arith)
            requires
                x == m * q + u,
        ;
        vstd::arithmetic::div_mod::lemma_fundamental_div_mod_converse_mod(
            x + d, m, q + 1, u + d - m);
    }
}

/// The integer square root of a nonnegative value: the greatest integer
/// whose square does not exceed it.
pub open spec fn spec_isqrt(n: int) -> int {
    choose|r: int| 0 <= r && #[trigger] (r * r) <= n && n < (r + 1) * (r + 1)
}

/// The square-root characterization has at most one solution.
pub proof fn lemma_isqrt_unique(a: int, b: int, n: int)
    by (nonlinear_arith)
    requires
        0 <= a && a * a <= n && n < (a + 1) * (a + 1),
        0 <= b && b * b <= n && n < (b + 1) * (b + 1),
    ensures
        a == b,
{
}

/// Integer square root for values up to 10^18: the result is the
/// greatest integer whose square does not exceed the argument.
pub fn isqrt_u128(n: u128) -> (r: u64)
    requires
        n <= 1_000_000_000_000_000_000,
    ensures
        (r as int) * (r as int) <= n,
        n < (r as int + 1) * (r as int + 1),
        r <= 1_000_000_000,
        r == spec_isqrt(n as int),
{
    let mut lo: u128 = 0;
    let mut hi: u128 = 1_000_000_001;
    assert(1_000_000_001u128 * 1_000_000_001 > 1_000_000_000_000_000_000) by (nonlinear_arith);
    while lo + 1 < hi
        invariant
            lo < hi <= 1_000_000_001,
            (lo as int) * (lo as int) <= n,
            n < (hi as int) * (hi as int),
        decreases hi - lo,
    {
        let mid: u128 = lo + (hi - lo) / 2;
        assert(mid * mid <= 1_000_000_001u128 * 1_000_000_001) by (nonlinear_arith)
            requires
                mid <= 1_000_000_001u128,
        ;
        if mid * mid <= n {
            lo = mid;
        } else {
            hi = mid;
        }
    }
    proof {
        let ri = lo as int;
        let ni = n as int;
        assert(0 <= ri && ri * ri <= ni && ni < (ri + 1) * (ri + 1));
        let ci = spec_isqrt(ni);
        assert(0 <= ci && ci * ci <= ni && ni < (ci + 1) * (ci + 1)) by {
            assert(exists|r: int| 0 <= r && #[trigger] (r * r) <= ni && ni < (r + 1) * (r + 1)) by {
                assert(0 <= ri && ri * ri <= ni && ni < (ri + 1) * (ri + 1));
            };
        };
        lemma_isqrt_unique(ri, ci, ni);
    }
    lo as u64
}

} // verus!
