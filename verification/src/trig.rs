//! Fixed-point trigonometry over angles in microdegrees.
//!
//! Unit-interval values (sines, cosines, ratios) are carried at a scale
//! of 10^9; the polynomial cores work internally at a scale of 10^12.
//! Every executable function is pinned to a spec function that states
//! the same arithmetic, so results are a pure function of the inputs.

use vstd::prelude::*;
use crate::numeric::{isqrt_u128, spec_isqrt, lemma_mul_le, lemma_div_le};

verus! {

/// Internal polynomial scale: this many counts stand for 1.0.
pub const POLY: u128 = 1_000_000_000_000;

/// Radians at the `POLY` scale per microdegree, times 10^9.
pub const RAD_NUM: u128 = 17_453_292_519_943;

/// Sine on `[0, 45]` degrees by a Taylor polynomial, at the `POLY` scale
/// before the final reduction to the unit scale of 10^9.
pub open spec fn spec_sin_core(x: int) -> int {
    let y = x * 17_453_292_519_943 / 1_000_000_000;
    let z = y * y / 1_000_000_000_000;
    let p1 = 1_000_000_000_000 - z / 72;
    let p2 = 1_000_000_000_000 - z * p1 / 1_000_000_000_000 / 42;
    let p3 = 1_000_000_000_000 - z * p2 / 1_000_000_000_000 / 20;
    let p4 = 1_000_000_000_000 - z * p3 / 1_000_000_000_000 / 6;
    y * p4 / 1_000_000_000_000 / 1000
}

/// Cosine on `[0, 45]` degrees by a Taylor polynomial.
pub open spec fn spec_cos_core(x: int) -> int {
    let y = x * 17_453_292_519_943 / 1_000_000_000;
    let z = y * y / 1_000_000_000_000;
    let q1 = 1_000_000_000_000 - z / 56;
    let q2 = 1_000_000_000_000 - z * q1 / 1_000_000_000_000 / 30;
    let q3 = 1_000_000_000_000 - z * q2 / 1_000_000_000_000 / 12;
    let q4 = 1_000_000_000_000 - z * q3 / 1_000_000_000_000 / 2;
    q4 / 1000
}

pub(crate) fn sin_core(x: u64) -> (r: u64)
    requires
        x <= 45_000_000,
    ensures
        r == spec_sin_core(x as int),
        r <= 1_000_000_000,
{
    let y: u128 = (x as u128) * 17_453_292_519_943 / 1_000_000_000;
    assert(y <= 785_398_163_398);
    proof { lemma_mul_le(y as int, y as int, 785_398_163_398, 785_398_163_398); }
    let z: u128 = y * y / POLY;
    assert(z <= 616_850_276_000);
    let p1: u128 = POLY - z / 72;
    proof { lemma_mul_le(z as int, p1 as int, 616_850_276_000, 1_000_000_000_000); }
    let p2: u128 = POLY - z * p1 / POLY / 42;
    proof { lemma_mul_le(z as int, p2 as int, 616_850_276_000, 1_000_000_000_000); }
    let p3: u128 = POLY - z * p2 / POLY / 20;
    proof { lemma_mul_le(z as int, p3 as int, 616_850_276_000, 1_000_000_000_000); }
    let p4: u128 = POLY - z * p3 / POLY / 6;
    proof { lemma_mul_le(y as int, p4 as int, 785_398_163_398, 1_000_000_000_000); }
    let s: u128 = y * p4 / POLY / 1000;
    assert(s <= 785_398_164);
    s as u64
}

pub(crate) fn cos_core(x: u64) -> (r: u64)
    requires
        x <= 45_000_000,
    ensures
        r == spec_cos_core(x as int),
        r <= 1_000_000_000,
{
    let y: u128 = (x as u128) * 17_453_292_519_943 / 1_000_000_000;
    assert(y <= 785_398_163_398);
    proof { lemma_mul_le(y as int, y as int, 785_398_163_398, 785_398_163_398); }
    let z: u128 = y * y / POLY;
    assert(z <= 616_850_276_000);
    let q1: u128 = POLY - z / 56;
    proof { lemma_mul_le(z as int, q1 as int, 616_850_276_000, 1_000_000_000_000); }
    let q2: u128 = POLY - z * q1 / POLY / 30;
    proof { lemma_mul_le(z as int, q2 as int, 616_850_276_000, 1_000_000_000_000); }
    let q3: u128 = POLY - z * q2 / POLY / 12;
    proof { lemma_mul_le(z as int, q3 as int, 616_850_276_000, 1_000_000_000_000); }
    let q4: u128 = POLY - z * q3 / POLY / 2;
    let c: u128 = q4 / 1000;
    assert(c <= 1_000_000_000);
    c as u64
}

/// Sine on `[0, 90)` degrees, folded onto the two polynomial cores.
pub open spec fn spec_sin_octant(m: int) -> int {
    if m <= 45_000_000 {
        spec_sin_core(m)
    } else {
        spec_cos_core(90_000_000 - m)
    }
}

/// Cosine on `[0, 90)` degrees.
pub open spec fn spec_cos_octant(m: int) -> int {
    if m <= 45_000_000 {
        spec_cos_core(m)
    } else {
        spec_sin_core(90_000_000 - m)
    }
}

pub(crate) fn sin_octant(m: u64) -> (r: u64)
    requires
        m < 90_000_000,
    ensures
        r == spec_sin_octant(m as int),
        r <= 1_000_000_000,
{
    if m <= 45_000_000 {
        sin_core(m)
    } else {
        cos_core(90_000_000 - m)
    }
}

pub(crate) fn cos_octant(m: u64) -> (r: u64)
    requires
        m < 90_000_000,
    ensures
        r == spec_cos_octant(m as int),
        r <= 1_000_000_000,
{
    if m <= 45_000_000 {
        cos_core(m)
    } else {
        sin_core(90_000_000 - m)
    }
}

/// Sine over a full turn `[0, 360)` degrees, by quadrant symmetry.
pub open spec fn spec_sin_circle(b: int) -> int {
    let q = b / 90_000_000;
    let m = b % 90_000_000;
    if q == 0 {
        spec_sin_octant(m)
    } else if q == 1 {
        spec_cos_octant(m)
    } else if q == 2 {
        -spec_sin_octant(m)
    } else {
        -spec_cos_octant(m)
    }
}

/// Cosine over a full turn `[0, 360)` degrees.
pub open spec fn spec_cos_circle(b: int) -> int {
    let q = b / 90_000_000;
    let m = b % 90_000_000;
    if q == 0 {
        spec_cos_octant(m)
    } else if q == 1 {
        -spec_sin_octant(m)
    } else if q == 2 {
        -spec_cos_octant(m)
    } else {
        spec_sin_octant(m)
    }
}

/// Angles up to one turn either way are brought into `[0, 360)` degrees.
pub open spec fn spec_wrap_turn(a: int) -> int {
    if a < 0 {
        a + 360_000_000
    } else if a >= 360_000_000 {
        a - 360_000_000
    } else {
        a
    }
}

/// Sine of an angle in microdegrees, at the unit scale of 10^9.
pub open spec fn spec_sin_udeg(a: int) -> int {
    spec_sin_circle(spec_wrap_turn(a))
}

/// Cosine of an angle in microdegrees, at the unit scale of 10^9.
pub open spec fn spec_cos_udeg(a: int) -> int {
    spec_cos_circle(spec_wrap_turn(a))
}

pub fn sin_udeg(a: i64) -> (r: i64)
    requires
        -360_000_000 <= a <= 360_000_000,
    ensures
        r == spec_sin_udeg(a as int),
        -1_000_000_000 <= r <= 1_000_000_000,
{
    let b: i64 = if a < 0 {
        a + 360_000_000
    } else if a >= 360_000_000 {
        a - 360_000_000
    } else {
        a
    };
    let bu: u64 = b as u64;
    let q: u64 = bu / 90_000_000;
    let m: u64 = bu % 90_000_000;
    if q == 0 {
        sin_octant(m) as i64
    } else if q == 1 {
        cos_octant(m) as i64
    } else if q == 2 {
        -(sin_octant(m) as i64)
    } else {
        assert(q == 3);
        -(cos_octant(m) as i64)
    }
}

pub fn cos_udeg(a: i64) -> (r: i64)
    requires
        -360_000_000 <= a <= 360_000_000,
    ensures
        r == spec_cos_udeg(a as int),
        -1_000_000_000 <= r <= 1_000_000_000,
{
    let b: i64 = if a < 0 {
        a + 360_000_000
    } else if a >= 360_000_000 {
        a - 360_000_000
    } else {
        a
    };
    let bu: u64 = b as u64;
    let q: u64 = bu / 90_000_000;
    let m: u64 = bu % 90_000_000;
    if q == 0 {
        cos_octant(m) as i64
    } else if q == 1 {
        -(sin_octant(m) as i64)
    } else if q == 2 {
        -(cos_octant(m) as i64)
    } else {
        assert(q == 3);
        sin_octant(m) as i64
    }
}

/// Arctangent of a ratio in `[0, 0.415]` at the unit scale of 10^9, in
/// microdegrees, by a Taylor polynomial.
pub open spec fn spec_atan_small(w: int) -> int {
    let y = w * 1000;
    let z = y * y / 1_000_000_000_000;
    let p1 = 1_000_000_000_000int / 13;
    let p2 = 1_000_000_000_000int / 11 - z * p1 / 1_000_000_000_000;
    let p3 = 1_000_000_000_000int / 9 - z * p2 / 1_000_000_000_000;
    let p4 = 1_000_000_000_000int / 7 - z * p3 / 1_000_000_000_000;
    let p5 = 1_000_000_000_000int / 5 - z * p4 / 1_000_000_000_000;
    let p6 = 1_000_000_000_000int / 3 - z * p5 / 1_000_000_000_000;
    let p7 = 1_000_000_000_000 - z * p6 / 1_000_000_000_000;
    let rad = y * p7 / 1_000_000_000_000;
    rad * 1_000_000_000 / 17_453_292_519_943
}

pub(crate) fn atan_small(w: u64) -> (r: u64)
    requires
        w <= 415_000_000,
    ensures
        r == spec_atan_small(w as int),
        r <= 24_000_000,
{
    let y: u128 = (w as u128) * 1000;
    assert(y <= 415_000_000_000);
    proof { lemma_mul_le(y as int, y as int, 415_000_000_000, 415_000_000_000); }
    let z: u128 = y * y / POLY;
    assert(z <= 172_225_000_000);
    let p1: u128 = POLY / 13;
    proof { lemma_mul_le(z as int, p1 as int, 172_225_000_000, 76_923_076_924); }
    let p2: u128 = POLY / 11 - z * p1 / POLY;
    proof { lemma_mul_le(z as int, p2 as int, 172_225_000_000, 90_909_090_910); }
    let p3: u128 = POLY / 9 - z * p2 / POLY;
    proof { lemma_mul_le(z as int, p3 as int, 172_225_000_000, 111_111_111_112); }
    let p4: u128 = POLY / 7 - z * p3 / POLY;
    proof { lemma_mul_le(z as int, p4 as int, 172_225_000_000, 142_857_142_858); }
    let p5: u128 = POLY / 5 - z * p4 / POLY;
    proof { lemma_mul_le(z as int, p5 as int, 172_225_000_000, 200_000_000_000); }
    let p6: u128 = POLY / 3 - z * p5 / POLY;
    proof { lemma_mul_le(z as int, p6 as int, 172_225_000_000, 333_333_333_334); }
    let p7: u128 = POLY - z * p6 / POLY;
    proof { lemma_mul_le(y as int, p7 as int, 415_000_000_000, 1_000_000_000_000); }
    let rad: u128 = y * p7 / POLY;
    assert(rad <= 415_000_000_000);
    let d: u128 = rad * 1_000_000_000 / RAD_NUM;
    assert(d <= 24_000_000);
    d as u64
}

/// Arctangent of a ratio in `[0, 1]` at the unit scale of 10^9, in microdegrees:
/// ratios above `tan(22.5)` degrees are folded through the identity
/// `atan(t) = 45 - atan((1 - t) / (1 + t))` (in degrees).
pub open spec fn spec_atan_leq1(t: int) -> int {
    if t <= 414_213_562 {
        spec_atan_small(t)
    } else {
        45_000_000 - spec_atan_small((1_000_000_000 - t) * 1_000_000_000 / (1_000_000_000 + t))
    }
}

pub(crate) fn atan_leq1(t: u64) -> (r: u64)
    requires
        t <= 1_000_000_000,
    ensures
        r == spec_atan_leq1(t as int),
        r <= 45_000_000,
{
    if t <= 414_213_562 {
        atan_small(t)
    } else {
        let num: u128 = ((1_000_000_000 - t) as u128) * 1_000_000_000;
        let den: u128 = (1_000_000_000 + t) as u128;
        let u: u128 = num / den;
        proof {
            lemma_div_le(num as int, den as int, 415_000_000);
        }
        45_000_000 - atan_small(u as u64)
    }
}

/// Arctangent of `num / den` for nonnegative `num` and positive `den`,
/// in microdegrees in `[0, 90]`.
pub open spec fn spec_atan_ratio(num: int, den: int) -> int {
    if num <= den {
        spec_atan_leq1(num * 1_000_000_000 / den)
    } else {
        90_000_000 - spec_atan_leq1(den * 1_000_000_000 / num)
    }
}

pub(crate) fn atan_ratio(num: u128, den: u128) -> (r: u64)
    requires
        1 <= den,
        num <= 4_000_000_000_000_000_000,
        den <= 4_000_000_000_000_000_000,
    ensures
        r == spec_atan_ratio(num as int, den as int),
        r <= 90_000_000,
{
    if num <= den {
        let t: u128 = num * 1_000_000_000 / den;
        proof {
            lemma_mul_le(num as int, 1_000_000_000, den as int, 1_000_000_000);
            lemma_div_le((num * 1_000_000_000) as int, den as int, 1_000_000_000);
        }
        atan_leq1(t as u64)
    } else {
        let t: u128 = den * 1_000_000_000 / num;
        proof {
            lemma_mul_le(den as int, 1_000_000_000, num as int, 1_000_000_000);
            lemma_div_le((den * 1_000_000_000) as int, num as int, 1_000_000_000);
        }
        90_000_000 - atan_leq1(t as u64)
    }
}

/// Arcsine of a nonnegative unit-scale value, in microdegrees in
/// `[0, 90]`: the value is paired with its complementary cosine by an
/// integer square root, and the pair goes through the arctangent.
pub open spec fn spec_asin_nn(v: int) -> int {
    let c = spec_isqrt(1_000_000_000_000_000_000 - v * v);
    if c == 0 {
        90_000_000
    } else {
        spec_atan_ratio(v, c)
    }
}

/// Arcsine of a unit-scale value, in microdegrees in `[-90, 90]`.
pub open spec fn spec_asin_fp(v: int) -> int {
    if v >= 0 {
        spec_asin_nn(v)
    } else {
        -spec_asin_nn(-v)
    }
}

pub fn asin_fp(v: i64) -> (r: i64)
    requires
        -1_000_000_000 <= v <= 1_000_000_000,
    ensures
        r == spec_asin_fp(v as int),
        -90_000_000 <= r <= 90_000_000,
{
    let m: u128 = if v >= 0 {
        v as u128
    } else {
        (-v) as u128
    };
    assert(m <= 1_000_000_000);
    proof { lemma_mul_le(m as int, m as int, 1_000_000_000, 1_000_000_000); }
    let c2: u128 = 1_000_000_000_000_000_000 - m * m;
    let c: u64 = isqrt_u128(c2);
    let nn: u64 = if c == 0 {
        90_000_000
    } else {
        atan_ratio(m, c as u128)
    };
    if v >= 0 {
        nn as i64
    } else {
        -(nn as i64)
    }
}

/// Two-argument arctangent in microdegrees, in `(-180, 180]`, with the
/// same quadrant resolution as the floating-point `atan2`.
pub open spec fn spec_atan2_udeg(y: int, x: int) -> int {
    if x > 0 {
        if y >= 0 {
            spec_atan_ratio(y, x)
        } else {
            -spec_atan_ratio(-y, x)
        }
    } else if x == 0 {
        if y > 0 {
            90_000_000
        } else if y < 0 {
            -90_000_000
        } else {
            0
        }
    } else {
        if y >= 0 {
            180_000_000 - spec_atan_ratio(y, -x)
        } else {
            -180_000_000 + spec_atan_ratio(-y, -x)
        }
    }
}

pub fn atan2_udeg(y: i128, x: i128) -> (r: i64)
    requires
        -4_000_000_000_000_000_000 <= y <= 4_000_000_000_000_000_000,
        -4_000_000_000_000_000_000 <= x <= 4_000_000_000_000_000_000,
    ensures
        r == spec_atan2_udeg(y as int, x as int),
        -180_000_000 <= r <= 180_000_000,
{
    if x > 0 {
        if y >= 0 {
            atan_ratio(y as u128, x as u128) as i64
        } else {
            -(atan_ratio((-y) as u128, x as u128) as i64)
        }
    } else if x == 0 {
        if y > 0 {
            90_000_000
        } else if y < 0 {
            -90_000_000
        } else {
            0
        }
    } else {
        if y >= 0 {
            180_000_000 - (atan_ratio(y as u128, (-x) as u128) as i64)
        } else {
            -180_000_000 + (atan_ratio((-y) as u128, (-x) as u128) as i64)
        }
    }
}

/// An angle in `(-360, 360)` microdegrees brought into `[0, 360)`.
pub open spec fn spec_norm_turn(a: int) -> int {
    if a < 0 {
        a + 360_000_000
    } else {
        a
    }
}

pub fn norm_turn(a: i64) -> (r: i64)
    requires
        -360_000_000 < a < 360_000_000,
    ensures
        r == spec_norm_turn(a as int),
        0 <= r < 360_000_000,
{
    if a < 0 {
        a + 360_000_000
    } else {
        a
    }
}

} // verus!
