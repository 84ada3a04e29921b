//! Sidereal-time calculation: a civil date-time with a timezone offset
//! is turned into Local Mean Sidereal Time in microdegrees.
//!
//! The chain is the classical one: Julian day number from the calendar
//! date, Julian time (here carried as whole seconds around the J2000
//! epoch, including the fixed 74 s terrestrial-time offset), the
//! Greenwich Mean Sidereal Time polynomial (carried in picodegrees so
//! every coefficient is an exact integer), and the longitude shift.

use vstd::prelude::*;
use crate::numeric::{spec_div_trunc, mod_euclid_i128, lemma_mul_le};

verus! {

/// A civil date-time plus a timezone offset in seconds east of UTC.
#[derive(Clone, Copy, PartialEq, Eq, Structural, Debug)]
pub struct CivilTime {
    pub year: u16,
    pub month: u8,
    pub day: u8,
    pub hour: u8,
    pub min: u8,
    pub sec: u8,
    pub tz_seconds: i32,
}

impl CivilTime {
    /// Field ranges under which the calendar arithmetic is meaningful.
    /// Out-of-range fields are the caller's responsibility.
    pub open spec fn wf(self) -> bool {
        &&& 1 <= self.month <= 12
        &&& 1 <= self.day <= 31
        &&& self.hour <= 23
        &&& self.min <= 59
        &&& self.sec <= 59
        &&& -86400 <= self.tz_seconds <= 86400
    }
}

/// The Julian day number of a Gregorian calendar date.
pub open spec fn spec_julian_day_number(day: int, month: int, year: int) -> int {
    let a = (14 - month) / 12;
    let y = year + 4800 - a;
    let m = month + 12 * a - 3;
    day + (153 * m + 2) / 5 + 365 * y + y / 4 - y / 100 + y / 400 - 32045
}

/// Julian day number from day, month and year.
pub fn julian_day_number(day: u8, month: u8, year: u16) -> (r: u32)
    requires
        1 <= month <= 12,
        1 <= day <= 31,
    ensures
        r == spec_julian_day_number(day as int, month as int, year as int),
        1_700_000 <= r <= 26_000_000,
{
    let a: u32 = (14 - month as u32) / 12;
    let y: u32 = year as u32 + 4800 - a;
    let m: u32 = month as u32 + 12 * a - 3;
    assert(a <= 1);
    assert(y <= 70335);
    assert(m <= 11);
    day as u32 + (153 * m + 2) / 5 + 365 * y + y / 4 - y / 100 + y / 400 - 32045
}

/// Seconds around the J2000 epoch (Julian date 2451545.0) of a civil
/// instant, including the fixed 74 s terrestrial-time offset.
pub open spec fn spec_jt2000_seconds(t: CivilTime) -> int {
    (spec_julian_day_number(t.day as int, t.month as int, t.year as int) - 2451545) * 86400
        + (t.hour - 12) * 3600 + t.min * 60 + t.sec - t.tz_seconds + 74
}

pub fn jt2000_seconds(t: &CivilTime) -> (r: i64)
    requires
        t.wf(),
    ensures
        r == spec_jt2000_seconds(*t),
        -100_000_000_000 <= r <= 2_100_000_000_000,
{
    let jd: u32 = julian_day_number(t.day, t.month, t.year);
    let days: i64 = jd as i64 - 2451545;
    days * 86400 + (t.hour as i64 - 12) * 3600 + t.min as i64 * 60 + t.sec as i64
        - t.tz_seconds as i64 + 74
}

/// The Greenwich Mean Sidereal Time polynomial in picodegrees, before
/// reduction onto the circle. Each coefficient of the standard degree
/// formula is exact at this scale; divisions truncate toward zero.
pub open spec fn spec_gmst_pdeg(t: CivilTime) -> int {
    let ds = spec_jt2000_seconds(t);
    let t1 = spec_div_trunc(ds * 360_985_647_366_290, 86400);
    let t2 = 387_933_000 * (ds * ds) / (3_155_760_000int * 3_155_760_000);
    let t3 = spec_div_trunc(ds * (ds * ds), 315_576int * 315_576 * 315_576 * 38_710_000);
    280_460_618_370_000 + t1 + t2 - t3
}

/// Greenwich Mean Sidereal Time in microdegrees, in `[0, 360)` degrees.
pub open spec fn spec_gmst_udeg(t: CivilTime) -> int {
    spec_gmst_pdeg(t) % 360_000_000_000_000 / 1_000_000
}

pub fn gmst_udeg(t: &CivilTime) -> (r: u64)
    requires
        t.wf(),
    ensures
        r == spec_gmst_udeg(*t),
        r < 360_000_000,
{
    let ds: i64 = jt2000_seconds(t);
    let neg: bool = ds < 0;
    let mag: u128 = if ds >= 0 {
        ds as u128
    } else {
        (-ds) as u128
    };
    assert(mag <= 2_100_000_000_000);
    let t1m: u128 = mag * 360_985_647_366_290 / 86400;
    proof { lemma_mul_le(mag as int, mag as int, 2_100_000_000_000, 2_100_000_000_000); }
    let sq: u128 = mag * mag;
    let t2: u128 = 387_933_000 * sq / (3_155_760_000 * 3_155_760_000);
    proof { lemma_mul_le(mag as int, sq as int, 2_100_000_000_000, 4_410_000_000_000_000_000_000_000); }
    let cube: u128 = mag * sq;
    let t3m: u128 = cube / (315_576u128 * 315_576 * 315_576 * 38_710_000);
    assert(t1m <= 8_800_000_000_000_000_000_000_000_000);
    proof {
        crate::numeric::lemma_div_le(
            387_933_000 * (sq as int), 3_155_760_000int * 3_155_760_000, 400_000_000_000_000);
        crate::numeric::lemma_div_le(
            cube as int, 315_576int * 315_576 * 315_576 * 38_710_000, 10_000_000_000_000);
    }
    assert(t2 <= 400_000_000_000_000);
    assert(t3m <= 10_000_000_000_000);
    let ghost dsi = ds as int;
    proof {
        if neg {
            assert(dsi * dsi == mag as int * mag as int) by (nonlinear_arith)
                requires
                    mag == -dsi,
            ;
            assert(dsi * (dsi * dsi) == -((mag as int) * ((mag as int) * (mag as int))))
                by (nonlinear_arith)
                requires
                    mag == -dsi,
            ;
        } else {
            assert(dsi == mag);
        }
    }
    let sum: i128 = if neg {
        280_460_618_370_000 - t1m as i128 + t2 as i128 + t3m as i128
    } else {
        280_460_618_370_000 + t1m as i128 + t2 as i128 - t3m as i128
    };
    let g: u128 = mod_euclid_i128(sum, 360_000_000_000_000);
    let r: u128 = g / 1_000_000;
    r as u64
}

/// The Julian-time seconds of a well-formed civil instant lie in the
/// range the fixed-point polynomial is sized for.
pub proof fn lemma_jt2000_bounds(t: CivilTime)
    requires
        t.wf(),
    ensures
        -100_000_000_000 <= spec_jt2000_seconds(t) <= 2_100_000_000_000,
{
    let a = (14 - t.month as int) / 12;
    let y = t.year + 4800 - a;
    assert(0 <= a <= 1);
    assert(4789 <= y <= 70335);
    assert(1_700_000 <= spec_julian_day_number(t.day as int, t.month as int, t.year as int)
        <= 26_000_000);
}

/// Sidereal-day periodicity: advancing any instant at or after the
/// J2000 epoch by one sidereal day (23 h 56 m 4 s) advances the
/// unreduced sidereal angle by one full turn, short of it by less than
/// four ten-thousandths of a degree.
pub proof fn lemma_gmst_sidereal_day_period(t1: CivilTime, t2: CivilTime)
    requires
        t1.wf(),
        t2.wf(),
        0 <= spec_jt2000_seconds(t1),
        spec_jt2000_seconds(t2) == spec_jt2000_seconds(t1) + 86164,
    ensures
        359_999_600_000_000 <= spec_gmst_pdeg(t2) - spec_gmst_pdeg(t1) < 360_000_000_000_000,
{
    lemma_jt2000_bounds(t1);
    let ds1 = spec_jt2000_seconds(t1);
    let ds2 = spec_jt2000_seconds(t2);
    let den2 = 3_155_760_000int * 3_155_760_000;
    let den3 = 315_576int * 315_576 * 315_576 * 38_710_000;

    // The linear term advances by 86164 sidereal-rate counts.
    let n1 = ds1 * 360_985_647_366_290;
    let n2 = ds2 * 360_985_647_366_290;
    assert(n2 == n1 + 31_103_967_319_669_011_560);
    crate::numeric::lemma_div_sum_bounds(n1, 31_103_967_319_669_011_560, 86400);
    assert(spec_div_trunc(n1, 86400) == n1 / 86400);
    assert(spec_div_trunc(n2, 86400) == n2 / 86400);
    assert(n1 / 86400 + 359_999_621_755_428 <= n2 / 86400 <= n1 / 86400
        + 359_999_621_755_429);

    // The quadratic term grows, by at most 15 microdegrees.
    let sq1 = ds1 * ds1;
    let sq2 = ds2 * ds2;
    let d2 = 172_328 * ds1 + 7_424_234_896;
    assert(sq2 == sq1 + d2) by (nonlinear_arith)
        requires
            ds2 == ds1 + 86164,
            sq1 == ds1 * ds1,
            sq2 == ds2 * ds2,
            d2 == 172_328 * ds1 + 7_424_234_896,
    ;
    assert(0 <= d2 <= 361_888_807_424_234_896);
    assert(0 <= sq1) by (nonlinear_arith)
        requires
            sq1 == ds1 * ds1,
    ;
    assert(387_933_000 * sq2 == 387_933_000 * sq1 + 387_933_000 * d2);
    crate::numeric::lemma_div_sum_bounds(387_933_000 * sq1, 387_933_000 * d2, den2);
    crate::numeric::lemma_div_le(387_933_000 * d2, den2, 14_100_000);
    assert(387_933_000 * sq1 / den2 <= 387_933_000 * sq2 / den2 <= 387_933_000 * sq1 / den2
        + 14_100_001);

    // The cubic term grows, by at most one microdegree.
    let cube1 = ds1 * (ds1 * ds1);
    let cube2 = ds2 * (ds2 * ds2);
    let d3 = 258_492 * sq1 + 22_272_704_688 * ds1 + 639_701_775_578_944;
    assert(cube2 == cube1 + d3) by (nonlinear_arith)
        requires
            ds2 == ds1 + 86164,
            sq1 == ds1 * ds1,
            cube1 == ds1 * (ds1 * ds1),
            cube2 == ds2 * (ds2 * ds2),
            d3 == 258_492 * sq1 + 22_272_704_688 * ds1 + 639_701_775_578_944,
    ;
    assert(sq1 <= 4_410_000_000_000_000_000_000_000) by (nonlinear_arith)
        requires
            0 <= ds1 <= 2_100_000_000_000,
            sq1 == ds1 * ds1,
    ;
    assert(0 <= cube1) by (nonlinear_arith)
        requires
            0 <= ds1,
            cube1 == ds1 * (ds1 * ds1),
    ;
    assert(0 <= d3 <= 1_140_100_000_000_000_000_000_000_000_000);
    crate::numeric::lemma_div_sum_bounds(cube1, d3, den3);
    crate::numeric::lemma_div_le(d3, den3, 940_000);
    assert(spec_div_trunc(cube1, den3) == cube1 / den3);
    assert(spec_div_trunc(cube2, den3) == cube2 / den3);
    assert(cube1 / den3 <= cube2 / den3 <= cube1 / den3 + 940_001);
}

/// Sidereal-day periodicity of the local sidereal time itself:
/// advancing any instant at or after the J2000 epoch by one sidereal
/// day (23 h 56 m 4 s) brings the local sidereal time back to within
/// half a millidegree of its value, holding the longitude fixed.
pub proof fn lemma_lmst_sidereal_day_period(t1: CivilTime, t2: CivilTime, lon: int)
    requires
        t1.wf(),
        t2.wf(),
        0 <= spec_jt2000_seconds(t1),
        spec_jt2000_seconds(t2) == spec_jt2000_seconds(t1) + 86164,
        -360_000_000 <= lon <= 360_000_000,
    ensures
        ({
            let a = spec_lmst_udeg(t1, lon);
            let b = spec_lmst_udeg(t2, lon);
            let d = if a >= b {
                a - b
            } else {
                b - a
            };
            d <= 500 || d >= 359_999_500
        }),
{
    lemma_gmst_sidereal_day_period(t1, t2);
    let w = 360_000_000_000_000int;
    let g1 = spec_gmst_pdeg(t1);
    let g2 = spec_gmst_pdeg(t2);
    let f = w - (g2 - g1);
    assert(0 < f <= 400_000_000);
    let u1 = g1 % w;
    let u2 = g2 % w;
    vstd::arithmetic::div_mod::lemma_mod_bound(g1, w);
    vstd::arithmetic::div_mod::lemma_mod_bound(g2, w);
    assert((g1 - f) % w == u2) by {
        assert(g2 == (g1 - f) + w);
        vstd::arithmetic::div_mod::lemma_mod_add_multiples_vanish(g1 - f, w);
    };
    crate::numeric::lemma_mod_shift_down(g1, f, w);
    let m1 = u1 / 1_000_000;
    let m2 = u2 / 1_000_000;
    assert(m1 == spec_gmst_udeg(t1));
    assert(m2 == spec_gmst_udeg(t2));
    assert(0 <= m1 < 360_000_000);
    assert(0 <= m2 < 360_000_000);
    let big = 360_000_000int;
    if u1 >= f {
        // The reduced angle steps down by the shortfall.
        assert(u2 == u1 - f);
        crate::numeric::lemma_div_sum_bounds(u2, f, 1_000_000);
        let dd = m1 - m2;
        assert(0 <= dd <= 401);
        crate::numeric::lemma_mod_small_shift(m2 + lon, dd, big);
        assert((m2 + lon + dd) % big == (m1 + lon) % big);
        vstd::arithmetic::div_mod::lemma_mod_bound(m1 + lon, big);
        vstd::arithmetic::div_mod::lemma_mod_bound(m2 + lon, big);
    } else {
        // The reduced angle wraps once, stepping up by almost a turn.
        assert(u2 == u1 + (w - f));
        crate::numeric::lemma_div_sum_bounds(u1, w - f, 1_000_000);
        let dd = m2 - m1;
        assert(359_999_600 <= dd < 360_000_000);
        crate::numeric::lemma_mod_small_shift(m1 + lon, dd, big);
        assert((m1 + lon + dd) % big == (m2 + lon) % big);
        vstd::arithmetic::div_mod::lemma_mod_bound(m1 + lon, big);
        vstd::arithmetic::div_mod::lemma_mod_bound(m2 + lon, big);
    }
}

/// Local Mean Sidereal Time in microdegrees: Greenwich sidereal time
/// shifted by the observer's longitude and reduced into `[0, 360)`.
pub open spec fn spec_lmst_udeg(t: CivilTime, lon_udeg: int) -> int {
    (spec_gmst_udeg(t) + lon_udeg) % 360_000_000
}

pub fn lmst_udeg(t: &CivilTime, lon_udeg: i64) -> (r: i64)
    requires
        t.wf(),
        -360_000_000 <= lon_udeg <= 360_000_000,
    ensures
        r == spec_lmst_udeg(*t, lon_udeg as int),
        0 <= r < 360_000_000,
{
    let g: u64 = gmst_udeg(t);
    let s: i128 = g as i128 + lon_udeg as i128;
    let m: u128 = mod_euclid_i128(s, 360_000_000);
    m as i64
}

} // verus!
