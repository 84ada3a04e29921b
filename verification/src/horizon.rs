//! Horizon-coordinate transform: equatorial coordinates (right
//! ascension, declination), observer latitude and local sidereal time
//! go to altitude and azimuth, all in microdegrees.

use vstd::prelude::*;
use crate::numeric::{spec_div_trunc, mul_div_unit};
use crate::trig::{
    spec_sin_udeg, spec_cos_udeg, spec_asin_fp, spec_atan2_udeg, spec_norm_turn,
    sin_udeg, cos_udeg, asin_fp, atan2_udeg, norm_turn,
};

verus! {

/// A horizon position: altitude in `[-90, 90]` degrees and azimuth in
/// `[0, 360)` degrees, both in microdegrees.
#[derive(Clone, Copy, PartialEq, Eq, Structural, Debug)]
pub struct HorizonPosition {
    pub alt_udeg: i64,
    pub az_udeg: i64,
}

/// A unit-scale value forced into `[-1, 1]`: the fixed-point sine of
/// the altitude can overshoot the unit interval by a few counts.
pub open spec fn spec_clamp_unit(v: int) -> int {
    if v > 1_000_000_000 {
        1_000_000_000
    } else if v < -1_000_000_000 {
        -1_000_000_000
    } else {
        v
    }
}

/// The horizon transform. The hour angle is the sidereal time minus
/// the right ascension; the altitude comes from the spherical-law
/// sine `sin(dec) sin(lat) + cos(dec) cos(lat) cos(h)`; the azimuth is
/// the two-argument arctangent of the horizontal components
/// `(-sin(h) cos(dec) cos(lat), sin(dec) - sin(alt) sin(lat))`,
/// brought into `[0, 360)` degrees, measured from north through east.
pub open spec fn spec_alt_az(dec: int, ra: int, lat: int, lmst: int) -> HorizonPosition {
    let h = spec_norm_turn(lmst - ra);
    let sd = spec_sin_udeg(dec);
    let cd = spec_cos_udeg(dec);
    let sl = spec_sin_udeg(lat);
    let cl = spec_cos_udeg(lat);
    let sh = spec_sin_udeg(h);
    let ch = spec_cos_udeg(h);
    let t = spec_div_trunc(cd * cl, 1_000_000_000);
    let u = spec_div_trunc(t * ch, 1_000_000_000);
    let sa = spec_clamp_unit(spec_div_trunc(sd * sl, 1_000_000_000) + u);
    let alt = spec_asin_fp(sa);
    let yy = -spec_div_trunc(spec_div_trunc(sh * cd, 1_000_000_000) * cl, 1_000_000_000);
    let xx = sd - spec_div_trunc(sa * sl, 1_000_000_000);
    let az = spec_norm_turn(spec_atan2_udeg(yy, xx));
    HorizonPosition { alt_udeg: alt as i64, az_udeg: az as i64 }
}

/// Altitude and azimuth of a catalog direction for an observer.
///
/// Inputs are in microdegrees; the caller supplies them already in
/// their valid ranges, as the transform performs no validation. At an
/// altitude of 90 degrees either way the azimuth is degenerate
/// (gimbal-like) and the numerical value is accepted as it comes.
pub fn alt_az(dec: i64, ra: i64, lat: i64, lmst: i64) -> (r: HorizonPosition)
    requires
        -90_000_000 <= dec <= 90_000_000,
        -90_000_000 <= lat <= 90_000_000,
        0 <= ra < 360_000_000,
        0 <= lmst < 360_000_000,
    ensures
        r == spec_alt_az(dec as int, ra as int, lat as int, lmst as int),
        -90_000_000 <= r.alt_udeg <= 90_000_000,
        0 <= r.az_udeg < 360_000_000,
{
    let h: i64 = norm_turn(lmst - ra);
    let sd: i64 = sin_udeg(dec);
    let cd: i64 = cos_udeg(dec);
    let sl: i64 = sin_udeg(lat);
    let cl: i64 = cos_udeg(lat);
    let sh: i64 = sin_udeg(h);
    let ch: i64 = cos_udeg(h);
    let t: i64 = mul_div_unit(cd, cl);
    let u: i64 = mul_div_unit(t, ch);
    let sa_raw: i64 = mul_div_unit(sd, sl) + u;
    let sa: i64 = if sa_raw > 1_000_000_000 {
        1_000_000_000
    } else if sa_raw < -1_000_000_000 {
        -1_000_000_000
    } else {
        sa_raw
    };
    let alt: i64 = asin_fp(sa);
    let yy: i64 = -mul_div_unit(mul_div_unit(sh, cd), cl);
    let xx: i64 = sd - mul_div_unit(sa, sl);
    let az: i64 = norm_turn(atan2_udeg(yy as i128, xx as i128));
    HorizonPosition { alt_udeg: alt, az_udeg: az }
}

} // verus!
