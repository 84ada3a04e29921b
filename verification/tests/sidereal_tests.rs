use skysphere::sidereal::{CivilTime, julian_day_number, gmst_udeg, lmst_udeg};

fn civil(year: u16, month: u8, day: u8, hour: u8, min: u8, sec: u8, tz_seconds: i32) -> CivilTime {
    CivilTime { year, month, day, hour, min, sec, tz_seconds }
}

#[test]
fn jdn_j2000_epoch() {
    assert_eq!(julian_day_number(1, 1, 2000), 2451545);
}

#[test]
fn jdn_matches_reference_library() {
    for (d, m, y) in [
        (1u8, 3u8, 2024u16),
        (31, 12, 1999),
        (15, 7, 2024),
        (29, 2, 2020),
        (1, 1, 1900),
    ] {
        assert_eq!(julian_day_number(d, m, y), astronav::time::julian_day_number(d, m, y));
    }
}

#[test]
fn lmst_exact_value() {
    // 2024-03-01 10:00:00 UTC, longitude -3.7038 degrees.
    let t = civil(2024, 3, 1, 10, 0, 0, 0);
    assert_eq!(lmst_udeg(&t, -3_703_800), 306_307_536);
}

#[test]
fn gmst_exact_value() {
    let t = civil(2024, 3, 1, 10, 0, 0, 0);
    assert_eq!(gmst_udeg(&t), 310_011_336);
}

#[test]
fn lmst_matches_reference_library() {
    let cases = [
        (2024u16, 3u8, 1u8, 10u8, 0u8, 0u8, 0i32, -3.7038f64),
        (2024, 7, 15, 18, 30, 45, 7200, 0.0),
        (1990, 1, 15, 3, 4, 5, 0, 45.0),
        (2031, 11, 30, 23, 59, 59, -18000, 170.25),
    ];
    for (y, mo, d, h, mi, s, tz, lon) in cases {
        let t = civil(y, mo, d, h, mi, s, tz);
        let ours = lmst_udeg(&t, (lon * 1e6).round() as i64) as f64 / 1e6;
        let reference = astronav::time::AstroTime {
            day: d,
            month: mo,
            year: y,
            hour: h,
            min: mi,
            sec: s,
            timezone: tz as f32 / 3600.0,
        }
        .lmst_in_degrees(lon);
        let mut diff = (ours - reference).abs() % 360.0;
        if diff > 180.0 {
            diff = 360.0 - diff;
        }
        assert!(diff < 0.01, "lmst mismatch: ours {ours} reference {reference}");
    }
}

#[test]
fn lmst_periodic_over_sidereal_day() {
    // Advancing by one sidereal day (23h 56m 4s) returns the sidereal
    // time to within a fraction of a millidegree.
    let t1 = civil(2024, 3, 1, 10, 0, 0, 0);
    let t2 = civil(2024, 3, 2, 9, 56, 4, 0);
    let a = lmst_udeg(&t1, -3_703_800);
    let b = lmst_udeg(&t2, -3_703_800);
    let mut diff = (a - b).abs() % 360_000_000;
    if diff > 180_000_000 {
        diff = 360_000_000 - diff;
    }
    assert!(diff < 10_000, "lmst drift over a sidereal day: {diff} microdegrees");
}

#[test]
fn lmst_periodic_at_other_longitudes() {
    for lon in [0i64, 90_000_000, -180_000_000, 145_500_000] {
        let t1 = civil(2026, 10, 12, 0, 0, 0, 0);
        let t2 = civil(2026, 10, 12, 23, 56, 4, 0);
        let a = lmst_udeg(&t1, lon);
        let b = lmst_udeg(&t2, lon);
        let mut diff = (a - b).abs() % 360_000_000;
        if diff > 180_000_000 {
            diff = 360_000_000 - diff;
        }
        assert!(diff < 10_000);
    }
}

#[test]
fn lmst_in_range() {
    for h in 0u8..24 {
        let t = civil(2025, 6, 21, h, 17, 43, 3600);
        let l = lmst_udeg(&t, 179_999_999);
        assert!((0..360_000_000).contains(&l));
    }
}
