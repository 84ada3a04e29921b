use skysphere::horizon::alt_az;
use skysphere::numeric::isqrt_u128;
use skysphere::trig::{sin_udeg, cos_udeg, asin_fp, atan2_udeg};

#[test]
fn sine_exact_anchor_values() {
    assert_eq!(sin_udeg(0), 0);
    assert_eq!(sin_udeg(30_000_000), 500_000_000);
    assert_eq!(sin_udeg(90_000_000), 1_000_000_000);
    assert_eq!(sin_udeg(-30_000_000), -500_000_000);
    assert_eq!(cos_udeg(0), 1_000_000_000);
    assert_eq!(cos_udeg(60_000_000), 500_000_000);
    assert_eq!(cos_udeg(180_000_000), -1_000_000_000);
}

#[test]
fn sine_tracks_floating_point() {
    let mut a: i64 = -360_000_000;
    while a <= 360_000_000 {
        let s = sin_udeg(a) as f64 / 1e9;
        let c = cos_udeg(a) as f64 / 1e9;
        let rad = (a as f64 / 1e6).to_radians();
        assert!((s - rad.sin()).abs() < 1e-6, "sin at {a}");
        assert!((c - rad.cos()).abs() < 1e-6, "cos at {a}");
        a += 7_312_345;
    }
}

#[test]
fn arcsine_tracks_floating_point() {
    let mut v: i64 = -1_000_000_000;
    while v <= 1_000_000_000 {
        let got = asin_fp(v) as f64 / 1e6;
        let want = (v as f64 / 1e9).asin().to_degrees();
        assert!((got - want).abs() < 1e-3, "asin at {v}: {got} vs {want}");
        v += 13_371_337;
    }
    assert_eq!(asin_fp(1_000_000_000), 90_000_000);
    assert_eq!(asin_fp(-1_000_000_000), -90_000_000);
    assert_eq!(asin_fp(0), 0);
}

#[test]
fn atan2_tracks_floating_point() {
    let pts: [(i64, i64); 10] = [
        (0, 1_000_000_000),
        (1_000_000_000, 0),
        (-1_000_000_000, 0),
        (0, -1_000_000_000),
        (500_000_000, 500_000_000),
        (-300_000_000, 700_000_000),
        (123_456_789, -987_654_321),
        (-111_111_111, -222_222_222),
        (999_999_999, 1),
        (1, -999_999_999),
    ];
    for (y, x) in pts {
        let got = atan2_udeg(y as i128, x as i128) as f64 / 1e6;
        let want = (y as f64).atan2(x as f64).to_degrees();
        let mut diff = (got - want).abs() % 360.0;
        if diff > 180.0 {
            diff = 360.0 - diff;
        }
        assert!(diff < 1e-3, "atan2({y},{x}): {got} vs {want}");
    }
}

#[test]
fn isqrt_exact_values() {
    assert_eq!(isqrt_u128(0), 0);
    assert_eq!(isqrt_u128(1), 1);
    assert_eq!(isqrt_u128(2), 1);
    assert_eq!(isqrt_u128(4), 2);
    assert_eq!(isqrt_u128(999_999_999_999_999_999), 999_999_999);
    assert_eq!(isqrt_u128(1_000_000_000_000_000_000), 1_000_000_000);
}

#[test]
fn transform_exact_reference_star() {
    // Sirius as the reference library documents it: declination
    // -16.75122, latitude 12.45, sidereal time 199.05, right ascension
    // 101.5504 degrees.
    let hp = alt_az(-16_751_220, 101_550_400, 12_450_000, 199_050_000);
    assert_eq!(hp.alt_udeg, -10_613_191);
    assert_eq!(hp.az_udeg, 254_993_760);
}

#[test]
fn transform_matches_reference_library() {
    let cases: [(f64, f64, f64, f64); 4] = [
        (-16.75122, 101.5504, 12.45, 199.05),
        (45.0, 0.0, 40.0, 30.0),
        (-5.39255555555, 83.826791666666, 42.5950581, 310.55),
        (65.1, 280.75, -33.8, 100.1),
    ];
    for (dec, ra, lat, lmst) in cases {
        let hp = alt_az(
            (dec * 1e6).round() as i64,
            (ra * 1e6).round() as i64,
            (lat * 1e6).round() as i64,
            (lmst * 1e6).round() as i64,
        );
        let reference = astronav::coords::star::AltAzBuilder::new()
            .dec(dec)
            .lat(lat)
            .lmst(lmst)
            .ra(ra)
            .seal()
            .build();
        let alt = hp.alt_udeg as f64 / 1e6;
        let az = hp.az_udeg as f64 / 1e6;
        assert!((alt - reference.get_altitude()).abs() < 1e-3, "alt for {dec} {ra} {lat} {lmst}");
        let mut dz = (az - reference.get_azimuth()).abs() % 360.0;
        if dz > 180.0 {
            dz = 360.0 - dz;
        }
        assert!(dz < 1e-3, "az for {dec} {ra} {lat} {lmst}");
    }
}

#[test]
fn orion_nebula_scenario() {
    // Observer latitude 40.4168, star at right ascension 101.56875 and
    // declination -16.75147 degrees, sidereal time fixed at 0.
    let hp = alt_az(-16_751_470, 101_568_750, 40_416_800, 0);
    assert_eq!(hp.alt_udeg, -19_455_234);
    assert_eq!(hp.az_udeg, 95_778_423);
    let alt = hp.alt_udeg as f64 / 1e6;
    let az = hp.az_udeg as f64 / 1e6;
    assert!((alt - (-19.45523377)).abs() < 1e-3);
    assert!((az - 95.77842367).abs() < 1e-3);
}

#[test]
fn altitude_closed_form_at_zero_hour_angle() {
    // At hour angle zero the altitude is 90 - |lat - dec| degrees.
    let cases: [(i64, i64); 6] = [
        (40_000_000, 10_000_000),
        (40_000_000, 40_000_000),
        (-30_000_000, 20_000_000),
        (0, 0),
        (60_000_000, -60_000_000),
        (12_450_000, -16_751_220),
    ];
    for (lat, dec) in cases {
        // Hour angle is sidereal time minus right ascension; use equal
        // values so it vanishes.
        let ra: i64 = 55_000_000;
        let hp = alt_az(dec, ra, lat, ra);
        let want = 90.0 - ((lat - dec) as f64 / 1e6).abs();
        let got = hp.alt_udeg as f64 / 1e6;
        assert!((got - want).abs() < 1e-3, "lat {lat} dec {dec}: {got} vs {want}");
    }
}

#[test]
fn pole_anchor_altitude_equals_latitude() {
    // The celestial pole stands at an altitude equal to the observer's
    // latitude, whatever the sidereal time.
    for lmst in [0i64, 123_456_000, 359_999_999] {
        let hp = alt_az(90_000_000, 0, 40_416_800, lmst);
        assert!((hp.alt_udeg - 40_416_800).abs() < 10);
    }
}

#[test]
fn transform_ranges() {
    let mut lmst: i64 = 0;
    while lmst < 360_000_000 {
        let hp = alt_az(-16_751_470, 101_568_750, -87_300_000, lmst);
        assert!((-90_000_000..=90_000_000).contains(&hp.alt_udeg));
        assert!((0..360_000_000).contains(&hp.az_udeg));
        lmst += 17_000_000;
    }
}
