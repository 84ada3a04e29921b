use skysphere::camera::{CameraPose, OriginalCameraConfig, reset_view, retarget_camera, star_scale_milli};
use skysphere::config::{ClientConfig, Observer, ServerConfig, Star};
use skysphere::geometry::{Vec3Mu, ray_star_hit};
use skysphere::orient::{SkyScene, SphereOrientation, star_world_pos, update_sky};
use skysphere::pick::{CameraTarget, PickState, Ray, handle_star_press, star_target};
use skysphere::sidereal::CivilTime;
use skysphere::view::{
    GridVisibility, TopBarTab, TopBarTabOption, ViewConfig, Visibility, grid_visibility,
    toggle_azimuthal_grid, toggle_equatorial_grid, toggle_time_stopped,
};

fn test_catalog() -> Vec<Star> {
    vec![
        Star { name: String::from("Orion Nebula"), ra_udeg: 101_568_750, dec_udeg: -16_751_470 },
        Star { name: String::from("Sirius"), ra_udeg: 83_826_792, dec_udeg: -5_392_556 },
    ]
}

fn test_instant() -> CivilTime {
    CivilTime { year: 2024, month: 3, day: 1, hour: 10, min: 0, sec: 0, tz_seconds: 0 }
}

fn empty_scene() -> SkyScene {
    SkyScene { sphere: SphereOrientation { z_udeg: 0, y_udeg: 0 }, star_positions: Vec::new() }
}

#[test]
fn updater_writes_transforms() {
    let view = ViewConfig { show_azimuthal_grid: true, show_equatorial_grid: false, time_stopped: false };
    let obs = Observer { latitude_udeg: 40_416_800, longitude_udeg: -3_703_800 };
    let stars = test_catalog();
    let now = test_instant();
    let mut scene = empty_scene();
    update_sky(&view, &obs, &now, &stars, &mut scene);
    assert_eq!(scene.star_positions.len(), 2);
    for p in &scene.star_positions {
        // Every star stands on the unit sphere, within fixed-point noise.
        let n = (p.x as f64).hypot(p.y as f64).hypot(p.z as f64) / 1e6;
        assert!((n - 1.0).abs() < 1e-3, "norm {n}");
    }
}

#[test]
fn updater_idempotent_at_one_instant() {
    let view = ViewConfig { show_azimuthal_grid: true, show_equatorial_grid: false, time_stopped: false };
    let obs = Observer::default();
    let stars = test_catalog();
    let now = test_instant();
    let mut s1 = empty_scene();
    update_sky(&view, &obs, &now, &stars, &mut s1);
    let mut s2 = s1.clone();
    update_sky(&view, &obs, &now, &stars, &mut s2);
    assert_eq!(s1.sphere, s2.sphere);
    assert_eq!(s1.star_positions, s2.star_positions);
}

#[test]
fn updater_frozen_is_noop() {
    let live = ViewConfig { show_azimuthal_grid: true, show_equatorial_grid: false, time_stopped: false };
    let frozen = ViewConfig { time_stopped: true, ..live };
    let obs = Observer::default();
    let stars = test_catalog();
    let mut scene = empty_scene();
    update_sky(&live, &obs, &test_instant(), &stars, &mut scene);
    let sphere_before = scene.sphere;
    let stars_before = scene.star_positions.clone();
    // Wall clock moves on; the frozen updater must leave everything.
    let later = CivilTime { year: 2025, month: 12, day: 31, hour: 23, min: 59, sec: 59, tz_seconds: 0 };
    for _ in 0..3 {
        update_sky(&frozen, &obs, &later, &stars, &mut scene);
        assert_eq!(scene.sphere, sphere_before);
        assert_eq!(scene.star_positions, stars_before);
    }
}

#[test]
fn star_world_pos_axes() {
    // Altitude 0, azimuth 0: the base point (-1, 0, 0) is unmoved.
    assert_eq!(star_world_pos(0, 0), Vec3Mu { x: -1_000_000, y: 0, z: 0 });
    // Altitude 90: straight up.
    assert_eq!(star_world_pos(90_000_000, 0), Vec3Mu { x: 0, y: 1_000_000, z: 0 });
    // Altitude -90: straight down.
    assert_eq!(star_world_pos(-90_000_000, 0), Vec3Mu { x: 0, y: -1_000_000, z: 0 });
}

#[test]
fn picking_threshold_hit_and_miss() {
    // A ray along +Z from the origin; stars placed at exact
    // closest-approach distances.
    let origin = Vec3Mu { x: 0, y: 0, z: 0 };
    let dir = Vec3Mu { x: 0, y: 0, z: 1_000_000 };
    let at = |d: i64| Vec3Mu { x: d, y: 0, z: 5_000_000 };
    // 0.04 units off the ray: hit.
    assert!(ray_star_hit(&origin, &dir, &at(40_000)));
    // 0.06 units off the ray: no hit.
    assert!(!ray_star_hit(&origin, &dir, &at(60_000)));
    // Exactly at the 0.05 threshold: the comparison is strict.
    assert!(!ray_star_hit(&origin, &dir, &at(50_000)));
}

#[test]
fn picking_is_direction_scale_invariant() {
    let origin = Vec3Mu { x: 1_000_000, y: -2_000_000, z: 3_000_000 };
    let star = Vec3Mu { x: 1_030_000, y: -2_000_000, z: 9_000_000 };
    let d1 = Vec3Mu { x: 0, y: 0, z: 500_000 };
    let d2 = Vec3Mu { x: 0, y: 0, z: 2_000_000 };
    assert_eq!(ray_star_hit(&origin, &d1, &star), ray_star_hit(&origin, &d2, &star));
    assert!(ray_star_hit(&origin, &d1, &star));
}

#[test]
fn double_click_fast_retargets() {
    let mut state = PickState { last_press_ms: 1000 };
    let ray = Ray {
        origin: Vec3Mu { x: 0, y: 0, z: 0 },
        direction: Vec3Mu { x: 0, y: 0, z: 1_000_000 },
    };
    let stars = vec![Vec3Mu { x: 10_000, y: 0, z: 1_000_000 }];
    // Second press 150 ms after the first: re-target.
    let r = handle_star_press(&mut state, 1150, Some(ray), &stars);
    assert!(r.is_some());
    assert_eq!(state.last_press_ms, 1150);
}

#[test]
fn double_click_slow_does_nothing() {
    let mut state = PickState { last_press_ms: 1000 };
    let ray = Ray {
        origin: Vec3Mu { x: 0, y: 0, z: 0 },
        direction: Vec3Mu { x: 0, y: 0, z: 1_000_000 },
    };
    let stars = vec![Vec3Mu { x: 10_000, y: 0, z: 1_000_000 }];
    // Second press 250 ms after the first: only the timestamp moves.
    let r = handle_star_press(&mut state, 1250, Some(ray), &stars);
    assert!(r.is_none());
    assert_eq!(state.last_press_ms, 1250);
}

#[test]
fn press_without_ray_only_records_time() {
    let mut state = PickState::default();
    let r = handle_star_press(&mut state, 5000, None, &vec![Vec3Mu { x: 0, y: 0, z: 1_000_000 }]);
    assert!(r.is_none());
    assert_eq!(state.last_press_ms, 5000);
}

#[test]
fn press_missing_every_star_does_nothing() {
    let mut state = PickState { last_press_ms: 0 };
    let ray = Ray {
        origin: Vec3Mu { x: 0, y: 0, z: 0 },
        direction: Vec3Mu { x: 0, y: 0, z: 1_000_000 },
    };
    let stars = vec![Vec3Mu { x: 900_000, y: 0, z: 400_000 }];
    let r = handle_star_press(&mut state, 100, Some(ray), &stars);
    assert!(r.is_none());
}

#[test]
fn overlapping_hits_last_one_wins() {
    let mut state = PickState { last_press_ms: 0 };
    let ray = Ray {
        origin: Vec3Mu { x: 0, y: 0, z: 0 },
        direction: Vec3Mu { x: 0, y: 0, z: 1_000_000 },
    };
    let a = Vec3Mu { x: 10_000, y: 0, z: 1_000_000 };
    let b = Vec3Mu { x: -10_000, y: 20_000, z: 990_000 };
    let r = handle_star_press(&mut state, 100, Some(ray), &vec![a, b]).unwrap();
    assert_eq!(r, star_target(&b));
}

#[test]
fn star_target_recovers_angles() {
    let up = star_target(&Vec3Mu { x: 0, y: 1_000_000, z: 0 });
    assert_eq!(up.pitch_udeg, 90_000_000);
    assert_eq!(up.yaw_udeg, 0);
    let east = star_target(&Vec3Mu { x: 1_000_000, y: 0, z: 0 });
    assert_eq!(east.yaw_udeg, 90_000_000);
    assert_eq!(east.pitch_udeg, 0);
}

#[test]
fn reset_view_restores_original_pose() {
    let mut cam = CameraPose {
        target_yaw_udeg: 123_456_789,
        target_pitch_udeg: -77_000_000,
        target_radius_milli: 19_000,
    };
    reset_view(&mut cam, &OriginalCameraConfig::default());
    assert_eq!(cam.target_yaw_udeg, -15_000_000);
    assert_eq!(cam.target_pitch_udeg, 20_000_000);
    assert_eq!(cam.target_radius_milli, 4000);
}

#[test]
fn retarget_leaves_radius() {
    let mut cam = CameraPose {
        target_yaw_udeg: 0,
        target_pitch_udeg: 0,
        target_radius_milli: 7000,
    };
    retarget_camera(&mut cam, &CameraTarget { yaw_udeg: 44_000_000, pitch_udeg: -3_000_000 });
    assert_eq!(cam.target_yaw_udeg, 44_000_000);
    assert_eq!(cam.target_pitch_udeg, -3_000_000);
    assert_eq!(cam.target_radius_milli, 7000);
}

#[test]
fn star_scale_caps_at_default_size() {
    assert_eq!(star_scale_milli(4000), 1200);
    assert_eq!(star_scale_milli(5000), 1500);
    assert_eq!(star_scale_milli(100_000), 1500);
    assert_eq!(star_scale_milli(0), 0);
}

#[test]
fn view_toggles_flip_independently() {
    let mut v = ViewConfig::default();
    assert!(v.show_azimuthal_grid);
    assert!(!v.show_equatorial_grid);
    assert!(!v.time_stopped);
    toggle_equatorial_grid(&mut v);
    assert!(v.show_equatorial_grid && v.show_azimuthal_grid && !v.time_stopped);
    toggle_azimuthal_grid(&mut v);
    assert!(v.show_equatorial_grid && !v.show_azimuthal_grid && !v.time_stopped);
    toggle_time_stopped(&mut v);
    assert!(v.time_stopped);
    toggle_time_stopped(&mut v);
    assert!(!v.time_stopped);
}

#[test]
fn grid_visibility_follows_toggles() {
    let v = ViewConfig { show_azimuthal_grid: true, show_equatorial_grid: false, time_stopped: false };
    let g: GridVisibility = grid_visibility(&v);
    assert_eq!(g.azimuthal, Visibility::Visible);
    assert_eq!(g.equatorial, Visibility::Hidden);
}

#[test]
fn top_bar_defaults_to_stars() {
    let t = TopBarTab::default();
    assert_eq!(t.tab, TopBarTabOption::Stars);
    assert_ne!(t.tab, TopBarTabOption::TelescopeControl);
}

#[test]
fn config_types_hold_catalog() {
    let cfg = ClientConfig { remote_url: String::from("http://localhost:7777"), stars: test_catalog() };
    assert_eq!(cfg.stars.len(), 2);
    assert_eq!(cfg.stars[0].name, "Orion Nebula");
    let server = ServerConfig {
        ip: String::from("http://localhost:7777"),
        azimuth_steps_per_revolution: 20000,
        altitude_steps_per_revolution: 20000,
    };
    assert_eq!(server.azimuth_steps_per_revolution, 20000);
}
