//! The pick-and-recenter gesture: on a primary-button press, the time
//! since the previous press is measured and the press time stored; if a
//! camera ray is available, every star within the picking threshold is
//! a hit, and a hit together with a press gap under 200 ms issues a
//! camera re-target at the star's angular position. When several stars
//! are hit, the last one in catalog order wins, as each hit overwrites
//! the target.

use vstd::prelude::*;
use crate::geometry::{Vec3Mu, spec_ray_hit, ray_star_hit};
use crate::horizon::spec_clamp_unit;
use crate::trig::{spec_atan2_udeg, spec_asin_fp, atan2_udeg, asin_fp};

verus! {

/// A camera ray in world space, in micro-units.
#[derive(Clone, Copy, PartialEq, Eq, Structural, Debug)]
pub struct Ray {
    pub origin: Vec3Mu,
    pub direction: Vec3Mu,
}

/// Gesture state: the timestamp of the last primary-button press, in
/// milliseconds on the caller's monotonic clock. It holds exactly one
/// timestamp, overwritten on every press.
#[derive(Clone, Copy, PartialEq, Eq, Structural, Debug)]
pub struct PickState {
    pub last_press_ms: u64,
}

impl Default for PickState {
    /// The initial state: no press seen yet.
    fn default() -> (r: Self)
        ensures
            r.last_press_ms == 0,
    {
        PickState { last_press_ms: 0 }
    }
}

/// A camera re-target command: desired yaw and pitch in microdegrees.
#[derive(Clone, Copy, PartialEq, Eq, Structural, Debug)]
pub struct CameraTarget {
    pub yaw_udeg: i64,
    pub pitch_udeg: i64,
}

/// The re-target command for a star at a world position on the unit
/// sphere: yaw is `atan2(x, z)`, pitch is `asin(y)`, which recover the
/// star's angular position directly.
pub open spec fn spec_star_target(p: Vec3Mu) -> CameraTarget {
    let yaw = spec_atan2_udeg(p.x as int, p.z as int);
    let pitch = spec_asin_fp(spec_clamp_unit(p.y * 1000));
    CameraTarget { yaw_udeg: yaw as i64, pitch_udeg: pitch as i64 }
}

pub fn star_target(p: &Vec3Mu) -> (r: CameraTarget)
    requires
        p.bounded(2_000_000),
    ensures
        r == spec_star_target(*p),
{
    let yaw: i64 = atan2_udeg(p.x as i128, p.z as i128);
    let y1000: i64 = p.y * 1000;
    let yc: i64 = if y1000 > 1_000_000_000 {
        1_000_000_000
    } else if y1000 < -1_000_000_000 {
        -1_000_000_000
    } else {
        y1000
    };
    let pitch: i64 = asin_fp(yc);
    CameraTarget { yaw_udeg: yaw, pitch_udeg: pitch }
}

/// The last star position in catalog order that the ray hits, if any.
pub open spec fn spec_last_hit(ray: Ray, s: Seq<Vec3Mu>) -> Option<Vec3Mu>
    decreases s.len(),
{
    if s.len() == 0 {
        None
    } else if spec_ray_hit(ray.origin, ray.direction, s.last()) {
        Some(s.last())
    } else {
        spec_last_hit(ray, s.drop_last())
    }
}

/// What a press at `now_ms` commands, given the previous press time:
/// nothing without a cursor ray; nothing when the press gap reaches
/// 200 ms; otherwise the re-target for the last hit star, if any star
/// is hit.
pub open spec fn spec_press_result(
    st: PickState,
    now_ms: int,
    ray: Option<Ray>,
    s: Seq<Vec3Mu>,
) -> Option<CameraTarget> {
    match ray {
        None => None,
        Some(r) => {
            if now_ms - st.last_press_ms >= 200 {
                None
            } else {
                match spec_last_hit(r, s) {
                    None => None,
                    Some(p) => Some(spec_star_target(p)),
                }
            }
        },
    }
}

/// Some star is hit exactly when the last-hit scan finds one.
pub proof fn lemma_last_hit_iff_exists(ray: Ray, s: Seq<Vec3Mu>)
    ensures
        spec_last_hit(ray, s).is_some() <==> exists|i: int|
            0 <= i < s.len() && spec_ray_hit(ray.origin, ray.direction, s[i]),
    decreases s.len(),
{
    if s.len() == 0 {
    } else if spec_ray_hit(ray.origin, ray.direction, s.last()) {
        assert(spec_ray_hit(ray.origin, ray.direction, s[s.len() - 1]));
    } else {
        lemma_last_hit_iff_exists(ray, s.drop_last());
        if exists|i: int| 0 <= i < s.len() && spec_ray_hit(ray.origin, ray.direction, s[i]) {
            let i = choose|i: int|
                0 <= i < s.len() && spec_ray_hit(ray.origin, ray.direction, s[i]);
            assert(i != s.len() - 1);
            assert(s.drop_last()[i] == s[i]);
            assert(spec_ray_hit(ray.origin, ray.direction, s.drop_last()[i]));
        }
        if spec_last_hit(ray, s.drop_last()).is_some() {
            let i = choose|i: int|
                0 <= i < s.drop_last().len()
                    && spec_ray_hit(ray.origin, ray.direction, s.drop_last()[i]);
            assert(s[i] == s.drop_last()[i]);
            assert(spec_ray_hit(ray.origin, ray.direction, s[i]));
        }
    }
}

/// A press re-targets the camera exactly when a ray is available, the
/// press gap is under 200 ms, and some star is hit: a single click
/// (or a slow double click) never re-centers.
pub proof fn lemma_press_retargets_iff(st: PickState, now_ms: int, ray: Ray, s: Seq<Vec3Mu>)
    ensures
        spec_press_result(st, now_ms, Some(ray), s).is_some() <==> (now_ms - st.last_press_ms
            < 200 && exists|i: int|
            0 <= i < s.len() && spec_ray_hit(ray.origin, ray.direction, s[i])),
{
    lemma_last_hit_iff_exists(ray, s);
}

/// Handle a primary-button press: record the press time, and resolve
/// the double-click pick against the current star positions.
pub fn handle_star_press(
    state: &mut PickState,
    now_ms: u64,
    ray: Option<Ray>,
    star_positions: &Vec<Vec3Mu>,
) -> (r: Option<CameraTarget>)
    requires
        old(state).last_press_ms <= now_ms,
        match ray {
            Some(rr) => rr.origin.bounded(100_000_000) && rr.direction.bounded(100_000_000),
            None => true,
        },
        forall|i: int| 0 <= i < star_positions@.len() ==> (#[trigger] star_positions@[i]).bounded(
            2_000_000),
    ensures
        final(state).last_press_ms == now_ms,
        r == spec_press_result(*old(state), now_ms as int, ray, star_positions@),
{
    let elapsed: u64 = now_ms - state.last_press_ms;
    state.last_press_ms = now_ms;
    match ray {
        None => None,
        Some(rr) => {
            if elapsed >= 200 {
                return None;
            }
            let ghost s = star_positions@;
            let mut hit_pos: Option<Vec3Mu> = None;
            let mut i: usize = 0;
            while i < star_positions.len()
                invariant
                    i <= s.len(),
                    s == star_positions@,
                    rr.origin.bounded(100_000_000),
                    rr.direction.bounded(100_000_000),
                    forall|j: int| 0 <= j < s.len() ==> (#[trigger] s[j]).bounded(2_000_000),
                    hit_pos == spec_last_hit(rr, s.take(i as int)),
                decreases s.len() - i,
            {
                let p: Vec3Mu = star_positions[i];
                if ray_star_hit(&rr.origin, &rr.direction, &p) {
                    hit_pos = Some(p);
                }
                proof {
                    assert(s.take(i + 1).drop_last() =~= s.take(i as int));
                    assert(s.take(i + 1).last() == s[i as int]);
                }
                i = i + 1;
            }
            proof {
                assert(s.take(s.len() as int) =~= s);
            }
            match hit_pos {
                None => None,
                Some(p) => {
                    assert(p.bounded(2_000_000)) by {
                        lemma_last_hit_is_element(rr, s);
                    };
                    Some(star_target(&p))
                },
            }
        },
    }
}

/// No position after index `i` is hit.
pub open spec fn spec_no_hit_after(ray: Ray, s: Seq<Vec3Mu>, i: int) -> bool {
    forall|j: int| i < j < s.len() ==> !spec_ray_hit(ray.origin, ray.direction, s[j])
}

/// The scan finds exactly the last hit: a found position is a hit with
/// no later hit in the catalog, and when nothing is found, nothing was
/// hit.
pub proof fn lemma_last_hit_is_element(ray: Ray, s: Seq<Vec3Mu>)
    ensures
        match spec_last_hit(ray, s) {
            Some(p) => exists|i: int|
                0 <= i < s.len() && s[i] == p && spec_ray_hit(ray.origin, ray.direction, s[i])
                    && #[trigger] spec_no_hit_after(ray, s, i),
            None => spec_no_hit_after(ray, s, -1),
        },
    decreases s.len(),
{
    if s.len() == 0 {
    } else if spec_ray_hit(ray.origin, ray.direction, s.last()) {
        let i = s.len() - 1;
        assert(s[i] == s.last());
        assert(spec_no_hit_after(ray, s, i));
    } else {
        lemma_last_hit_is_element(ray, s.drop_last());
        let sub = s.drop_last();
        match spec_last_hit(ray, sub) {
            Some(p) => {
                let i = choose|i: int|
                    0 <= i < sub.len() && sub[i] == p && spec_ray_hit(
                        ray.origin, ray.direction, sub[i]) && #[trigger] spec_no_hit_after(
                        ray, sub, i);
                assert(s[i] == p);
                assert(spec_no_hit_after(ray, s, i)) by {
                    assert forall|j: int|
                        i < j < s.len() implies !spec_ray_hit(
                        ray.origin, ray.direction, s[j]) by {
                        if j < s.len() - 1 {
                            assert(sub[j] == s[j]);
                        } else {
                            assert(s[j] == s.last());
                        }
                    };
                };
            },
            None => {
                assert(spec_no_hit_after(ray, s, -1)) by {
                    assert forall|j: int|
                        -1 < j < s.len() implies !spec_ray_hit(
                        ray.origin, ray.direction, s[j]) by {
                        if j < s.len() - 1 {
                            assert(sub[j] == s[j]);
                        } else {
                            assert(s[j] == s.last());
                        }
                    };
                };
            },
        }
    }
}

} // verus!
