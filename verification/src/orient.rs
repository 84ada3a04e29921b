//! The per-frame sky-orientation update: from the observer, the
//! sampled (or frozen) civil time and the star catalog it computes one
//! rigid rotation for the whole background sphere and a world position
//! for every star, replacing the previous transforms entirely. Nothing
//! is integrated incrementally, so the transforms are a pure function
//! of the inputs.

use vstd::prelude::*;
use crate::config::{Observer, Star};
use crate::geometry::Vec3Mu;
use crate::horizon::{HorizonPosition, spec_alt_az, alt_az};
use crate::numeric::{spec_div_trunc, mul_div_unit, div_trunc_i128};
use crate::sidereal::{CivilTime, spec_lmst_udeg, lmst_udeg};
use crate::trig::{spec_sin_udeg, spec_cos_udeg};
use crate::view::ViewConfig;

verus! {

/// The rigid rotation of the background sphere, as a rotation about the
/// world Y axis by `y_udeg` followed by a rotation about the world Z
/// axis by `z_udeg` (microdegrees). `z_udeg` folds the fixed 90-degree
/// axis-alignment correction together with the negated pole altitude;
/// `y_udeg` is the negated azimuth of the equatorial reference point.
#[derive(Clone, Copy, PartialEq, Eq, Structural, Debug)]
pub struct SphereOrientation {
    pub z_udeg: i64,
    pub y_udeg: i64,
}

/// The scene transforms the updater writes: the sphere rotation and one
/// world position per star.
#[derive(Clone, Debug)]
pub struct SkyScene {
    pub sphere: SphereOrientation,
    pub star_positions: Vec<Vec3Mu>,
}

/// The mathematical model of a scene.
pub struct SceneModel {
    pub sphere: SphereOrientation,
    pub stars: Seq<Vec3Mu>,
}

impl SkyScene {
    pub open spec fn model(self) -> SceneModel {
        SceneModel { sphere: self.sphere, stars: self.star_positions@ }
    }
}

/// The world position of a star seen at a horizon position: the base
/// point `(-1, 0, 0)` rotated about Z by the negated altitude, then
/// about Y by the negated azimuth, written out componentwise and scaled
/// to micro-units.
pub open spec fn spec_star_world_pos(alt: int, az: int) -> Vec3Mu {
    let ca = spec_cos_udeg(alt);
    let sa = spec_sin_udeg(alt);
    let cz = spec_cos_udeg(az);
    let sz = spec_sin_udeg(az);
    let x = -spec_div_trunc(spec_div_trunc(ca * cz, 1_000_000_000), 1000);
    let y = spec_div_trunc(sa, 1000);
    let z = -spec_div_trunc(spec_div_trunc(ca * sz, 1_000_000_000), 1000);
    Vec3Mu { x: x as i64, y: y as i64, z: z as i64 }
}

pub fn star_world_pos(alt: i64, az: i64) -> (r: Vec3Mu)
    requires
        -90_000_000 <= alt <= 90_000_000,
        0 <= az < 360_000_000,
    ensures
        r == spec_star_world_pos(alt as int, az as int),
        r.bounded(1_000_000),
{
    let ca: i64 = crate::trig::cos_udeg(alt);
    let sa: i64 = crate::trig::sin_udeg(alt);
    let cz: i64 = crate::trig::cos_udeg(az);
    let sz: i64 = crate::trig::sin_udeg(az);
    let xs: i64 = mul_div_unit(ca, cz);
    let zs: i64 = mul_div_unit(ca, sz);
    let x: i64 = -(div_trunc_i128(xs as i128, 1000) as i64);
    let y: i64 = div_trunc_i128(sa as i128, 1000) as i64;
    let z: i64 = -(div_trunc_i128(zs as i128, 1000) as i64);
    Vec3Mu { x, y, z }
}

/// The whole-sphere rotation for an observer at an instant: the pole
/// anchor (declination 90, right ascension 0) gives the Z rotation and
/// the equatorial reference anchor (declination 0, right ascension 0)
/// gives the Y rotation.
pub open spec fn spec_sphere_orientation(obs: Observer, t: CivilTime) -> SphereOrientation {
    let lmst = spec_lmst_udeg(t, obs.longitude_udeg as int);
    let pole = spec_alt_az(90_000_000, 0, obs.latitude_udeg as int, lmst);
    let refp = spec_alt_az(0, 0, obs.latitude_udeg as int, lmst);
    SphereOrientation {
        z_udeg: (90_000_000 - pole.alt_udeg) as i64,
        y_udeg: (-refp.az_udeg) as i64,
    }
}

/// The world position of one catalog star for an observer at an
/// instant.
pub open spec fn spec_star_position(obs: Observer, t: CivilTime, s: Star) -> Vec3Mu {
    let lmst = spec_lmst_udeg(t, obs.longitude_udeg as int);
    let hp = spec_alt_az(s.dec_udeg as int, s.ra_udeg as int, obs.latitude_udeg as int, lmst);
    spec_star_world_pos(hp.alt_udeg as int, hp.az_udeg as int)
}

/// The world positions of the whole catalog, in catalog order.
pub open spec fn spec_star_positions(obs: Observer, t: CivilTime, stars: Seq<Star>) -> Seq<
    Vec3Mu,
> {
    Seq::new(stars.len(), |i: int| spec_star_position(obs, t, stars[i]))
}

/// What one updater run makes of a scene: a frozen clock leaves the
/// scene untouched; otherwise every transform is recomputed from the
/// observer, the instant and the catalog alone.
pub open spec fn spec_update_scene(
    view: ViewConfig,
    obs: Observer,
    t: CivilTime,
    stars: Seq<Star>,
    m: SceneModel,
) -> SceneModel {
    if view.time_stopped {
        m
    } else {
        SceneModel {
            sphere: spec_sphere_orientation(obs, t),
            stars: spec_star_positions(obs, t, stars),
        }
    }
}

/// Running the updater twice at one instant is the same as running it
/// once: the second run recomputes exactly the transforms the first
/// produced (and under a frozen clock both runs change nothing).
pub proof fn lemma_update_idempotent(
    view: ViewConfig,
    obs: Observer,
    t: CivilTime,
    stars: Seq<Star>,
    m: SceneModel,
)
    ensures
        spec_update_scene(view, obs, t, stars, spec_update_scene(view, obs, t, stars, m))
            == spec_update_scene(view, obs, t, stars, m),
{
}

/// Once the clock is frozen, an updater run leaves every transform
/// unchanged, regardless of the wall-clock sample it is handed.
pub proof fn lemma_freeze_invariant(
    view: ViewConfig,
    obs: Observer,
    t: CivilTime,
    stars: Seq<Star>,
    m: SceneModel,
)
    requires
        view.time_stopped,
    ensures
        spec_update_scene(view, obs, t, stars, m) == m,
{
}

/// Any two scenes the updater may produce from the same inputs are
/// identical, transform for transform.
pub proof fn lemma_update_deterministic(
    view: ViewConfig,
    obs: Observer,
    t: CivilTime,
    stars: Seq<Star>,
    m: SceneModel,
    s1: SceneModel,
    s2: SceneModel,
)
    requires
        s1 == spec_update_scene(view, obs, t, stars, m),
        s2 == spec_update_scene(view, obs, t, stars, m),
    ensures
        s1.sphere == s2.sphere,
        s1.stars == s2.stars,
{
}

/// One updater run: a no-op under a frozen clock, otherwise the sphere
/// rotation and every star position are recomputed in place.
pub fn update_sky(
    view: &ViewConfig,
    obs: &Observer,
    now: &CivilTime,
    stars: &Vec<Star>,
    scene: &mut SkyScene,
)
    requires
        obs.wf(),
        now.wf(),
        forall|i: int| 0 <= i < stars@.len() ==> (#[trigger] stars@[i]).wf(),
    ensures
        final(scene).model() == spec_update_scene(
            *view,
            *obs,
            *now,
            stars@,
            old(scene).model(),
        ),
        view.time_stopped ==> *final(scene) == *old(scene),
        !view.time_stopped ==> forall|i: int|
            0 <= i < final(scene).star_positions@.len() ==> (
            #[trigger] final(scene).star_positions@[i]).bounded(1_000_000),
{
    if view.time_stopped {
        return ;
    }
    let lmst: i64 = lmst_udeg(now, obs.longitude_udeg);
    let pole: HorizonPosition = alt_az(90_000_000, 0, obs.latitude_udeg, lmst);
    let refp: HorizonPosition = alt_az(0, 0, obs.latitude_udeg, lmst);
    scene.sphere = SphereOrientation { z_udeg: 90_000_000 - pole.alt_udeg, y_udeg: -refp.az_udeg };
    let mut v: Vec<Vec3Mu> = Vec::new();
    let mut i: usize = 0;
    while i < stars.len()
        invariant
            i <= stars@.len(),
            v@.len() == i,
            obs.wf(),
            now.wf(),
            lmst == spec_lmst_udeg(*now, obs.longitude_udeg as int),
            0 <= lmst < 360_000_000,
            forall|j: int| 0 <= j < stars@.len() ==> (#[trigger] stars@[j]).wf(),
            forall|j: int|
                0 <= j < i ==> v@[j] == spec_star_position(*obs, *now, stars@[j]) && (
                #[trigger] v@[j]).bounded(1_000_000),
        decreases stars@.len() - i,
    {
        let dec: i64 = stars[i].dec_udeg;
        let ra: i64 = stars[i].ra_udeg;
        let hp: HorizonPosition = alt_az(dec, ra, obs.latitude_udeg, lmst);
        v.push(star_world_pos(hp.alt_udeg, hp.az_udeg));
        i = i + 1;
    }
    scene.star_positions = v;
    proof {
        assert(scene.star_positions@ =~= spec_star_positions(*obs, *now, stars@));
    }
}

} // verus!
