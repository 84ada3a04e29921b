//! World-space vectors at a fixed-point scale of 10^6 counts per world
//! unit, and the ray-to-star proximity test used for picking.

use vstd::prelude::*;
use crate::numeric::lemma_mul_bounds_signed;

verus! {

/// A 3D vector in micro-units (10^6 counts stand for one world unit).
#[derive(Clone, Copy, PartialEq, Eq, Structural, Debug)]
pub struct Vec3Mu {
    pub x: i64,
    pub y: i64,
    pub z: i64,
}

/// A 3D vector of unbounded integers, the model of intermediate
/// geometric values.
pub struct V3 {
    pub x: int,
    pub y: int,
    pub z: int,
}

impl Vec3Mu {
    /// Every component within `m` counts of zero.
    pub open spec fn bounded(self, m: int) -> bool {
        &&& -m <= self.x <= m
        &&& -m <= self.y <= m
        &&& -m <= self.z <= m
    }

    /// The vector as unbounded integers.
    pub open spec fn v3(self) -> V3 {
        V3 { x: self.x as int, y: self.y as int, z: self.z as int }
    }
}

/// Componentwise difference.
pub open spec fn spec_sub(a: Vec3Mu, b: Vec3Mu) -> V3 {
    V3 { x: a.x - b.x, y: a.y - b.y, z: a.z - b.z }
}

/// Cross product of a vector with an integer vector.
pub open spec fn spec_cross(d: Vec3Mu, v: V3) -> V3 {
    V3 {
        x: d.y * v.z - d.z * v.y,
        y: d.z * v.x - d.x * v.z,
        z: d.x * v.y - d.y * v.x,
    }
}

/// Squared Euclidean norm.
pub open spec fn spec_norm_sq(v: V3) -> int {
    v.x * v.x + v.y * v.y + v.z * v.z
}

/// Whether a star position lies within 0.05 world units of the ray
/// through `origin` with direction `dir`: the squared cross product of
/// the direction with the offset is compared against the squared
/// threshold times the squared direction length, the cross-product
/// point-to-line distance test cleared of its division and square root.
pub open spec fn spec_ray_hit(origin: Vec3Mu, dir: Vec3Mu, p: Vec3Mu) -> bool {
    spec_norm_sq(spec_cross(dir, spec_sub(p, origin))) < 2_500_000_000 * spec_norm_sq(dir.v3())
}

/// The picking proximity test.
pub fn ray_star_hit(origin: &Vec3Mu, dir: &Vec3Mu, p: &Vec3Mu) -> (r: bool)
    requires
        origin.bounded(100_000_000),
        dir.bounded(100_000_000),
        p.bounded(100_000_000),
    ensures
        r == spec_ray_hit(*origin, *dir, *p),
{
    let vx: i64 = p.x - origin.x;
    let vy: i64 = p.y - origin.y;
    let vz: i64 = p.z - origin.z;
    proof {
        lemma_mul_bounds_signed(dir.y as int, vz as int, 100_000_000, 200_000_000);
        lemma_mul_bounds_signed(dir.z as int, vy as int, 100_000_000, 200_000_000);
        lemma_mul_bounds_signed(dir.z as int, vx as int, 100_000_000, 200_000_000);
        lemma_mul_bounds_signed(dir.x as int, vz as int, 100_000_000, 200_000_000);
        lemma_mul_bounds_signed(dir.x as int, vy as int, 100_000_000, 200_000_000);
        lemma_mul_bounds_signed(dir.y as int, vx as int, 100_000_000, 200_000_000);
    }
    let cx: i128 = dir.y as i128 * vz as i128 - dir.z as i128 * vy as i128;
    let cy: i128 = dir.z as i128 * vx as i128 - dir.x as i128 * vz as i128;
    let cz: i128 = dir.x as i128 * vy as i128 - dir.y as i128 * vx as i128;
    proof {
        lemma_mul_bounds_signed(cx as int, cx as int, 40_000_000_000_000_000, 40_000_000_000_000_000);
        lemma_mul_bounds_signed(cy as int, cy as int, 40_000_000_000_000_000, 40_000_000_000_000_000);
        lemma_mul_bounds_signed(cz as int, cz as int, 40_000_000_000_000_000, 40_000_000_000_000_000);
        lemma_mul_bounds_signed(dir.x as int, dir.x as int, 100_000_000, 100_000_000);
        lemma_mul_bounds_signed(dir.y as int, dir.y as int, 100_000_000, 100_000_000);
        lemma_mul_bounds_signed(dir.z as int, dir.z as int, 100_000_000, 100_000_000);
    }
    let nsq: i128 = cx * cx + cy * cy + cz * cz;
    let dsq: i128 = dir.x as i128 * dir.x as i128 + dir.y as i128 * dir.y as i128
        + dir.z as i128 * dir.z as i128;
    nsq < 2_500_000_000 * dsq
}

} // verus!
