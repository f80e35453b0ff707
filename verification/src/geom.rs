//! Integer world geometry: coordinate vectors, axis-aligned boxes, and the
//! strict-overlap predicate that placement tests are judged against.
//!
//! Poses and offsets are integer world coordinates. The named bounds keep
//! every coordinate a growth process can reach far away from the `i64`
//! limits, so all geometric arithmetic is proved free of overflow.

use vstd::prelude::*;

verus! {

/// Largest magnitude of a module-local coordinate: bounding-box center
/// offsets, half-extents and relative placement offsets all stay within it.
pub const REL_BOUND: i64 = 0x100000;

/// Largest magnitude of a coordinate of a seed pose drawn by the controller.
pub const SEED_BOUND: i64 = 0x100000;

/// Largest target size a growth process may be given.
pub const MAX_TARGET: usize = 0x100000;

/// Every pose a growth process can reach stays within this magnitude: a seed
/// contributes at most `SEED_BOUND`, and each of the at most `MAX_TARGET + 1`
/// placements adds at most `REL_BOUND` more.
pub const MAX_POSE: i64 = 0x20000000000;

/// Largest magnitude of a world-space volume center: a pose plus a
/// module-local center offset.
pub const VOL_BOUND: i64 = MAX_POSE + REL_BOUND;

/// A point or offset in integer world coordinates.
#[derive(Clone, Copy, PartialEq, Eq, Structural, Debug)]
pub struct Vec3i {
    pub x: i64,
    pub y: i64,
    pub z: i64,
}

/// `r` is the componentwise sum of `a` and `b`, over unbounded integers.
pub open spec fn is_sum(r: Vec3i, a: Vec3i, b: Vec3i) -> bool {
    &&& r.x == a.x + b.x
    &&& r.y == a.y + b.y
    &&& r.z == a.z + b.z
}

impl Vec3i {
    /// Every coordinate lies within magnitude `b`.
    pub open spec fn bounded(self, b: int) -> bool {
        &&& -b <= self.x <= b
        &&& -b <= self.y <= b
        &&& -b <= self.z <= b
    }

    /// Componentwise sum; the caller shows that no component overflows.
    pub fn plus(self, other: Vec3i) -> (r: Vec3i)
        requires
            i64::MIN <= self.x + other.x <= i64::MAX,
            i64::MIN <= self.y + other.y <= i64::MAX,
            i64::MIN <= self.z + other.z <= i64::MAX,
        ensures
            is_sum(r, self, other),
    {
        Vec3i { x: self.x + other.x, y: self.y + other.y, z: self.z + other.z }
    }
}

/// An axis-aligned box: a center and half-extents along each axis.
///
/// A module's descriptor stores such a box in module-local coordinates; a
/// registered volume stores one in world coordinates.
#[derive(Clone, Copy, PartialEq, Eq, Structural, Debug)]
pub struct Aabb {
    pub center: Vec3i,
    pub half: Vec3i,
}

/// The centers lie closer than the sum of the half-widths:
/// `|c1 - c2| < h1 + h2`. When that sum is not positive nothing satisfies
/// it; note a zero-width interval strictly inside a wider one does — a
/// fully shrunk candidate sitting inside a solid still overlaps it.
pub open spec fn axis_overlap(c1: int, h1: int, c2: int, h2: int) -> bool {
    &&& c1 - c2 < h1 + h2
    &&& c2 - c1 < h1 + h2
}

/// `cand`, with each half-extent reduced by `tol`, strictly overlaps `other`
/// on every axis. Shrinking by the tolerance keeps modules that merely share
/// a face from counting as an intersection.
pub open spec fn blocked_by(cand: Aabb, tol: int, other: Aabb) -> bool {
    &&& axis_overlap(cand.center.x as int, cand.half.x - tol, other.center.x as int, other.half.x as int)
    &&& axis_overlap(cand.center.y as int, cand.half.y - tol, other.center.y as int, other.half.y as int)
    &&& axis_overlap(cand.center.z as int, cand.half.z - tol, other.center.z as int, other.half.z as int)
}

/// A well-formed module-local box: center offset within `REL_BOUND`,
/// half-extents non-negative and within `REL_BOUND`.
pub open spec fn box_wf(a: Aabb) -> bool {
    &&& a.center.bounded(REL_BOUND as int)
    &&& 0 <= a.half.x <= REL_BOUND
    &&& 0 <= a.half.y <= REL_BOUND
    &&& 0 <= a.half.z <= REL_BOUND
}

/// A well-formed world-space volume: center within `VOL_BOUND` of the
/// origin, half-extents non-negative and within `REL_BOUND`.
pub open spec fn vol_wf(a: Aabb) -> bool {
    &&& a.center.bounded(VOL_BOUND as int)
    &&& 0 <= a.half.x <= REL_BOUND
    &&& 0 <= a.half.y <= REL_BOUND
    &&& 0 <= a.half.z <= REL_BOUND
}

/// Exact executable form of `blocked_by`: does the tolerance-shrunk
/// candidate strictly overlap the committed volume?
pub fn aabb_blocked_by(cand: &Aabb, tol: i64, other: &Aabb) -> (r: bool)
    requires
        vol_wf(*cand),
        vol_wf(*other),
        0 <= tol <= REL_BOUND,
    ensures
        r == blocked_by(*cand, tol as int, *other),
{
    let dx = cand.center.x - other.center.x;
    let hx = cand.half.x - tol + other.half.x;
    let dy = cand.center.y - other.center.y;
    let hy = cand.half.y - tol + other.half.y;
    let dz = cand.center.z - other.center.z;
    let hz = cand.half.z - tol + other.half.z;
    dx < hx && -dx < hx && dy < hy && -dy < hy && dz < hz && -dz < hz
}

/// Componentwise sum as a value; callers keep coordinates far from the
/// `i64` limits, so the casts do not wrap and this agrees with `is_sum`.
pub open spec fn vec_sum(a: Vec3i, b: Vec3i) -> Vec3i {
    Vec3i { x: (a.x + b.x) as i64, y: (a.y + b.y) as i64, z: (a.z + b.z) as i64 }
}

/// The world-space volume of a module's box at a pose: the center offset
/// carried into world coordinates, the half-extents unchanged. Callers keep
/// coordinates far from the `i64` limits, so the casts do not wrap.
pub open spec fn world_volume(bbox: Aabb, pose: Vec3i) -> Aabb {
    Aabb {
        center: Vec3i {
            x: (pose.x + bbox.center.x) as i64,
            y: (pose.y + bbox.center.y) as i64,
            z: (pose.z + bbox.center.z) as i64,
        },
        half: bbox.half,
    }
}

/// Bound on the pose of the instance a growth process placed at index `j`:
/// the seed lies within `SEED_BOUND` and each later placement moves at most
/// `REL_BOUND` away from its source.
pub open spec fn pose_limit(j: int) -> int {
    SEED_BOUND + (j + 1) * REL_BOUND
}

} // verus!
