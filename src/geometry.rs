use vstd::prelude::*;

use crate::events::CollisionSide;

verus! {

/// Largest magnitude of a coordinate, a velocity component or a size that the
/// simulation accepts; every sum and product it forms then fits in an `i64`.
pub const COORD_LIMIT: i64 = 0x100_0000_0000;

/// Bound on the intermediate values that one stage of a tick may receive:
/// sixteen times the coordinate range, so that the arithmetic of a stage
/// still fits in an `i64`.
pub const WIDE_LIMIT: i64 = 0x1000_0000_0000;

/// `v` lies within the bound that a single stage accepts.
pub open spec fn fits(v: int) -> bool {
    -WIDE_LIMIT <= v <= WIDE_LIMIT
}

/// `v` lies within the accepted coordinate range.
pub open spec fn in_range(v: int) -> bool {
    -COORD_LIMIT <= v <= COORD_LIMIT
}

/// Whether `v` lies within the accepted coordinate range.
pub(crate) fn in_range_exec(v: i64) -> (r: bool)
    ensures
        r == in_range(v as int),
{
    -COORD_LIMIT <= v && v <= COORD_LIMIT
}

pub open spec fn abs(v: int) -> int {
    if v < 0 { -v } else { v }
}

pub open spec fn min(a: int, b: int) -> int {
    if a <= b { a } else { b }
}

/// A point or a displacement, in fixed-point length units.
#[derive(Clone, Copy, Debug, PartialEq, Eq, Structural)]
pub struct Vec2 {
    pub x: i64,
    pub y: i64,
}

impl Vec2 {
    pub open spec fn wf(self) -> bool {
        in_range(self.x as int) && in_range(self.y as int)
    }

    pub fn new(x: i64, y: i64) -> (r: Vec2)
        ensures
            r.x == x,
            r.y == y,
    {
        Vec2 { x, y }
    }
}

/// An axis-aligned bounding box given by its two corners.
#[derive(Clone, Copy, Debug, PartialEq, Eq, Structural)]
pub struct Aabb {
    pub min: Vec2,
    pub max: Vec2,
}

/// The box centred on `center` that reaches `half` away from it on each axis.
pub open spec fn box_around(center: Vec2, half: Vec2) -> Aabb {
    Aabb {
        min: Vec2 { x: (center.x - half.x) as i64, y: (center.y - half.y) as i64 },
        max: Vec2 { x: (center.x + half.x) as i64, y: (center.y + half.y) as i64 },
    }
}

/// Both axes overlap, with touching edges not counted.
pub open spec fn boxes_overlap(a: Aabb, b: Aabb) -> bool {
    a.min.x < b.max.x && a.max.x > b.min.x && a.min.y < b.max.y && a.max.y > b.min.y
}

/// Depth of penetration along x: the smaller of the two edge distances.
pub open spec fn x_overlap(a: Aabb, b: Aabb) -> int {
    min(abs(a.max.x - b.min.x), abs(b.max.x - a.min.x))
}

/// Depth of penetration along y: the smaller of the two edge distances.
pub open spec fn y_overlap(a: Aabb, b: Aabb) -> int {
    min(abs(a.max.y - b.min.y), abs(b.max.y - a.min.y))
}

/// The side of `b` that `a` struck: the axis of smaller penetration wins,
/// and a tie goes to the vertical axis.
pub open spec fn side_of(a: Aabb, b: Aabb) -> CollisionSide {
    if x_overlap(a, b) < y_overlap(a, b) {
        if a.min.x < b.min.x {
            CollisionSide::Left
        } else {
            CollisionSide::Right
        }
    } else {
        if a.min.y < b.min.y {
            CollisionSide::Bottom
        } else {
            CollisionSide::Top
        }
    }
}

impl Aabb {
    /// Corners within twice the stage bound, as any box built from a
    /// centre that fits and an in-range half extent has.
    pub open spec fn wf(self) -> bool {
        &&& -2 * WIDE_LIMIT <= self.min.x <= 2 * WIDE_LIMIT
        &&& -2 * WIDE_LIMIT <= self.min.y <= 2 * WIDE_LIMIT
        &&& -2 * WIDE_LIMIT <= self.max.x <= 2 * WIDE_LIMIT
        &&& -2 * WIDE_LIMIT <= self.max.y <= 2 * WIDE_LIMIT
    }

    /// The box centred on `center` with half extent `half`.
    pub fn new(center: Vec2, half: Vec2) -> (r: Aabb)
        requires
            fits(center.x as int),
            fits(center.y as int),
            0 <= half.x <= COORD_LIMIT,
            0 <= half.y <= COORD_LIMIT,
        ensures
            r == box_around(center, half),
            r.wf(),
    {
        Aabb {
            min: Vec2 { x: center.x - half.x, y: center.y - half.y },
            max: Vec2 { x: center.x + half.x, y: center.y + half.y },
        }
    }
}

fn abs_diff(a: i64, b: i64) -> (r: i64)
    requires
        -2 * WIDE_LIMIT <= a <= 2 * WIDE_LIMIT,
        -2 * WIDE_LIMIT <= b <= 2 * WIDE_LIMIT,
    ensures
        r == abs(a - b),
{
    if a < b {
        b - a
    } else {
        a - b
    }
}

/// Whether two boxes overlap on both axes at once.
pub fn overlap(first: &Aabb, second: &Aabb) -> (r: bool)
    ensures
        r == boxes_overlap(*first, *second),
{
    first.min.x < second.max.x && first.max.x > second.min.x && first.min.y < second.max.y
        && first.max.y > second.min.y
}

/// Classifies which side of `second` the box `first` struck.
pub fn get_collision(first: &Aabb, second: &Aabb) -> (r: CollisionSide)
    requires
        first.wf(),
        second.wf(),
    ensures
        r == side_of(*first, *second),
{
    let a = abs_diff(first.max.x, second.min.x);
    let b = abs_diff(second.max.x, first.min.x);
    let x_overlap = if a <= b { a } else { b };
    let c = abs_diff(first.max.y, second.min.y);
    let d = abs_diff(second.max.y, first.min.y);
    let y_overlap = if c <= d { c } else { d };
    if x_overlap < y_overlap {
        if first.min.x < second.min.x {
            CollisionSide::Left
        } else {
            CollisionSide::Right
        }
    } else {
        if first.min.y < second.min.y {
            CollisionSide::Bottom
        } else {
            CollisionSide::Top
        }
    }
}

/// Overlap does not depend on which box is named first.
pub proof fn lemma_overlap_symmetric(a: Aabb, b: Aabb)
    ensures
        boxes_overlap(a, b) == boxes_overlap(b, a),
{
}

/// The classified side is a function of the two boxes alone: equal boxes
/// give equal sides.
pub proof fn lemma_side_deterministic(a1: Aabb, b1: Aabb, a2: Aabb, b2: Aabb)
    requires
        a1 == a2,
        b1 == b2,
    ensures
        side_of(a1, b1) == side_of(a2, b2),
{
}

} // verus!
