//! Fixed-point vectors and the overlap test between two axis-aligned boxes.
use vstd::prelude::*;

verus! {

/// Subunits per pixel. Every position, size and speed in the crate is an
/// integer count of subunits.
pub const UNIT: i64 = 1000;

/// Largest magnitude accepted for a coordinate, a speed or a half-extent at
/// the start of a tick; it keeps every intermediate sum inside `i64`.
pub const COORD_LIMIT: i64 = 1_099_511_627_776;

/// A two-dimensional vector in subunits.
#[derive(Clone, Copy, Debug, PartialEq, Eq, Structural)]
pub struct Vector2 {
    pub x: i64,
    pub y: i64,
}

impl Vector2 {
    pub fn new(x: i64, y: i64) -> (r: Vector2)
        ensures
            r.x == x,
            r.y == y,
    {
        Vector2 { x, y }
    }

    /// The zero vector.
    pub fn zero() -> (r: Vector2)
        ensures
            r.x == 0,
            r.y == 0,
    {
        Vector2 { x: 0, y: 0 }
    }

    /// Both components lie in `[-COORD_LIMIT, COORD_LIMIT]`.
    pub fn is_within_limit(&self) -> (r: bool)
        ensures
            r == self.within(1),
    {
        -COORD_LIMIT <= self.x && self.x <= COORD_LIMIT && -COORD_LIMIT <= self.y && self.y <= COORD_LIMIT
    }

    /// Both components lie in `[-k * COORD_LIMIT, k * COORD_LIMIT]`.
    pub open spec fn within(self, k: int) -> bool {
        &&& -k * COORD_LIMIT <= self.x <= k * COORD_LIMIT
        &&& -k * COORD_LIMIT <= self.y <= k * COORD_LIMIT
    }
}

/// The side of the fixed box `b` along which the moving box `a` is pushed out.
#[derive(Clone, Copy, Debug, PartialEq, Eq, Structural)]
pub enum Collision {
    /// `a` rests on top of `b`.
    Top,
    /// `a` is below `b`.
    Bottom,
    /// `a` is to the left of `b`.
    Left,
    /// `a` is to the right of `b`.
    Right,
}

pub open spec fn abs(v: int) -> int {
    if v < 0 { -v } else { v }
}

/// The open intervals `(c - h, c + h)` of two boxes on one axis intersect.
pub open spec fn extents_meet(ca: int, ha: int, cb: int, hb: int) -> bool {
    ca - ha < cb + hb && cb - hb < ca + ha
}

/// How far two boxes reach into each other along one axis, from the
/// displacement of their centers and their half-extents.
pub open spec fn penetration(ca: int, ha: int, cb: int, hb: int) -> int {
    ha + hb - abs(ca - cb)
}

/// Two boxes, each given by its center and half-extents, overlap iff their
/// extents intersect on both axes (touching edges do not count).
pub open spec fn overlaps(a_pos: Vector2, a_half: Vector2, b_pos: Vector2, b_half: Vector2) -> bool {
    extents_meet(a_pos.x as int, a_half.x as int, b_pos.x as int, b_half.x as int)
        && extents_meet(a_pos.y as int, a_half.y as int, b_pos.y as int, b_half.y as int)
}

/// The verdict for box `a` against box `b`: `None` without overlap; otherwise
/// the axis of the shallower penetration, the vertical axis on a tie, with the
/// sign of `a`'s displacement from `b` choosing the side (a displacement of
/// zero counts as positive: `Top` or `Right`).
pub open spec fn collision_of(a_pos: Vector2, a_half: Vector2, b_pos: Vector2, b_half: Vector2) -> Option<Collision> {
    if !overlaps(a_pos, a_half, b_pos, b_half) {
        None
    } else if penetration(a_pos.y as int, a_half.y as int, b_pos.y as int, b_half.y as int)
        <= penetration(a_pos.x as int, a_half.x as int, b_pos.x as int, b_half.x as int) {
        if a_pos.y >= b_pos.y { Some(Collision::Top) } else { Some(Collision::Bottom) }
    } else {
        if a_pos.x >= b_pos.x { Some(Collision::Right) } else { Some(Collision::Left) }
    }
}

fn depth_along(ca: i64, ha: i64, cb: i64, hb: i64) -> (r: i64)
    requires
        -3 * COORD_LIMIT <= ca <= 3 * COORD_LIMIT,
        -3 * COORD_LIMIT <= cb <= 3 * COORD_LIMIT,
        -COORD_LIMIT <= ha <= COORD_LIMIT,
        -COORD_LIMIT <= hb <= COORD_LIMIT,
    ensures
        r == penetration(ca as int, ha as int, cb as int, hb as int),
{
    let d = ca - cb;
    let dist = if d < 0 { -d } else { d };
    ha + hb - dist
}

/// Decides whether box `a` collides with box `b` and on which side of `b`.
/// Boxes are given by center and half-extents.
pub fn collide(a_pos: Vector2, a_half: Vector2, b_pos: Vector2, b_half: Vector2) -> (r: Option<Collision>)
    requires
        a_pos.within(3),
        b_pos.within(3),
        a_half.within(1),
        b_half.within(1),
    ensures
        r == collision_of(a_pos, a_half, b_pos, b_half),
{
    let px = depth_along(a_pos.x, a_half.x, b_pos.x, b_half.x);
    let py = depth_along(a_pos.y, a_half.y, b_pos.y, b_half.y);
    if px <= 0 || py <= 0 {
        None
    } else if py <= px {
        if a_pos.y >= b_pos.y { Some(Collision::Top) } else { Some(Collision::Bottom) }
    } else {
        if a_pos.x >= b_pos.x { Some(Collision::Right) } else { Some(Collision::Left) }
    }
}

} // verus!
