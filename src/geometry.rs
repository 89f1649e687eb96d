//! Points and direction vectors in exact integer sketch units.
use vstd::prelude::*;

verus! {

/// A point of the sketch plane.
#[derive(Clone, Copy, Debug, PartialEq, Eq, Structural)]
pub struct Point2d {
    pub x: i64,
    pub y: i64,
}

/// A direction in the plane, as a vector; its angle in degrees is
/// `atan2(dy, dx)` converted from radians. The zero vector has no angle.
#[derive(Clone, Copy, Debug, PartialEq, Eq, Structural)]
pub struct Direction {
    pub dx: i128,
    pub dy: i128,
}

/// The vector from `a` to `b`.
pub open spec fn vector_between(a: Point2d, b: Point2d) -> Direction {
    Direction { dx: (b.x - a.x) as i128, dy: (b.y - a.y) as i128 }
}

/// `v` turned a quarter turn counter-clockwise.
pub open spec fn quarter_turn_ccw(v: Direction) -> Direction {
    Direction { dx: (-v.dy) as i128, dy: v.dx }
}

/// `v` turned a quarter turn clockwise.
pub open spec fn quarter_turn_cw(v: Direction) -> Direction {
    Direction { dx: v.dy, dy: (-v.dx) as i128 }
}

pub open spec fn dot(a: Direction, b: Direction) -> int {
    a.dx * b.dx + a.dy * b.dy
}

pub open spec fn cross(a: Direction, b: Direction) -> int {
    a.dx * b.dy - a.dy * b.dx
}

pub open spec fn is_zero(v: Direction) -> bool {
    v.dx == 0 && v.dy == 0
}

/// Two non-zero vectors point the same way: they have the same angle.
pub open spec fn same_heading(a: Direction, b: Direction) -> bool {
    !is_zero(a) && !is_zero(b) && cross(a, b) == 0 && dot(a, b) > 0
}

/// The angle of `v` in whole degrees, where it is one: along an axis.
pub open spec fn axis_degrees(v: Direction) -> Option<int> {
    if v.dy == 0 && v.dx > 0 {
        Some(0)
    } else if v.dx == 0 && v.dy > 0 {
        Some(90)
    } else if v.dy == 0 && v.dx < 0 {
        Some(180)
    } else if v.dx == 0 && v.dy < 0 {
        Some(-90)
    } else {
        None
    }
}

/// The squared Euclidean length of `v`.
pub open spec fn norm_squared(v: Direction) -> int {
    v.dx * v.dx + v.dy * v.dy
}

/// |a - b| for two coordinates.
pub open spec fn distance_1d(a: i64, b: i64) -> int {
    if a >= b { a - b } else { b - a }
}

impl Point2d {
    pub fn new(x: i64, y: i64) -> (r: Point2d)
        ensures
            r.x == x,
            r.y == y,
    {
        Point2d { x, y }
    }
}

impl Direction {
    /// The vector from `a` to `b`.
    pub fn between(a: Point2d, b: Point2d) -> (r: Direction)
        ensures
            r == vector_between(a, b),
    {
        Direction { dx: b.x as i128 - a.x as i128, dy: b.y as i128 - a.y as i128 }
    }

    /// This vector turned a quarter turn counter-clockwise.
    pub fn turn_ccw(&self) -> (r: Direction)
        requires
            self.dy > i128::MIN,
        ensures
            r == quarter_turn_ccw(*self),
    {
        Direction { dx: -self.dy, dy: self.dx }
    }

    /// This vector turned a quarter turn clockwise.
    pub fn turn_cw(&self) -> (r: Direction)
        requires
            self.dx > i128::MIN,
        ensures
            r == quarter_turn_cw(*self),
    {
        Direction { dx: self.dy, dy: -self.dx }
    }

    /// The angle in whole degrees of a vector along an axis, `None` for any
    /// other vector (and for the zero vector, which has no angle).
    pub fn exact_degrees(&self) -> (r: Option<i64>)
        ensures
            r matches Some(d) ==> axis_degrees(*self) == Some(d as int),
            r is None ==> axis_degrees(*self) is None,
    {
        if self.dy == 0 && self.dx > 0 {
            Some(0)
        } else if self.dx == 0 && self.dy > 0 {
            Some(90)
        } else if self.dy == 0 && self.dx < 0 {
            Some(180)
        } else if self.dx == 0 && self.dy < 0 {
            Some(-90)
        } else {
            None
        }
    }
}

} // verus!
