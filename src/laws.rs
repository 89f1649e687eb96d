//! Facts that hold of the queries on every input they describe.
use vstd::prelude::*;
use crate::geometry::{
    axis_degrees, cross, dot, is_zero, norm_squared, quarter_turn_ccw, quarter_turn_cw,
    same_heading, vector_between, Direction, Point2d,
};
use crate::path::{end_tangent, length_of, orientation, Segment, SegmentKind, SegmentLength};

verus! {

/// `l` is the length of a straight segment, and that length is `w`.
pub open spec fn straight_length_is(l: SegmentLength, w: int) -> bool {
    l matches SegmentLength::Straight(c) && w >= 0 && norm_squared(c) == w * w
}

/// A straight segment from the origin to `(w, 0)`, `w > 0`, starts at the
/// origin, ends at `(w, 0)`, is `w` long and has an orientation of 0 degrees.
pub proof fn horizontal_segment_facts(s: Segment, w: i64)
    requires
        s.kind == SegmentKind::Line,
        s.from == (Point2d { x: 0, y: 0 }),
        s.to == (Point2d { x: w, y: 0 }),
        w > 0,
    ensures
        s.from == (Point2d { x: 0, y: 0 }),
        s.to == (Point2d { x: w, y: 0 }),
        axis_degrees(orientation(s)) == Some(0int),
        straight_length_is(length_of(s), w as int),
{
    let c = orientation(s);
    assert(norm_squared(c) == w * w) by (nonlinear_arith)
        requires
            c.dx == w,
            c.dy == 0,
    ;
}

/// A straight segment from the origin to `(0, h)`, `h > 0`, has an
/// orientation of 90 degrees.
pub proof fn vertical_segment_angle(s: Segment, h: i64)
    requires
        s.kind == SegmentKind::Line,
        s.from == (Point2d { x: 0, y: 0 }),
        s.to == (Point2d { x: 0, y: h }),
        h > 0,
    ensures
        axis_degrees(orientation(s)) == Some(90int),
{
}

/// `d` leaves an arc along its tangent, where `radial` is the vector from the
/// arc's center to its end: `d` is perpendicular to it and turns with the
/// sweep, counter-clockwise when `ccw`.
pub open spec fn leaves_arc_tangentially(radial: Direction, ccw: bool, d: Direction) -> bool {
    &&& !is_zero(radial)
    &&& dot(radial, d) == 0
    &&& if ccw {
        cross(radial, d) > 0
    } else {
        cross(radial, d) < 0
    }
}

/// A segment of direction `d`, starting where `first` ends, continues `first`
/// smoothly: straight on after a line, along the tangent after an arc or a
/// circle.
pub open spec fn continues_smoothly(first: Segment, d: Direction) -> bool {
    match first.kind {
        SegmentKind::Line => same_heading(orientation(first), d),
        SegmentKind::Arc { center, ccw } => leaves_arc_tangentially(
            vector_between(center, first.to),
            ccw,
            d,
        ),
        SegmentKind::TangentialArc { center, ccw } => leaves_arc_tangentially(
            vector_between(center, first.to),
            ccw,
            d,
        ),
        SegmentKind::Circle { radius, ccw, .. } => leaves_arc_tangentially(
            Direction { dx: radius as i128, dy: 0 },
            ccw,
            d,
        ),
    }
}

/// The radius at the end of an arc, turned a quarter turn with the sweep, has
/// the heading of any direction that leaves the arc along its tangent.
proof fn tangent_of_radial(radial: Direction, ccw: bool, d: Direction)
    requires
        radial.dx > i128::MIN,
        radial.dy > i128::MIN,
        leaves_arc_tangentially(radial, ccw, d),
    ensures
        same_heading(
            if ccw {
                quarter_turn_ccw(radial)
            } else {
                quarter_turn_cw(radial)
            },
            d,
        ),
{
    let t = if ccw {
        quarter_turn_ccw(radial)
    } else {
        quarter_turn_cw(radial)
    };
    assert(!is_zero(d)) by {
        if is_zero(d) {
            assert(cross(radial, d) == 0) by (nonlinear_arith)
                requires
                    d.dx == 0,
                    d.dy == 0,
            ;
        }
    }
    if ccw {
        assert(cross(t, d) == -dot(radial, d) && dot(t, d) == cross(radial, d)) by (nonlinear_arith)
            requires
                t.dx == -radial.dy,
                t.dy == radial.dx,
        ;
    } else {
        assert(cross(t, d) == dot(radial, d) && dot(t, d) == -cross(radial, d)) by (nonlinear_arith)
            requires
                t.dx == radial.dy,
                t.dy == -radial.dx,
        ;
    }
}

/// Where a straight segment continues a segment smoothly, the tangent at the
/// end of the first has the same heading as the second: the two angles are
/// equal.
pub proof fn tangent_matches_straight_continuation(first: Segment, second: Segment)
    requires
        second.kind == SegmentKind::Line,
        second.from == first.to,
        continues_smoothly(first, orientation(second)),
    ensures
        same_heading(end_tangent(first), orientation(second)),
{
    let d = orientation(second);
    match first.kind {
        SegmentKind::Line => {},
        SegmentKind::Arc { center, ccw } => {
            tangent_of_radial(vector_between(center, first.to), ccw, d);
        },
        SegmentKind::TangentialArc { center, ccw } => {
            tangent_of_radial(vector_between(center, first.to), ccw, d);
        },
        SegmentKind::Circle { radius, ccw, .. } => {
            tangent_of_radial(Direction { dx: radius as i128, dy: 0 }, ccw, d);
        },
    }
}

} // verus!
