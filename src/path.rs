//! Segments of a sketch, their kinds, and the per-kind geometry.
use vstd::prelude::*;
use crate::geometry::{
    quarter_turn_ccw, quarter_turn_cw, vector_between, Direction, Point2d,
};

verus! {

/// What a segment is, beyond its start and end.
#[derive(Clone, Copy, Debug, PartialEq, Eq, Structural)]
pub enum SegmentKind {
    /// A straight segment from its start to its end.
    Line,
    /// An arc round `center`, counter-clockwise when `ccw`.
    Arc { center: Point2d, ccw: bool },
    /// An arc that leaves its predecessor tangentially, round `center`.
    TangentialArc { center: Point2d, ccw: bool },
    /// A whole circle, which starts and ends at `center + (radius, 0)`.
    Circle { center: Point2d, radius: i64, ccw: bool },
}

/// One segment of a sketch: the common base record and its kind.
#[derive(Clone, Copy, Debug, PartialEq, Eq, Structural)]
pub struct Segment {
    pub from: Point2d,
    pub to: Point2d,
    pub kind: SegmentKind,
}

/// A sketch: its segments in the order they were drawn.
#[derive(Clone, Debug)]
pub struct Sketch {
    pub paths: Vec<Segment>,
}

/// What the length of a segment is made of, per kind.
#[derive(Clone, Copy, Debug, PartialEq, Eq, Structural)]
pub enum SegmentLength {
    /// The Euclidean length of this chord.
    Straight(Direction),
    /// The arc round `center` from `from` to `to`, counter-clockwise when `ccw`:
    /// its radius times its sweep.
    Arc { center: Point2d, from: Point2d, to: Point2d, ccw: bool },
    /// The circumference of a circle of this radius.
    Circle { radius: i64 },
}

/// The direction from a segment's start to its end.
pub open spec fn orientation(s: Segment) -> Direction {
    vector_between(s.from, s.to)
}

/// The direction of travel at the end of an arc round `center` ending at `end`:
/// the radius there, turned a quarter turn with the sweep.
pub open spec fn arc_tangent(center: Point2d, end: Point2d, ccw: bool) -> Direction {
    let radial = vector_between(center, end);
    if ccw {
        quarter_turn_ccw(radial)
    } else {
        quarter_turn_cw(radial)
    }
}

/// The direction a following segment takes to leave `s` smoothly.
pub open spec fn end_tangent(s: Segment) -> Direction {
    match s.kind {
        SegmentKind::Line => orientation(s),
        SegmentKind::Arc { center, ccw } => arc_tangent(center, s.to, ccw),
        SegmentKind::TangentialArc { center, ccw } => arc_tangent(center, s.to, ccw),
        SegmentKind::Circle { radius, ccw, .. } => circle_tangent(radius, ccw),
    }
}

/// The direction of travel where a circle of this radius starts and ends,
/// at `center + (radius, 0)`.
pub open spec fn circle_tangent(radius: i64, ccw: bool) -> Direction {
    let radial = Direction { dx: radius as i128, dy: 0 };
    if ccw {
        quarter_turn_ccw(radial)
    } else {
        quarter_turn_cw(radial)
    }
}

/// What the length of `s` is made of.
pub open spec fn length_of(s: Segment) -> SegmentLength {
    match s.kind {
        SegmentKind::Line => SegmentLength::Straight(orientation(s)),
        SegmentKind::Arc { center, ccw } => SegmentLength::Arc { center, from: s.from, to: s.to, ccw },
        SegmentKind::TangentialArc { center, ccw } => SegmentLength::Arc {
            center,
            from: s.from,
            to: s.to,
            ccw,
        },
        SegmentKind::Circle { radius, .. } => SegmentLength::Circle { radius },
    }
}

impl Segment {
    pub fn new(from: Point2d, to: Point2d, kind: SegmentKind) -> (r: Segment)
        ensures
            r == (Segment { from, to, kind }),
    {
        Segment { from, to, kind }
    }

    /// The direction from the start to the end.
    pub fn orientation(&self) -> (r: Direction)
        ensures
            r == orientation(*self),
    {
        Direction::between(self.from, self.to)
    }

    /// The direction in which a following segment leaves this one smoothly:
    /// along a line, or along the tangent at the end of an arc or circle.
    pub fn end_tangent(&self) -> (r: Direction)
        ensures
            r == end_tangent(*self),
    {
        match self.kind {
            SegmentKind::Line => self.orientation(),
            SegmentKind::Arc { center, ccw } | SegmentKind::TangentialArc { center, ccw } => {
                tangent_of_arc(center, self.to, ccw)
            },
            SegmentKind::Circle { radius, ccw, .. } => {
                let radial = Direction { dx: radius as i128, dy: 0 };
                if ccw {
                    radial.turn_ccw()
                } else {
                    radial.turn_cw()
                }
            },
        }
    }

    /// What the length of this segment is made of.
    pub fn length(&self) -> (r: SegmentLength)
        ensures
            r == length_of(*self),
    {
        match self.kind {
            SegmentKind::Line => SegmentLength::Straight(self.orientation()),
            SegmentKind::Arc { center, ccw } | SegmentKind::TangentialArc { center, ccw } => {
                SegmentLength::Arc { center, from: self.from, to: self.to, ccw }
            },
            SegmentKind::Circle { radius, .. } => SegmentLength::Circle { radius },
        }
    }
}

fn tangent_of_arc(center: Point2d, end: Point2d, ccw: bool) -> (r: Direction)
    ensures
        r == arc_tangent(center, end, ccw),
{
    let radial = Direction::between(center, end);
    if ccw {
        radial.turn_ccw()
    } else {
        radial.turn_cw()
    }
}

impl Sketch {
    pub fn new() -> (r: Sketch)
        ensures
            r.paths@ == Seq::<Segment>::empty(),
    {
        Sketch { paths: Vec::new() }
    }

    /// Appends a segment at the end of the sketch.
    pub fn push(&mut self, s: Segment)
        ensures
            final(self).paths@ == old(self).paths@.push(s),
    {
        self.paths.push(s);
    }
}

} // verus!
