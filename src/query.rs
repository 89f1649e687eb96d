//! The segment queries: each resolves a tag (or reads a sketch) and answers
//! from the segment's geometry.
use vstd::prelude::*;
use crate::geometry::{distance_1d, norm_squared, Direction, Point2d};
use crate::path::{end_tangent, length_of, orientation, Segment, SegmentLength, Sketch};
use crate::tag::{resolution, SegmentError, SourceRange, TagEnvironment, TagIdentifier};

verus! {

/// The distance along one axis from the sketch's last point to a target, and
/// what the length of the tagged segment is made of. The angle that lets a new
/// segment of that length reach the target is 0 where the distance exceeds the
/// length; else `acos(diff / length)` for the x axis, `asin(diff / length)` for
/// the y axis.
#[derive(Clone, Copy, Debug, PartialEq, Eq, Structural)]
pub struct AxisMatch {
    pub diff: u128,
    pub length: SegmentLength,
}

/// How a distance along an axis compares with a segment's length.
#[derive(Clone, Copy, Debug, PartialEq, Eq, Structural)]
pub enum Reach {
    /// The distance exceeds the length: the target cannot be reached.
    Beyond,
    /// The distance equals the length.
    Exactly,
    /// The distance is below the length.
    Within,
    /// The length is that of an arc or circle, which no integer comparison
    /// decides.
    Curved,
}

/// How `diff` compares with the length of `length`.
pub open spec fn reach_of(diff: int, length: SegmentLength) -> Reach {
    match length {
        SegmentLength::Straight(chord) => if diff * diff > norm_squared(chord) {
            Reach::Beyond
        } else if diff * diff == norm_squared(chord) {
            Reach::Exactly
        } else {
            Reach::Within
        },
        _ => Reach::Curved,
    }
}

/// The angle in whole degrees that a match-length query (along x where
/// `along_x`, else along y) yields, where it is one: 0 where the target is out
/// of reach; `acos(1) = 0` / `asin(1) = 90` where the distance equals the
/// length; `acos(0) = 90` / `asin(0) = 0` where the distance is 0.
pub open spec fn exact_match_degrees(m: AxisMatch, along_x: bool) -> Option<int> {
    match reach_of(m.diff as int, m.length) {
        Reach::Beyond => Some(0),
        Reach::Exactly => Some(if along_x { 0 } else { 90 }),
        Reach::Within => if m.diff == 0 {
            Some(if along_x { 90 } else { 0 })
        } else {
            None
        },
        Reach::Curved => None,
    }
}

/// The end point of the last segment of a sketch, or the error a query on an
/// empty sketch gives.
pub open spec fn last_point(sketch: Sketch, range: SourceRange) -> Result<Point2d, SegmentError> {
    if sketch.paths@.len() == 0 {
        Err(SegmentError::EmptySketch { source_range: range })
    } else {
        Ok(sketch.paths@.last().to)
    }
}

fn last_end(sketch: &Sketch, range: SourceRange) -> (r: Result<Point2d, SegmentError>)
    ensures
        r == last_point(*sketch, range),
{
    let n = sketch.paths.len();
    if n == 0 {
        Err(SegmentError::EmptySketch { source_range: range })
    } else {
        Ok(sketch.paths[n - 1].to)
    }
}

/// The end point of the tagged segment.
pub fn segment_end(env: &TagEnvironment, tag: &TagIdentifier, range: SourceRange) -> (r: Result<
    Point2d,
    SegmentError,
>)
    ensures
        r == match resolution(*env, *tag, range) {
            Ok(s) => Ok(s.to),
            Err(e) => Err::<Point2d, SegmentError>(e),
        },
{
    let s = env.resolve(tag, range)?;
    Ok(s.to)
}

/// The x coordinate of the end of the tagged segment.
pub fn segment_end_x(env: &TagEnvironment, tag: &TagIdentifier, range: SourceRange) -> (r: Result<
    i64,
    SegmentError,
>)
    ensures
        r == match resolution(*env, *tag, range) {
            Ok(s) => Ok(s.to.x),
            Err(e) => Err::<i64, SegmentError>(e),
        },
{
    let s = env.resolve(tag, range)?;
    Ok(s.to.x)
}

/// The y coordinate of the end of the tagged segment.
pub fn segment_end_y(env: &TagEnvironment, tag: &TagIdentifier, range: SourceRange) -> (r: Result<
    i64,
    SegmentError,
>)
    ensures
        r == match resolution(*env, *tag, range) {
            Ok(s) => Ok(s.to.y),
            Err(e) => Err::<i64, SegmentError>(e),
        },
{
    let s = env.resolve(tag, range)?;
    Ok(s.to.y)
}

/// The start point of the tagged segment.
pub fn segment_start(env: &TagEnvironment, tag: &TagIdentifier, range: SourceRange) -> (r: Result<
    Point2d,
    SegmentError,
>)
    ensures
        r == match resolution(*env, *tag, range) {
            Ok(s) => Ok(s.from),
            Err(e) => Err::<Point2d, SegmentError>(e),
        },
{
    let s = env.resolve(tag, range)?;
    Ok(s.from)
}

/// The x coordinate of the start of the tagged segment.
pub fn segment_start_x(env: &TagEnvironment, tag: &TagIdentifier, range: SourceRange) -> (r: Result<
    i64,
    SegmentError,
>)
    ensures
        r == match resolution(*env, *tag, range) {
            Ok(s) => Ok(s.from.x),
            Err(e) => Err::<i64, SegmentError>(e),
        },
{
    let s = env.resolve(tag, range)?;
    Ok(s.from.x)
}

/// The y coordinate of the start of the tagged segment.
pub fn segment_start_y(env: &TagEnvironment, tag: &TagIdentifier, range: SourceRange) -> (r: Result<
    i64,
    SegmentError,
>)
    ensures
        r == match resolution(*env, *tag, range) {
            Ok(s) => Ok(s.from.y),
            Err(e) => Err::<i64, SegmentError>(e),
        },
{
    let s = env.resolve(tag, range)?;
    Ok(s.from.y)
}

/// The x coordinate of the end of the sketch's last segment; `EmptySketch`
/// where the sketch has none.
pub fn last_segment_x(sketch: &Sketch, range: SourceRange) -> (r: Result<i64, SegmentError>)
    ensures
        sketch.paths@.len() == 0 ==> r == Err::<i64, SegmentError>(
            SegmentError::EmptySketch { source_range: range },
        ),
        sketch.paths@.len() > 0 ==> r == Ok::<i64, SegmentError>(sketch.paths@.last().to.x),
{
    let p = last_end(sketch, range)?;
    Ok(p.x)
}

/// The y coordinate of the end of the sketch's last segment; `EmptySketch`
/// where the sketch has none.
pub fn last_segment_y(sketch: &Sketch, range: SourceRange) -> (r: Result<i64, SegmentError>)
    ensures
        sketch.paths@.len() == 0 ==> r == Err::<i64, SegmentError>(
            SegmentError::EmptySketch { source_range: range },
        ),
        sketch.paths@.len() > 0 ==> r == Ok::<i64, SegmentError>(sketch.paths@.last().to.y),
{
    let p = last_end(sketch, range)?;
    Ok(p.y)
}

/// The vector from the start to the end of the tagged segment: its
/// orientation, whose angle in degrees is `atan2(dy, dx)`.
pub fn segment_angle(env: &TagEnvironment, tag: &TagIdentifier, range: SourceRange) -> (r: Result<
    Direction,
    SegmentError,
>)
    ensures
        r == match resolution(*env, *tag, range) {
            Ok(s) => Ok(orientation(s)),
            Err(e) => Err::<Direction, SegmentError>(e),
        },
{
    let s = env.resolve(tag, range)?;
    Ok(s.orientation())
}

/// What the length of the tagged segment is made of: a chord for a line, the
/// arc for an arc, the radius for a circle.
pub fn segment_length(env: &TagEnvironment, tag: &TagIdentifier, range: SourceRange) -> (r: Result<
    SegmentLength,
    SegmentError,
>)
    ensures
        r == match resolution(*env, *tag, range) {
            Ok(s) => Ok(length_of(s)),
            Err(e) => Err::<SegmentLength, SegmentError>(e),
        },
{
    let s = env.resolve(tag, range)?;
    Ok(s.length())
}

/// The direction coming out of the end of the tagged segment: the way a
/// following segment continues smoothly. Its angle in degrees is
/// `atan2(dy, dx)`.
pub fn tangent_to_end(env: &TagEnvironment, tag: &TagIdentifier, range: SourceRange) -> (r: Result<
    Direction,
    SegmentError,
>)
    ensures
        r == match resolution(*env, *tag, range) {
            Ok(s) => Ok(end_tangent(s)),
            Err(e) => Err::<Direction, SegmentError>(e),
        },
{
    let s = env.resolve(tag, range)?;
    Ok(s.end_tangent())
}

/// What the match-length queries return for segment `s`, a sketch whose last
/// point is `last`, and `target` against coordinate `from` of that point.
pub open spec fn axis_match(s: Segment, target: i64, from: i64) -> AxisMatch {
    AxisMatch { diff: distance_1d(target, from) as u128, length: length_of(s) }
}

/// The outcome of a match-length query along x where `along_x`, else along y.
pub open spec fn match_outcome(
    env: TagEnvironment,
    tag: TagIdentifier,
    target: i64,
    sketch: Sketch,
    range: SourceRange,
    along_x: bool,
) -> Result<AxisMatch, SegmentError> {
    match resolution(env, tag, range) {
        Err(e) => Err(e),
        Ok(s) => match last_point(sketch, range) {
            Err(e) => Err(e),
            Ok(p) => Ok(axis_match(s, target, if along_x { p.x } else { p.y })),
        },
    }
}

fn distance(a: i64, b: i64) -> (r: u128)
    ensures
        r == distance_1d(a, b),
        r <= u64::MAX,
{
    if a >= b {
        (a as i128 - b as i128) as u128
    } else {
        (b as i128 - a as i128) as u128
    }
}

/// What lets a new segment as long as the tagged one, drawn from the sketch's
/// last point, reach x coordinate `to`: the distance along x and the tagged
/// segment's length. The tag is resolved first, then the sketch's last point.
pub fn angle_to_match_length_x(
    env: &TagEnvironment,
    tag: &TagIdentifier,
    to: i64,
    sketch: &Sketch,
    range: SourceRange,
) -> (r: Result<AxisMatch, SegmentError>)
    ensures
        r == match_outcome(*env, *tag, to, *sketch, range, true),
        r matches Ok(m) ==> m.in_plane(),
{
    let s = env.resolve(tag, range)?;
    let p = last_end(sketch, range)?;
    Ok(AxisMatch { diff: distance(to, p.x), length: s.length() })
}

/// What lets a new segment as long as the tagged one, drawn from the sketch's
/// last point, reach y coordinate `to`: the distance along y and the tagged
/// segment's length. The tag is resolved first, then the sketch's last point.
pub fn angle_to_match_length_y(
    env: &TagEnvironment,
    tag: &TagIdentifier,
    to: i64,
    sketch: &Sketch,
    range: SourceRange,
) -> (r: Result<AxisMatch, SegmentError>)
    ensures
        r == match_outcome(*env, *tag, to, *sketch, range, false),
        r matches Ok(m) ==> m.in_plane(),
{
    let s = env.resolve(tag, range)?;
    let p = last_end(sketch, range)?;
    Ok(AxisMatch { diff: distance(to, p.y), length: s.length() })
}

/// The magnitude of `v` and its square, for `|v| <= u64::MAX`.
fn square_of(v: i128) -> (r: u128)
    requires
        -(u64::MAX as int) <= v <= u64::MAX,
    ensures
        r == v * v,
{
    let a: u128 = if v >= 0 { v as u128 } else { (-v) as u128 };
    assert(a * a == v * v && a * a <= u64::MAX * u64::MAX) by (nonlinear_arith)
        requires
            a == (if v >= 0 { v as int } else { -v }),
            a <= u64::MAX,
    ;
    a * a
}

impl AxisMatch {
    /// Whether the coordinates of this value are within the range of the
    /// sketch plane, as those from the queries are.
    pub open spec fn in_plane(&self) -> bool {
        &&& self.diff <= u64::MAX
        &&& match self.length {
            SegmentLength::Straight(c) => -(u64::MAX as int) <= c.dx <= u64::MAX && -(
            u64::MAX as int) <= c.dy <= u64::MAX,
            _ => true,
        }
    }

    /// How the distance compares with the length; exact for a straight
    /// segment.
    pub fn reach(&self) -> (r: Reach)
        requires
            self.in_plane(),
        ensures
            r == reach_of(self.diff as int, self.length),
    {
        match self.length {
            SegmentLength::Straight(c) => {
                let d2 = square_of(self.diff as i128);
                let x2 = square_of(c.dx);
                let y2 = square_of(c.dy);
                if d2 < x2 {
                    Reach::Within
                } else {
                    let rest = d2 - x2;
                    if rest > y2 {
                        Reach::Beyond
                    } else if rest == y2 {
                        Reach::Exactly
                    } else {
                        Reach::Within
                    }
                }
            },
            _ => Reach::Curved,
        }
    }

    /// The angle for the x axis in whole degrees, where it is one.
    pub fn exact_angle_x(&self) -> (r: Option<i64>)
        requires
            self.in_plane(),
        ensures
            r matches Some(d) ==> exact_match_degrees(*self, true) == Some(d as int),
            r is None ==> exact_match_degrees(*self, true) is None,
    {
        match self.reach() {
            Reach::Beyond => Some(0),
            Reach::Exactly => Some(0),
            Reach::Within => if self.diff == 0 {
                Some(90)
            } else {
                None
            },
            Reach::Curved => None,
        }
    }

    /// The angle for the y axis in whole degrees, where it is one.
    pub fn exact_angle_y(&self) -> (r: Option<i64>)
        requires
            self.in_plane(),
        ensures
            r matches Some(d) ==> exact_match_degrees(*self, false) == Some(d as int),
            r is None ==> exact_match_degrees(*self, false) is None,
    {
        match self.reach() {
            Reach::Beyond => Some(0),
            Reach::Exactly => Some(90),
            Reach::Within => if self.diff == 0 {
                Some(0)
            } else {
                None
            },
            Reach::Curved => None,
        }
    }
}

} // verus!
