use segment_query::geometry::{Direction, Point2d};
use segment_query::path::{Segment, SegmentKind, SegmentLength, Sketch};
use segment_query::query::{
    angle_to_match_length_x, angle_to_match_length_y, last_segment_x, last_segment_y,
    segment_angle, segment_end, segment_end_x, segment_end_y, segment_length, segment_start,
    segment_start_x, segment_start_y, tangent_to_end, AxisMatch, Reach,
};
use segment_query::tag::{SegmentError, SourceRange, TagEnvironment, TagIdentifier};

fn range() -> SourceRange {
    SourceRange { start: 4, end: 9, module_id: 0 }
}

fn line(x0: i64, y0: i64, x1: i64, y1: i64) -> Segment {
    Segment::new(Point2d::new(x0, y0), Point2d::new(x1, y1), SegmentKind::Line)
}

fn tag(name: &str) -> TagIdentifier {
    TagIdentifier::new(name.to_string())
}

fn env_with(name: &str, s: Segment) -> TagEnvironment {
    let mut env = TagEnvironment::new();
    env.bind(name.to_string(), Some(s));
    env
}

fn sketch_of(segments: &[Segment]) -> Sketch {
    let mut sk = Sketch::new();
    for s in segments {
        sk.push(*s);
    }
    sk
}

#[test]
fn horizontal_segment_queries() {
    let env = env_with("line1", line(0, 0, 15, 0));
    let t = tag("line1");
    assert_eq!(segment_start(&env, &t, range()), Ok(Point2d::new(0, 0)));
    assert_eq!(segment_end(&env, &t, range()), Ok(Point2d::new(15, 0)));
    let d = segment_angle(&env, &t, range()).unwrap();
    assert_eq!(d, Direction { dx: 15, dy: 0 });
    assert_eq!(d.exact_degrees(), Some(0));
    assert_eq!(
        segment_length(&env, &t, range()),
        Ok(SegmentLength::Straight(Direction { dx: 15, dy: 0 }))
    );
}

#[test]
fn vertical_segment_angle_is_ninety() {
    let env = env_with("up", line(0, 0, 0, 4));
    let d = segment_angle(&env, &tag("up"), range()).unwrap();
    assert_eq!(d.exact_degrees(), Some(90));
}

#[test]
fn other_axis_angles() {
    assert_eq!(Direction { dx: -3, dy: 0 }.exact_degrees(), Some(180));
    assert_eq!(Direction { dx: 0, dy: -3 }.exact_degrees(), Some(-90));
    assert_eq!(Direction { dx: 1, dy: 1 }.exact_degrees(), None);
    assert_eq!(Direction { dx: 0, dy: 0 }.exact_degrees(), None);
}

#[test]
fn coordinate_queries() {
    let env = env_with("thing", line(2, 3, 20, -5));
    let t = tag("thing");
    assert_eq!(segment_start_x(&env, &t, range()), Ok(2));
    assert_eq!(segment_start_y(&env, &t, range()), Ok(3));
    assert_eq!(segment_end_x(&env, &t, range()), Ok(20));
    assert_eq!(segment_end_y(&env, &t, range()), Ok(-5));
}

#[test]
fn match_length_x_exact_reach() {
    let env = env_with("seg", line(0, 0, 7, 0));
    let sk = sketch_of(&[line(0, 0, 3, 4)]);
    let m = angle_to_match_length_x(&env, &tag("seg"), 10, &sk, range()).unwrap();
    assert_eq!(m.diff, 7);
    assert_eq!(m.reach(), Reach::Exactly);
    assert_eq!(m.exact_angle_x(), Some(0));
}

#[test]
fn match_length_x_out_of_reach() {
    let env = env_with("seg", line(0, 0, 3, 4));
    let sk = sketch_of(&[line(5, 5, 0, 1)]);
    let m = angle_to_match_length_x(&env, &tag("seg"), 20, &sk, range()).unwrap();
    assert_eq!(m.diff, 20);
    assert_eq!(m.reach(), Reach::Beyond);
    assert_eq!(m.exact_angle_x(), Some(0));
}

#[test]
fn match_length_y_exact_reach() {
    let env = env_with("seg", line(0, 0, 9, 12));
    let sk = sketch_of(&[line(1, 1, 4, 0)]);
    let m = angle_to_match_length_y(&env, &tag("seg"), 15, &sk, range()).unwrap();
    assert_eq!(m.diff, 15);
    assert_eq!(m.length, SegmentLength::Straight(Direction { dx: 9, dy: 12 }));
    assert_eq!(m.reach(), Reach::Exactly);
    assert_eq!(m.exact_angle_y(), Some(90));
}

#[test]
fn match_length_zero_distance() {
    let env = env_with("seg", line(0, 0, 0, 6));
    let sk = sketch_of(&[line(0, 0, 4, 2)]);
    let mx = angle_to_match_length_x(&env, &tag("seg"), 4, &sk, range()).unwrap();
    assert_eq!(mx.diff, 0);
    assert_eq!(mx.exact_angle_x(), Some(90));
    let my = angle_to_match_length_y(&env, &tag("seg"), 2, &sk, range()).unwrap();
    assert_eq!(my.exact_angle_y(), Some(0));
}

#[test]
fn match_length_within_and_curved() {
    let env = env_with("seg", line(0, 0, 10, 0));
    let sk = sketch_of(&[line(0, 0, 0, 2)]);
    let m = angle_to_match_length_y(&env, &tag("seg"), -1, &sk, range()).unwrap();
    assert_eq!(m.diff, 3);
    assert_eq!(m.reach(), Reach::Within);
    assert_eq!(m.exact_angle_y(), None);
    let arc = AxisMatch {
        diff: 1,
        length: SegmentLength::Circle { radius: 2 },
    };
    assert_eq!(arc.reach(), Reach::Curved);
    assert_eq!(arc.exact_angle_x(), None);
}

#[test]
fn match_length_errors() {
    let env = env_with("seg", line(0, 0, 10, 0));
    let empty = Sketch::new();
    assert_eq!(
        angle_to_match_length_x(&env, &tag("seg"), 3, &empty, range()),
        Err(SegmentError::EmptySketch { source_range: range() })
    );
    assert_eq!(
        angle_to_match_length_y(&env, &tag("nope"), 3, &empty, range()),
        Err(SegmentError::UnresolvedTag { tag: "nope".to_string(), source_range: range() })
    );
}

#[test]
fn last_segment_on_empty_sketch_fails() {
    let empty = Sketch::new();
    let expected = Err(SegmentError::EmptySketch { source_range: range() });
    assert_eq!(last_segment_x(&empty, range()), expected);
    assert_eq!(last_segment_y(&empty, range()), expected);
}

#[test]
fn last_segment_coordinates() {
    let sk = sketch_of(&[line(0, 0, 5, 0), line(5, 0, 25, 5)]);
    assert_eq!(last_segment_x(&sk, range()), Ok(25));
    assert_eq!(last_segment_y(&sk, range()), Ok(5));
}

#[test]
fn unbound_tag_is_unresolved() {
    let env = env_with("line1", line(0, 0, 1, 0));
    assert_eq!(
        segment_end(&env, &tag("line9"), range()),
        Err(SegmentError::UnresolvedTag { tag: "line9".to_string(), source_range: range() })
    );
}

#[test]
fn tag_without_path_is_not_a_segment() {
    let mut env = TagEnvironment::new();
    env.bind("center".to_string(), None);
    assert_eq!(
        segment_length(&env, &tag("center"), range()),
        Err(SegmentError::NotASegment { tag: "center".to_string(), source_range: range() })
    );
}

#[test]
fn first_binding_counts() {
    let mut env = TagEnvironment::new();
    env.bind("a".to_string(), Some(line(0, 0, 1, 1)));
    env.bind("a".to_string(), None);
    assert_eq!(segment_end(&env, &tag("a"), range()), Ok(Point2d::new(1, 1)));
}

#[test]
fn tangent_of_line_continues_straight() {
    let first = line(0, 0, 10, 0);
    let second = line(10, 0, 30, 0);
    let mut env = TagEnvironment::new();
    env.bind("seg1".to_string(), Some(first));
    env.bind("seg2".to_string(), Some(second));
    let t = tangent_to_end(&env, &tag("seg1"), range()).unwrap();
    let o = segment_angle(&env, &tag("seg2"), range()).unwrap();
    assert_eq!(t.exact_degrees(), Some(0));
    assert_eq!(o.exact_degrees(), Some(0));
}

#[test]
fn tangent_of_ccw_arc() {
    let arc = Segment::new(
        Point2d::new(10, 0),
        Point2d::new(0, 10),
        SegmentKind::TangentialArc { center: Point2d::new(0, 0), ccw: true },
    );
    let env = env_with("arc1", arc);
    let t = tangent_to_end(&env, &tag("arc1"), range()).unwrap();
    assert_eq!(t, Direction { dx: -10, dy: 0 });
    assert_eq!(t.exact_degrees(), Some(180));
    let next = env_with("next", line(0, 10, -20, 10));
    let o = segment_angle(&next, &tag("next"), range()).unwrap();
    assert_eq!(o.exact_degrees(), t.exact_degrees());
}

#[test]
fn tangent_of_cw_arc() {
    let arc = Segment::new(
        Point2d::new(0, 0),
        Point2d::new(10, 10),
        SegmentKind::Arc { center: Point2d::new(10, 0), ccw: false },
    );
    let env = env_with("arc1", arc);
    assert_eq!(tangent_to_end(&env, &tag("arc1"), range()), Ok(Direction { dx: 10, dy: 0 }));
}

#[test]
fn tangent_of_circle() {
    let circle = Segment::new(
        Point2d::new(3, 0),
        Point2d::new(3, 0),
        SegmentKind::Circle { center: Point2d::new(0, 0), radius: 3, ccw: true },
    );
    let env = env_with("circ", circle);
    assert_eq!(tangent_to_end(&env, &tag("circ"), range()), Ok(Direction { dx: 0, dy: 3 }));
    assert_eq!(
        segment_length(&env, &tag("circ"), range()),
        Ok(SegmentLength::Circle { radius: 3 })
    );
}

#[test]
fn arc_length_parts() {
    let arc = Segment::new(
        Point2d::new(10, 0),
        Point2d::new(0, 10),
        SegmentKind::Arc { center: Point2d::new(0, 0), ccw: true },
    );
    let env = env_with("a", arc);
    assert_eq!(
        segment_length(&env, &tag("a"), range()),
        Ok(SegmentLength::Arc {
            center: Point2d::new(0, 0),
            from: Point2d::new(10, 0),
            to: Point2d::new(0, 10),
            ccw: true,
        })
    );
}

#[test]
fn extreme_coordinates() {
    let env = env_with("big", line(i64::MIN, i64::MAX, i64::MAX, i64::MIN));
    let d = segment_angle(&env, &tag("big"), range()).unwrap();
    assert_eq!(d.dx, (u64::MAX) as i128);
    assert_eq!(d.dy, -((u64::MAX) as i128));
    let sk = sketch_of(&[line(0, 0, i64::MIN, 0)]);
    let m = angle_to_match_length_x(&env, &tag("big"), i64::MAX, &sk, range()).unwrap();
    assert_eq!(m.diff, u64::MAX as u128);
    assert_eq!(m.reach(), Reach::Within);
}
