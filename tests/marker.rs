use std::f64::consts::{FRAC_PI_2, PI};

use rsvg_core::marker::{
    emit_markers_for_path, render_markers_for_shape, AngleUnit, ArcShape, Direction, MarkerAngle,
    MarkerEvent, MarkerOrient, MarkerRotation, MarkerType, MarkerUnits, OrientAngle, Segment,
    Segments, Shape,
};
use rsvg_core::path_builder::{LargeArc, Path, PathBuilder, Sweep};

// Angles in radians, normalised into [0, 2π), as the renderer computes them.
fn normalize(rad: f64) -> f64 {
    let res = rad % (PI * 2.0);
    if res.abs() < 1.0 / 256.0 / 1024.0 {
        0.0
    } else if res < 0.0 {
        res + PI * 2.0
    } else {
        res
    }
}

fn angle_new(rad: f64) -> f64 {
    normalize(rad)
}

fn from_degrees(deg: f64) -> f64 {
    normalize(deg.to_radians())
}

fn from_vector(vx: f64, vy: f64) -> f64 {
    let rad = vy.atan2(vx);
    if rad.is_nan() {
        0.0
    } else {
        normalize(rad)
    }
}

fn bisect(a: f64, b: f64) -> f64 {
    let half_delta = (b - a) * 0.5;
    if FRAC_PI_2 < half_delta.abs() {
        normalize(a + half_delta - PI)
    } else {
        normalize(a + half_delta)
    }
}

fn direction_angle(d: Direction) -> f64 {
    from_vector(d.dx as f64, d.dy as f64)
}

fn radians(angle: MarkerAngle) -> f64 {
    match angle {
        MarkerAngle::Along(d) => direction_angle(d),
        MarkerAngle::Bisect(a, b) => bisect(direction_angle(a), direction_angle(b)),
    }
}

fn orient_radians(a: OrientAngle) -> f64 {
    let value = f64::from(f32::from_bits(a.bits));
    match a.unit {
        AngleUnit::Deg => from_degrees(value),
        AngleUnit::Grad => from_degrees(value * 360.0 / 400.0),
        AngleUnit::Rad => angle_new(value),
        AngleUnit::Turn => from_degrees(value * 360.0),
    }
}

fn events_as_tuples(events: &[MarkerEvent]) -> Vec<(MarkerType, f64, f64, f64)> {
    events
        .iter()
        .map(|e| (e.marker_type, f64::from(e.x), f64::from(e.y), radians(e.angle)))
        .collect()
}

fn no_arcs() -> Vec<ArcShape> {
    Vec::new()
}

#[test]
fn parsing_invalid_marker_units_yields_error() {
    assert!(MarkerUnits::parse_str("").is_err());
    assert!(MarkerUnits::parse_str("foo").is_err());
}

#[test]
fn parses_marker_units() {
    assert_eq!(
        MarkerUnits::parse_str("userSpaceOnUse").unwrap(),
        MarkerUnits::UserSpaceOnUse
    );
    assert_eq!(
        MarkerUnits::parse_str("strokeWidth").unwrap(),
        MarkerUnits::StrokeWidth
    );
}

#[test]
fn parsing_invalid_marker_orient_yields_error() {
    assert!(MarkerOrient::parse_str("").is_err());
    assert!(MarkerOrient::parse_str("blah").is_err());
    assert!(MarkerOrient::parse_str("45blah").is_err());
}

fn orient_angle(s: &str) -> f64 {
    match MarkerOrient::parse_str(s).unwrap() {
        MarkerOrient::Angle(a) => orient_radians(a),
        other => panic!("not an angle: {:?}", other),
    }
}

#[test]
fn parses_marker_orient() {
    assert_eq!(MarkerOrient::parse_str("auto").unwrap(), MarkerOrient::Auto);
    assert_eq!(
        MarkerOrient::parse_str("auto-start-reverse").unwrap(),
        MarkerOrient::AutoStartReverse
    );

    assert_eq!(orient_angle("0"), angle_new(0.0));
    assert_eq!(orient_angle("180"), from_degrees(180.0));
    assert_eq!(orient_angle("180deg"), from_degrees(180.0));
    assert_eq!(orient_angle("-400grad"), from_degrees(-360.0));
    assert_eq!(orient_angle("1rad"), angle_new(1.0));
}

#[test]
fn marker_attribute_defaults_and_rotation() {
    assert_eq!(MarkerUnits::default(), MarkerUnits::StrokeWidth);
    assert_eq!(
        MarkerOrient::default(),
        MarkerOrient::Angle(OrientAngle { bits: 0, unit: AngleUnit::Deg })
    );
    let computed = MarkerAngle::Along(Direction { dx: 0, dy: 1 });
    assert_eq!(
        MarkerOrient::AutoStartReverse.rotation(MarkerType::Start, computed),
        MarkerRotation::Reversed(computed)
    );
    assert_eq!(
        MarkerOrient::AutoStartReverse.rotation(MarkerType::End, computed),
        MarkerRotation::Computed(computed)
    );
    assert_eq!(
        MarkerOrient::Auto.rotation(MarkerType::Start, computed),
        MarkerRotation::Computed(computed)
    );
    let fixed = OrientAngle { bits: 45.0f32.to_bits(), unit: AngleUnit::Deg };
    assert_eq!(
        MarkerOrient::Angle(fixed).rotation(MarkerType::Middle, computed),
        MarkerRotation::Fixed(fixed)
    );
    assert!(MarkerUnits::parse_str("strokeWidth strokeWidth").is_err());
    assert_eq!(MarkerOrient::parse_str("AUTO").unwrap(), MarkerOrient::Auto);
    assert_eq!(orient_angle("0.25turn"), from_degrees(90.0));
}

// Single open path; the easy case
fn setup_open_path() -> Segments {
    let mut builder = PathBuilder::default();

    builder.move_to(10, 10);
    builder.line_to(20, 10);
    builder.line_to(20, 20);

    Segments::from(&builder.into_path(), &no_arcs())
}

#[test]
fn path_to_segments_handles_open_path() {
    let expected_segments: Segments = Segments(vec![
        Segment::line(10, 10, 20, 10),
        Segment::line(20, 10, 20, 20),
    ]);

    assert_eq!(setup_open_path(), expected_segments);
}

fn setup_multiple_open_subpaths() -> Segments {
    let mut builder = PathBuilder::default();

    builder.move_to(10, 10);
    builder.line_to(20, 10);
    builder.line_to(20, 20);

    builder.move_to(30, 30);
    builder.line_to(40, 30);
    builder.curve_to(50, 35, 60, 60, 70, 70);
    builder.line_to(80, 90);

    Segments::from(&builder.into_path(), &no_arcs())
}

#[test]
fn path_to_segments_handles_multiple_open_subpaths() {
    let expected_segments: Segments = Segments(vec![
        Segment::line(10, 10, 20, 10),
        Segment::line(20, 10, 20, 20),
        Segment::line(30, 30, 40, 30),
        Segment::curve(40, 30, 50, 35, 60, 60, 70, 70),
        Segment::line(70, 70, 80, 90),
    ]);

    assert_eq!(setup_multiple_open_subpaths(), expected_segments);
}

// Closed subpath; must have a line segment back to the first point
fn setup_closed_subpath() -> Segments {
    let mut builder = PathBuilder::default();

    builder.move_to(10, 10);
    builder.line_to(20, 10);
    builder.line_to(20, 20);
    builder.close_path();

    Segments::from(&builder.into_path(), &no_arcs())
}

#[test]
fn path_to_segments_handles_closed_subpath() {
    let expected_segments: Segments = Segments(vec![
        Segment::line(10, 10, 20, 10),
        Segment::line(20, 10, 20, 20),
        Segment::line(20, 20, 10, 10),
    ]);

    assert_eq!(setup_closed_subpath(), expected_segments);
}

// Multiple closed subpaths; each must have a line segment back to their
// initial points, with no degenerate segments between subpaths.
fn setup_multiple_closed_subpaths() -> Segments {
    let mut builder = PathBuilder::default();

    builder.move_to(10, 10);
    builder.line_to(20, 10);
    builder.line_to(20, 20);
    builder.close_path();

    builder.move_to(30, 30);
    builder.line_to(40, 30);
    builder.curve_to(50, 35, 60, 60, 70, 70);
    builder.line_to(80, 90);
    builder.close_path();

    Segments::from(&builder.into_path(), &no_arcs())
}

#[test]
fn path_to_segments_handles_multiple_closed_subpaths() {
    let expected_segments: Segments = Segments(vec![
        Segment::line(10, 10, 20, 10),
        Segment::line(20, 10, 20, 20),
        Segment::line(20, 20, 10, 10),
        Segment::line(30, 30, 40, 30),
        Segment::curve(40, 30, 50, 35, 60, 60, 70, 70),
        Segment::line(70, 70, 80, 90),
        Segment::line(80, 90, 30, 30),
    ]);

    assert_eq!(setup_multiple_closed_subpaths(), expected_segments);
}

// A lineto follows the first closed subpath, with no moveto to start the second subpath.
// The lineto must start at the first point of the first subpath.
fn setup_no_moveto_after_closepath() -> Segments {
    let mut builder = PathBuilder::default();

    builder.move_to(10, 10);
    builder.line_to(20, 10);
    builder.line_to(20, 20);
    builder.close_path();

    builder.line_to(40, 30);

    Segments::from(&builder.into_path(), &no_arcs())
}

#[test]
fn path_to_segments_handles_no_moveto_after_closepath() {
    let expected_segments: Segments = Segments(vec![
        Segment::line(10, 10, 20, 10),
        Segment::line(20, 10, 20, 20),
        Segment::line(20, 20, 10, 10),
        Segment::line(10, 10, 40, 30),
    ]);

    assert_eq!(setup_no_moveto_after_closepath(), expected_segments);
}

#[test]
fn path_to_segments_handles_sequence_of_moveto() {
    let mut builder = PathBuilder::default();
    builder.move_to(10, 10);
    builder.move_to(20, 20);
    builder.move_to(30, 30);
    builder.move_to(40, 40);

    assert_eq!(
        Segments::from(&builder.into_path(), &no_arcs()),
        Segments(vec![
            Segment::degenerate(10, 10),
            Segment::degenerate(20, 20),
            Segment::degenerate(30, 30),
            Segment::degenerate(40, 40),
        ])
    );
}

#[test]
fn path_to_segments_folds_arcs() {
    let mut builder = PathBuilder::default();
    builder.move_to(0, 0);
    builder.arc(0, 0, 5, 5, 0, LargeArc(false), Sweep::Positive, 10, 0);
    builder.arc(10, 0, 5, 5, 0, LargeArc(false), Sweep::Positive, 10, 0);
    builder.arc(10, 0, 0, 5, 0, LargeArc(false), Sweep::Positive, 20, 0);
    let arcs = vec![
        ArcShape::Curve { x2: 0, y2: 3, x3: 10, y3: 3 },
        ArcShape::Omit,
        ArcShape::LineTo,
    ];

    assert_eq!(
        Segments::from(&builder.into_path(), &arcs),
        Segments(vec![
            Segment::curve(0, 0, 0, 3, 10, 3, 10, 0),
            Segment::line(10, 0, 20, 0),
        ])
    );
}

#[test]
fn degenerate_segment_has_no_directionality() {
    let s = Segment::degenerate(1, 2);
    assert!(s.get_directionalities().is_none());
}

#[test]
fn line_segment_has_directionality() {
    let s = Segment::line(1, 2, 3, 4);
    let (v1x, v1y, v2x, v2y) = s.get_directionalities().unwrap();
    assert_eq!((2, 2), (v1x, v1y));
    assert_eq!((2, 2), (v2x, v2y));
}

#[test]
fn line_segment_with_coincident_ends_has_no_directionality() {
    let s = Segment::line(1, 2, 1, 2);
    assert!(s.get_directionalities().is_none());
}

#[test]
fn curve_has_directionality() {
    let s = Segment::curve(1, 2, 3, 5, 8, 13, 20, 33);
    let (v1x, v1y, v2x, v2y) = s.get_directionalities().unwrap();
    assert_eq!((2, 3), (v1x, v1y));
    assert_eq!((12, 20), (v2x, v2y));
}

#[test]
fn curves_with_loops_and_coincident_ends_have_directionality() {
    let s = Segment::curve(1, 2, 3, 4, 5, 6, 1, 2);
    let (v1x, v1y, v2x, v2y) = s.get_directionalities().unwrap();
    assert_eq!((2, 2), (v1x, v1y));
    assert_eq!((-4, -4), (v2x, v2y));

    let s = Segment::curve(1, 2, 1, 2, 3, 4, 1, 2);
    let (v1x, v1y, v2x, v2y) = s.get_directionalities().unwrap();
    assert_eq!((2, 2), (v1x, v1y));
    assert_eq!((-2, -2), (v2x, v2y));

    let s = Segment::curve(1, 2, 3, 4, 1, 2, 1, 2);
    let (v1x, v1y, v2x, v2y) = s.get_directionalities().unwrap();
    assert_eq!((2, 2), (v1x, v1y));
    assert_eq!((-2, -2), (v2x, v2y));
}

#[test]
fn curve_with_coincident_control_points_has_no_directionality() {
    let s = Segment::curve(1, 2, 1, 2, 1, 2, 1, 2);
    assert!(s.get_directionalities().is_none());
}

#[test]
fn curve_with_123_coincident_has_directionality() {
    let s = Segment::curve(0, 0, 0, 0, 0, 0, 20, 40);
    let (v1x, v1y, v2x, v2y) = s.get_directionalities().unwrap();
    assert_eq!((20, 40), (v1x, v1y));
    assert_eq!((20, 40), (v2x, v2y));
}

#[test]
fn curve_with_234_coincident_has_directionality() {
    let s = Segment::curve(20, 40, 0, 0, 0, 0, 0, 0);
    let (v1x, v1y, v2x, v2y) = s.get_directionalities().unwrap();
    assert_eq!((-20, -40), (v1x, v1y));
    assert_eq!((-20, -40), (v2x, v2y));
}

#[test]
fn curve_with_12_34_coincident_has_directionality() {
    let s = Segment::curve(20, 40, 20, 40, 60, 70, 60, 70);
    let (v1x, v1y, v2x, v2y) = s.get_directionalities().unwrap();
    assert_eq!((40, 30), (v1x, v1y));
    assert_eq!((40, 30), (v2x, v2y));
}

#[test]
fn curve_with_only_end_controls_coincident_ends_from_second_point() {
    let s = Segment::curve(0, 0, 10, 0, 10, 10, 10, 10);
    assert_eq!(s.get_directionalities(), Some((10, 0, 0, 10)));
    let s = Segment::curve(0, 0, 0, 0, 10, 0, 10, 10);
    assert_eq!(s.get_directionalities(), Some((10, 0, 0, 10)));
}

#[test]
fn incoming_search_stops_at_lone_point() {
    let segments = Segments(vec![
        Segment::line(0, 0, 5, 0),
        Segment::degenerate(7, 7),
        Segment::line(1, 1, 1, 1),
        Segment::line(1, 1, 1, 4),
    ]);
    assert_eq!(segments.find_incoming_angle_backwards(2), None);
    assert_eq!(
        segments.find_incoming_angle_backwards(0),
        Some(Direction { dx: 5, dy: 0 })
    );
    assert_eq!(
        segments.find_outgoing_angle_forwards(2),
        Some(Direction { dx: 0, dy: 3 })
    );
    assert_eq!(segments.find_outgoing_angle_forwards(1), None);
    assert_eq!(segments.find_outgoing_angle_forwards(4), None);
}

fn square(close: bool) -> Path {
    let mut builder = PathBuilder::default();
    builder.move_to(0, 0);
    builder.line_to(1, 0);
    builder.line_to(1, 1);
    builder.line_to(0, 1);
    if close {
        builder.close_path();
    }
    builder.into_path()
}

#[test]
fn emits_for_open_subpath() {
    let v = events_as_tuples(&emit_markers_for_path(&square(false), &no_arcs()));

    assert_eq!(
        v,
        vec![
            (MarkerType::Start, 0.0, 0.0, angle_new(0.0)),
            (MarkerType::Middle, 1.0, 0.0, from_vector(1.0, 1.0)),
            (MarkerType::Middle, 1.0, 1.0, from_vector(-1.0, 1.0)),
            (MarkerType::End, 0.0, 1.0, from_vector(-1.0, 0.0)),
        ]
    );
}

#[test]
fn emits_for_closed_subpath() {
    let v = events_as_tuples(&emit_markers_for_path(&square(true), &no_arcs()));

    assert_eq!(
        v,
        vec![
            (MarkerType::Start, 0.0, 0.0, angle_new(0.0)),
            (MarkerType::Middle, 1.0, 0.0, from_vector(1.0, 1.0)),
            (MarkerType::Middle, 1.0, 1.0, from_vector(-1.0, 1.0)),
            (MarkerType::Middle, 0.0, 1.0, from_vector(-1.0, -1.0)),
            (MarkerType::End, 0.0, 0.0, from_vector(1.0, -1.0)),
        ]
    );
}

#[test]
fn emits_symbolic_angles_for_closed_subpath() {
    let events = emit_markers_for_path(&square(true), &no_arcs());
    let d = |dx, dy| Direction { dx, dy };
    assert_eq!(events[0].angle, MarkerAngle::Along(d(1, 0)));
    assert_eq!(events[1].angle, MarkerAngle::Bisect(d(1, 0), d(0, 1)));
    assert_eq!(events[4].angle, MarkerAngle::Bisect(d(0, -1), d(1, 0)));
}

#[test]
fn emits_end_before_lone_point() {
    let mut builder = PathBuilder::default();
    builder.move_to(0, 0);
    builder.line_to(0, 2);
    builder.move_to(5, 5);
    builder.move_to(6, 6);
    let events = emit_markers_for_path(&builder.into_path(), &no_arcs());
    let along = |dx, dy| MarkerAngle::Along(Direction { dx, dy });
    assert_eq!(
        events,
        vec![
            MarkerEvent { marker_type: MarkerType::Start, x: 0, y: 0, angle: along(0, 2) },
            MarkerEvent { marker_type: MarkerType::End, x: 0, y: 2, angle: along(0, 2) },
            MarkerEvent { marker_type: MarkerType::Middle, x: 5, y: 5, angle: along(1, 0) },
            MarkerEvent { marker_type: MarkerType::Middle, x: 6, y: 6, angle: along(1, 0) },
        ]
    );
}

#[test]
fn empty_path_emits_nothing() {
    let path = PathBuilder::new().into_path();
    assert!(emit_markers_for_path(&path, &no_arcs()).is_empty());
}

fn shape(stroke_width: i32, start: bool, mid: bool, end: bool) -> Shape {
    Shape {
        path: square(false),
        arcs: no_arcs(),
        stroke_width,
        marker_start: start,
        marker_mid: mid,
        marker_end: end,
    }
}

#[test]
fn zero_stroke_width_suppresses_markers() {
    assert!(render_markers_for_shape(&shape(0, true, true, true)).is_empty());
    assert!(render_markers_for_shape(&shape(2, false, false, false)).is_empty());
}

#[test]
fn only_configured_markers_are_placed() {
    let all = render_markers_for_shape(&shape(2, true, true, true));
    assert_eq!(all.len(), 4);
    let mids = render_markers_for_shape(&shape(2, false, true, false));
    assert_eq!(mids.len(), 2);
    assert!(mids.iter().all(|e| e.marker_type == MarkerType::Middle));
    let ends = render_markers_for_shape(&shape(2, true, false, true));
    assert_eq!(
        ends.iter().map(|e| e.marker_type).collect::<Vec<_>>(),
        vec![MarkerType::Start, MarkerType::End]
    );
}
