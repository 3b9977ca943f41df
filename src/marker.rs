//! Geometry computations for markers: splitting a path into segments,
//! finding the direction of a path at each vertex, and placing the start,
//! middle and end markers.

use vstd::prelude::*;

use crate::parsers::{
    chars_equal, css_tokens_of, eq_ignore_ascii_case, ident_matches, keyword_index, single_token,
    spec_keyword, tokenize, CssToken, ParseError,
};
use crate::path_builder::{PathCommand, Path};

verus! {

/// A piece of a path, for the purpose of finding directions.
#[derive(Clone, Copy, Debug, PartialEq, Eq, Structural)]
pub enum Segment {
    /// A single lone point.
    Degenerate { x: i32, y: i32 },
    /// A line or a cubic curve from `(x1, y1)` to `(x4, y4)`, with control
    /// points `(x2, y2)` and `(x3, y3)`; a line repeats its end points as
    /// control points.
    LineOrCurve { x1: i32, y1: i32, x2: i32, y2: i32, x3: i32, y3: i32, x4: i32, y4: i32 },
}

/// A direction vector; `(1, 0)` points along the positive x-axis.
#[derive(Clone, Copy, Debug, PartialEq, Eq, Structural)]
pub struct Direction {
    pub dx: i64,
    pub dy: i64,
}

/// The direction used where none can be found: the positive x-axis.
pub open spec fn default_direction() -> Direction {
    Direction { dx: 1, dy: 0 }
}

/// How the tangent directions at a segment's ends are formed from its
/// control points, by which of them coincide; `None` when all four do.
pub open spec fn spec_directionalities(s: Segment) -> Option<(i64, i64, i64, i64)> {
    match s {
        Segment::Degenerate { .. } => None,
        Segment::LineOrCurve { x1, y1, x2, y2, x3, y3, x4, y4 } => {
            let c12 = x1 == x2 && y1 == y2;
            let c13 = x1 == x3 && y1 == y3;
            let c14 = x1 == x4 && y1 == y4;
            let c23 = x2 == x3 && y2 == y3;
            let c24 = x2 == x4 && y2 == y4;
            let c34 = x3 == x4 && y3 == y4;
            let d = |ax: i32, ay: i32, bx: i32, by: i32| ((bx - ax) as i64, (by - ay) as i64);
            if c12 && c13 && c14 {
                None
            } else if c12 && c13 {
                Some(join(d(x1, y1, x4, y4), d(x3, y3, x4, y4)))
            } else if c12 && c34 {
                Some(join(d(x1, y1, x4, y4), d(x1, y1, x4, y4)))
            } else if c23 && c24 {
                Some(join(d(x1, y1, x2, y2), d(x1, y1, x4, y4)))
            } else if c12 {
                Some(join(d(x1, y1, x3, y3), d(x3, y3, x4, y4)))
            } else if c34 {
                Some(join(d(x1, y1, x2, y2), d(x2, y2, x4, y4)))
            } else {
                Some(join(d(x1, y1, x2, y2), d(x3, y3, x4, y4)))
            }
        },
    }
}

/// The two vectors of a directionality as one tuple.
pub open spec fn join(a: (i64, i64), b: (i64, i64)) -> (i64, i64, i64, i64) {
    (a.0, a.1, b.0, b.1)
}

/// Whether two points coincide.
fn points_equal(x1: i32, y1: i32, x2: i32, y2: i32) -> (r: bool)
    ensures
        r == (x1 == x2 && y1 == y2),
{
    x1 == x2 && y1 == y2
}

/// The vector from `(ax, ay)` to `(bx, by)`.
fn vector(ax: i32, ay: i32, bx: i32, by: i32) -> (r: (i64, i64))
    ensures
        r == ((bx - ax) as i64, (by - ay) as i64),
{
    (bx as i64 - ax as i64, by as i64 - ay as i64)
}

impl Segment {
    /// A lone point.
    pub fn degenerate(x: i32, y: i32) -> (r: Segment)
        ensures
            r == (Segment::Degenerate { x, y }),
    {
        Segment::Degenerate { x, y }
    }

    /// A cubic curve from `(x1, y1)` to `(x4, y4)`.
    pub fn curve(x1: i32, y1: i32, x2: i32, y2: i32, x3: i32, y3: i32, x4: i32, y4: i32) -> (r:
        Segment)
        ensures
            r == (Segment::LineOrCurve { x1, y1, x2, y2, x3, y3, x4, y4 }),
    {
        Segment::LineOrCurve { x1, y1, x2, y2, x3, y3, x4, y4 }
    }

    /// A line from `(x1, y1)` to `(x2, y2)`.
    pub fn line(x1: i32, y1: i32, x2: i32, y2: i32) -> (r: Segment)
        ensures
            r == (Segment::LineOrCurve { x1, y1, x2, y2, x3: x1, y3: y1, x4: x2, y4: y2 }),
    {
        Segment::curve(x1, y1, x2, y2, x1, y1, x2, y2)
    }

    /// The tangents `(v1x, v1y, v2x, v2y)` at the start and at the end of
    /// the segment, or `None` if it has no directionality: a lone point, or
    /// a segment whose four control points coincide.
    pub fn get_directionalities(&self) -> (r: Option<(i64, i64, i64, i64)>)
        ensures
            r == spec_directionalities(*self),
    {
        match *self {
            Segment::Degenerate { .. } => None,
            Segment::LineOrCurve { x1, y1, x2, y2, x3, y3, x4, y4 } => {
                let coincide_1_and_2 = points_equal(x1, y1, x2, y2);
                let coincide_1_and_3 = points_equal(x1, y1, x3, y3);
                let coincide_1_and_4 = points_equal(x1, y1, x4, y4);
                let coincide_2_and_3 = points_equal(x2, y2, x3, y3);
                let coincide_2_and_4 = points_equal(x2, y2, x4, y4);
                let coincide_3_and_4 = points_equal(x3, y3, x4, y4);

                let (a, b) = if coincide_1_and_2 && coincide_1_and_3 && coincide_1_and_4 {
                    return None;
                } else if coincide_1_and_2 && coincide_1_and_3 {
                    (vector(x1, y1, x4, y4), vector(x3, y3, x4, y4))
                } else if coincide_1_and_2 && coincide_3_and_4 {
                    (vector(x1, y1, x4, y4), vector(x1, y1, x4, y4))
                } else if coincide_2_and_3 && coincide_2_and_4 {
                    (vector(x1, y1, x2, y2), vector(x1, y1, x4, y4))
                } else if coincide_1_and_2 {
                    (vector(x1, y1, x3, y3), vector(x3, y3, x4, y4))
                } else if coincide_3_and_4 {
                    (vector(x1, y1, x2, y2), vector(x2, y2, x4, y4))
                } else {
                    (vector(x1, y1, x2, y2), vector(x3, y3, x4, y4))
                };
                Some((a.0, a.1, b.0, b.1))
            },
        }
    }
}

/// What an arc command of a path becomes among the segments, once its
/// center parameterization is known.
#[derive(Clone, Copy, Debug, PartialEq, Eq, Structural)]
pub enum ArcShape {
    /// The arc is left out; the current point still moves to its end.
    Omit,
    /// The arc is drawn as a straight line to its end.
    LineTo,
    /// The arc stands as a curve whose inner control points are the first
    /// control point of its first Bézier piece and the second control point
    /// of its last piece.
    Curve { x2: i32, y2: i32, x3: i32, y3: i32 },
}

/// The states of the walk that splits a path into segments.
#[derive(Clone, Copy, Debug, PartialEq, Eq, Structural)]
pub enum SegmentState {
    Initial,
    NewSubpath,
    InSubpath,
    ClosedSubpath,
}

/// Where the walk stands: the current point, the start of the subpath, the
/// state, how many arcs were read, and the segments so far.
pub type Walk = (i32, i32, i32, i32, SegmentState, int, Seq<Segment>);

/// The number of arc commands among `cmds`.
pub open spec fn count_arcs(cmds: Seq<PathCommand>) -> nat
    decreases cmds.len(),
{
    if cmds.len() == 0 {
        0
    } else {
        count_arcs(cmds.drop_last()) + if cmds.last() is Arc {
            1nat
        } else {
            0nat
        }
    }
}

/// One step of the walk over the command `c`; `arcs` holds the shape of
/// each arc command of the path, in order.
pub open spec fn walk_step(w: Walk, c: PathCommand, arcs: Seq<ArcShape>) -> Walk {
    let (cx, cy, sx, sy, st, ai, segs) = w;
    match c {
        PathCommand::MoveTo(x, y) => match st {
            SegmentState::Initial | SegmentState::InSubpath => (
                x,
                y,
                x,
                y,
                SegmentState::NewSubpath,
                ai,
                segs,
            ),
            SegmentState::NewSubpath => (
                x,
                y,
                x,
                y,
                SegmentState::NewSubpath,
                ai,
                segs.push(Segment::Degenerate { x: cx, y: cy }),
            ),
            SegmentState::ClosedSubpath => (x, y, x, y, SegmentState::Initial, ai, segs),
        },
        PathCommand::LineTo(x, y) => (
            x,
            y,
            sx,
            sy,
            SegmentState::InSubpath,
            ai,
            segs.push(spec_line(cx, cy, x, y)),
        ),
        PathCommand::CurveTo(k) => (
            k.to.0,
            k.to.1,
            sx,
            sy,
            SegmentState::InSubpath,
            ai,
            segs.push(
                Segment::LineOrCurve {
                    x1: cx,
                    y1: cy,
                    x2: k.pt1.0,
                    y2: k.pt1.1,
                    x3: k.pt2.0,
                    y3: k.pt2.1,
                    x4: k.to.0,
                    y4: k.to.1,
                },
            ),
        ),
        PathCommand::Arc(a) => match arcs[ai] {
            ArcShape::Curve { x2, y2, x3, y3 } => (
                a.to.0,
                a.to.1,
                sx,
                sy,
                SegmentState::InSubpath,
                ai + 1,
                segs.push(
                    Segment::LineOrCurve {
                        x1: cx,
                        y1: cy,
                        x2,
                        y2,
                        x3,
                        y3,
                        x4: a.to.0,
                        y4: a.to.1,
                    },
                ),
            ),
            ArcShape::LineTo => (
                a.to.0,
                a.to.1,
                sx,
                sy,
                SegmentState::InSubpath,
                ai + 1,
                segs.push(spec_line(cx, cy, a.to.0, a.to.1)),
            ),
            ArcShape::Omit => (a.to.0, a.to.1, sx, sy, st, ai + 1, segs),
        },
        PathCommand::ClosePath => (
            sx,
            sy,
            sx,
            sy,
            SegmentState::ClosedSubpath,
            ai,
            segs.push(spec_line(cx, cy, sx, sy)),
        ),
    }
}

/// The line segment from `(x1, y1)` to `(x2, y2)`.
pub open spec fn spec_line(x1: i32, y1: i32, x2: i32, y2: i32) -> Segment {
    Segment::LineOrCurve { x1, y1, x2, y2, x3: x1, y3: y1, x4: x2, y4: y2 }
}

/// The walk over all of `cmds`, from the origin in the initial state.
pub open spec fn walk(cmds: Seq<PathCommand>, arcs: Seq<ArcShape>) -> Walk
    decreases cmds.len(),
{
    if cmds.len() == 0 {
        (0, 0, 0, 0, SegmentState::Initial, 0, seq![])
    } else {
        walk_step(walk(cmds.drop_last(), arcs), cmds.last(), arcs)
    }
}

/// The segments of a path: those of the walk, and a lone point where the
/// path ends right after a move.
pub open spec fn spec_segments(cmds: Seq<PathCommand>, arcs: Seq<ArcShape>) -> Seq<Segment> {
    let w = walk(cmds, arcs);
    if w.4 == SegmentState::NewSubpath {
        w.6.push(Segment::Degenerate { x: w.0, y: w.1 })
    } else {
        w.6
    }
}

proof fn lemma_walk_arcs(cmds: Seq<PathCommand>, arcs: Seq<ArcShape>)
    ensures
        walk(cmds, arcs).5 == count_arcs(cmds),
    decreases cmds.len(),
{
    if cmds.len() > 0 {
        lemma_walk_arcs(cmds.drop_last(), arcs);
    }
}

proof fn lemma_count_arcs_prefix(cmds: Seq<PathCommand>, k: int)
    requires
        0 <= k <= cmds.len(),
    ensures
        count_arcs(cmds.take(k)) <= count_arcs(cmds),
    decreases cmds.len() - k,
{
    if k < cmds.len() {
        lemma_count_arcs_prefix(cmds, k + 1);
        assert(cmds.take(k + 1).drop_last() =~= cmds.take(k));
    } else {
        assert(cmds.take(k) =~= cmds);
    }
}

/// The segments of a path, in order.
#[derive(Debug, PartialEq)]
pub struct Segments(pub Vec<Segment>);

impl Segments {
    /// Splits a path into segments: one per line, curve, closing line and
    /// arc that is not omitted, and a lone point for a move that starts no
    /// drawing. `arcs` holds the shape of each arc command, in order.
    pub fn from(path: &Path, arcs: &Vec<ArcShape>) -> (r: Segments)
        requires
            arcs@.len() == count_arcs(path@),
        ensures
            r.0@ == spec_segments(path@, arcs@),
    {
        let commands = path.iter();
        let ghost cmds = commands@;
        let mut cur_x: i32 = 0;
        let mut cur_y: i32 = 0;
        let mut subpath_start_x: i32 = 0;
        let mut subpath_start_y: i32 = 0;
        let mut state = SegmentState::Initial;
        let mut arc_index: usize = 0;
        let mut segments: Vec<Segment> = Vec::new();
        let mut k: usize = 0;
        while k < commands.len()
            invariant
                cmds == commands@,
                cmds == path@,
                arcs@.len() == count_arcs(cmds),
                k <= cmds.len(),
                walk(cmds.take(k as int), arcs@) == (
                    cur_x,
                    cur_y,
                    subpath_start_x,
                    subpath_start_y,
                    state,
                    arc_index as int,
                    segments@,
                ),
            decreases cmds.len() - k,
        {
            let ghost before = cmds.take(k as int);
            proof {
                assert(cmds.take(k + 1).drop_last() =~= before);
                assert(cmds.take(k + 1).last() == cmds[k as int]);
                lemma_walk_arcs(before, arcs@);
                lemma_walk_arcs(cmds.take(k + 1), arcs@);
                lemma_count_arcs_prefix(cmds, k + 1);
            }
            let last_x = cur_x;
            let last_y = cur_y;
            match commands[k] {
                PathCommand::MoveTo(x, y) => {
                    cur_x = x;
                    cur_y = y;
                    subpath_start_x = cur_x;
                    subpath_start_y = cur_y;
                    match state {
                        SegmentState::Initial | SegmentState::InSubpath => {
                            state = SegmentState::NewSubpath;
                        },
                        SegmentState::NewSubpath => {
                            // A second move right after a move leaves the
                            // first one as a stray point.
                            segments.push(Segment::degenerate(last_x, last_y));
                            state = SegmentState::NewSubpath;
                        },
                        SegmentState::ClosedSubpath => {
                            // A move right after a close only repositions;
                            // the next move starts a subpath as usual.
                            state = SegmentState::Initial;
                        },
                    }
                },
                PathCommand::LineTo(x, y) => {
                    cur_x = x;
                    cur_y = y;
                    segments.push(Segment::line(last_x, last_y, cur_x, cur_y));
                    state = SegmentState::InSubpath;
                },
                PathCommand::CurveTo(curve) => {
                    let (x2, y2) = curve.pt1;
                    let (x3, y3) = curve.pt2;
                    cur_x = curve.to.0;
                    cur_y = curve.to.1;
                    segments.push(Segment::curve(last_x, last_y, x2, y2, x3, y3, cur_x, cur_y));
                    state = SegmentState::InSubpath;
                },
                PathCommand::Arc(arc) => {
                    cur_x = arc.to.0;
                    cur_y = arc.to.1;
                    match arcs[arc_index] {
                        ArcShape::Curve { x2, y2, x3, y3 } => {
                            segments.push(
                                Segment::curve(last_x, last_y, x2, y2, x3, y3, cur_x, cur_y),
                            );
                            state = SegmentState::InSubpath;
                        },
                        ArcShape::LineTo => {
                            segments.push(Segment::line(last_x, last_y, cur_x, cur_y));
                            state = SegmentState::InSubpath;
                        },
                        ArcShape::Omit => {},
                    }
                    assert(arc_index < arcs.len());
                    arc_index += 1;
                },
                PathCommand::ClosePath => {
                    cur_x = subpath_start_x;
                    cur_y = subpath_start_y;
                    segments.push(Segment::line(last_x, last_y, cur_x, cur_y));
                    state = SegmentState::ClosedSubpath;
                },
            }
            k += 1;
        }
        proof {
            assert(cmds.take(k as int) =~= cmds);
        }
        if let SegmentState::NewSubpath = state {
            // A lone point where a subpath starts with a move and nothing
            // follows it.
            segments.push(Segment::degenerate(cur_x, cur_y));
        }
        Segments(segments)
    }
}

/// The end direction of the nearest segment with directionality among the
/// first `n` segments, searching backwards; none if a lone point comes first.
pub open spec fn incoming_before(segs: Seq<Segment>, n: nat) -> Option<Direction>
    decreases n,
{
    if n == 0 || n > segs.len() {
        None
    } else if segs[n - 1] is Degenerate {
        None
    } else {
        match spec_directionalities(segs[n - 1]) {
            Some(v) => Some(Direction { dx: v.2, dy: v.3 }),
            None => incoming_before(segs, (n - 1) as nat),
        }
    }
}

/// The start direction of the nearest segment with directionality from
/// segment `i` on, searching forwards; none if a lone point comes first.
pub open spec fn outgoing_from(segs: Seq<Segment>, i: nat) -> Option<Direction>
    decreases segs.len() - i,
{
    if i >= segs.len() {
        None
    } else if segs[i as int] is Degenerate {
        None
    } else {
        match spec_directionalities(segs[i as int]) {
            Some(v) => Some(Direction { dx: v.0, dy: v.1 }),
            None => outgoing_from(segs, i + 1),
        }
    }
}

impl Segments {
    /// Going backwards from segment `start_index` within its subpath, the
    /// end direction of the first segment that has one.
    pub fn find_incoming_angle_backwards(&self, start_index: usize) -> (r: Option<Direction>)
        requires
            start_index < self.0.len(),
        ensures
            r == incoming_before(self.0@, (start_index + 1) as nat),
    {
        let mut n: usize = start_index + 1;
        while n > 0
            invariant
                n <= start_index + 1,
                start_index < self.0@.len(),
                incoming_before(self.0@, (start_index + 1) as nat) == incoming_before(
                    self.0@,
                    n as nat,
                ),
            decreases n,
        {
            let segment = &self.0[n - 1];
            match *segment {
                Segment::Degenerate { .. } => {
                    // A lone point marks the start of the subpath.
                    return None;
                },
                Segment::LineOrCurve { .. } => match segment.get_directionalities() {
                    Some((_, _, v2x, v2y)) => {
                        return Some(Direction { dx: v2x, dy: v2y });
                    },
                    None => {},
                },
            }
            n -= 1;
        }
        None
    }

    /// Going forwards from segment `start_index` within its subpath, the
    /// start direction of the first segment that has one.
    pub fn find_outgoing_angle_forwards(&self, start_index: usize) -> (r: Option<Direction>)
        requires
            start_index <= self.0@.len(),
        ensures
            r == outgoing_from(self.0@, start_index as nat),
    {
        let mut i: usize = start_index;
        while i < self.0.len()
            invariant
                start_index <= i <= self.0@.len(),
                outgoing_from(self.0@, start_index as nat) == outgoing_from(self.0@, i as nat),
            decreases self.0@.len() - i,
        {
            let segment = &self.0[i];
            match *segment {
                Segment::Degenerate { .. } => {
                    // A lone point marks the end of the subpath.
                    return None;
                },
                Segment::LineOrCurve { .. } => match segment.get_directionalities() {
                    Some((v1x, v1y, _, _)) => {
                        return Some(Direction { dx: v1x, dy: v1y });
                    },
                    None => {},
                },
            }
            i += 1;
        }
        None
    }
}

/// Which of a shape's three markers applies at a vertex.
#[derive(Clone, Copy, Debug, PartialEq, Eq, Structural)]
pub enum MarkerType {
    Start,
    Middle,
    End,
}

/// The orientation of a marker.
#[derive(Clone, Copy, Debug, PartialEq, Eq, Structural)]
pub enum MarkerAngle {
    /// The angle of a direction vector.
    Along(Direction),
    /// The angle that bisects the turn from the first direction to the
    /// second.
    Bisect(Direction, Direction),
}

/// One marker to place: its role, its vertex and its orientation.
#[derive(Clone, Copy, Debug, PartialEq, Eq, Structural)]
pub struct MarkerEvent {
    pub marker_type: MarkerType,
    pub x: i32,
    pub y: i32,
    pub angle: MarkerAngle,
}

/// The point where a segment starts.
pub open spec fn start_point(s: Segment) -> (i32, i32) {
    match s {
        Segment::Degenerate { x, y } => (x, y),
        Segment::LineOrCurve { x1, y1, .. } => (x1, y1),
    }
}

/// The point where a segment ends.
pub open spec fn end_point(s: Segment) -> (i32, i32) {
    match s {
        Segment::Degenerate { x, y } => (x, y),
        Segment::LineOrCurve { x4, y4, .. } => (x4, y4),
    }
}

/// A direction, or the positive x-axis where there is none.
pub open spec fn or_default(d: Option<Direction>) -> Direction {
    match d {
        Some(v) => v,
        None => default_direction(),
    }
}

/// The orientation at a join: the bisection of the incoming and outgoing
/// directions, or the one of them that exists.
pub open spec fn join_angle(incoming: Option<Direction>, outgoing: Option<Direction>) -> MarkerAngle {
    match (incoming, outgoing) {
        (Some(a), Some(b)) => MarkerAngle::Bisect(a, b),
        (Some(a), None) => MarkerAngle::Along(a),
        (None, Some(b)) => MarkerAngle::Along(b),
        (None, None) => MarkerAngle::Along(default_direction()),
    }
}

/// The event for `marker_type` at a point.
pub open spec fn event_at(marker_type: MarkerType, p: (i32, i32), angle: MarkerAngle) -> MarkerEvent {
    MarkerEvent { marker_type, x: p.0, y: p.1, angle }
}

/// The events for the vertices where the first `n` segments start, and
/// whether a subpath is open after them.
pub open spec fn vertex_events(segs: Seq<Segment>, n: nat) -> (Seq<MarkerEvent>, bool)
    decreases n,
{
    if n == 0 || n > segs.len() {
        (seq![], false)
    } else {
        let (ev, in_subpath) = vertex_events(segs, (n - 1) as nat);
        let i = n - 1;
        let s = segs[i];
        if s is Degenerate {
            let ev = if in_subpath && i > 0 {
                ev.push(
                    event_at(
                        MarkerType::End,
                        end_point(segs[i - 1]),
                        MarkerAngle::Along(or_default(incoming_before(segs, i as nat))),
                    ),
                )
            } else {
                ev
            };
            (
                ev.push(
                    event_at(
                        MarkerType::Middle,
                        start_point(s),
                        MarkerAngle::Along(default_direction()),
                    ),
                ),
                false,
            )
        } else if !in_subpath {
            (
                ev.push(
                    event_at(
                        MarkerType::Start,
                        start_point(s),
                        MarkerAngle::Along(or_default(outgoing_from(segs, i as nat))),
                    ),
                ),
                true,
            )
        } else {
            (
                ev.push(
                    event_at(
                        MarkerType::Middle,
                        start_point(s),
                        join_angle(incoming_before(segs, i as nat), outgoing_from(segs, i as nat)),
                    ),
                ),
                true,
            )
        }
    }
}

/// The event for the last vertex of the path, if its last segment is not a
/// lone point; on a closed path the corner is mitred with the direction at
/// the path's start.
pub open spec fn final_events(segs: Seq<Segment>, closed: bool) -> Seq<MarkerEvent> {
    if segs.len() > 0 && !(segs.last() is Degenerate) {
        let incoming = or_default(incoming_before(segs, segs.len()));
        let angle = if closed {
            MarkerAngle::Bisect(incoming, or_default(outgoing_from(segs, 0)))
        } else {
            MarkerAngle::Along(incoming)
        };
        seq![event_at(MarkerType::End, end_point(segs.last()), angle)]
    } else {
        seq![]
    }
}

/// All the marker events of a path split into `segs`.
pub open spec fn spec_marker_events(segs: Seq<Segment>, closed: bool) -> Seq<MarkerEvent> {
    vertex_events(segs, segs.len()).0 + final_events(segs, closed)
}

/// Whether the last command of a path closes its subpath.
pub open spec fn ends_closed(cmds: Seq<PathCommand>) -> bool {
    cmds.len() > 0 && cmds.last() is ClosePath
}

/// The events of a path's markers, in the order of its vertices.
pub open spec fn path_marker_events(cmds: Seq<PathCommand>, arcs: Seq<ArcShape>) -> Seq<MarkerEvent> {
    spec_marker_events(spec_segments(cmds, arcs), ends_closed(cmds))
}

/// The event for the segment's start or end point.
fn emit_marker(segment: &Segment, at_end: bool, marker_type: MarkerType, angle: MarkerAngle) -> (r:
    MarkerEvent)
    ensures
        r == event_at(
            marker_type,
            if at_end {
                end_point(*segment)
            } else {
                start_point(*segment)
            },
            angle,
        ),
{
    let (x, y) = match *segment {
        Segment::Degenerate { x, y } => (x, y),
        Segment::LineOrCurve { x1, y1, x4, y4, .. } => if at_end {
            (x4, y4)
        } else {
            (x1, y1)
        },
    };
    MarkerEvent { marker_type, x, y, angle }
}

/// A direction, or the positive x-axis where there is none.
fn direction_or_default(d: Option<Direction>) -> (r: Direction)
    ensures
        r == or_default(d),
{
    match d {
        Some(v) => v,
        None => Direction { dx: 1, dy: 0 },
    }
}

/// The marker events of a path, one per vertex: a start marker where a
/// subpath starts, an end marker where one ends, and middle markers at the
/// joins and at lone points. `arcs` holds the shape of each arc command.
pub fn emit_markers_for_path(path: &Path, arcs: &Vec<ArcShape>) -> (r: Vec<MarkerEvent>)
    requires
        arcs@.len() == count_arcs(path@),
    ensures
        r@ == path_marker_events(path@, arcs@),
{
    let segments = Segments::from(path, arcs);
    let ghost segs = segments.0@;
    let mut events: Vec<MarkerEvent> = Vec::new();
    let mut in_subpath = false;
    let mut i: usize = 0;
    while i < segments.0.len()
        invariant
            segs == segments.0@,
            i <= segs.len(),
            vertex_events(segs, i as nat) == (events@, in_subpath),
            in_subpath ==> i > 0,
        decreases segs.len() - i,
    {
        let segment = &segments.0[i];
        match *segment {
            Segment::Degenerate { .. } => {
                if in_subpath {
                    // A lone point after a subpath: the subpath's end comes
                    // first.
                    let angle = direction_or_default(segments.find_incoming_angle_backwards(i - 1));
                    events.push(
                        emit_marker(&segments.0[i - 1], true, MarkerType::End, MarkerAngle::Along(angle)),
                    );
                }
                events.push(
                    emit_marker(
                        segment,
                        false,
                        MarkerType::Middle,
                        MarkerAngle::Along(Direction { dx: 1, dy: 0 }),
                    ),
                );
                in_subpath = false;
            },
            Segment::LineOrCurve { .. } => {
                if !in_subpath {
                    let angle = direction_or_default(segments.find_outgoing_angle_forwards(i));
                    events.push(
                        emit_marker(segment, false, MarkerType::Start, MarkerAngle::Along(angle)),
                    );
                    in_subpath = true;
                } else {
                    let incoming = segments.find_incoming_angle_backwards(i - 1);
                    let outgoing = segments.find_outgoing_angle_forwards(i);
                    let angle = match (incoming, outgoing) {
                        (Some(a), Some(b)) => MarkerAngle::Bisect(a, b),
                        (Some(a), None) => MarkerAngle::Along(a),
                        (None, Some(b)) => MarkerAngle::Along(b),
                        (None, None) => MarkerAngle::Along(Direction { dx: 1, dy: 0 }),
                    };
                    events.push(emit_marker(segment, false, MarkerType::Middle, angle));
                }
            },
        }
        i += 1;
    }
    let ghost vertex = events@;
    let n = segments.0.len();
    if n > 0 {
        let segment = &segments.0[n - 1];
        if let Segment::LineOrCurve { .. } = *segment {
            let incoming = direction_or_default(segments.find_incoming_angle_backwards(n - 1));
            let commands = path.iter();
            let closed = commands.len() > 0 && matches!(commands[commands.len() - 1], PathCommand::ClosePath);
            let angle = if closed {
                let outgoing = direction_or_default(segments.find_outgoing_angle_forwards(0));
                MarkerAngle::Bisect(incoming, outgoing)
            } else {
                MarkerAngle::Along(incoming)
            };
            events.push(emit_marker(segment, true, MarkerType::End, angle));
        }
    }
    proof {
        assert(events@ =~= vertex + final_events(segs, ends_closed(path@)));
    }
    events
}

/// What marker placement needs of a shape: its path with the shape of each
/// arc command, its stroke width, and which of its three markers are set.
pub struct Shape {
    pub path: Path,
    pub arcs: Vec<ArcShape>,
    pub stroke_width: i32,
    pub marker_start: bool,
    pub marker_mid: bool,
    pub marker_end: bool,
}

impl Shape {
    /// Whether the marker for this role is set.
    pub open spec fn has_marker(&self, t: MarkerType) -> bool {
        match t {
            MarkerType::Start => self.marker_start,
            MarkerType::Middle => self.marker_mid,
            MarkerType::End => self.marker_end,
        }
    }
}

/// The events among `evs` whose marker is set on `shape`, in order.
pub open spec fn configured_events(evs: Seq<MarkerEvent>, shape: &Shape) -> Seq<MarkerEvent>
    decreases evs.len(),
{
    if evs.len() == 0 {
        seq![]
    } else {
        let rest = configured_events(evs.drop_last(), shape);
        if shape.has_marker(evs.last().marker_type) {
            rest.push(evs.last())
        } else {
            rest
        }
    }
}

/// The markers to draw for a shape: none when its stroke width is zero or
/// none of its markers is set; otherwise the events of its path whose
/// marker is set.
pub open spec fn shape_marker_events(shape: &Shape) -> Seq<MarkerEvent> {
    if shape.stroke_width == 0 || !(shape.marker_start || shape.marker_mid || shape.marker_end) {
        Seq::<MarkerEvent>::empty()
    } else {
        configured_events(path_marker_events(shape.path@, shape.arcs@), shape)
    }
}

/// The markers to draw for a shape, in the order of its vertices.
pub fn render_markers_for_shape(shape: &Shape) -> (r: Vec<MarkerEvent>)
    requires
        shape.arcs@.len() == count_arcs(shape.path@),
    ensures
        r@ == shape_marker_events(shape),
{
    if shape.stroke_width == 0 {
        return Vec::new();
    }
    if !shape.marker_start && !shape.marker_mid && !shape.marker_end {
        return Vec::new();
    }
    let all = emit_markers_for_path(&shape.path, &shape.arcs);
    let mut out: Vec<MarkerEvent> = Vec::new();
    let mut i: usize = 0;
    while i < all.len()
        invariant
            i <= all@.len(),
            out@ == configured_events(all@.take(i as int), shape),
        decreases all@.len() - i,
    {
        let e = all[i];
        proof {
            assert(all@.take(i + 1).drop_last() =~= all@.take(i as int));
        }
        let wanted = match e.marker_type {
            MarkerType::Start => shape.marker_start,
            MarkerType::Middle => shape.marker_mid,
            MarkerType::End => shape.marker_end,
        };
        if wanted {
            out.push(e);
        }
        i += 1;
    }
    proof {
        assert(all@.take(i as int) =~= all@);
    }
    out
}

/// A lone point has no directionality; neither has a line whose ends
/// coincide; a curve whose first three points coincide leaves its start
/// towards its last point and arrives there from its third point.
pub proof fn lemma_degenerate_directionality(
    x1: i32,
    y1: i32,
    x4: i32,
    y4: i32,
)
    ensures
        spec_directionalities(Segment::Degenerate { x: x1, y: y1 }) is None,
        spec_directionalities(spec_line(x1, y1, x1, y1)) is None,
        !(x1 == x4 && y1 == y4) ==> spec_directionalities(
            Segment::LineOrCurve { x1, y1, x2: x1, y2: y1, x3: x1, y3: y1, x4, y4 },
        ) == Some(
            ((x4 - x1) as i64, (y4 - y1) as i64, (x4 - x1) as i64, (y4 - y1) as i64),
        ),
{
}

/// With a zero stroke width no marker is placed, whichever are set.
pub proof fn lemma_zero_stroke_suppresses(shape: &Shape)
    requires
        shape.stroke_width == 0,
    ensures
        shape_marker_events(shape).len() == 0,
{
}

/// The `markerUnits` attribute: the coordinate system of a marker's contents.
#[derive(Clone, Copy, Debug, PartialEq, Eq, Structural)]
pub enum MarkerUnits {
    UserSpaceOnUse,
    StrokeWidth,
}

/// The `markerUnits` value that a token list holds.
pub open spec fn spec_marker_units(toks: Seq<CssToken>) -> Result<MarkerUnits, ParseError> {
    spec_keyword(
        toks,
        "userSpaceOnUse"@,
        MarkerUnits::UserSpaceOnUse,
        "strokeWidth"@,
        MarkerUnits::StrokeWidth,
    )
}

impl MarkerUnits {
    /// The default, `strokeWidth`.
    pub fn default() -> (r: MarkerUnits)
        ensures
            r == MarkerUnits::StrokeWidth,
    {
        MarkerUnits::StrokeWidth
    }

    /// Reads the value from its tokens: one of the two keywords, in any
    /// ASCII case.
    pub fn from_tokens(toks: &Vec<CssToken>) -> (r: Result<MarkerUnits, ParseError>)
        ensures
            r == spec_marker_units(toks@),
    {
        match keyword_index(toks, "userSpaceOnUse", "strokeWidth") {
            Ok(0) => Ok(MarkerUnits::UserSpaceOnUse),
            Ok(_) => Ok(MarkerUnits::StrokeWidth),
            Err(e) => Err(e),
        }
    }

    /// Parses an attribute value.
    pub fn parse_str(s: &str) -> (r: Result<MarkerUnits, ParseError>)
        ensures
            r == spec_marker_units(css_tokens_of(s@)),
    {
        let toks = tokenize(s);
        MarkerUnits::from_tokens(&toks)
    }
}

/// The unit of an angle.
#[derive(Clone, Copy, Debug, PartialEq, Eq, Structural)]
pub enum AngleUnit {
    Deg,
    Grad,
    Rad,
    Turn,
}

/// A fixed marker orientation as written: a number and its unit; a bare
/// number is in degrees.
#[derive(Clone, Copy, Debug, PartialEq, Eq, Structural)]
pub struct OrientAngle {
    /// The IEEE-754 single-precision bits of the number.
    pub bits: u32,
    pub unit: AngleUnit,
}

/// The `orient` attribute of a marker.
#[derive(Clone, Copy, Debug, PartialEq, Eq, Structural)]
pub enum MarkerOrient {
    /// Along the path's direction at the vertex.
    Auto,
    /// As `Auto`, but reversed for the start marker.
    AutoStartReverse,
    /// A fixed angle.
    Angle(OrientAngle),
}

/// The angle unit that a dimension's unit names, case-sensitively.
pub open spec fn spec_angle_unit(unit: Seq<char>) -> Option<AngleUnit> {
    if unit == "deg"@ {
        Some(AngleUnit::Deg)
    } else if unit == "grad"@ {
        Some(AngleUnit::Grad)
    } else if unit == "rad"@ {
        Some(AngleUnit::Rad)
    } else if unit == "turn"@ {
        Some(AngleUnit::Turn)
    } else {
        None
    }
}

/// The `orient` value that a token list holds.
pub open spec fn spec_marker_orient(toks: Seq<CssToken>) -> Result<MarkerOrient, ParseError> {
    match single_token(toks) {
        Err(e) => Err(e),
        Ok(CssToken::Ident(id)) => if eq_ignore_ascii_case(id@, "auto"@) {
            Ok(MarkerOrient::Auto)
        } else if eq_ignore_ascii_case(id@, "auto-start-reverse"@) {
            Ok(MarkerOrient::AutoStartReverse)
        } else {
            Err(ParseError::UnexpectedToken)
        },
        Ok(CssToken::Number { bits }) => Ok(
            MarkerOrient::Angle(OrientAngle { bits, unit: AngleUnit::Deg }),
        ),
        Ok(CssToken::Dimension { bits, unit }) => match spec_angle_unit(unit@) {
            Some(u) => Ok(MarkerOrient::Angle(OrientAngle { bits, unit: u })),
            None => Err(ParseError::UnexpectedToken),
        },
        Ok(CssToken::Other) => Err(ParseError::UnexpectedToken),
    }
}

fn angle_unit(unit: &Vec<char>) -> (r: Option<AngleUnit>)
    ensures
        r == spec_angle_unit(unit@),
{
    if chars_equal(unit, "deg") {
        Some(AngleUnit::Deg)
    } else if chars_equal(unit, "grad") {
        Some(AngleUnit::Grad)
    } else if chars_equal(unit, "rad") {
        Some(AngleUnit::Rad)
    } else if chars_equal(unit, "turn") {
        Some(AngleUnit::Turn)
    } else {
        None
    }
}

impl MarkerOrient {
    /// The default, a fixed angle of zero.
    pub fn default() -> (r: MarkerOrient)
        ensures
            r == MarkerOrient::Angle(OrientAngle { bits: 0, unit: AngleUnit::Deg }),
    {
        MarkerOrient::Angle(OrientAngle { bits: 0, unit: AngleUnit::Deg })
    }

    /// Reads the value from its tokens: `auto`, `auto-start-reverse`, or an
    /// angle.
    pub fn from_tokens(toks: &Vec<CssToken>) -> (r: Result<MarkerOrient, ParseError>)
        ensures
            r == spec_marker_orient(toks@),
    {
        if toks.len() == 0 {
            return Err(ParseError::EndOfInput);
        }
        if toks.len() > 1 {
            return Err(ParseError::UnexpectedToken);
        }
        match &toks[0] {
            CssToken::Ident(id) => {
                if ident_matches(id, "auto") {
                    Ok(MarkerOrient::Auto)
                } else if ident_matches(id, "auto-start-reverse") {
                    Ok(MarkerOrient::AutoStartReverse)
                } else {
                    Err(ParseError::UnexpectedToken)
                }
            },
            CssToken::Number { bits } => Ok(
                MarkerOrient::Angle(OrientAngle { bits: *bits, unit: AngleUnit::Deg }),
            ),
            CssToken::Dimension { bits, unit } => match angle_unit(unit) {
                Some(u) => Ok(MarkerOrient::Angle(OrientAngle { bits: *bits, unit: u })),
                None => Err(ParseError::UnexpectedToken),
            },
            CssToken::Other => Err(ParseError::UnexpectedToken),
        }
    }

    /// Parses an attribute value.
    pub fn parse_str(s: &str) -> (r: Result<MarkerOrient, ParseError>)
        ensures
            r == spec_marker_orient(css_tokens_of(s@)),
    {
        let toks = tokenize(s);
        MarkerOrient::from_tokens(&toks)
    }
}

/// The rotation of a marker's contents.
#[derive(Clone, Copy, Debug, PartialEq, Eq, Structural)]
pub enum MarkerRotation {
    /// The orientation computed from the path.
    Computed(MarkerAngle),
    /// The orientation computed from the path, turned half a circle.
    Reversed(MarkerAngle),
    /// A fixed angle.
    Fixed(OrientAngle),
}

impl MarkerOrient {
    /// The rotation of a marker with this `orient` at a vertex whose
    /// computed orientation is `computed`.
    pub fn rotation(&self, marker_type: MarkerType, computed: MarkerAngle) -> (r: MarkerRotation)
        ensures
            r == match *self {
                MarkerOrient::Auto => MarkerRotation::Computed(computed),
                MarkerOrient::AutoStartReverse => if marker_type == MarkerType::Start {
                    MarkerRotation::Reversed(computed)
                } else {
                    MarkerRotation::Computed(computed)
                },
                MarkerOrient::Angle(a) => MarkerRotation::Fixed(a),
            },
    {
        match *self {
            MarkerOrient::Auto => MarkerRotation::Computed(computed),
            MarkerOrient::AutoStartReverse => {
                if marker_type == MarkerType::Start {
                    MarkerRotation::Reversed(computed)
                } else {
                    MarkerRotation::Computed(computed)
                }
            },
            MarkerOrient::Angle(a) => MarkerRotation::Fixed(a),
        }
    }
}

} // verus!
