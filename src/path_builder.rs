//! Representation of Bézier paths: a builder that collects commands and an
//! immutable, packed path.

use smallvec::SmallVec;
use vstd::prelude::*;

verus! {

/// Whether an arc sweeps 180 degrees or more.
#[derive(Clone, Copy, Debug, PartialEq, Eq, Structural)]
pub struct LargeArc(pub bool);

/// The angular direction in which an arc is drawn.
#[derive(Clone, Copy, Debug, PartialEq, Eq, Structural)]
pub enum Sweep {
    Negative,
    Positive,
}

/// A cubic Bézier segment; its start is the current point.
#[derive(Clone, Copy, Debug, PartialEq)]
pub struct CubicBezierCurve {
    /// The (x, y) coordinates of the first control point.
    pub pt1: (i32, i32),
    /// The (x, y) coordinates of the second control point.
    pub pt2: (i32, i32),
    /// The (x, y) coordinates of the end point of this path segment.
    pub to: (i32, i32),
}

/// An elliptical arc in endpoint form.
#[derive(Clone, Copy, Debug, PartialEq)]
pub struct EllipticalArc {
    /// The (x-axis, y-axis) radii for the ellipse.
    pub r: (i32, i32),
    /// The rotation angle in degrees for the ellipse's x-axis
    /// relative to the x-axis of the user coordinate system.
    pub x_axis_rotation: i32,
    /// Whether the arc sweeps 180 degrees or more.
    pub large_arc: LargeArc,
    /// The angular direction in which the arc is drawn.
    pub sweep: Sweep,
    /// The (x, y) coordinates for the start point of this path segment.
    pub from: (i32, i32),
    /// The (x, y) coordinates for the end point of this path segment.
    pub to: (i32, i32),
}

/// One drawing command. Coordinates are user-space units on the integer grid.
#[derive(Clone, Copy, Debug, PartialEq)]
pub enum PathCommand {
    MoveTo(i32, i32),
    LineTo(i32, i32),
    CurveTo(CubicBezierCurve),
    Arc(EllipticalArc),
    ClosePath,
}

/// The tag of a command in a packed path; an arc's two flags are folded
/// into the tag.
#[derive(Clone, Copy, Debug, PartialEq, Eq, Structural)]
pub enum PackedCommand {
    MoveTo,
    LineTo,
    CurveTo,
    ArcSmallNegative,
    ArcSmallPositive,
    ArcLargeNegative,
    ArcLargePositive,
    ClosePath,
}

/// How many coordinates a command with this tag carries.
pub open spec fn tag_arity(t: PackedCommand) -> nat {
    match t {
        PackedCommand::MoveTo | PackedCommand::LineTo => 2,
        PackedCommand::CurveTo => 6,
        PackedCommand::ClosePath => 0,
        _ => 7,
    }
}

/// The tag of a command.
pub open spec fn packed_of(c: PathCommand) -> PackedCommand {
    match c {
        PathCommand::MoveTo(..) => PackedCommand::MoveTo,
        PathCommand::LineTo(..) => PackedCommand::LineTo,
        PathCommand::CurveTo(_) => PackedCommand::CurveTo,
        PathCommand::Arc(a) => arc_tag(a.large_arc, a.sweep),
        PathCommand::ClosePath => PackedCommand::ClosePath,
    }
}

/// The tag of an arc with the given flags.
pub open spec fn arc_tag(large_arc: LargeArc, sweep: Sweep) -> PackedCommand {
    match (large_arc.0, sweep) {
        (false, Sweep::Negative) => PackedCommand::ArcSmallNegative,
        (false, Sweep::Positive) => PackedCommand::ArcSmallPositive,
        (true, Sweep::Negative) => PackedCommand::ArcLargeNegative,
        (true, Sweep::Positive) => PackedCommand::ArcLargePositive,
    }
}

/// The coordinates that a command contributes to a packed path, in order.
pub open spec fn coords_of(c: PathCommand) -> Seq<i32> {
    match c {
        PathCommand::MoveTo(x, y) => seq![x, y],
        PathCommand::LineTo(x, y) => seq![x, y],
        PathCommand::CurveTo(c) => seq![c.pt1.0, c.pt1.1, c.pt2.0, c.pt2.1, c.to.0, c.to.1],
        PathCommand::Arc(a) => seq![
            a.r.0,
            a.r.1,
            a.x_axis_rotation,
            a.from.0,
            a.from.1,
            a.to.0,
            a.to.1,
        ],
        PathCommand::ClosePath => seq![],
    }
}

/// The command that a tag and the coordinates that follow it stand for.
pub open spec fn unpack(t: PackedCommand, s: Seq<i32>) -> PathCommand {
    match t {
        PackedCommand::MoveTo => PathCommand::MoveTo(s[0], s[1]),
        PackedCommand::LineTo => PathCommand::LineTo(s[0], s[1]),
        PackedCommand::CurveTo => PathCommand::CurveTo(
            CubicBezierCurve { pt1: (s[0], s[1]), pt2: (s[2], s[3]), to: (s[4], s[5]) },
        ),
        PackedCommand::ClosePath => PathCommand::ClosePath,
        PackedCommand::ArcSmallNegative => PathCommand::Arc(
            unpack_arc(LargeArc(false), Sweep::Negative, s),
        ),
        PackedCommand::ArcSmallPositive => PathCommand::Arc(
            unpack_arc(LargeArc(false), Sweep::Positive, s),
        ),
        PackedCommand::ArcLargeNegative => PathCommand::Arc(
            unpack_arc(LargeArc(true), Sweep::Negative, s),
        ),
        PackedCommand::ArcLargePositive => PathCommand::Arc(
            unpack_arc(LargeArc(true), Sweep::Positive, s),
        ),
    }
}

/// The arc with the given flags whose coordinates start `s`.
pub open spec fn unpack_arc(large_arc: LargeArc, sweep: Sweep, s: Seq<i32>) -> EllipticalArc {
    EllipticalArc {
        r: (s[0], s[1]),
        x_axis_rotation: s[2],
        large_arc,
        sweep,
        from: (s[3], s[4]),
        to: (s[5], s[6]),
    }
}

/// The coordinate buffer of a packed path holding `cmds`.
pub open spec fn packed_coords(cmds: Seq<PathCommand>) -> Seq<i32>
    decreases cmds.len(),
{
    if cmds.len() == 0 {
        seq![]
    } else {
        coords_of(cmds[0]) + packed_coords(cmds.drop_first())
    }
}

/// The tag array of a packed path holding `cmds`.
pub open spec fn packed_tags(cmds: Seq<PathCommand>) -> Seq<PackedCommand> {
    cmds.map_values(|c: PathCommand| packed_of(c))
}

/// How many coordinates the commands with these tags carry in all.
pub open spec fn total_arity(tags: Seq<PackedCommand>) -> nat
    decreases tags.len(),
{
    if tags.len() == 0 {
        0
    } else {
        tag_arity(tags[0]) + total_arity(tags.drop_first())
    }
}

/// The commands that a tag array and a coordinate buffer stand for, each
/// tag reading its coordinates where the previous one stopped.
pub open spec fn unpack_all(tags: Seq<PackedCommand>, coords: Seq<i32>) -> Seq<PathCommand>
    decreases tags.len(),
{
    if tags.len() == 0 {
        seq![]
    } else {
        seq![unpack(tags[0], coords)] + unpack_all(
            tags.drop_first(),
            coords.skip(tag_arity(tags[0]) as int),
        )
    }
}

proof fn lemma_unpack_command(c: PathCommand, rest: Seq<i32>)
    ensures
        coords_of(c).len() == tag_arity(packed_of(c)),
        unpack(packed_of(c), coords_of(c) + rest) == c,
        (coords_of(c) + rest).skip(tag_arity(packed_of(c)) as int) =~= rest,
{
    match c {
        PathCommand::Arc(a) => {
            match (a.large_arc.0, a.sweep) {
                (false, Sweep::Negative) => {},
                (false, Sweep::Positive) => {},
                (true, Sweep::Negative) => {},
                (true, Sweep::Positive) => {},
            }
        },
        _ => {},
    }
}

/// Packing then unpacking gives back the commands, in order and with their
/// values.
pub proof fn lemma_packed_round_trip(cmds: Seq<PathCommand>)
    ensures
        unpack_all(packed_tags(cmds), packed_coords(cmds)) == cmds,
        packed_coords(cmds).len() == total_arity(packed_tags(cmds)),
    decreases cmds.len(),
{
    if cmds.len() > 0 {
        let rest = cmds.drop_first();
        lemma_packed_round_trip(rest);
        lemma_unpack_command(cmds[0], packed_coords(rest));
        assert(packed_tags(cmds).drop_first() =~= packed_tags(rest));
        assert(unpack_all(packed_tags(cmds), packed_coords(cmds)) =~= cmds);
    } else {
        assert(unpack_all(packed_tags(cmds), packed_coords(cmds)) =~= cmds);
    }
}

proof fn lemma_packed_coords_push(cmds: Seq<PathCommand>, c: PathCommand)
    ensures
        packed_coords(cmds.push(c)) =~= packed_coords(cmds) + coords_of(c),
    decreases cmds.len(),
{
    if cmds.len() > 0 {
        lemma_packed_coords_push(cmds.drop_first(), c);
        assert(cmds.push(c).drop_first() =~= cmds.drop_first().push(c));
        assert(cmds.push(c)[0] == cmds[0]);
        let a = coords_of(cmds[0]);
        let b = packed_coords(cmds.drop_first());
        assert(a + (b + coords_of(c)) =~= (a + b) + coords_of(c));
    } else {
        assert(cmds.push(c).drop_first() =~= seq![]);
        assert(cmds =~= seq![]);
        assert(packed_coords(cmds.push(c)) =~= coords_of(c) + packed_coords(seq![]));
    }
}

/// The commands of a builder, kept inline up to 32 of them.
#[verifier::external_body]
pub struct CommandList {
    items: SmallVec<[PathCommand; 32]>,
}

/// The commands held by a list, in order.
pub uninterp spec fn held_commands(v: CommandList) -> Seq<PathCommand>;

/// Relies on `SmallVec::new`: a vector with no items.
#[verifier::external_body]
fn commands_new() -> (r: CommandList)
    ensures
        held_commands(r) == Seq::<PathCommand>::empty(),
{
    CommandList { items: SmallVec::new() }
}

/// Relies on `SmallVec::push`: the item is appended at the end.
#[verifier::external_body]
fn commands_push(v: &mut CommandList, c: PathCommand)
    ensures
        held_commands(*final(v)) == held_commands(*old(v)).push(c),
{
    v.items.push(c)
}

/// Relies on `SmallVec::len`: the number of items.
#[verifier::external_body]
fn commands_len(v: &CommandList) -> (r: usize)
    ensures
        r == held_commands(*v).len(),
{
    v.items.len()
}

/// Relies on `SmallVec::as_slice`: the items in order, read at a position.
#[verifier::external_body]
fn commands_get(v: &CommandList, i: usize) -> (r: PathCommand)
    requires
        i < held_commands(*v).len(),
    ensures
        r == held_commands(*v)[i as int],
{
    v.items.as_slice()[i]
}

impl CubicBezierCurve {
    /// The curve whose six coordinates start at `coords[start]`.
    fn from_coords(coords: &Vec<i32>, start: usize) -> (r: CubicBezierCurve)
        requires
            start + 6 <= coords.len(),
        ensures
            PathCommand::CurveTo(r) == unpack(PackedCommand::CurveTo, coords@.skip(start as int)),
    {
        let pt1 = (coords[start], coords[start + 1]);
        let pt2 = (coords[start + 2], coords[start + 3]);
        let to = (coords[start + 4], coords[start + 5]);
        CubicBezierCurve { pt1, pt2, to }
    }

    /// Appends the curve's coordinates and returns its tag.
    fn to_packed_and_coords(&self, coords: &mut Vec<i32>) -> (r: PackedCommand)
        ensures
            r == packed_of(PathCommand::CurveTo(*self)),
            final(coords)@ == old(coords)@ + coords_of(PathCommand::CurveTo(*self)),
    {
        coords.push(self.pt1.0);
        coords.push(self.pt1.1);
        coords.push(self.pt2.0);
        coords.push(self.pt2.1);
        coords.push(self.to.0);
        coords.push(self.to.1);
        assert(coords@ =~= old(coords)@ + coords_of(PathCommand::CurveTo(*self)));
        PackedCommand::CurveTo
    }
}

impl EllipticalArc {
    /// The arc with the given flags whose seven coordinates start at
    /// `coords[start]`.
    fn from_coords(large_arc: LargeArc, sweep: Sweep, coords: &Vec<i32>, start: usize) -> (r:
        EllipticalArc)
        requires
            start + 7 <= coords.len(),
        ensures
            r == unpack_arc(large_arc, sweep, coords@.skip(start as int)),
    {
        let r = (coords[start], coords[start + 1]);
        let x_axis_rotation = coords[start + 2];
        let from = (coords[start + 3], coords[start + 4]);
        let to = (coords[start + 5], coords[start + 6]);
        EllipticalArc { r, x_axis_rotation, large_arc, sweep, from, to }
    }

    /// Appends the arc's coordinates and returns its tag.
    fn to_packed_and_coords(&self, coords: &mut Vec<i32>) -> (r: PackedCommand)
        ensures
            r == packed_of(PathCommand::Arc(*self)),
            final(coords)@ == old(coords)@ + coords_of(PathCommand::Arc(*self)),
    {
        coords.push(self.r.0);
        coords.push(self.r.1);
        coords.push(self.x_axis_rotation);
        coords.push(self.from.0);
        coords.push(self.from.1);
        coords.push(self.to.0);
        coords.push(self.to.1);
        assert(coords@ =~= old(coords)@ + coords_of(PathCommand::Arc(*self)));
        match (self.large_arc, self.sweep) {
            (LargeArc(false), Sweep::Negative) => PackedCommand::ArcSmallNegative,
            (LargeArc(false), Sweep::Positive) => PackedCommand::ArcSmallPositive,
            (LargeArc(true), Sweep::Negative) => PackedCommand::ArcLargeNegative,
            (LargeArc(true), Sweep::Positive) => PackedCommand::ArcLargePositive,
        }
    }
}

impl PathCommand {
    /// The number of coordinate values that this command takes in a `Path`.
    pub fn num_coordinates(&self) -> (r: usize)
        ensures
            r == tag_arity(packed_of(*self)),
            r == coords_of(*self).len(),
    {
        match *self {
            PathCommand::MoveTo(..) => 2,
            PathCommand::LineTo(..) => 2,
            PathCommand::CurveTo(_) => 6,
            PathCommand::Arc(_) => {
                proof {
                    lemma_unpack_command(*self, seq![]);
                }
                7
            },
            PathCommand::ClosePath => 0,
        }
    }

    /// Appends the command's coordinates and returns its tag.
    fn to_packed(&self, coords: &mut Vec<i32>) -> (r: PackedCommand)
        ensures
            r == packed_of(*self),
            final(coords)@ == old(coords)@ + coords_of(*self),
    {
        match *self {
            PathCommand::MoveTo(x, y) => {
                coords.push(x);
                coords.push(y);
                assert(coords@ =~= old(coords)@ + coords_of(*self));
                PackedCommand::MoveTo
            },
            PathCommand::LineTo(x, y) => {
                coords.push(x);
                coords.push(y);
                assert(coords@ =~= old(coords)@ + coords_of(*self));
                PackedCommand::LineTo
            },
            PathCommand::CurveTo(ref c) => c.to_packed_and_coords(coords),
            PathCommand::Arc(ref a) => a.to_packed_and_coords(coords),
            PathCommand::ClosePath => {
                assert(coords@ =~= old(coords)@ + coords_of(*self));
                PackedCommand::ClosePath
            },
        }
    }

    /// The command with tag `packed` whose coordinates start at
    /// `coords[start]`.
    fn from_packed(packed: &PackedCommand, coords: &Vec<i32>, start: usize) -> (r: PathCommand)
        requires
            start + tag_arity(*packed) <= coords.len(),
        ensures
            r == unpack(*packed, coords@.skip(start as int)),
    {
        match *packed {
            PackedCommand::MoveTo => {
                let x = coords[start];
                let y = coords[start + 1];
                PathCommand::MoveTo(x, y)
            },
            PackedCommand::LineTo => {
                let x = coords[start];
                let y = coords[start + 1];
                PathCommand::LineTo(x, y)
            },
            PackedCommand::CurveTo => PathCommand::CurveTo(
                CubicBezierCurve::from_coords(coords, start),
            ),
            PackedCommand::ClosePath => PathCommand::ClosePath,
            PackedCommand::ArcSmallNegative => PathCommand::Arc(
                EllipticalArc::from_coords(LargeArc(false), Sweep::Negative, coords, start),
            ),
            PackedCommand::ArcSmallPositive => PathCommand::Arc(
                EllipticalArc::from_coords(LargeArc(false), Sweep::Positive, coords, start),
            ),
            PackedCommand::ArcLargeNegative => PathCommand::Arc(
                EllipticalArc::from_coords(LargeArc(true), Sweep::Negative, coords, start),
            ),
            PackedCommand::ArcLargePositive => PathCommand::Arc(
                EllipticalArc::from_coords(LargeArc(true), Sweep::Positive, coords, start),
            ),
        }
    }
}

/// Constructs a path out of commands.
///
/// When you are finished constructing a path builder, turn it into
/// a `Path` with `into_path`.
pub struct PathBuilder {
    path_commands: CommandList,
}

impl View for PathBuilder {
    type V = Seq<PathCommand>;

    closed spec fn view(&self) -> Seq<PathCommand> {
        held_commands(self.path_commands)
    }
}

/// An immutable path with a compact representation: a dense array of
/// command tags and a linear list of the coordinates of each command.
pub struct Path {
    commands: Vec<PackedCommand>,
    coords: Vec<i32>,
}

impl Path {
    #[verifier::type_invariant]
    spec fn inv(&self) -> bool {
        self.coords@.len() == total_arity(self.commands@)
    }
}

impl View for Path {
    type V = Seq<PathCommand>;

    /// The commands that the packed arrays stand for.
    closed spec fn view(&self) -> Seq<PathCommand> {
        unpack_all(self.commands@, self.coords@)
    }
}

impl Default for PathBuilder {
    /// A builder with no commands.
    fn default() -> (r: PathBuilder)
        ensures
            r@ == Seq::<PathCommand>::empty(),
    {
        PathBuilder::new()
    }
}

impl PathBuilder {
    /// A builder with no commands.
    pub fn new() -> (r: PathBuilder)
        ensures
            r@ == Seq::<PathCommand>::empty(),
    {
        PathBuilder { path_commands: commands_new() }
    }

    /// Finishes the builder into a packed path holding the same commands.
    pub fn into_path(self) -> (r: Path)
        ensures
            r@ == self@,
    {
        let ghost cmds = self@;
        let num_commands = commands_len(&self.path_commands);
        let mut packed_commands: Vec<PackedCommand> = Vec::new();
        let mut coords: Vec<i32> = Vec::new();
        let mut k: usize = 0;
        while k < num_commands
            invariant
                num_commands == cmds.len(),
                cmds == held_commands(self.path_commands),
                k <= num_commands,
                packed_commands@ == packed_tags(cmds.take(k as int)),
                coords@ == packed_coords(cmds.take(k as int)),
            decreases num_commands - k,
        {
            let c = commands_get(&self.path_commands, k);
            let tag = c.to_packed(&mut coords);
            packed_commands.push(tag);
            proof {
                assert(cmds.take(k + 1) =~= cmds.take(k as int).push(c));
                lemma_packed_coords_push(cmds.take(k as int), c);
                assert(packed_commands@ =~= packed_tags(cmds.take(k + 1)));
            }
            k += 1;
        }
        proof {
            assert(cmds.take(k as int) =~= cmds);
            lemma_packed_round_trip(cmds);
        }
        Path { commands: packed_commands, coords }
    }

    /// Starts a new subpath at `(x, y)`.
    pub fn move_to(&mut self, x: i32, y: i32)
        ensures
            final(self)@ == old(self)@.push(PathCommand::MoveTo(x, y)),
    {
        commands_push(&mut self.path_commands, PathCommand::MoveTo(x, y));
    }

    /// Draws a straight line to `(x, y)`.
    pub fn line_to(&mut self, x: i32, y: i32)
        ensures
            final(self)@ == old(self)@.push(PathCommand::LineTo(x, y)),
    {
        commands_push(&mut self.path_commands, PathCommand::LineTo(x, y));
    }

    /// Draws a cubic Bézier curve with control points `(x2, y2)` and
    /// `(x3, y3)`, ending at `(x4, y4)`.
    pub fn curve_to(&mut self, x2: i32, y2: i32, x3: i32, y3: i32, x4: i32, y4: i32)
        ensures
            final(self)@ == old(self)@.push(
                PathCommand::CurveTo(CubicBezierCurve { pt1: (x2, y2), pt2: (x3, y3), to: (x4, y4) }),
            ),
    {
        let curve = CubicBezierCurve { pt1: (x2, y2), pt2: (x3, y3), to: (x4, y4) };
        commands_push(&mut self.path_commands, PathCommand::CurveTo(curve));
    }

    /// Draws an elliptical arc from `(x1, y1)` to `(x2, y2)`.
    pub fn arc(
        &mut self,
        x1: i32,
        y1: i32,
        rx: i32,
        ry: i32,
        x_axis_rotation: i32,
        large_arc: LargeArc,
        sweep: Sweep,
        x2: i32,
        y2: i32,
    )
        ensures
            final(self)@ == old(self)@.push(
                PathCommand::Arc(
                    EllipticalArc {
                        r: (rx, ry),
                        x_axis_rotation,
                        large_arc,
                        sweep,
                        from: (x1, y1),
                        to: (x2, y2),
                    },
                ),
            ),
    {
        let arc = EllipticalArc {
            r: (rx, ry),
            x_axis_rotation,
            large_arc,
            sweep,
            from: (x1, y1),
            to: (x2, y2),
        };
        commands_push(&mut self.path_commands, PathCommand::Arc(arc));
    }

    /// Closes the current subpath.
    pub fn close_path(&mut self)
        ensures
            final(self)@ == old(self)@.push(PathCommand::ClosePath),
    {
        commands_push(&mut self.path_commands, PathCommand::ClosePath);
    }
}

impl Path {
    /// The path's commands, in order, rebuilt from the packed arrays.
    pub fn iter(&self) -> (r: Vec<PathCommand>)
        ensures
            r@ == self@,
    {
        proof {
            use_type_invariant(self);
        }
        let ghost tags = self.commands@;
        let ghost coords = self.coords@;
        let mut out: Vec<PathCommand> = Vec::new();
        let mut k: usize = 0;
        let mut offset: usize = 0;
        assert(tags.skip(0) =~= tags);
        assert(coords.skip(0) =~= coords);
        assert(out@ + unpack_all(tags, coords) =~= unpack_all(tags, coords));
        while k < self.commands.len()
            invariant
                tags == self.commands@,
                coords == self.coords@,
                k <= tags.len(),
                offset + total_arity(tags.skip(k as int)) == self.coords.len(),
                out@ + unpack_all(tags.skip(k as int), coords.skip(offset as int)) == unpack_all(
                    tags,
                    coords,
                ),
            decreases tags.len() - k,
        {
            let ghost rest = tags.skip(k as int);
            assert(rest[0] == tags[k as int]);
            assert(rest.drop_first() =~= tags.skip(k + 1));
            assert(total_arity(rest) == tag_arity(rest[0]) + total_arity(tags.skip(k + 1)));
            let c = PathCommand::from_packed(&self.commands[k], &self.coords, offset);
            let n = c.num_coordinates();
            proof {
                lemma_arity_of_unpack(tags[k as int], coords.skip(offset as int));
                assert(coords.skip(offset as int).skip(n as int) =~= coords.skip(offset + n));
                assert(out@.push(c) + unpack_all(tags.skip(k + 1), coords.skip(offset + n))
                    =~= out@ + unpack_all(rest, coords.skip(offset as int)));
            }
            out.push(c);
            offset += n;
            k += 1;
        }
        proof {
            assert(tags.skip(k as int) =~= seq![]);
            assert(out@ + seq![] =~= out@);
        }
        out
    }

    /// Whether the path has no commands.
    pub fn is_empty(&self) -> (r: bool)
        ensures
            r == (self@.len() == 0),
    {
        proof {
            lemma_unpack_all_len(self.commands@, self.coords@);
        }
        self.commands.len() == 0
    }
}

proof fn lemma_arity_of_unpack(t: PackedCommand, s: Seq<i32>)
    ensures
        tag_arity(packed_of(unpack(t, s))) == tag_arity(t),
{
}

proof fn lemma_unpack_all_len(tags: Seq<PackedCommand>, coords: Seq<i32>)
    ensures
        unpack_all(tags, coords).len() == tags.len(),
    decreases tags.len(),
{
    if tags.len() > 0 {
        lemma_unpack_all_len(tags.drop_first(), coords.skip(tag_arity(tags[0]) as int));
    }
}

/// How an arc is drawn when its endpoints or radii leave no ellipse to fit.
#[derive(Clone, Copy, Debug, PartialEq, Eq, Structural)]
pub enum ArcDegeneracy {
    /// The endpoints coincide: the arc is left out.
    Omit,
    /// A radius is zero: the arc is a straight line to its end.
    LineTo,
}

/// The degenerate case that an arc falls under, if any.
pub open spec fn spec_arc_degeneracy(a: EllipticalArc) -> Option<ArcDegeneracy> {
    if a.from == a.to {
        Some(ArcDegeneracy::Omit)
    } else if a.r.0 == 0 || a.r.1 == 0 {
        Some(ArcDegeneracy::LineTo)
    } else {
        None
    }
}

impl EllipticalArc {
    /// The first checks of the conversion to center form: coincident
    /// endpoints omit the arc; otherwise a zero radius, the only integer
    /// radius whose square is below the machine epsilon, makes it a line.
    pub fn degeneracy(&self) -> (r: Option<ArcDegeneracy>)
        ensures
            r == spec_arc_degeneracy(*self),
            self.from == self.to ==> r == Some(ArcDegeneracy::Omit),
            self.from != self.to && (self.r.0 == 0 || self.r.1 == 0) ==> r == Some(
                ArcDegeneracy::LineTo,
            ),
    {
        if self.from.0 == self.to.0 && self.from.1 == self.to.1 {
            Some(ArcDegeneracy::Omit)
        } else if self.r.0 == 0 || self.r.1 == 0 {
            Some(ArcDegeneracy::LineTo)
        } else {
            None
        }
    }
}

} // verus!
