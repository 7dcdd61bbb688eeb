use vstd::prelude::*;

verus! {

/// A scalar coordinate value, carried as an opaque 32-bit encoding.
///
/// This crate never computes with scalar values: it stores them, moves them
/// and compares them for identity. The drawing layer that rasterizes a path
/// decides how the 32 bits encode a coordinate.
#[derive(Copy, Clone, PartialEq, Eq, Structural, Debug)]
pub struct Scalar {
    pub bits: u32,
}

/// A point in the plane, two scalar coordinates.
#[derive(Copy, Clone, PartialEq, Eq, Structural, Debug)]
pub struct rq_point {
    pub x: Scalar,
    pub y: Scalar,
}

/// One drawing command of a path.
///
/// `Arc` keeps the circular-arc parameters (center, radius, start angle and
/// sweep angle, angles in radians) unflattened; the drawing layer lowers it
/// to curves when the path is rasterized.
#[derive(Copy, Clone, PartialEq, Eq, Structural, Debug)]
pub enum PathCmd {
    MoveTo(rq_point),
    LineTo(rq_point),
    QuadTo(rq_point, rq_point),
    CubicTo(rq_point, rq_point, rq_point),
    Arc(rq_point, Scalar, Scalar, Scalar),
    Close,
}

/// An immutable, finished sequence of path commands.
///
/// A path is produced by consuming an `rq_path_builder`; it is never mutated
/// afterwards. Cloning one (`duplicate`) yields independent storage with the
/// same command sequence.
#[derive(Clone, Debug)]
pub struct rq_path {
    pub cmds: Vec<PathCmd>,
}

impl View for rq_path {
    type V = Seq<PathCmd>;

    open spec fn view(&self) -> Seq<PathCmd> {
        self.cmds@
    }
}

impl rq_path {
    /// The commands of the path, in order.
    pub fn commands(&self) -> (r: &Vec<PathCmd>)
        ensures
            r@ == self@,
    {
        &self.cmds
    }

    /// An independent copy of the path: same commands, separate storage.
    pub fn duplicate(&self) -> (r: rq_path)
        ensures
            r@ == self@,
    {
        let n = self.cmds.len();
        let mut out: Vec<PathCmd> = Vec::new();
        let mut i: usize = 0;
        while i < n
            invariant
                n == self.cmds.len(),
                i <= n,
                out@ == self.cmds@.take(i as int),
            decreases n - i,
        {
            out.push(self.cmds[i]);
            proof {
                assert(out@ =~= self.cmds@.take(i + 1));
            }
            i = i + 1;
        }
        proof {
            assert(out@ =~= self.cmds@);
        }
        rq_path { cmds: out }
    }
}

/// A mutable builder that accumulates path commands and tracks whether a
/// current point exists (that is, whether a subpath has been started).
///
/// Commands that need a current point (`line_to`, `quad_to`, `cubic_to`,
/// `arc`, `close`) are ignored while none exists; `move_to` establishes one.
/// After `close` the current point is the start of the closed subpath, so a
/// following command continues from there. `finish` consumes the builder and
/// yields the immutable path.
pub struct rq_path_builder {
    cmds: Vec<PathCmd>,
    has_current: bool,
}

impl View for rq_path_builder {
    type V = Seq<PathCmd>;

    closed spec fn view(&self) -> Seq<PathCmd> {
        self.cmds@
    }
}

impl rq_path_builder {
    /// Whether a current point exists: some subpath has been started.
    pub closed spec fn spec_has_current(&self) -> bool {
        self.has_current
    }

    pub fn new() -> (b: rq_path_builder)
        ensures
            b@ == Seq::<PathCmd>::empty(),
            !b.spec_has_current(),
    {
        rq_path_builder { cmds: Vec::new(), has_current: false }
    }

    /// Starts a new subpath at `p` and makes `p` the current point.
    pub fn move_to(&mut self, p: rq_point)
        ensures
            final(self)@ == old(self)@.push(PathCmd::MoveTo(p)),
            final(self).spec_has_current(),
    {
        self.cmds.push(PathCmd::MoveTo(p));
        self.has_current = true;
    }

    /// Adds a line from the current point to `p`; ignored without one.
    pub fn line_to(&mut self, p: rq_point)
        ensures
            old(self).spec_has_current() ==> final(self)@ == old(self)@.push(PathCmd::LineTo(p)),
            !old(self).spec_has_current() ==> final(self)@ == old(self)@,
            final(self).spec_has_current() == old(self).spec_has_current(),
    {
        if self.has_current {
            self.cmds.push(PathCmd::LineTo(p));
        }
    }

    /// Adds a quadratic Bezier with control point `c` ending at `p`;
    /// ignored without a current point.
    pub fn quad_to(&mut self, c: rq_point, p: rq_point)
        ensures
            old(self).spec_has_current() ==> final(self)@ == old(self)@.push(PathCmd::QuadTo(c, p)),
            !old(self).spec_has_current() ==> final(self)@ == old(self)@,
            final(self).spec_has_current() == old(self).spec_has_current(),
    {
        if self.has_current {
            self.cmds.push(PathCmd::QuadTo(c, p));
        }
    }

    /// Adds a cubic Bezier with control points `c1`, `c2` ending at `p`;
    /// ignored without a current point.
    pub fn cubic_to(&mut self, c1: rq_point, c2: rq_point, p: rq_point)
        ensures
            old(self).spec_has_current() ==> final(self)@ == old(self)@.push(
                PathCmd::CubicTo(c1, c2, p),
            ),
            !old(self).spec_has_current() ==> final(self)@ == old(self)@,
            final(self).spec_has_current() == old(self).spec_has_current(),
    {
        if self.has_current {
            self.cmds.push(PathCmd::CubicTo(c1, c2, p));
        }
    }

    /// Adds a circular arc with center `c`, radius `radius`, starting at
    /// `start_angle` and sweeping by `sweep_angle` (angles in radians);
    /// ignored without a current point.
    pub fn arc(&mut self, c: rq_point, radius: Scalar, start_angle: Scalar, sweep_angle: Scalar)
        ensures
            old(self).spec_has_current() ==> final(self)@ == old(self)@.push(
                PathCmd::Arc(c, radius, start_angle, sweep_angle),
            ),
            !old(self).spec_has_current() ==> final(self)@ == old(self)@,
            final(self).spec_has_current() == old(self).spec_has_current(),
    {
        if self.has_current {
            self.cmds.push(PathCmd::Arc(c, radius, start_angle, sweep_angle));
        }
    }

    /// Closes the current subpath, connecting the current point back to the
    /// subpath's start; ignored without a current point. The start of the
    /// closed subpath remains the current point.
    pub fn close(&mut self)
        ensures
            old(self).spec_has_current() ==> final(self)@ == old(self)@.push(PathCmd::Close),
            !old(self).spec_has_current() ==> final(self)@ == old(self)@,
            final(self).spec_has_current() == old(self).spec_has_current(),
    {
        if self.has_current {
            self.cmds.push(PathCmd::Close);
        }
    }

    /// Consumes the builder and yields the finished, immutable path holding
    /// exactly the accumulated commands.
    pub fn finish(self) -> (p: rq_path)
        ensures
            p@ == self@,
    {
        rq_path { cmds: self.cmds }
    }
}

/// The command sequence of an axis-aligned rectangle with opposite corners
/// `(x0, y0)` and `(x1, y1)`.
pub open spec fn rect_cmds_spec(x0: Scalar, y0: Scalar, x1: Scalar, y1: Scalar) -> Seq<PathCmd> {
    seq![
        PathCmd::MoveTo(rq_point { x: x0, y: y0 }),
        PathCmd::LineTo(rq_point { x: x1, y: y0 }),
        PathCmd::LineTo(rq_point { x: x1, y: y1 }),
        PathCmd::LineTo(rq_point { x: x0, y: y1 }),
        PathCmd::Close,
    ]
}

/// Builds the closed four-sided path of the axis-aligned rectangle with
/// opposite corners `(x0, y0)` and `(x1, y1)`, traversed from `(x0, y0)`
/// through `(x1, y0)` and `(x1, y1)` to `(x0, y1)`.
pub fn rect_path(x0: Scalar, y0: Scalar, x1: Scalar, y1: Scalar) -> (p: rq_path)
    ensures
        p@ == rect_cmds_spec(x0, y0, x1, y1),
{
    let mut b = rq_path_builder::new();
    b.move_to(rq_point { x: x0, y: y0 });
    b.line_to(rq_point { x: x1, y: y0 });
    b.line_to(rq_point { x: x1, y: y1 });
    b.line_to(rq_point { x: x0, y: y1 });
    b.close();
    let p = b.finish();
    proof {
        assert(p@ =~= rect_cmds_spec(x0, y0, x1, y1));
    }
    p
}

} // verus!
