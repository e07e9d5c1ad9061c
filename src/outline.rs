use vstd::prelude::*;

use crate::transform::{AffineTransform, GridPoint, Point, TransformModel, apply_fits, apply_model, grid_model};

verus! {

/// One command of a glyph outline, in font units on the grid.
#[derive(Clone, Copy, PartialEq, Eq, Debug, Structural)]
pub enum OutlineCommand {
    MoveTo(GridPoint),
    LineTo(GridPoint),
    /// A quadratic segment: control point, then end point.
    QuadTo(GridPoint, GridPoint),
    /// A cubic segment: first control point, second control point, end point.
    CurveTo(GridPoint, GridPoint, GridPoint),
    Close,
}

/// One command of a filled vector path, in canvas coordinates.
#[derive(Clone, Copy, PartialEq, Eq, Debug, Structural)]
pub enum PathCommand {
    MoveTo(Point),
    LineTo(Point),
    CubicTo { to: Point, ctrl_a: Point, ctrl_b: Point },
    Close,
}

/// A finished filled path.
#[derive(Clone, Debug)]
pub struct VectorPath {
    pub commands: Vec<PathCommand>,
}

/// Whether every point of `c` can be mapped through `t`.
pub open spec fn command_fits(t: TransformModel, c: OutlineCommand) -> bool {
    match c {
        OutlineCommand::MoveTo(p) => apply_fits(t, grid_model(p)),
        OutlineCommand::LineTo(p) => apply_fits(t, grid_model(p)),
        OutlineCommand::QuadTo(c1, p) => apply_fits(t, grid_model(c1)) && apply_fits(t, grid_model(p)),
        OutlineCommand::CurveTo(c1, c2, p) => apply_fits(t, grid_model(c1)) && apply_fits(t, grid_model(c2)) && apply_fits(t, grid_model(p)),
        OutlineCommand::Close => true,
    }
}

/// `r` is the canvas command for the outline command `c` under `t`. A quadratic
/// segment becomes a cubic whose two control points are both the mapped
/// quadratic control point.
pub open spec fn command_maps(t: TransformModel, c: OutlineCommand, r: PathCommand) -> bool {
    match c {
        OutlineCommand::MoveTo(p) => r matches PathCommand::MoveTo(q) && q@ == apply_model(t, grid_model(p)),
        OutlineCommand::LineTo(p) => r matches PathCommand::LineTo(q) && q@ == apply_model(t, grid_model(p)),
        OutlineCommand::QuadTo(c1, p) => r matches PathCommand::CubicTo { to, ctrl_a, ctrl_b }
            && to@ == apply_model(t, grid_model(p)) && ctrl_a@ == apply_model(t, grid_model(c1)) && ctrl_b@
            == apply_model(t, grid_model(c1)),
        OutlineCommand::CurveTo(c1, c2, p) => r matches PathCommand::CubicTo { to, ctrl_a, ctrl_b }
            && to@ == apply_model(t, grid_model(p)) && ctrl_a@ == apply_model(t, grid_model(c1)) && ctrl_b@
            == apply_model(t, grid_model(c2)),
        OutlineCommand::Close => r matches PathCommand::Close,
    }
}

pub open spec fn outline_fits(t: TransformModel, cmds: Seq<OutlineCommand>) -> bool {
    forall|i: int| 0 <= i < cmds.len() ==> #[trigger] command_fits(t, cmds[i])
}

/// `out` is `cmds` mapped command by command through `t`.
pub open spec fn outline_maps(
    t: TransformModel,
    cmds: Seq<OutlineCommand>,
    out: Seq<PathCommand>,
) -> bool {
    out.len() == cmds.len() && forall|i: int|
        0 <= i < cmds.len() ==> #[trigger] command_maps(t, cmds[i], out[i])
}

/// Builds one glyph's path: every outline command it is fed is mapped through
/// the glyph's font-to-canvas transform and appended. A point that cannot be
/// computed marks the path as failed.
pub struct GlyphPathBuilder {
    open_path: Vec<PathCommand>,
    font_to_canvas: AffineTransform,
    failed: bool,
}

impl GlyphPathBuilder {
    pub closed spec fn commands(&self) -> Seq<PathCommand> {
        self.open_path@
    }

    pub closed spec fn transform(&self) -> TransformModel {
        self.font_to_canvas@
    }

    pub closed spec fn failed(&self) -> bool {
        self.failed
    }

    /// `next` is `self` after it has been fed `cmd`.
    pub open spec fn fed(self, next: Self, cmd: OutlineCommand) -> bool {
        &&& next.transform() == self.transform()
        &&& next.failed() == (self.failed() || !command_fits(self.transform(), cmd))
        &&& if command_fits(self.transform(), cmd) {
            &&& next.commands().len() == self.commands().len() + 1
            &&& next.commands().drop_last() == self.commands()
            &&& command_maps(self.transform(), cmd, next.commands().last())
        } else {
            next.commands() == self.commands()
        }
    }

    pub fn new(font_to_canvas: AffineTransform) -> (r: GlyphPathBuilder)
        ensures
            r.commands() == Seq::<PathCommand>::empty(),
            r.transform() == font_to_canvas@,
            !r.failed(),
    {
        GlyphPathBuilder { open_path: Vec::new(), font_to_canvas, failed: false }
    }

    fn push(&mut self, cmd: PathCommand)
        ensures
            final(self).commands() == old(self).commands().push(cmd),
            final(self).commands().drop_last() == old(self).commands(),
            final(self).transform() == old(self).transform(),
            final(self).failed() == old(self).failed(),
    {
        self.open_path.push(cmd);
        assert(self.open_path@.drop_last() =~= old(self).open_path@);
    }

    pub fn move_to(&mut self, p: GridPoint)
        ensures
            old(self).fed(*final(self), OutlineCommand::MoveTo(p)),
    {
        match self.font_to_canvas.apply(p.to_point()) {
            Some(q) => self.push(PathCommand::MoveTo(q)),
            None => self.failed = true,
        }
    }

    pub fn line_to(&mut self, p: GridPoint)
        ensures
            old(self).fed(*final(self), OutlineCommand::LineTo(p)),
    {
        match self.font_to_canvas.apply(p.to_point()) {
            Some(q) => self.push(PathCommand::LineTo(q)),
            None => self.failed = true,
        }
    }

    /// A quadratic segment, raised to a cubic by doubling its control point.
    pub fn quad_to(&mut self, ctrl: GridPoint, p: GridPoint)
        ensures
            old(self).fed(*final(self), OutlineCommand::QuadTo(ctrl, p)),
    {
        match (self.font_to_canvas.apply(ctrl.to_point()), self.font_to_canvas.apply(p.to_point())) {
            (Some(c), Some(q)) => self.push(PathCommand::CubicTo { to: q, ctrl_a: c, ctrl_b: c }),
            _ => self.failed = true,
        }
    }

    pub fn curve_to(&mut self, ctrl_a: GridPoint, ctrl_b: GridPoint, p: GridPoint)
        ensures
            old(self).fed(*final(self), OutlineCommand::CurveTo(ctrl_a, ctrl_b, p)),
    {
        match (
            self.font_to_canvas.apply(ctrl_a.to_point()),
            self.font_to_canvas.apply(ctrl_b.to_point()),
            self.font_to_canvas.apply(p.to_point()),
        ) {
            (Some(a), Some(b), Some(q)) => self.push(
                PathCommand::CubicTo { to: q, ctrl_a: a, ctrl_b: b },
            ),
            _ => self.failed = true,
        }
    }

    pub fn close(&mut self)
        ensures
            old(self).fed(*final(self), OutlineCommand::Close),
    {
        self.push(PathCommand::Close);
    }

    pub fn feed(&mut self, cmd: OutlineCommand)
        ensures
            old(self).fed(*final(self), cmd),
    {
        match cmd {
            OutlineCommand::MoveTo(p) => self.move_to(p),
            OutlineCommand::LineTo(p) => self.line_to(p),
            OutlineCommand::QuadTo(c, p) => self.quad_to(c, p),
            OutlineCommand::CurveTo(a, b, p) => self.curve_to(a, b, p),
            OutlineCommand::Close => self.close(),
        }
    }

    /// The finished path, or `None` when a point could not be computed.
    pub fn build(self) -> (r: Option<VectorPath>)
        ensures
            r is Some <==> !self.failed(),
            r matches Some(path) ==> path.commands@ == self.commands(),
    {
        if self.failed {
            None
        } else {
            Some(VectorPath { commands: self.open_path })
        }
    }
}

/// The outline `cmds` in canvas coordinates under `t`, or `None` when one of
/// its points cannot be computed.
pub fn outline_to_path(t: &AffineTransform, cmds: &Vec<OutlineCommand>) -> (r: Option<VectorPath>)
    ensures
        r is Some <==> outline_fits(t@, cmds@),
        r matches Some(path) ==> outline_maps(t@, cmds@, path.commands@),
{
    let mut builder = GlyphPathBuilder::new(*t);
    let mut i: usize = 0;
    while i < cmds.len()
        invariant
            i <= cmds.len(),
            builder.transform() == t@,
            builder.failed() == !outline_fits(t@, cmds@.take(i as int)),
            !builder.failed() ==> outline_maps(t@, cmds@.take(i as int), builder.commands()),
        decreases cmds.len() - i,
    {
        let ghost before = builder;
        builder.feed(cmds[i]);
        proof {
            let done = cmds@.take(i as int);
            let next = cmds@.take(i + 1);
            assert(next.drop_last() == done);
            assert(next.last() == cmds@[i as int]);
            if !builder.failed() {
                assert(!before.failed());
                let out = builder.commands();
                assert forall|j: int| 0 <= j < next.len() implies #[trigger] command_maps(
                    t@,
                    next[j],
                    out[j],
                ) by {
                    if j < i {
                        assert(next[j] == done[j]);
                        assert(out[j] == before.commands()[j]);
                    }
                }
            }
            if outline_fits(t@, next) {
                assert forall|j: int| 0 <= j < done.len() implies #[trigger] command_fits(
                    t@,
                    done[j],
                ) by {
                    assert(done[j] == next[j]);
                }
                assert(command_fits(t@, next[i as int]));
            }
            if !outline_fits(t@, done) {
                let j = choose|j: int| 0 <= j < done.len() && !command_fits(t@, done[j]);
                assert(next[j] == done[j]);
            }
        }
        i = i + 1;
    }
    assert(cmds@.take(cmds.len() as int) == cmds@);
    builder.build()
}

} // verus!
