use vstd::prelude::*;

use crate::outline::{OutlineCommand, VectorPath, outline_fits, outline_maps, outline_to_path};
use crate::transform::{
    AffineTransform, GRID, GridPoint, Point, PointModel, Ratio, TransformModel, apply_fits,
    apply_model, bounded, compose_fits, compose_model, dot3, dot3_fits, grid_model,
    layout_to_canvas, layout_to_canvas_model, lemma_apply_bounded, lemma_apply_scaled,
    lemma_compose_bounded, lemma_compose_scaled, lemma_dot3_bounded,
    lemma_layout_to_canvas_scaled, lemma_mul_bound, scale_point,
};

verus! {

/// Grid of font matrix factors: a stored integer `n` stands for `n / FONT_GRID`.
pub const FONT_GRID: i128 = 0x100_0000;

/// Width, height and depth of a laid-out expression, in layout units on the grid.
#[derive(Clone, Copy, PartialEq, Eq, Debug, Structural)]
pub struct LayoutDimensions {
    pub width: i64,
    pub height: i64,
    pub depth: i64,
}

/// A font's scale correction from design units, on the font grid: `sx`
/// across, `sy` up.
#[derive(Clone, Copy, PartialEq, Eq, Debug, Structural)]
pub struct FontMatrix {
    pub sx: i64,
    pub sy: i64,
}

/// A color given to the color events, which this backend ignores.
#[derive(Clone, Copy, PartialEq, Eq, Debug, Structural)]
pub struct Rgba {
    pub r: u8,
    pub g: u8,
    pub b: u8,
    pub a: u8,
}

/// An axis-aligned filled rectangle on the canvas.
#[derive(Clone, Copy, PartialEq, Eq, Debug, Structural)]
pub struct Rect {
    pub origin: Point,
    pub width: Ratio,
    pub height: Ratio,
}

/// Glyph placement: scale both axes by `scale`, then move to `pos`.
pub open spec fn placement_model(pos: GridPoint, scale: int) -> TransformModel {
    TransformModel { a: scale, b: 0, c: 0, d: scale, tx: pos.x as int, ty: pos.y as int, w: GRID as int }
}

/// The font matrix correction `diag(sx, -sy)`: font outlines point up, the
/// canvas points down.
pub open spec fn font_matrix_model(fm: FontMatrix) -> TransformModel {
    TransformModel {
        a: fm.sx as int,
        b: 0,
        c: 0,
        d: -fm.sy,
        tx: 0,
        ty: 0,
        w: FONT_GRID as int,
    }
}

/// Font units to canvas: font matrix first, then placement, then layout to canvas.
pub open spec fn glyph_transform_model(
    l2c: TransformModel,
    pos: GridPoint,
    scale: int,
    fm: FontMatrix,
) -> TransformModel {
    compose_model(compose_model(l2c, placement_model(pos, scale)), font_matrix_model(fm))
}

/// Whether both compositions on the way to the glyph's transform can be computed.
pub open spec fn glyph_transform_fits(
    l2c: TransformModel,
    pos: GridPoint,
    scale: int,
    fm: FontMatrix,
) -> bool {
    &&& compose_fits(l2c, placement_model(pos, scale))
    &&& compose_fits(compose_model(l2c, placement_model(pos, scale)), font_matrix_model(fm))
}

/// Whether a glyph event yields a path; otherwise the glyph is skipped.
pub open spec fn glyph_emits(
    l2c: TransformModel,
    pos: GridPoint,
    scale: int,
    fm: FontMatrix,
    outline: Seq<OutlineCommand>,
) -> bool {
    glyph_transform_fits(l2c, pos, scale, fm) && outline_fits(
        glyph_transform_model(l2c, pos, scale, fm),
        outline,
    )
}

/// Whether the canvas rectangle of a rule can be computed.
pub open spec fn rule_fits(l2c: TransformModel, pos: GridPoint, width: int, height: int) -> bool {
    &&& apply_fits(l2c, grid_model(pos))
    &&& dot3_fits(width, l2c.a, 0, 0, 0, 0)
    &&& dot3_fits(GRID as int, l2c.w, 0, 0, 0, 0)
    &&& dot3_fits(height, l2c.d, 0, 0, 0, 0)
}

/// `r` is the canvas rectangle of a rule: its origin is `pos` mapped through
/// `l2c`, its width and height are scaled by the horizontal and vertical scale
/// factors of `l2c`.
pub open spec fn rule_rect(l2c: TransformModel, pos: GridPoint, width: int, height: int, r: Rect) -> bool {
    &&& r.origin@ == apply_model(l2c, grid_model(pos))
    &&& r.width.num == width * l2c.a
    &&& r.width.den == GRID * l2c.w
    &&& r.height.num == height * l2c.d
    &&& r.height.den == GRID * l2c.w
}

fn placement(pos: GridPoint, scale: i64) -> (r: AffineTransform)
    ensures
        r@ == placement_model(pos, scale as int),
{
    let s = scale as i128;
    AffineTransform { a: s, b: 0, c: 0, d: s, tx: pos.x as i128, ty: pos.y as i128, w: GRID }
}

impl FontMatrix {
    /// The correction as a transform, `diag(sx, -sy)`.
    pub fn transform(&self) -> (r: AffineTransform)
        ensures
            r@ == font_matrix_model(*self),
    {
        AffineTransform {
            a: self.sx as i128,
            b: 0,
            c: 0,
            d: -(self.sy as i128),
            tx: 0,
            ty: 0,
            w: FONT_GRID,
        }
    }
}

/// The transform from font units to canvas for a glyph placed at `pos` with
/// `scale`, or `None` when a composition on the way cannot be computed.
pub fn glyph_transform(l2c: &AffineTransform, pos: GridPoint, scale: i64, fm: FontMatrix) -> (r:
    Option<AffineTransform>)
    ensures
        r is Some <==> glyph_transform_fits(l2c@, pos, scale as int, fm),
        r matches Some(t) ==> t@ == glyph_transform_model(l2c@, pos, scale as int, fm),
{
    match l2c.compose(&placement(pos, scale)) {
        Some(lp) => lp.compose(&fm.transform()),
        None => None,
    }
}

/// The canvas rectangle of a rule, or `None` when it cannot be computed.
pub fn rule_to_rect(l2c: &AffineTransform, pos: GridPoint, width: i64, height: i64) -> (r: Option<
    Rect,
>)
    ensures
        r is Some <==> rule_fits(l2c@, pos, width as int, height as int),
        r matches Some(rect) ==> rule_rect(l2c@, pos, width as int, height as int, rect),
{
    let origin = l2c.apply(pos.to_point());
    let wn = dot3(width as i128, l2c.a, 0, 0, 0, 0);
    let den = dot3(GRID, l2c.w, 0, 0, 0, 0);
    let hn = dot3(height as i128, l2c.d, 0, 0, 0, 0);
    match (origin, wn, den, hn) {
        (Some(origin), Some(wn), Some(den), Some(hn)) => Some(
            Rect { origin, width: Ratio { num: wn, den }, height: Ratio { num: hn, den } },
        ),
        _ => None,
    }
}

/// Collects the canvas geometry of one rendering pass: a filled path per glyph
/// and a rectangle per rule, each in the order the events came.
pub struct GPUIBackend {
    paths: Vec<VectorPath>,
    rects: Vec<Rect>,
    layout_to_canvas: AffineTransform,
}

impl GPUIBackend {
    pub closed spec fn paths(&self) -> Seq<VectorPath> {
        self.paths@
    }

    pub closed spec fn rects(&self) -> Seq<Rect> {
        self.rects@
    }

    pub closed spec fn transform(&self) -> TransformModel {
        self.layout_to_canvas@
    }

    /// An empty backend for a layout of the given size drawn at device scale
    /// `scale / GRID`.
    pub fn new(dims: LayoutDimensions, scale: i64) -> (r: GPUIBackend)
        ensures
            r.paths() == Seq::<VectorPath>::empty(),
            r.rects() == Seq::<Rect>::empty(),
            r.transform() == layout_to_canvas_model(dims.height as int, scale as int),
    {
        GPUIBackend {
            paths: Vec::new(),
            rects: Vec::new(),
            layout_to_canvas: layout_to_canvas(dims.height, scale),
        }
    }

    /// Draws a glyph whose outline is `outline`, in font units, placed at
    /// `pos` with `scale`. A glyph whose path cannot be built is skipped.
    pub fn symbol(&mut self, pos: GridPoint, outline: &Vec<OutlineCommand>, scale: i64, fm: FontMatrix)
        ensures
            final(self).transform() == old(self).transform(),
            final(self).rects() == old(self).rects(),
            if glyph_emits(old(self).transform(), pos, scale as int, fm, outline@) {
                &&& final(self).paths().len() == old(self).paths().len() + 1
                &&& final(self).paths().drop_last() == old(self).paths()
                &&& outline_maps(
                    glyph_transform_model(old(self).transform(), pos, scale as int, fm),
                    outline@,
                    final(self).paths().last().commands@,
                )
            } else {
                final(self).paths() == old(self).paths()
            },
    {
        if let Some(t) = glyph_transform(&self.layout_to_canvas, pos, scale, fm) {
            if let Some(path) = outline_to_path(&t, outline) {
                self.paths.push(path);
                assert(self.paths@.drop_last() =~= old(self).paths@);
            }
        }
    }

    /// Draws a rule: a filled rectangle of `width` by `height` at `pos`. A rule
    /// whose rectangle cannot be computed is skipped.
    pub fn rule(&mut self, pos: GridPoint, width: i64, height: i64)
        ensures
            final(self).transform() == old(self).transform(),
            final(self).paths() == old(self).paths(),
            if rule_fits(old(self).transform(), pos, width as int, height as int) {
                &&& final(self).rects().len() == old(self).rects().len() + 1
                &&& final(self).rects().drop_last() == old(self).rects()
                &&& rule_rect(
                    old(self).transform(),
                    pos,
                    width as int,
                    height as int,
                    final(self).rects().last(),
                )
            } else {
                final(self).rects() == old(self).rects()
            },
    {
        if let Some(rect) = rule_to_rect(&self.layout_to_canvas, pos, width, height) {
            self.rects.push(rect);
            assert(self.rects@.drop_last() =~= old(self).rects@);
        }
    }

    /// Bounding-box hints are not used.
    pub fn bbox(&mut self, pos: GridPoint, width: i64, height: i64)
        ensures
            *final(self) == *old(self),
    {
    }

    /// Colors are not applied: every path is one uncolored fill.
    pub fn begin_color(&mut self, color: Rgba)
        ensures
            *final(self) == *old(self),
    {
    }

    pub fn end_color(&mut self)
        ensures
            *final(self) == *old(self),
    {
    }

    /// The paths and rectangles collected so far, in event order.
    pub fn paths_and_rects(self) -> (r: (Vec<VectorPath>, Vec<Rect>))
        ensures
            r.0@ == self.paths(),
            r.1@ == self.rects(),
    {
        (self.paths, self.rects)
    }
}

/// A layout value (a position, a height, a width) of size at most 2^20.
pub open spec fn layout_value_in_range(v: int) -> bool {
    -0x10_0000_0000 <= v <= 0x10_0000_0000
}

pub open spec fn layout_point_in_range(p: GridPoint) -> bool {
    layout_value_in_range(p.x as int) && layout_value_in_range(p.y as int)
}

/// A device scale of size at most 16.
pub open spec fn device_scale_in_range(s: int) -> bool {
    -0x10_0000 <= s <= 0x10_0000
}

/// A glyph scale of size at most 1024.
pub open spec fn glyph_scale_in_range(scale: int) -> bool {
    -0x400_0000 <= scale <= 0x400_0000
}

/// Font matrix factors of size at most 1.
pub open spec fn font_matrix_in_range(fm: FontMatrix) -> bool {
    -0x100_0000 <= fm.sx <= 0x100_0000 && -0x100_0000 <= fm.sy <= 0x100_0000
}

/// An outline coordinate of size at most 2^16 design units.
pub open spec fn outline_point_in_range(p: GridPoint) -> bool {
    -0x1_0000_0000 <= p.x <= 0x1_0000_0000 && -0x1_0000_0000 <= p.y <= 0x1_0000_0000
}

pub open spec fn command_in_range(c: OutlineCommand) -> bool {
    match c {
        OutlineCommand::MoveTo(p) => outline_point_in_range(p),
        OutlineCommand::LineTo(p) => outline_point_in_range(p),
        OutlineCommand::QuadTo(c1, p) => outline_point_in_range(c1) && outline_point_in_range(p),
        OutlineCommand::CurveTo(c1, c2, p) => outline_point_in_range(c1) && outline_point_in_range(
            c2,
        ) && outline_point_in_range(p),
        OutlineCommand::Close => true,
    }
}

pub open spec fn outline_in_range(cmds: Seq<OutlineCommand>) -> bool {
    forall|i: int| 0 <= i < cmds.len() ==> #[trigger] command_in_range(cmds[i])
}

spec fn layout_to_canvas_bound() -> TransformModel {
    TransformModel {
        a: 0x10_0000_0000,
        b: 0,
        c: 0,
        d: 0x10_0000_0000,
        tx: 0,
        ty: 0x100_0000_0000_0000,
        w: 0x1_0000_0000,
    }
}

spec fn glyph_transform_bound() -> TransformModel {
    let placement = TransformModel {
        a: 0x400_0000,
        b: 0,
        c: 0,
        d: 0x400_0000,
        tx: 0x10_0000_0000,
        ty: 0x10_0000_0000,
        w: 0x1_0000,
    };
    let font = TransformModel {
        a: 0x100_0000,
        b: 0,
        c: 0,
        d: 0x100_0000,
        tx: 0,
        ty: 0,
        w: 0x100_0000,
    };
    compose_model(compose_model(layout_to_canvas_bound(), placement), font)
}

proof fn lemma_layout_to_canvas_in_range(h: int, s: int)
    requires
        layout_value_in_range(h),
        device_scale_in_range(s),
    ensures
        bounded(layout_to_canvas_model(h, s), layout_to_canvas_bound()),
{
    lemma_mul_bound(h, s, 0x10_0000_0000, 0x10_0000);
}

/// A glyph whose inputs are in range always yields its path: its transform
/// and every point of its outline can be computed.
pub proof fn lemma_glyph_in_range(
    h: int,
    s: int,
    pos: GridPoint,
    scale: int,
    fm: FontMatrix,
    outline: Seq<OutlineCommand>,
)
    requires
        layout_value_in_range(h),
        device_scale_in_range(s),
        layout_point_in_range(pos),
        glyph_scale_in_range(scale),
        font_matrix_in_range(fm),
        outline_in_range(outline),
    ensures
        glyph_emits(layout_to_canvas_model(h, s), pos, scale, fm, outline),
{
    let l2c = layout_to_canvas_model(h, s);
    let placement = TransformModel {
        a: 0x400_0000,
        b: 0,
        c: 0,
        d: 0x400_0000,
        tx: 0x10_0000_0000,
        ty: 0x10_0000_0000,
        w: 0x1_0000,
    };
    let font = TransformModel {
        a: 0x100_0000,
        b: 0,
        c: 0,
        d: 0x100_0000,
        tx: 0,
        ty: 0,
        w: 0x100_0000,
    };
    lemma_layout_to_canvas_in_range(h, s);
    lemma_compose_bounded(l2c, placement_model(pos, scale), layout_to_canvas_bound(), placement);
    let lp = compose_model(l2c, placement_model(pos, scale));
    lemma_compose_bounded(lp, font_matrix_model(fm), compose_model(layout_to_canvas_bound(), placement), font);
    let t = glyph_transform_model(l2c, pos, scale, fm);
    let mt = glyph_transform_bound();
    let mp = PointModel { x: 0x1_0000_0000, y: 0x1_0000_0000, w: 0x1_0000 };
    assert forall|i: int| 0 <= i < outline.len() implies #[trigger] crate::outline::command_fits(
        t,
        outline[i],
    ) by {
        assert(command_in_range(outline[i]));
        match outline[i] {
            OutlineCommand::MoveTo(p) => {
                lemma_apply_bounded(t, grid_model(p), mt, mp);
            },
            OutlineCommand::LineTo(p) => {
                lemma_apply_bounded(t, grid_model(p), mt, mp);
            },
            OutlineCommand::QuadTo(c1, p) => {
                lemma_apply_bounded(t, grid_model(c1), mt, mp);
                lemma_apply_bounded(t, grid_model(p), mt, mp);
            },
            OutlineCommand::CurveTo(c1, c2, p) => {
                lemma_apply_bounded(t, grid_model(c1), mt, mp);
                lemma_apply_bounded(t, grid_model(c2), mt, mp);
                lemma_apply_bounded(t, grid_model(p), mt, mp);
            },
            OutlineCommand::Close => {},
        }
    }
}

/// A rule whose inputs are in range always yields its rectangle.
pub proof fn lemma_rule_in_range(h: int, s: int, pos: GridPoint, width: int, height: int)
    requires
        layout_value_in_range(h),
        device_scale_in_range(s),
        layout_point_in_range(pos),
        layout_value_in_range(width),
        layout_value_in_range(height),
    ensures
        rule_fits(layout_to_canvas_model(h, s), pos, width, height),
{
    let l2c = layout_to_canvas_model(h, s);
    let m = layout_to_canvas_bound();
    lemma_layout_to_canvas_in_range(h, s);
    lemma_apply_bounded(
        l2c,
        grid_model(pos),
        m,
        PointModel { x: 0x10_0000_0000, y: 0x10_0000_0000, w: 0x1_0000 },
    );
    lemma_dot3_bounded(width, l2c.a, 0, 0, 0, 0, 0x10_0000_0000, m.a, 0, 0, 0, 0);
    lemma_dot3_bounded(GRID as int, l2c.w, 0, 0, 0, 0, GRID as int, m.w, 0, 0, 0, 0);
    lemma_dot3_bounded(height, l2c.d, 0, 0, 0, 0, 0x10_0000_0000, m.d, 0, 0, 0, 0);
}

/// Multiplying the device scale `s` by `kn / kd` (to `sk`) multiplies every
/// canvas point of every glyph by `kn / kd`: `kd` times the new image of an
/// outline point is `kn` times the old one, with the same denominator.
pub proof fn lemma_device_scale_glyph(
    h: int,
    s: int,
    sk: int,
    kn: int,
    kd: int,
    pos: GridPoint,
    scale: int,
    fm: FontMatrix,
    p: PointModel,
)
    requires
        sk * kd == s * kn,
    ensures
        scale_point(
            apply_model(glyph_transform_model(layout_to_canvas_model(h, sk), pos, scale, fm), p),
            kd,
            1,
        ) == scale_point(
            apply_model(glyph_transform_model(layout_to_canvas_model(h, s), pos, scale, fm), p),
            kn,
            1,
        ),
{
    let l = layout_to_canvas_model(h, s);
    let lk = layout_to_canvas_model(h, sk);
    let pl = placement_model(pos, scale);
    let f = font_matrix_model(fm);
    lemma_layout_to_canvas_scaled(h, s, sk, kn, kd);
    lemma_compose_scaled(lk, pl, kd, 1);
    lemma_compose_scaled(l, pl, kn, 1);
    lemma_compose_scaled(compose_model(lk, pl), f, kd, 1);
    lemma_compose_scaled(compose_model(l, pl), f, kn, 1);
    lemma_apply_scaled(glyph_transform_model(lk, pos, scale, fm), p, kd, 1);
    lemma_apply_scaled(glyph_transform_model(l, pos, scale, fm), p, kn, 1);
}

/// Multiplying the device scale `s` by `kn / kd` (to `sk`) multiplies the
/// origin, the width and the height of every rule's rectangle by `kn / kd`.
pub proof fn lemma_device_scale_rule(
    h: int,
    s: int,
    sk: int,
    kn: int,
    kd: int,
    pos: GridPoint,
    width: int,
    height: int,
    r: Rect,
    rk: Rect,
)
    requires
        sk * kd == s * kn,
        rule_rect(layout_to_canvas_model(h, s), pos, width, height, r),
        rule_rect(layout_to_canvas_model(h, sk), pos, width, height, rk),
    ensures
        scale_point(rk.origin@, kd, 1) == scale_point(r.origin@, kn, 1),
        kd * rk.width.num == kn * r.width.num,
        rk.width.den == r.width.den,
        kd * rk.height.num == kn * r.height.num,
        rk.height.den == r.height.den,
{
    let l = layout_to_canvas_model(h, s);
    let lk = layout_to_canvas_model(h, sk);
    lemma_layout_to_canvas_scaled(h, s, sk, kn, kd);
    lemma_apply_scaled(lk, grid_model(pos), kd, 1);
    lemma_apply_scaled(l, grid_model(pos), kn, 1);
    assert(kd * (width * lk.a) == kn * (width * l.a)) by (nonlinear_arith)
        requires
            kd * lk.a == kn * l.a,
    ;
    assert(kd * (height * lk.d) == kn * (height * l.d)) by (nonlinear_arith)
        requires
            kd * lk.d == kn * l.d,
    ;
}

} // verus!
