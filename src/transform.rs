use vstd::arithmetic::mul::{
    lemma_mul_is_associative, lemma_mul_is_distributive_add,
    lemma_mul_is_distributive_add_other_way,
};
use vstd::prelude::*;

verus! {

/// Grid of layout values and of font design units: a stored integer `n`
/// stands for `n / GRID`.
pub const GRID: i128 = 0x1_0000;

/// Whether an exact integer can be stored in an `i128`.
pub open spec fn fits(v: int) -> bool {
    i128::MIN <= v <= i128::MAX
}

/// Whether `a * x + b * y + c * z` can be computed product by product, then
/// sum by sum, in `i128`.
pub open spec fn dot3_fits(a: int, x: int, b: int, y: int, c: int, z: int) -> bool {
    &&& fits(a * x)
    &&& fits(b * y)
    &&& fits(c * z)
    &&& fits(a * x + b * y)
    &&& fits(a * x + b * y + c * z)
}

/// An exact fraction `num / den`; a well-formed one has a positive denominator.
#[derive(Clone, Copy, PartialEq, Eq, Debug, Structural)]
pub struct Ratio {
    pub num: i128,
    pub den: i128,
}

impl Ratio {
    pub open spec fn wf(self) -> bool {
        self.den > 0
    }
}

/// The integers a point stands for: `(x / w, y / w)`.
pub ghost struct PointModel {
    pub x: int,
    pub y: int,
    pub w: int,
}

/// A point in homogeneous form: it stands for `(x / w, y / w)`.
#[derive(Clone, Copy, PartialEq, Eq, Debug, Structural)]
pub struct Point {
    pub x: i128,
    pub y: i128,
    pub w: i128,
}

impl View for Point {
    type V = PointModel;

    open spec fn view(&self) -> PointModel {
        PointModel { x: self.x as int, y: self.y as int, w: self.w as int }
    }
}

impl Point {
    pub open spec fn wf(self) -> bool {
        self.w > 0
    }
}

/// A point on the grid: it stands for `(x / GRID, y / GRID)`.
#[derive(Clone, Copy, PartialEq, Eq, Debug, Structural)]
pub struct GridPoint {
    pub x: i64,
    pub y: i64,
}

pub open spec fn grid_model(p: GridPoint) -> PointModel {
    PointModel { x: p.x as int, y: p.y as int, w: GRID as int }
}

impl GridPoint {
    /// The same point in homogeneous form.
    pub fn to_point(self) -> (r: Point)
        ensures
            r@ == grid_model(self),
            r.wf(),
    {
        Point { x: self.x as i128, y: self.y as i128, w: GRID }
    }
}

/// The entries of an affine map `(x, y) -> ((a x + b y + tx) / w, (c x + d y + ty) / w)`.
pub ghost struct TransformModel {
    pub a: int,
    pub b: int,
    pub c: int,
    pub d: int,
    pub tx: int,
    pub ty: int,
    pub w: int,
}

/// Applies `t` to a homogeneous point: the 3x3 matrix of `t` times `(x, y, w)`.
pub open spec fn apply_model(t: TransformModel, p: PointModel) -> PointModel {
    PointModel {
        x: t.a * p.x + t.b * p.y + t.tx * p.w,
        y: t.c * p.x + t.d * p.y + t.ty * p.w,
        w: t.w * p.w,
    }
}

/// Whether `apply_model(t, p)` can be computed in `i128`.
pub open spec fn apply_fits(t: TransformModel, p: PointModel) -> bool {
    &&& dot3_fits(t.a, p.x, t.b, p.y, t.tx, p.w)
    &&& dot3_fits(t.c, p.x, t.d, p.y, t.ty, p.w)
    &&& dot3_fits(t.w, p.w, 0, 0, 0, 0)
}

/// The transform that applies `o` first and then `s`: the product of their matrices.
pub open spec fn compose_model(s: TransformModel, o: TransformModel) -> TransformModel {
    TransformModel {
        a: s.a * o.a + s.b * o.c,
        b: s.a * o.b + s.b * o.d,
        c: s.c * o.a + s.d * o.c,
        d: s.c * o.b + s.d * o.d,
        tx: s.a * o.tx + s.b * o.ty + s.tx * o.w,
        ty: s.c * o.tx + s.d * o.ty + s.ty * o.w,
        w: s.w * o.w,
    }
}

/// Whether `compose_model(s, o)` can be computed in `i128`.
pub open spec fn compose_fits(s: TransformModel, o: TransformModel) -> bool {
    &&& dot3_fits(s.a, o.a, s.b, o.c, 0, 0)
    &&& dot3_fits(s.a, o.b, s.b, o.d, 0, 0)
    &&& dot3_fits(s.c, o.a, s.d, o.c, 0, 0)
    &&& dot3_fits(s.c, o.b, s.d, o.d, 0, 0)
    &&& dot3_fits(s.a, o.tx, s.b, o.ty, s.tx, o.w)
    &&& dot3_fits(s.c, o.tx, s.d, o.ty, s.ty, o.w)
    &&& dot3_fits(s.w, o.w, 0, 0, 0, 0)
}

/// Layout space to canvas space for a layout of height `h / GRID` at device
/// scale `s / GRID`: scale both axes by the device scale and move down by
/// the height times the device scale.
pub open spec fn layout_to_canvas_model(h: int, s: int) -> TransformModel {
    TransformModel { a: s * GRID, b: 0, c: 0, d: s * GRID, tx: 0, ty: h * s, w: GRID * GRID }
}

/// An affine transform held with one common denominator `w` for all entries;
/// well-formed when `w` is positive.
#[derive(Clone, Copy, PartialEq, Eq, Debug, Structural)]
pub struct AffineTransform {
    pub a: i128,
    pub b: i128,
    pub c: i128,
    pub d: i128,
    pub tx: i128,
    pub ty: i128,
    pub w: i128,
}

impl View for AffineTransform {
    type V = TransformModel;

    open spec fn view(&self) -> TransformModel {
        TransformModel {
            a: self.a as int,
            b: self.b as int,
            c: self.c as int,
            d: self.d as int,
            tx: self.tx as int,
            ty: self.ty as int,
            w: self.w as int,
        }
    }
}

/// The exact value `a * x + b * y + c * z`, computed in `i128`.
pub(crate) fn dot3(a: i128, x: i128, b: i128, y: i128, c: i128, z: i128) -> (r: Option<i128>)
    ensures
        r == (if dot3_fits(a as int, x as int, b as int, y as int, c as int, z as int) {
            Some((a * x + b * y + c * z) as i128)
        } else {
            None
        }),
{
    match (a.checked_mul(x), b.checked_mul(y), c.checked_mul(z)) {
        (Some(p), Some(q), Some(t)) => match p.checked_add(q) {
            Some(pq) => pq.checked_add(t),
            None => None,
        },
        _ => None,
    }
}

impl AffineTransform {
    pub open spec fn wf(self) -> bool {
        self.w > 0
    }

    /// The transform that applies `other` first and then `self`; `None` when
    /// an exact entry, or a product or sum on the way to it, does not fit in an
    /// `i128`.
    pub fn compose(&self, other: &AffineTransform) -> (r: Option<AffineTransform>)
        ensures
            r is Some <==> compose_fits(self@, other@),
            r matches Some(t) ==> t@ == compose_model(self@, other@),
            r matches Some(t) ==> (self.wf() && other.wf() ==> t.wf()),
    {
        let a = dot3(self.a, other.a, self.b, other.c, 0, 0);
        let b = dot3(self.a, other.b, self.b, other.d, 0, 0);
        let c = dot3(self.c, other.a, self.d, other.c, 0, 0);
        let d = dot3(self.c, other.b, self.d, other.d, 0, 0);
        let tx = dot3(self.a, other.tx, self.b, other.ty, self.tx, other.w);
        let ty = dot3(self.c, other.tx, self.d, other.ty, self.ty, other.w);
        let w = dot3(self.w, other.w, 0, 0, 0, 0);
        proof {
            if self.wf() && other.wf() {
                assert(self.w * other.w > 0) by (nonlinear_arith)
                    requires
                        self.w > 0,
                        other.w > 0,
                ;
            }
        }
        match (a, b, c, d, tx, ty, w) {
            (Some(a), Some(b), Some(c), Some(d), Some(tx), Some(ty), Some(w)) => Some(
                AffineTransform { a, b, c, d, tx, ty, w },
            ),
            _ => None,
        }
    }

    /// Maps a point from the input space of `self` to its output space; `None`
    /// when a coordinate of the exact result, or a product or sum on the way to
    /// it, does not fit in an `i128`.
    pub fn apply(&self, p: Point) -> (r: Option<Point>)
        ensures
            r is Some <==> apply_fits(self@, p@),
            r matches Some(q) ==> q@ == apply_model(self@, p@),
            r matches Some(q) ==> (self.wf() && p.wf() ==> q.wf()),
    {
        let x = dot3(self.a, p.x, self.b, p.y, self.tx, p.w);
        let y = dot3(self.c, p.x, self.d, p.y, self.ty, p.w);
        let w = dot3(self.w, p.w, 0, 0, 0, 0);
        proof {
            if self.wf() && p.wf() {
                assert(self.w * p.w > 0) by (nonlinear_arith)
                    requires
                        self.w > 0,
                        p.w > 0,
                ;
            }
        }
        match (x, y, w) {
            (Some(x), Some(y), Some(w)) => Some(Point { x, y, w }),
            _ => None,
        }
    }
}

proof fn lemma_i64_product(a: i64, b: i64)
    ensures
        fits(a * b),
{
    lemma_mul_bound(a as int, b as int, 0x8000_0000_0000_0000, 0x8000_0000_0000_0000);
}

/// The layout-to-canvas transform for a layout of height `h / GRID` drawn at
/// device scale `s / GRID`: linear part `diag(s, s)`, translation `(0, h * s)`.
/// Every entry fits, whatever the inputs.
pub fn layout_to_canvas(h: i64, s: i64) -> (r: AffineTransform)
    ensures
        r@ == layout_to_canvas_model(h as int, s as int),
        r.wf(),
{
    proof {
        lemma_i64_product(h, s);
    }
    let a = (s as i128) * GRID;
    AffineTransform { a, b: 0, c: 0, d: a, tx: 0, ty: (h as i128) * (s as i128), w: GRID * GRID }
}

/// Applying a composed transform is applying its two parts in turn: `other`
/// first, then `self`. The equality is exact, coordinate by coordinate.
pub proof fn lemma_compose_apply(s: TransformModel, o: TransformModel, p: PointModel)
    ensures
        apply_model(compose_model(s, o), p) == apply_model(s, apply_model(o, p)),
{
    lemma_row(s.a, s.b, s.tx, o.a, o.b, o.c, o.d, o.tx, o.ty, o.w, p.x, p.y, p.w);
    lemma_row(s.c, s.d, s.ty, o.a, o.b, o.c, o.d, o.tx, o.ty, o.w, p.x, p.y, p.w);
    lemma_mul_is_associative(s.w, o.w, p.w);
}

proof fn lemma_row(
    u: int,
    v: int,
    t: int,
    a: int,
    b: int,
    c: int,
    d: int,
    tx: int,
    ty: int,
    w: int,
    x: int,
    y: int,
    z: int,
)
    ensures
        (u * a + v * c) * x + (u * b + v * d) * y + (u * tx + v * ty + t * w) * z == u * (a * x
            + b * y + tx * z) + v * (c * x + d * y + ty * z) + t * (w * z),
{
    lemma_mul_is_distributive_add_other_way(x, u * a, v * c);
    lemma_mul_is_distributive_add_other_way(y, u * b, v * d);
    lemma_mul_is_distributive_add_other_way(z, u * tx + v * ty, t * w);
    lemma_mul_is_distributive_add_other_way(z, u * tx, v * ty);
    lemma_mul_is_distributive_add(u, a * x + b * y, tx * z);
    lemma_mul_is_distributive_add(u, a * x, b * y);
    lemma_mul_is_distributive_add(v, c * x + d * y, ty * z);
    lemma_mul_is_distributive_add(v, c * x, d * y);
    lemma_mul_is_associative(u, a, x);
    lemma_mul_is_associative(u, b, y);
    lemma_mul_is_associative(u, tx, z);
    lemma_mul_is_associative(v, c, x);
    lemma_mul_is_associative(v, d, y);
    lemma_mul_is_associative(v, ty, z);
    lemma_mul_is_associative(t, w, z);
}

/// The layout-to-canvas transform takes a layout point `(x, y)` to
/// `(x * s, (y + h) * s)`: the translation adds `h * s` to the scaled `y`;
/// the vertical axis is not turned over here (the font matrix turns glyph
/// outlines over). The result below is that point with the denominator
/// `GRID * GRID * p.w`.
pub proof fn lemma_layout_to_canvas_apply(h: int, s: int, p: PointModel)
    ensures
        apply_model(layout_to_canvas_model(h, s), p) == (PointModel {
            x: s * GRID * p.x,
            y: s * (GRID * p.y + h * p.w),
            w: GRID * GRID * p.w,
        }),
{
    let t = layout_to_canvas_model(h, s);
    let q = apply_model(t, p);
    assert(t.b * p.y == 0 && t.tx * p.w == 0 && t.c * p.x == 0) by (nonlinear_arith)
        requires
            t.b == 0,
            t.tx == 0,
            t.c == 0,
    ;
    lemma_mul_is_distributive_add(s, GRID * p.y, h * p.w);
    lemma_mul_is_associative(s, GRID as int, p.y);
    lemma_mul_is_associative(s, h, p.w);
    assert(h * s == s * h) by (nonlinear_arith);
}

/// The layout origin lands at `(0, h * s)` on the canvas: `h * s` over
/// `GRID * GRID`, as `h` and `s` are each over `GRID`.
pub proof fn lemma_layout_to_canvas_origin(h: int, s: int)
    ensures
        apply_model(layout_to_canvas_model(h, s), PointModel { x: 0, y: 0, w: 1 }) == (PointModel {
            x: 0,
            y: h * s,
            w: GRID * GRID,
        }),
{
}

/// `p` with its coordinates multiplied by `kn / kd`.
pub open spec fn scale_point(p: PointModel, kn: int, kd: int) -> PointModel {
    PointModel { x: kn * p.x, y: kn * p.y, w: kd * p.w }
}

/// `t` followed by a scaling of both axes by `kn / kd`.
pub open spec fn scale_transform(t: TransformModel, kn: int, kd: int) -> TransformModel {
    TransformModel {
        a: kn * t.a,
        b: kn * t.b,
        c: kn * t.c,
        d: kn * t.d,
        tx: kn * t.tx,
        ty: kn * t.ty,
        w: kd * t.w,
    }
}

proof fn lemma_scale_sum(k: int, a: int, x: int, b: int, y: int, c: int, z: int)
    ensures
        (k * a) * x + (k * b) * y + (k * c) * z == k * (a * x + b * y + c * z),
{
    lemma_mul_is_associative(k, a, x);
    lemma_mul_is_associative(k, b, y);
    lemma_mul_is_associative(k, c, z);
    lemma_mul_is_distributive_add(k, a * x + b * y, c * z);
    lemma_mul_is_distributive_add(k, a * x, b * y);
}

/// Scaling the outer transform of a composition scales the composition.
pub proof fn lemma_compose_scaled(t: TransformModel, o: TransformModel, kn: int, kd: int)
    ensures
        compose_model(scale_transform(t, kn, kd), o) == scale_transform(compose_model(t, o), kn, kd),
{
    lemma_scale_sum(kn, t.a, o.a, t.b, o.c, 0, 0);
    lemma_scale_sum(kn, t.a, o.b, t.b, o.d, 0, 0);
    lemma_scale_sum(kn, t.c, o.a, t.d, o.c, 0, 0);
    lemma_scale_sum(kn, t.c, o.b, t.d, o.d, 0, 0);
    lemma_scale_sum(kn, t.a, o.tx, t.b, o.ty, t.tx, o.w);
    lemma_scale_sum(kn, t.c, o.tx, t.d, o.ty, t.ty, o.w);
    lemma_mul_is_associative(kd, t.w, o.w);
}

/// A scaled transform maps every point to the scaled image.
pub proof fn lemma_apply_scaled(t: TransformModel, p: PointModel, kn: int, kd: int)
    ensures
        apply_model(scale_transform(t, kn, kd), p) == scale_point(apply_model(t, p), kn, kd),
{
    lemma_scale_sum(kn, t.a, p.x, t.b, p.y, t.tx, p.w);
    lemma_scale_sum(kn, t.c, p.x, t.d, p.y, t.ty, p.w);
    lemma_mul_is_associative(kd, t.w, p.w);
}

/// Multiplying the device scale `s` by `kn / kd` (to `sk`) multiplies the
/// layout-to-canvas transform by the same factor: `kd` times the new one is
/// `kn` times the old one, entry by entry, with the same denominator.
pub proof fn lemma_layout_to_canvas_scaled(h: int, s: int, sk: int, kn: int, kd: int)
    requires
        sk * kd == s * kn,
    ensures
        scale_transform(layout_to_canvas_model(h, sk), kd, 1) == scale_transform(
            layout_to_canvas_model(h, s),
            kn,
            1,
        ),
{
    assert(kd * (sk * GRID) == kn * (s * GRID)) by (nonlinear_arith)
        requires
            sk * kd == s * kn,
    ;
    assert(kd * (h * sk) == kn * (h * s)) by (nonlinear_arith)
        requires
            sk * kd == s * kn,
    ;
    assert(kd * 0 == 0 && kn * 0 == 0);
}

/// Every entry of `t` is at most the matching entry of `m` in size.
pub open spec fn bounded(t: TransformModel, m: TransformModel) -> bool {
    &&& -m.a <= t.a <= m.a
    &&& -m.b <= t.b <= m.b
    &&& -m.c <= t.c <= m.c
    &&& -m.d <= t.d <= m.d
    &&& -m.tx <= t.tx <= m.tx
    &&& -m.ty <= t.ty <= m.ty
    &&& -m.w <= t.w <= m.w
}

/// Every coordinate of `p` is at most the matching one of `m` in size.
pub open spec fn point_bounded(p: PointModel, m: PointModel) -> bool {
    -m.x <= p.x <= m.x && -m.y <= p.y <= m.y && -m.w <= p.w <= m.w
}

pub(crate) proof fn lemma_mul_bound(x: int, y: int, mx: int, my: int)
    requires
        -mx <= x <= mx,
        -my <= y <= my,
    ensures
        -(mx * my) <= x * y <= mx * my,
{
    assert(-(mx * my) <= x * y <= mx * my) by (nonlinear_arith)
        requires
            -mx <= x <= mx,
            -my <= y <= my,
    ;
}

pub(crate) proof fn lemma_dot3_bounded(
    a: int,
    x: int,
    b: int,
    y: int,
    c: int,
    z: int,
    ma: int,
    mx: int,
    mb: int,
    my: int,
    mc: int,
    mz: int,
)
    requires
        -ma <= a <= ma,
        -mx <= x <= mx,
        -mb <= b <= mb,
        -my <= y <= my,
        -mc <= c <= mc,
        -mz <= z <= mz,
        ma * mx + mb * my + mc * mz <= i128::MAX,
    ensures
        dot3_fits(a, x, b, y, c, z),
        -(ma * mx + mb * my + mc * mz) <= a * x + b * y + c * z <= ma * mx + mb * my + mc * mz,
{
    lemma_mul_bound(a, x, ma, mx);
    lemma_mul_bound(b, y, mb, my);
    lemma_mul_bound(c, z, mc, mz);
}

/// Entry bounds carry through a composition: when the bounds' own
/// composition fits, so does the composition, within those bounds.
pub proof fn lemma_compose_bounded(
    s: TransformModel,
    o: TransformModel,
    ms: TransformModel,
    mo: TransformModel,
)
    requires
        bounded(s, ms),
        bounded(o, mo),
        compose_model(ms, mo).a <= i128::MAX,
        compose_model(ms, mo).b <= i128::MAX,
        compose_model(ms, mo).c <= i128::MAX,
        compose_model(ms, mo).d <= i128::MAX,
        compose_model(ms, mo).tx <= i128::MAX,
        compose_model(ms, mo).ty <= i128::MAX,
        compose_model(ms, mo).w <= i128::MAX,
    ensures
        compose_fits(s, o),
        bounded(compose_model(s, o), compose_model(ms, mo)),
{
    lemma_dot3_bounded(s.a, o.a, s.b, o.c, 0, 0, ms.a, mo.a, ms.b, mo.c, 0, 0);
    lemma_dot3_bounded(s.a, o.b, s.b, o.d, 0, 0, ms.a, mo.b, ms.b, mo.d, 0, 0);
    lemma_dot3_bounded(s.c, o.a, s.d, o.c, 0, 0, ms.c, mo.a, ms.d, mo.c, 0, 0);
    lemma_dot3_bounded(s.c, o.b, s.d, o.d, 0, 0, ms.c, mo.b, ms.d, mo.d, 0, 0);
    lemma_dot3_bounded(s.a, o.tx, s.b, o.ty, s.tx, o.w, ms.a, mo.tx, ms.b, mo.ty, ms.tx, mo.w);
    lemma_dot3_bounded(s.c, o.tx, s.d, o.ty, s.ty, o.w, ms.c, mo.tx, ms.d, mo.ty, ms.ty, mo.w);
    lemma_dot3_bounded(s.w, o.w, 0, 0, 0, 0, ms.w, mo.w, 0, 0, 0, 0);
}

/// Bounds carry through applying a transform to a point.
pub proof fn lemma_apply_bounded(t: TransformModel, p: PointModel, mt: TransformModel, mp: PointModel)
    requires
        bounded(t, mt),
        point_bounded(p, mp),
        apply_model(mt, mp).x <= i128::MAX,
        apply_model(mt, mp).y <= i128::MAX,
        apply_model(mt, mp).w <= i128::MAX,
    ensures
        apply_fits(t, p),
        point_bounded(apply_model(t, p), apply_model(mt, mp)),
{
    lemma_dot3_bounded(t.a, p.x, t.b, p.y, t.tx, p.w, mt.a, mp.x, mt.b, mp.y, mt.tx, mp.w);
    lemma_dot3_bounded(t.c, p.x, t.d, p.y, t.ty, p.w, mt.c, mp.x, mt.d, mp.y, mt.ty, mp.w);
    lemma_dot3_bounded(t.w, p.w, 0, 0, 0, 0, mt.w, mp.w, 0, 0, 0, 0);
}

} // verus!
