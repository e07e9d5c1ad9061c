use vstd::prelude::*;

use crate::backend::{
    FontMatrix, GPUIBackend, LayoutDimensions, Rect, Rgba, device_scale_in_range,
    font_matrix_in_range, glyph_emits, glyph_scale_in_range, glyph_transform_model,
    layout_point_in_range, layout_value_in_range, lemma_glyph_in_range, lemma_rule_in_range,
    outline_in_range, rule_fits, rule_rect,
};
use crate::outline::{OutlineCommand, PathCommand, VectorPath, command_maps, outline_maps};
use crate::transform::{GridPoint, TransformModel, layout_to_canvas_model};

verus! {

/// One draw call of a layout renderer, in layout coordinates.
#[derive(Clone, Debug)]
pub enum DrawEvent {
    /// A glyph placed at `pos` with `scale`; `outline` is in font units.
    Glyph { pos: GridPoint, outline: Vec<OutlineCommand>, scale: i64, font_matrix: FontMatrix },
    Rule { pos: GridPoint, width: i64, height: i64 },
    BoundingBox { pos: GridPoint, width: i64, height: i64 },
    BeginColor(Rgba),
    EndColor,
}

/// `paths` and `rects` are what the events `evs` draw under `l2c`: each glyph
/// that can be built adds one path, each rule that can be computed adds one
/// rectangle, in event order; nothing else adds anything.
pub open spec fn renders(
    l2c: TransformModel,
    evs: Seq<DrawEvent>,
    paths: Seq<VectorPath>,
    rects: Seq<Rect>,
) -> bool
    decreases evs.len(),
{
    if evs.len() == 0 {
        paths.len() == 0 && rects.len() == 0
    } else {
        let rest = evs.drop_last();
        match evs.last() {
            DrawEvent::Glyph { pos, outline, scale, font_matrix } => {
                if glyph_emits(l2c, pos, scale as int, font_matrix, outline@) {
                    &&& paths.len() > 0
                    &&& outline_maps(
                        glyph_transform_model(l2c, pos, scale as int, font_matrix),
                        outline@,
                        paths.last().commands@,
                    )
                    &&& renders(l2c, rest, paths.drop_last(), rects)
                } else {
                    renders(l2c, rest, paths, rects)
                }
            },
            DrawEvent::Rule { pos, width, height } => {
                if rule_fits(l2c, pos, width as int, height as int) {
                    &&& rects.len() > 0
                    &&& rule_rect(l2c, pos, width as int, height as int, rects.last())
                    &&& renders(l2c, rest, paths, rects.drop_last())
                } else {
                    renders(l2c, rest, paths, rects)
                }
            },
            _ => renders(l2c, rest, paths, rects),
        }
    }
}

/// The number of glyph events in `evs`.
pub open spec fn glyph_events(evs: Seq<DrawEvent>) -> nat
    decreases evs.len(),
{
    if evs.len() == 0 {
        0
    } else {
        glyph_events(evs.drop_last()) + if evs.last() is Glyph {
            1nat
        } else {
            0nat
        }
    }
}

/// The number of glyph events in `evs` whose path cannot be built under `l2c`.
pub open spec fn failed_glyphs(l2c: TransformModel, evs: Seq<DrawEvent>) -> nat
    decreases evs.len(),
{
    if evs.len() == 0 {
        0
    } else {
        failed_glyphs(l2c, evs.drop_last()) + match evs.last() {
            DrawEvent::Glyph { pos, outline, scale, font_matrix } => if glyph_emits(
                l2c,
                pos,
                scale as int,
                font_matrix,
                outline@,
            ) {
                0nat
            } else {
                1nat
            },
            _ => 0nat,
        }
    }
}

impl GPUIBackend {
    /// Reacts to one draw event.
    pub fn handle(&mut self, e: &DrawEvent)
        ensures
            final(self).transform() == old(self).transform(),
            forall|evs: Seq<DrawEvent>|
                renders(old(self).transform(), evs, old(self).paths(), old(self).rects())
                    ==> #[trigger] renders(
                    old(self).transform(),
                    evs.push(*e),
                    final(self).paths(),
                    final(self).rects(),
                ),
    {
        match e {
            DrawEvent::Glyph { pos, outline, scale, font_matrix } => {
                self.symbol(*pos, outline, *scale, *font_matrix)
            },
            DrawEvent::Rule { pos, width, height } => self.rule(*pos, *width, *height),
            DrawEvent::BoundingBox { pos, width, height } => self.bbox(*pos, *width, *height),
            DrawEvent::BeginColor(c) => self.begin_color(*c),
            DrawEvent::EndColor => self.end_color(),
        }
        assert forall|evs: Seq<DrawEvent>|
            renders(old(self).transform(), evs, old(self).paths(), old(self).rects())
                implies #[trigger] renders(
                old(self).transform(),
                evs.push(*e),
                self.paths(),
                self.rects(),
            ) by {
            assert(evs.push(*e).drop_last() == evs);
            assert(evs.push(*e).last() == *e);
        }
    }
}

/// Draws the events `evs` of a layout of size `dims` at device scale
/// `scale / GRID`, returning the paths and the rectangles.
pub fn render(dims: LayoutDimensions, scale: i64, evs: &Vec<DrawEvent>) -> (r: (
    Vec<VectorPath>,
    Vec<Rect>,
))
    ensures
        renders(layout_to_canvas_model(dims.height as int, scale as int), evs@, r.0@, r.1@),
{
    let mut backend = GPUIBackend::new(dims, scale);
    let ghost l2c = layout_to_canvas_model(dims.height as int, scale as int);
    let mut i: usize = 0;
    assert(evs@.take(0) == Seq::<DrawEvent>::empty());
    while i < evs.len()
        invariant
            i <= evs.len(),
            backend.transform() == l2c,
            renders(l2c, evs@.take(i as int), backend.paths(), backend.rects()),
        decreases evs.len() - i,
    {
        backend.handle(&evs[i]);
        assert(evs@.take(i as int).push(evs@[i as int]) == evs@.take(i + 1));
        i = i + 1;
    }
    assert(evs@.take(evs.len() as int) == evs@);
    backend.paths_and_rects()
}

proof fn lemma_outline_maps_unique(
    t: TransformModel,
    cmds: Seq<OutlineCommand>,
    a: Seq<PathCommand>,
    b: Seq<PathCommand>,
)
    requires
        outline_maps(t, cmds, a),
        outline_maps(t, cmds, b),
    ensures
        a == b,
{
    assert forall|i: int| 0 <= i < a.len() implies a[i] == b[i] by {
        assert(command_maps(t, cmds[i], a[i]));
        assert(command_maps(t, cmds[i], b[i]));
    }
    assert(a =~= b);
}

/// Rendering has no hidden state: two passes over the same events, under the
/// same layout-to-canvas transform, draw the same paths and the same rectangles.
pub proof fn lemma_render_deterministic(
    l2c: TransformModel,
    evs: Seq<DrawEvent>,
    paths1: Seq<VectorPath>,
    rects1: Seq<Rect>,
    paths2: Seq<VectorPath>,
    rects2: Seq<Rect>,
)
    requires
        renders(l2c, evs, paths1, rects1),
        renders(l2c, evs, paths2, rects2),
    ensures
        rects1 == rects2,
        paths1.len() == paths2.len(),
        forall|i: int| 0 <= i < paths1.len() ==> paths1[i].commands@ == paths2[i].commands@,
    decreases evs.len(),
{
    if evs.len() == 0 {
        assert(rects1 =~= rects2);
    } else {
        let rest = evs.drop_last();
        match evs.last() {
            DrawEvent::Glyph { pos, outline, scale, font_matrix } => {
                if glyph_emits(l2c, pos, scale as int, font_matrix, outline@) {
                    lemma_render_deterministic(
                        l2c,
                        rest,
                        paths1.drop_last(),
                        rects1,
                        paths2.drop_last(),
                        rects2,
                    );
                    lemma_outline_maps_unique(
                        glyph_transform_model(l2c, pos, scale as int, font_matrix),
                        outline@,
                        paths1.last().commands@,
                        paths2.last().commands@,
                    );
                    assert forall|i: int| 0 <= i < paths1.len() implies paths1[i].commands@
                        == paths2[i].commands@ by {
                        if i < paths1.len() - 1 {
                            assert(paths1[i] == paths1.drop_last()[i]);
                            assert(paths2[i] == paths2.drop_last()[i]);
                        }
                    }
                } else {
                    lemma_render_deterministic(l2c, rest, paths1, rects1, paths2, rects2);
                }
            },
            DrawEvent::Rule { pos, width, height } => {
                if rule_fits(l2c, pos, width as int, height as int) {
                    lemma_render_deterministic(
                        l2c,
                        rest,
                        paths1,
                        rects1.drop_last(),
                        paths2,
                        rects2.drop_last(),
                    );
                    assert(rects1.last() == rects2.last());
                    assert(rects1 =~= rects1.drop_last().push(rects1.last()));
                    assert(rects2 =~= rects2.drop_last().push(rects2.last()));
                } else {
                    lemma_render_deterministic(l2c, rest, paths1, rects1, paths2, rects2);
                }
            },
            _ => {
                lemma_render_deterministic(l2c, rest, paths1, rects1, paths2, rects2);
            },
        }
    }
}

/// One path is drawn for each glyph event, less the glyphs whose path could
/// not be built; never more paths than glyph events.
pub proof fn lemma_path_count(
    l2c: TransformModel,
    evs: Seq<DrawEvent>,
    paths: Seq<VectorPath>,
    rects: Seq<Rect>,
)
    requires
        renders(l2c, evs, paths, rects),
    ensures
        paths.len() == glyph_events(evs) - failed_glyphs(l2c, evs),
        paths.len() <= glyph_events(evs),
    decreases evs.len(),
{
    if evs.len() > 0 {
        let rest = evs.drop_last();
        match evs.last() {
            DrawEvent::Glyph { pos, outline, scale, font_matrix } => {
                if glyph_emits(l2c, pos, scale as int, font_matrix, outline@) {
                    lemma_path_count(l2c, rest, paths.drop_last(), rects);
                } else {
                    lemma_path_count(l2c, rest, paths, rects);
                }
            },
            DrawEvent::Rule { pos, width, height } => {
                if rule_fits(l2c, pos, width as int, height as int) {
                    lemma_path_count(l2c, rest, paths, rects.drop_last());
                } else {
                    lemma_path_count(l2c, rest, paths, rects);
                }
            },
            _ => {
                lemma_path_count(l2c, rest, paths, rects);
            },
        }
    }
}

/// Events without a glyph or a rule draw nothing: both collections are empty.
pub proof fn lemma_no_draws_no_output(
    l2c: TransformModel,
    evs: Seq<DrawEvent>,
    paths: Seq<VectorPath>,
    rects: Seq<Rect>,
)
    requires
        renders(l2c, evs, paths, rects),
        forall|i: int| 0 <= i < evs.len() ==> !(#[trigger] evs[i] is Glyph) && !(evs[i] is Rule),
    ensures
        paths.len() == 0,
        rects.len() == 0,
    decreases evs.len(),
{
    if evs.len() > 0 {
        let rest = evs.drop_last();
        assert(!(evs[evs.len() - 1] is Glyph) && !(evs[evs.len() - 1] is Rule));
        assert forall|i: int| 0 <= i < rest.len() implies !(#[trigger] rest[i] is Glyph) && !(
        rest[i] is Rule) by {
            assert(rest[i] == evs[i]);
        }
        lemma_no_draws_no_output(l2c, rest, paths, rects);
    }
}

/// The number of rule events in `evs`.
pub open spec fn rule_events(evs: Seq<DrawEvent>) -> nat
    decreases evs.len(),
{
    if evs.len() == 0 {
        0
    } else {
        rule_events(evs.drop_last()) + if evs.last() is Rule {
            1nat
        } else {
            0nat
        }
    }
}

/// Whether every value an event carries is in the range in which it always
/// yields its geometry.
pub open spec fn event_in_range(e: DrawEvent) -> bool {
    match e {
        DrawEvent::Glyph { pos, outline, scale, font_matrix } => {
            &&& layout_point_in_range(pos)
            &&& glyph_scale_in_range(scale as int)
            &&& font_matrix_in_range(font_matrix)
            &&& outline_in_range(outline@)
        },
        DrawEvent::Rule { pos, width, height } => {
            &&& layout_point_in_range(pos)
            &&& layout_value_in_range(width as int)
            &&& layout_value_in_range(height as int)
        },
        _ => true,
    }
}

/// For a layout height, device scale and events in range, every glyph event
/// draws one path and every rule event draws one rectangle: nothing is skipped.
pub proof fn lemma_render_in_range(
    h: int,
    s: int,
    evs: Seq<DrawEvent>,
    paths: Seq<VectorPath>,
    rects: Seq<Rect>,
)
    requires
        layout_value_in_range(h),
        device_scale_in_range(s),
        forall|i: int| 0 <= i < evs.len() ==> #[trigger] event_in_range(evs[i]),
        renders(layout_to_canvas_model(h, s), evs, paths, rects),
    ensures
        paths.len() == glyph_events(evs),
        rects.len() == rule_events(evs),
    decreases evs.len(),
{
    if evs.len() > 0 {
        let l2c = layout_to_canvas_model(h, s);
        let rest = evs.drop_last();
        assert forall|i: int| 0 <= i < rest.len() implies #[trigger] event_in_range(rest[i]) by {
            assert(rest[i] == evs[i]);
        }
        assert(event_in_range(evs[evs.len() - 1]));
        match evs.last() {
            DrawEvent::Glyph { pos, outline, scale, font_matrix } => {
                lemma_glyph_in_range(h, s, pos, scale as int, font_matrix, outline@);
                lemma_render_in_range(h, s, rest, paths.drop_last(), rects);
            },
            DrawEvent::Rule { pos, width, height } => {
                lemma_rule_in_range(h, s, pos, width as int, height as int);
                lemma_render_in_range(h, s, rest, paths, rects.drop_last());
            },
            _ => {
                lemma_render_in_range(h, s, rest, paths, rects);
            },
        }
    }
}

} // verus!
