//! Turns the draw calls of a math layout engine into canvas geometry: glyph
//! outlines become filled vector paths and rules become rectangles.
//!
//! Inputs are integers on fixed grids: layout values and font design units
//! over `GRID` (2^16), font matrix factors over `FONT_GRID` (2^24). Canvas
//! geometry is exact: a point is held in homogeneous form `(x, y, w)` standing
//! for `(x / w, y / w)`, and a transform keeps one common denominator for its
//! entries, so composing and applying transforms never rounds. For inputs in
//! the documented ranges every glyph and every rule yields its geometry.
mod backend;
mod outline;
mod render;
mod transform;

pub use backend::{
    FONT_GRID, FontMatrix, GPUIBackend, LayoutDimensions, Rect, Rgba, command_in_range,
    device_scale_in_range, font_matrix_in_range, font_matrix_model, glyph_emits,
    glyph_scale_in_range, glyph_transform, glyph_transform_fits, glyph_transform_model,
    layout_point_in_range, layout_value_in_range, lemma_device_scale_glyph,
    lemma_device_scale_rule, lemma_glyph_in_range, lemma_rule_in_range, outline_in_range,
    outline_point_in_range, placement_model, rule_fits, rule_rect, rule_to_rect,
};
pub use outline::{
    GlyphPathBuilder, OutlineCommand, PathCommand, VectorPath, command_fits, command_maps,
    outline_fits, outline_maps, outline_to_path,
};
pub use render::{
    DrawEvent, event_in_range, failed_glyphs, glyph_events, lemma_no_draws_no_output,
    lemma_path_count, lemma_render_deterministic, lemma_render_in_range, render, renders,
    rule_events,
};
pub use transform::{
    AffineTransform, GRID, GridPoint, Point, PointModel, Ratio, TransformModel, apply_fits,
    apply_model, bounded, compose_fits, compose_model, dot3_fits, fits, grid_model,
    layout_to_canvas, layout_to_canvas_model, lemma_apply_bounded, lemma_apply_scaled,
    lemma_compose_apply, lemma_compose_bounded, lemma_compose_scaled,
    lemma_layout_to_canvas_apply, lemma_layout_to_canvas_origin, lemma_layout_to_canvas_scaled,
    point_bounded, scale_point, scale_transform,
};
