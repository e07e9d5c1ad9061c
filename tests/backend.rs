use math_paths::{
    DrawEvent, FONT_GRID, FontMatrix, GPUIBackend, GlyphPathBuilder, GridPoint, LayoutDimensions,
    OutlineCommand, PathCommand, Point, Ratio, Rgba, glyph_transform, layout_to_canvas,
    outline_to_path, render, rule_to_rect,
};

const G: i64 = 65536;

/// A grid point with whole coordinates.
fn gp(x: i64, y: i64) -> GridPoint {
    GridPoint { x: x * G, y: y * G }
}

/// A value as the application stores it: rounded to the grid.
fn grid(v: f64) -> i64 {
    (v * G as f64).round() as i64
}

fn dims(height: i64) -> LayoutDimensions {
    LayoutDimensions { width: 50 * G, height: height * G, depth: 0 }
}

/// The font matrix `1 / 1024` on both axes.
fn per_1024() -> FontMatrix {
    FontMatrix { sx: (FONT_GRID / 1024) as i64, sy: (FONT_GRID / 1024) as i64 }
}

/// Whether `p` stands for the point `(x, y)`.
fn denotes(p: Point, x: i128, y: i128) -> bool {
    p.x == x * p.w && p.y == y * p.w
}

fn approx(p: Point, x: f64, y: f64) -> bool {
    let px = p.x as f64 / p.w as f64;
    let py = p.y as f64 / p.w as f64;
    (px - x).abs() < 1e-3 && (py - y).abs() < 1e-3
}

fn outline() -> Vec<OutlineCommand> {
    vec![
        OutlineCommand::MoveTo(gp(1024, 2048)),
        OutlineCommand::LineTo(gp(3072, 2048)),
        OutlineCommand::QuadTo(gp(4096, 3072), gp(5120, 2048)),
        OutlineCommand::CurveTo(gp(1024, 0), gp(2048, 512), gp(0, 0)),
        OutlineCommand::Close,
    ]
}

fn glyph_at(x: i64, y: i64) -> DrawEvent {
    DrawEvent::Glyph { pos: gp(x, y), outline: outline(), scale: 20 * G, font_matrix: per_1024() }
}

#[test]
fn font_matrix_flips_vertical_axis() {
    let t = per_1024().transform();
    let q = t.apply(gp(512, 256).to_point()).unwrap();
    assert_eq!(q.x * 2, q.w);
    assert_eq!(q.y * 4, -q.w);
}

#[test]
fn glyph_transform_maps_font_units_to_canvas() {
    let mut b = GPUIBackend::new(dims(30), G);
    b.symbol(gp(5, 10), &outline(), 20 * G, per_1024());
    let (paths, rects) = b.paths_and_rects();
    assert_eq!(rects.len(), 0);
    assert_eq!(paths.len(), 1);
    let cmds = &paths[0].commands;
    assert_eq!(cmds.len(), 5);
    // (1024, 2048) design units: 20 * 1 + 5 across, -20 * 2 + 10 + 30 down.
    match cmds[0] {
        PathCommand::MoveTo(p) => assert!(denotes(p, 25, 0)),
        _ => panic!("expected a move"),
    }
    match cmds[1] {
        PathCommand::LineTo(p) => assert!(denotes(p, 65, 0)),
        _ => panic!("expected a line"),
    }
    match cmds[2] {
        PathCommand::CubicTo { to, ctrl_a, ctrl_b } => {
            assert!(denotes(to, 105, 0));
            assert!(denotes(ctrl_a, 85, -20));
            assert_eq!(ctrl_a, ctrl_b);
        }
        _ => panic!("expected a cubic"),
    }
    match cmds[3] {
        PathCommand::CubicTo { to, ctrl_a, ctrl_b } => {
            assert!(denotes(to, 5, 40));
            assert!(denotes(ctrl_a, 25, 40));
            assert!(denotes(ctrl_b, 45, 30));
        }
        _ => panic!("expected a cubic"),
    }
    assert_eq!(cmds[4], PathCommand::Close);
}

#[test]
fn glyph_transform_composes_in_order() {
    let l2c = layout_to_canvas(30 * G, G);
    let t = glyph_transform(&l2c, gp(5, 10), 20 * G, per_1024()).unwrap();
    assert!(denotes(t.apply(gp(0, 0).to_point()).unwrap(), 5, 40));
    assert!(denotes(t.apply(gp(1024, 1024).to_point()).unwrap(), 25, 20));
}

#[test]
fn glyph_in_application_encoding_is_drawn() {
    // Font matrix about 1/1000, font size 40, a fractional position.
    let fm = FontMatrix { sx: 16777, sy: 16777 };
    let mut b = GPUIBackend::new(LayoutDimensions { width: grid(120.5), height: grid(38.25), depth: grid(-9.75) }, G);
    let pos = GridPoint { x: grid(12.3), y: grid(30.7) };
    let outline = vec![
        OutlineCommand::MoveTo(GridPoint { x: grid(250.5), y: grid(-12.0) }),
        OutlineCommand::LineTo(GridPoint { x: grid(700.0), y: grid(680.25) }),
        OutlineCommand::Close,
    ];
    b.symbol(pos, &outline, 40 * G, fm);
    let (paths, _) = b.paths_and_rects();
    assert_eq!(paths.len(), 1);
    let s = 40.0 * 16777.0 / FONT_GRID as f64;
    let x = |v: f64| grid(12.3) as f64 / G as f64 + s * grid(v) as f64 / G as f64;
    let y = |v: f64| grid(38.25) as f64 / G as f64 + grid(30.7) as f64 / G as f64 - s * grid(v) as f64 / G as f64;
    match paths[0].commands[0] {
        PathCommand::MoveTo(p) => assert!(approx(p, x(250.5), y(-12.0))),
        _ => panic!("expected a move"),
    }
    match paths[0].commands[1] {
        PathCommand::LineTo(p) => assert!(approx(p, x(700.0), y(680.25))),
        _ => panic!("expected a line"),
    }
}

#[test]
fn glyph_that_cannot_be_built_is_skipped() {
    let mut b = GPUIBackend::new(dims(30), G);
    let bad = vec![OutlineCommand::MoveTo(gp(0, 0)), OutlineCommand::LineTo(GridPoint { x: i64::MAX, y: 0 })];
    b.symbol(gp(0, 0), &bad, i64::MAX, FontMatrix { sx: i64::MAX, sy: 1 });
    b.symbol(gp(0, 0), &outline(), 20 * G, per_1024());
    let (paths, _) = b.paths_and_rects();
    assert_eq!(paths.len(), 1);
    assert_eq!(paths[0].commands.len(), 5);
}

#[test]
fn outline_to_path_reports_overflow() {
    let t = math_paths::AffineTransform { a: i128::MAX / 2, b: 0, c: 0, d: 1, tx: 0, ty: 0, w: 1 };
    assert!(outline_to_path(&t, &vec![OutlineCommand::MoveTo(GridPoint { x: 4, y: 1 })]).is_none());
    let path = outline_to_path(&t, &vec![]).unwrap();
    assert!(path.commands.is_empty());
}

#[test]
fn builder_raises_quadratic_to_cubic() {
    let mut b = GlyphPathBuilder::new(per_1024().transform());
    b.move_to(gp(0, 0));
    b.quad_to(gp(1024, 2048), gp(3072, 0));
    b.close();
    let path = b.build().unwrap();
    assert_eq!(path.commands.len(), 3);
    match path.commands[1] {
        PathCommand::CubicTo { to, ctrl_a, ctrl_b } => {
            assert!(denotes(to, 3, 0));
            assert!(denotes(ctrl_a, 1, -2));
            assert!(denotes(ctrl_b, 1, -2));
        }
        _ => panic!("expected a cubic"),
    }
}

#[test]
fn builder_fails_on_overflow() {
    let t = math_paths::AffineTransform { a: i128::MAX / 2, b: 0, c: 0, d: 1, tx: 0, ty: 0, w: 1 };
    let mut b = GlyphPathBuilder::new(t);
    b.move_to(GridPoint { x: 1, y: 0 });
    b.curve_to(gp(0, 0), GridPoint { x: 3, y: 0 }, gp(1, 1));
    b.line_to(GridPoint { x: 1, y: 1 });
    assert!(b.build().is_none());
}

#[test]
fn rule_event_rectangle() {
    let mut b = GPUIBackend::new(dims(20), 2 * G);
    b.rule(gp(3, 4), 10 * G, 2 * G);
    let (paths, rects) = b.paths_and_rects();
    assert!(paths.is_empty());
    assert_eq!(rects.len(), 1);
    let r = rects[0];
    assert_eq!(r.width.num, 20 * r.width.den);
    assert_eq!(r.height.num, 4 * r.height.den);
    // The origin is (3, 4) under the layout-to-canvas transform: (3 * 2, 4 * 2 + 20 * 2).
    assert!(denotes(r.origin, 6, 48));
}

#[test]
fn rule_in_application_encoding_is_drawn() {
    let mut b = GPUIBackend::new(dims(20), G);
    b.rule(gp(10, 4), 10 * G, 2 * G);
    b.rule(GridPoint { x: grid(1000.5), y: grid(-3.25) }, grid(0.04), grid(250.0));
    let (_, rects) = b.paths_and_rects();
    assert_eq!(rects.len(), 2);
    assert!(denotes(rects[0].origin, 10, 24));
    assert_eq!(rects[0].width.num, 10 * rects[0].width.den);
    assert!(approx(rects[1].origin, 1000.5, 16.75));
}

#[test]
fn rule_on_the_baseline_row() {
    let l2c = layout_to_canvas(20 * G, 2 * G);
    let r = rule_to_rect(&l2c, gp(3, 0), 10 * G, 2 * G).unwrap();
    assert!(denotes(r.origin, 6, 40));
    assert_eq!(r.width.num, 20 * r.width.den);
    assert_eq!(r.height.num, 4 * r.height.den);
    let huge = layout_to_canvas(i64::MAX, i64::MAX);
    assert!(rule_to_rect(&huge, GridPoint { x: i64::MAX, y: i64::MAX }, 1, 1).is_none());
}

#[test]
fn ignored_events_change_nothing() {
    let mut b = GPUIBackend::new(dims(20), 2 * G);
    b.bbox(gp(1, 1), 3 * G, 4 * G);
    b.begin_color(Rgba { r: 255, g: 0, b: 0, a: 255 });
    b.end_color();
    let (paths, rects) = b.paths_and_rects();
    assert!(paths.is_empty());
    assert!(rects.is_empty());
}

fn events() -> Vec<DrawEvent> {
    vec![
        glyph_at(5, 10),
        DrawEvent::BeginColor(Rgba { r: 0, g: 0, b: 255, a: 255 }),
        DrawEvent::Rule { pos: gp(3, 4), width: 10 * G, height: 2 * G },
        glyph_at(15, 10),
        DrawEvent::EndColor,
        DrawEvent::BoundingBox { pos: gp(0, 0), width: 50 * G, height: 30 * G },
        DrawEvent::Rule { pos: gp(0, 12), width: 40 * G, height: G / 2 },
    ]
}

#[test]
fn render_keeps_event_order() {
    let (paths, rects) = render(dims(30), G, &events());
    assert_eq!(paths.len(), 2);
    assert_eq!(rects.len(), 2);
    match paths[1].commands[0] {
        PathCommand::MoveTo(p) => assert!(denotes(p, 35, 0)),
        _ => panic!("expected a move"),
    }
    assert!(denotes(rects[0].origin, 3, 34));
    assert!(denotes(rects[1].origin, 0, 42));
    assert_eq!(rects[1].height.num * 2, rects[1].height.den);
}

#[test]
fn render_twice_gives_identical_output() {
    let (p1, r1) = render(dims(30), 3 * G, &events());
    let (p2, r2) = render(dims(30), 3 * G, &events());
    assert_eq!(r1, r2);
    assert_eq!(p1.len(), p2.len());
    for i in 0..p1.len() {
        assert_eq!(p1[i].commands, p2[i].commands);
    }
}

#[test]
fn path_count_is_glyphs_less_failures() {
    let bad = DrawEvent::Glyph {
        pos: gp(0, 0),
        outline: vec![OutlineCommand::MoveTo(GridPoint { x: i64::MAX, y: 0 })],
        scale: i64::MAX,
        font_matrix: FontMatrix { sx: i64::MAX, sy: 1 },
    };
    let evs = vec![glyph_at(0, 0), bad, glyph_at(1, 1)];
    let (paths, rects) = render(dims(30), G, &evs);
    assert_eq!(paths.len(), 2);
    assert!(rects.is_empty());
}

#[test]
fn empty_layout_gives_empty_output() {
    let (paths, rects) = render(dims(0), G, &vec![]);
    assert!(paths.is_empty());
    assert!(rects.is_empty());
    let evs = vec![
        DrawEvent::BeginColor(Rgba { r: 1, g: 2, b: 3, a: 4 }),
        DrawEvent::EndColor,
        DrawEvent::BoundingBox { pos: gp(0, 0), width: G, height: G },
    ];
    let (paths, rects) = render(dims(10), G, &evs);
    assert!(paths.is_empty());
    assert!(rects.is_empty());
}

#[test]
fn doubling_device_scale_doubles_geometry() {
    let (p1, r1) = render(dims(30), G, &events());
    let (p2, r2) = render(dims(30), 2 * G, &events());
    assert_eq!(p1.len(), p2.len());
    let twice = |a: &Point| Point { x: 2 * a.x, y: 2 * a.y, w: a.w };
    for i in 0..p1.len() {
        for (a, b) in p1[i].commands.iter().zip(p2[i].commands.iter()) {
            match (a, b) {
                (PathCommand::MoveTo(a), PathCommand::MoveTo(b))
                | (PathCommand::LineTo(a), PathCommand::LineTo(b)) => assert_eq!(*b, twice(a)),
                (
                    PathCommand::CubicTo { to: a, ctrl_a: a1, ctrl_b: a2 },
                    PathCommand::CubicTo { to: b, ctrl_a: b1, ctrl_b: b2 },
                ) => {
                    assert_eq!(*b, twice(a));
                    assert_eq!(*b1, twice(a1));
                    assert_eq!(*b2, twice(a2));
                }
                (PathCommand::Close, PathCommand::Close) => {}
                _ => panic!("commands differ in kind"),
            }
        }
    }
    for (a, b) in r1.iter().zip(r2.iter()) {
        assert_eq!(b.origin, twice(&a.origin));
        assert_eq!(b.width, Ratio { num: 2 * a.width.num, den: a.width.den });
        assert_eq!(b.height, Ratio { num: 2 * a.height.num, den: a.height.den });
    }
}
