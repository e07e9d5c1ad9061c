use math_paths::{AffineTransform, GRID, GridPoint, Point, layout_to_canvas};

const G: i64 = 65536;

fn pt(x: i128, y: i128) -> Point {
    Point { x, y, w: 1 }
}

/// Whether `p` stands for the point `(x, y)`.
fn denotes(p: Point, x: i128, y: i128) -> bool {
    p.x == x * p.w && p.y == y * p.w
}

#[test]
fn compose_then_apply_matches_applying_in_turn() {
    let a = AffineTransform { a: 2, b: 1, c: -3, d: 5, tx: 7, ty: -11, w: 3 };
    let b = AffineTransform { a: -4, b: 6, c: 1, d: 2, tx: 13, ty: 17, w: 5 };
    let p = Point { x: 19, y: -23, w: 2 };
    let direct = a.compose(&b).unwrap().apply(p).unwrap();
    let in_turn = a.apply(b.apply(p).unwrap()).unwrap();
    assert_eq!(direct, in_turn);
}

#[test]
fn compose_is_not_commutative() {
    let scale = AffineTransform { a: 2, b: 0, c: 0, d: 2, tx: 0, ty: 0, w: 1 };
    let shift = AffineTransform { a: 1, b: 0, c: 0, d: 1, tx: 3, ty: 0, w: 1 };
    let q1 = scale.compose(&shift).unwrap().apply(pt(1, 1)).unwrap();
    let q2 = shift.compose(&scale).unwrap().apply(pt(1, 1)).unwrap();
    assert!(denotes(q1, 8, 2));
    assert!(denotes(q2, 5, 2));
}

#[test]
fn compose_exact_entries() {
    let a = AffineTransform { a: 2, b: 0, c: 0, d: 3, tx: 1, ty: 4, w: 1 };
    let b = AffineTransform { a: 5, b: 0, c: 0, d: 7, tx: 2, ty: 6, w: 2 };
    let ab = a.compose(&b).unwrap();
    assert_eq!(ab, AffineTransform { a: 10, b: 0, c: 0, d: 21, tx: 6, ty: 26, w: 2 });
}

#[test]
fn compose_overflow_is_none() {
    let big = AffineTransform { a: i128::MAX, b: 0, c: 0, d: 1, tx: 0, ty: 0, w: 1 };
    assert!(big.compose(&big).is_none());
    assert!(big.apply(pt(2, 0)).is_none());
    assert!(big.apply(pt(1, 0)).is_some());
}

#[test]
fn grid_point_to_point() {
    let p = GridPoint { x: 3 * G, y: -G / 2 }.to_point();
    assert_eq!(p, Point { x: 3 * 65536, y: -32768, w: GRID });
    assert!(denotes(Point { x: p.x * 2, y: p.y * 2, w: p.w }, 6, -1));
}

#[test]
fn layout_to_canvas_entries() {
    let t = layout_to_canvas(20 * G, 2 * G);
    let g = GRID;
    assert_eq!(t, AffineTransform { a: 2 * g * g, b: 0, c: 0, d: 2 * g * g, tx: 0, ty: 40 * g * g, w: g * g });
}

#[test]
fn layout_to_canvas_origin_lands_at_h_times_s() {
    let t = layout_to_canvas(20 * G, 2 * G);
    assert!(denotes(t.apply(pt(0, 0)).unwrap(), 0, 40));
    let t = layout_to_canvas(7 * G / 2, 4 * G);
    assert!(denotes(t.apply(pt(0, 0)).unwrap(), 0, 14));
}

#[test]
fn layout_to_canvas_scales_and_shifts_points() {
    let t = layout_to_canvas(20 * G, 2 * G);
    // The translation adds h * s to y * s.
    assert!(denotes(t.apply(pt(3, 0)).unwrap(), 6, 40));
    assert!(denotes(t.apply(pt(3, 4)).unwrap(), 6, 48));
    assert!(denotes(t.apply(pt(-5, -20)).unwrap(), -10, 0));
}

#[test]
fn layout_to_canvas_takes_any_inputs() {
    let t = layout_to_canvas(i64::MAX, i64::MIN);
    assert_eq!(t.ty, (i64::MAX as i128) * (i64::MIN as i128));
    assert_eq!(t.w, GRID * GRID);
}
