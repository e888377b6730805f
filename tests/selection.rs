use freestyle_sculpt::{
    faces_in_box, Aabb, FalloffFn, Linear, MeshSelector, MetricWithFalloff, Position, SculptMesh,
    Triangle, WeightFn, WEIGHT_ONE,
};

/// Vertices near the top of a sphere of radius 1000 units, and one at the
/// bottom, with four faces.
fn sphere_cap() -> SculptMesh {
    let positions = vec![
        Position::new(0, 0, 1000),  // pole, distance 0
        Position::new(300, 0, 954), // distance 303
        Position::new(0, 300, 954), // distance 303
        Position::new(600, 0, 800), // distance 632
        Position::new(0, 600, 800), // distance 632
        Position::new(800, 0, 600), // distance 894
        Position::new(0, 800, 600), // distance 894
        Position::new(0, 0, -1000), // distance 2000
    ];
    let faces = vec![
        Triangle { a: 0, b: 1, c: 2 },
        Triangle { a: 1, b: 3, c: 4 },
        Triangle { a: 3, b: 5, c: 6 },
        Triangle { a: 5, b: 6, c: 7 },
    ];
    SculptMesh { positions, faces, halfedges: Vec::new() }
}

fn pole() -> Position {
    Position::new(0, 0, 1000)
}

#[test]
fn sphere_brush_at_the_pole() {
    let mesh = sphere_cap();
    let brush = MetricWithFalloff::sphere(500, 200, Linear);
    let ws = brush.select(&mesh, pole(), 0);
    assert_eq!(ws.selection.faces, vec![0, 1, 2]);
    let w = &ws.get_weight;
    assert_eq!(w.weight(mesh.positions[0]), WEIGHT_ONE);
    assert_eq!(w.weight(mesh.positions[1]), WEIGHT_ONE);
    assert_eq!(w.weight(mesh.positions[3]), 22282);
    assert_eq!(w.weight(mesh.positions[5]), 0);
    assert_eq!(w.weight(mesh.positions[7]), 0);
}

#[test]
fn weight_is_linear_across_the_band() {
    let brush = MetricWithFalloff::sphere(500, 200, Linear);
    let ws = brush.select(&sphere_cap(), pole(), 0);
    let w = &ws.get_weight;
    assert_eq!(w.weight(Position::new(500, 0, 1000)), WEIGHT_ONE);
    assert_eq!(w.weight(Position::new(550, 0, 1000)), 49152);
    assert_eq!(w.weight(Position::new(600, 0, 1000)), 32768);
    assert_eq!(w.weight(Position::new(650, 0, 1000)), 16384);
    assert_eq!(w.weight(Position::new(699, 0, 1000)), 327);
    assert_eq!(w.weight(Position::new(700, 0, 1000)), 0);
    assert_eq!(w.weight(Position::new(0, 0, 0)), 0);
}

#[test]
fn weight_never_grows_with_distance() {
    let brush = MetricWithFalloff::sphere(500, 200, Linear);
    let ws = brush.select(&sphere_cap(), pole(), 0);
    let mut last = u32::MAX;
    for x in 0..800 {
        let w = ws.get_weight.weight(Position::new(x, 0, 1000));
        assert!(w <= last);
        last = w;
    }
}

#[test]
fn selected_faces_touch_a_vertex_in_reach() {
    let mesh = sphere_cap();
    let brush = MetricWithFalloff::sphere(500, 200, Linear);
    let ws = brush.select(&mesh, pole(), 0);
    for &f in &ws.selection.faces {
        let t = mesh.faces[f];
        let near = [t.a, t.b, t.c].iter().any(|&v| {
            let p = mesh.positions[v];
            let (dx, dy, dz) = (p.x as i64, p.y as i64, p.z as i64 - 1000);
            dx * dx + dy * dy + dz * dz <= 700 * 700
        });
        assert!(near);
    }
}

#[test]
fn zero_brush_selects_nothing() {
    let mesh = sphere_cap();
    let brush = MetricWithFalloff::sphere(0, 0, Linear);
    let ws = brush.select(&mesh, Position::new(1, 1, 1), 0);
    assert!(ws.selection.faces.is_empty());
    assert_eq!(ws.get_weight.weight(Position::new(1, 1, 1)), 0);
    assert_eq!(ws.get_weight.weight(mesh.positions[0]), 0);
}

#[test]
fn zero_brush_on_a_vertex_selects_nothing() {
    let mesh = sphere_cap();
    let brush = MetricWithFalloff::sphere(0, 0, Linear);
    let ws = brush.select(&mesh, mesh.positions[1], 0);
    assert!(ws.selection.faces.is_empty());
    assert!(brush.select_among(&mesh, mesh.positions[1], &vec![0, 1]).selection.faces.is_empty());
    assert_eq!(ws.get_weight.weight(mesh.positions[1]), 0);
}

#[test]
fn empty_mesh_selects_nothing() {
    let mesh = SculptMesh { positions: Vec::new(), faces: Vec::new(), halfedges: Vec::new() };
    let brush = MetricWithFalloff::sphere(500, 200, Linear);
    let ws = brush.select(&mesh, pole(), 0);
    assert!(ws.selection.faces.is_empty());
    assert_eq!(ws.get_weight.weight(pole()), 0);
    assert_eq!(ws.get_weight.weight(Position::new(100, 0, 1000)), 0);
    assert_eq!(ws.get_weight.weight(Position::new(650, 0, 1000)), 0);
}

#[test]
fn one_unit_brush_reaches_a_vertex_on_its_centre() {
    let mesh = sphere_cap();
    let brush = MetricWithFalloff::sphere(1, 0, Linear);
    let ws = brush.select(&mesh, mesh.positions[1], 0);
    assert_eq!(ws.selection.faces, vec![0, 1]);
}

#[test]
fn selecting_twice_gives_the_same_result() {
    let mesh = sphere_cap();
    let brush = MetricWithFalloff::sphere(500, 200, Linear);
    let a = brush.select(&mesh, pole(), 0);
    let b = brush.select(&mesh, pole(), 3);
    assert_eq!(a.selection, b.selection);
    for x in (0..1000).step_by(7) {
        let p = Position::new(x, 3, 990);
        assert_eq!(a.get_weight.weight(p), b.get_weight.weight(p));
    }
}

#[test]
fn select_among_keeps_to_the_candidates() {
    let mesh = sphere_cap();
    let brush = MetricWithFalloff::sphere(500, 200, Linear);
    assert!(brush.select_among(&mesh, pole(), &vec![3]).selection.faces.is_empty());
    assert_eq!(brush.select_among(&mesh, pole(), &vec![1]).selection.faces, vec![0, 1, 2]);
    assert_eq!(brush.select_among(&mesh, pole(), &vec![2, 2]).selection.faces, vec![1, 2]);
}

#[test]
fn faces_in_box_is_a_broad_pass() {
    let mesh = sphere_cap();
    // The last face's box reaches into the query box though no vertex of it
    // is within reach: the broad pass over-approximates.
    let b = Aabb::from_half_extents(pole(), 700);
    assert_eq!(faces_in_box(&mesh, &b), vec![0, 1, 2, 3]);
    let small = Aabb::from_half_extents(pole(), 100);
    assert_eq!(faces_in_box(&mesh, &small), vec![0, 1]);
    let far = Aabb::from_half_extents(Position::new(0, 0, -1000), 10);
    assert_eq!(faces_in_box(&mesh, &far), vec![3]);
}

#[test]
fn linear_falloff_is_the_identity() {
    assert_eq!(Linear.apply(0), 0);
    assert_eq!(Linear.apply(1234), 1234);
    assert_eq!(Linear.apply(WEIGHT_ONE), WEIGHT_ONE);
}
