use freestyle_sculpt::{HalfEdge, Position, SculptMesh, SculptParams, MAX_EDGE_LENGTH};

fn square(side: i32) -> SculptMesh {
    let positions = vec![
        Position::new(0, 0, 0),
        Position::new(side, 0, 0),
        Position::new(side, side, 0),
        Position::new(0, side, 0),
    ];
    let mut halfedges = Vec::new();
    for i in 0..4usize {
        halfedges.push(HalfEdge { from: i, to: (i + 1) % 4 });
        halfedges.push(HalfEdge { from: (i + 1) % 4, to: i });
    }
    SculptMesh { positions, faces: Vec::new(), halfedges }
}

#[test]
fn new_derives_ratios_of_the_squared_length() {
    let p = SculptParams::new(10);
    assert_eq!(p.max_edge_length_squared, 10000);
    assert_eq!(p.min_edge_length_squared, 2400);
    assert_eq!(p.max_move_dist_squared, 1100);
}

#[test]
fn new_keeps_short_lengths_apart() {
    let p = SculptParams::new(3);
    assert_eq!(p.max_edge_length_squared, 900);
    assert_eq!(p.min_edge_length_squared, 216);
    assert_eq!(p.max_move_dist_squared, 99);
    let q = SculptParams::new(1);
    assert_eq!((q.max_move_dist_squared, q.min_edge_length_squared, q.max_edge_length_squared), (11, 24, 100));
    assert!(0 < q.max_move_dist_squared);
    assert!(q.max_move_dist_squared < q.min_edge_length_squared);
    assert!(q.min_edge_length_squared < q.max_edge_length_squared);
}

#[test]
fn new_of_zero_is_all_zero() {
    let p = SculptParams::new(0);
    assert_eq!(p, SculptParams { max_move_dist_squared: 0, min_edge_length_squared: 0, max_edge_length_squared: 0 });
}

#[test]
fn new_of_the_largest_length() {
    let l = MAX_EDGE_LENGTH as u128;
    let sq = l * l;
    let p = SculptParams::new(MAX_EDGE_LENGTH);
    assert_eq!(p.max_edge_length_squared, 100 * sq);
    assert_eq!(p.min_edge_length_squared, 24 * sq);
    assert_eq!(p.max_move_dist_squared, 11 * sq);
}

#[test]
fn from_mesh_graph_on_uniform_edges_matches_new() {
    let mesh = square(10);
    assert_eq!(SculptParams::from_mesh_graph(&mesh), SculptParams::new(15));
    let p = SculptParams::from_mesh_graph(&mesh);
    assert_eq!(p.max_edge_length_squared, 22500);
    assert_eq!(p.min_edge_length_squared, 5400);
    assert_eq!(p.max_move_dist_squared, 2475);
}

#[test]
fn from_mesh_graph_averages_half_edges() {
    // Two half-edges of length 3 and 5: mean 4, target 6.
    let mesh = SculptMesh {
        positions: vec![Position::new(0, 0, 0), Position::new(3, 0, 0), Position::new(0, 4, 0)],
        faces: Vec::new(),
        halfedges: vec![HalfEdge { from: 0, to: 1 }, HalfEdge { from: 1, to: 2 }],
    };
    assert_eq!(mesh.halfedge_length(0), 3);
    assert_eq!(mesh.halfedge_length(1), 5);
    assert_eq!(SculptParams::from_mesh_graph(&mesh), SculptParams::new(6));
}

#[test]
fn halfedge_length_rounds_down() {
    let mesh = SculptMesh {
        positions: vec![Position::new(0, 0, 0), Position::new(1, 1, 1)],
        faces: Vec::new(),
        halfedges: vec![HalfEdge { from: 0, to: 1 }],
    };
    assert_eq!(mesh.halfedge_length(0), 1);
}
