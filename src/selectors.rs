use vstd::prelude::*;

use crate::geometry::{Aabb, Position};
use crate::mesh::{SculptMesh, Triangle};
use crate::weight::WeightFn;

verus! {

/// The affected region of a mesh: face indices, each once, ascending.
#[derive(Clone, Debug, PartialEq, Eq)]
pub struct Selection {
    pub faces: Vec<usize>,
}

/// A selection together with the weight that scales the move of each
/// position in it.
pub struct WeightedSelection<W> {
    pub selection: Selection,
    pub get_weight: W,
}

/// A strategy that decides which part of a mesh a brush stroke affects.
///
/// Implementations only read the mesh, and their result depends on the mesh,
/// the input position and the input face alone. A mesh without faces gives
/// an empty selection and a weight of zero everywhere.
pub trait MeshSelector {
    type Weight: WeightFn;

    spec fn spec_selected_faces(
        &self,
        mesh_graph: &SculptMesh,
        input_pos: Position,
        input_face: usize,
    ) -> Seq<usize>;

    spec fn spec_weight_fn(&self, mesh_graph: &SculptMesh, input_pos: Position) -> Self::Weight;

    fn select(&self, mesh_graph: &SculptMesh, input_pos: Position, input_face: usize) -> (r:
        WeightedSelection<Self::Weight>)
        requires
            mesh_graph.wf(),
        ensures
            r.selection.faces@ == self.spec_selected_faces(mesh_graph, input_pos, input_face),
            r.get_weight == self.spec_weight_fn(mesh_graph, input_pos),
            mesh_graph.faces@.len() == 0 ==> r.selection.faces@.len() == 0 && forall|p: Position|
                r.get_weight.spec_weight(p) == 0,
    ;
}

/// Running a selector twice on the same mesh and input gives the same faces
/// and a weight that agrees at every position.
pub proof fn lemma_select_deterministic<S: MeshSelector>(
    selector: &S,
    mesh_graph: &SculptMesh,
    input_pos: Position,
    input_face: usize,
    a: &WeightedSelection<S::Weight>,
    b: &WeightedSelection<S::Weight>,
)
    requires
        a.selection.faces@ == selector.spec_selected_faces(mesh_graph, input_pos, input_face),
        a.get_weight == selector.spec_weight_fn(mesh_graph, input_pos),
        b.selection.faces@ == selector.spec_selected_faces(mesh_graph, input_pos, input_face),
        b.get_weight == selector.spec_weight_fn(mesh_graph, input_pos),
    ensures
        a.selection.faces@ == b.selection.faces@,
        forall|p: Position| a.get_weight.spec_weight(p) == b.get_weight.spec_weight(p),
{
}

pub open spec fn min3(a: int, b: int, c: int) -> int {
    if a <= b && a <= c {
        a
    } else if b <= c {
        b
    } else {
        c
    }
}

pub open spec fn max3(a: int, b: int, c: int) -> int {
    if a >= b && a >= c {
        a
    } else if b >= c {
        b
    } else {
        c
    }
}

fn min3_exec(a: i32, b: i32, c: i32) -> (r: i32)
    ensures
        r == min3(a as int, b as int, c as int),
{
    if a <= b && a <= c {
        a
    } else if b <= c {
        b
    } else {
        c
    }
}

fn max3_exec(a: i32, b: i32, c: i32) -> (r: i32)
    ensures
        r == max3(a as int, b as int, c as int),
{
    if a >= b && a >= c {
        a
    } else if b >= c {
        b
    } else {
        c
    }
}

/// The bounding box of triangle `t` meets box `b`.
pub open spec fn triangle_meets_box(mesh_graph: &SculptMesh, t: Triangle, b: Aabb) -> bool {
    let pa = mesh_graph.positions@[t.a as int];
    let pb = mesh_graph.positions@[t.b as int];
    let pc = mesh_graph.positions@[t.c as int];
    &&& b.min_x <= max3(pa.x as int, pb.x as int, pc.x as int)
    &&& min3(pa.x as int, pb.x as int, pc.x as int) <= b.max_x
    &&& b.min_y <= max3(pa.y as int, pb.y as int, pc.y as int)
    &&& min3(pa.y as int, pb.y as int, pc.y as int) <= b.max_y
    &&& b.min_z <= max3(pa.z as int, pb.z as int, pc.z as int)
    &&& min3(pa.z as int, pb.z as int, pc.z as int) <= b.max_z
}

/// The faces among the first `n` whose bounding box meets `b`, ascending.
pub open spec fn faces_meeting_box(mesh_graph: &SculptMesh, b: Aabb, n: int) -> Seq<usize>
    decreases n,
{
    if n <= 0 {
        Seq::empty()
    } else if triangle_meets_box(mesh_graph, mesh_graph.faces@[n - 1], b) {
        faces_meeting_box(mesh_graph, b, n - 1).push((n - 1) as usize)
    } else {
        faces_meeting_box(mesh_graph, b, n - 1)
    }
}

/// The faces whose bounding box meets `b`: a broad, conservative first pass
/// of a selection.
pub fn faces_in_box(mesh_graph: &SculptMesh, b: &Aabb) -> (r: Vec<usize>)
    requires
        mesh_graph.wf(),
    ensures
        r@ == faces_meeting_box(mesh_graph, *b, mesh_graph.faces@.len() as int),
        forall|k: int| 0 <= k < r@.len() ==> #[trigger] r@[k] < mesh_graph.faces@.len(),
{
    let mut out: Vec<usize> = Vec::new();
    let n = mesh_graph.faces.len();
    let mut f: usize = 0;
    while f < n
        invariant
            mesh_graph.wf(),
            n == mesh_graph.faces@.len(),
            f <= n,
            out@ == faces_meeting_box(mesh_graph, *b, f as int),
            forall|k: int| 0 <= k < out@.len() ==> #[trigger] out@[k] < f,
        decreases n - f,
    {
        let t = mesh_graph.faces[f];
        let pa = mesh_graph.positions[t.a];
        let pb = mesh_graph.positions[t.b];
        let pc = mesh_graph.positions[t.c];
        let meets = b.min_x <= max3_exec(pa.x, pb.x, pc.x) as i64 && min3_exec(pa.x, pb.x, pc.x)
            as i64 <= b.max_x && b.min_y <= max3_exec(pa.y, pb.y, pc.y) as i64 && min3_exec(
            pa.y,
            pb.y,
            pc.y,
        ) as i64 <= b.max_y && b.min_z <= max3_exec(pa.z, pb.z, pc.z) as i64 && min3_exec(
            pa.z,
            pb.z,
            pc.z,
        ) as i64 <= b.max_z;
        if meets {
            out.push(f);
        }
        f = f + 1;
    }
    out
}

} // verus!
