use vstd::prelude::*;

use crate::geometry::{Aabb, DistanceCalculator, Position, L2};
use crate::mesh::SculptMesh;
use crate::selectors::{
    faces_in_box, faces_meeting_box, MeshSelector, Selection, WeightedSelection,
};
use crate::vertex_set::{vertex_set_contents, VertexSet};
use crate::weight::{lemma_weight_core_and_outside, FalloffFn, SphereWeight, WeightFn};

verus! {

/// Vertex `v` lies on one of the faces listed in `faces`.
pub open spec fn on_listed_face(mesh_graph: &SculptMesh, faces: Seq<usize>, v: int) -> bool {
    exists|k: int|
        0 <= k < faces.len() && #[trigger] mesh_graph.faces@[faces[k] as int].has_vertex(v)
}

/// Selects the vertices within `radius + falloff` of the input position,
/// under the metric `metric_squared`, and every face that touches one of
/// them. The weight is full within `radius` and shaped by `falloff_func`
/// over the `falloff` units after it.
#[derive(Clone, Copy, Debug)]
pub struct MetricWithFalloff<D, F> {
    pub radius: u32,
    pub falloff: u32,
    pub metric_squared: D,
    pub falloff_func: F,
}

impl<F: FalloffFn> MetricWithFalloff<L2, F> {
    /// A selector whose metric is plain Euclidean distance.
    pub fn sphere(radius: u32, falloff: u32, falloff_func: F) -> (r: Self)
        ensures
            r.radius == radius,
            r.falloff == falloff,
            r.metric_squared == L2,
            r.falloff_func == falloff_func,
    {
        MetricWithFalloff { radius, falloff, metric_squared: L2, falloff_func }
    }
}

impl<D: DistanceCalculator + Copy, F: FalloffFn + Copy> MetricWithFalloff<D, F> {
    pub open spec fn outer_sq(&self) -> int {
        (self.radius + self.falloff) * (self.radius + self.falloff)
    }

    /// The box that reaches `radius + falloff` from `input_pos` along every axis.
    pub open spec fn query_box(&self, input_pos: Position) -> Aabb {
        let h = self.radius + self.falloff;
        Aabb {
            min_x: (input_pos.x - h) as i64,
            min_y: (input_pos.y - h) as i64,
            min_z: (input_pos.z - h) as i64,
            max_x: (input_pos.x + h) as i64,
            max_y: (input_pos.y + h) as i64,
            max_z: (input_pos.z + h) as i64,
        }
    }

    /// Vertex `v` is within `radius + falloff` of `input_pos` under the
    /// metric. A brush of no size reaches nothing.
    pub open spec fn within_reach(&self, mesh_graph: &SculptMesh, input_pos: Position, v: int) -> bool {
        &&& self.radius + self.falloff > 0
        &&& self.metric_squared.spec_distance_squared(mesh_graph.positions@[v], input_pos)
            <= self.outer_sq()
    }

    /// Vertex `v` lies on a candidate face and is within reach.
    pub open spec fn retained(
        &self,
        mesh_graph: &SculptMesh,
        input_pos: Position,
        candidates: Seq<usize>,
        v: int,
    ) -> bool {
        on_listed_face(mesh_graph, candidates, v) && self.within_reach(
            mesh_graph,
            input_pos,
            v,
        )
    }

    /// Face `f` has a retained vertex.
    pub open spec fn face_selected(
        &self,
        mesh_graph: &SculptMesh,
        input_pos: Position,
        candidates: Seq<usize>,
        f: int,
    ) -> bool {
        let t = mesh_graph.faces@[f];
        self.retained(mesh_graph, input_pos, candidates, t.a as int) || self.retained(
            mesh_graph,
            input_pos,
            candidates,
            t.b as int,
        ) || self.retained(mesh_graph, input_pos, candidates, t.c as int)
    }

    /// The selected faces among the first `n`, ascending.
    pub open spec fn selected_upto(
        &self,
        mesh_graph: &SculptMesh,
        input_pos: Position,
        candidates: Seq<usize>,
        n: int,
    ) -> Seq<usize>
        decreases n,
    {
        if n <= 0 {
            Seq::empty()
        } else if self.face_selected(mesh_graph, input_pos, candidates, n - 1) {
            self.selected_upto(mesh_graph, input_pos, candidates, n - 1).push((n - 1) as usize)
        } else {
            self.selected_upto(mesh_graph, input_pos, candidates, n - 1)
        }
    }

    /// The weight of a stroke at `input_pos`: that of the brush, or, on a
    /// mesh without faces, that of a brush of no size, zero everywhere.
    pub open spec fn weight_for(&self, mesh_graph: &SculptMesh, input_pos: Position) -> SphereWeight<
        D,
        F,
    > {
        let size = if mesh_graph.faces@.len() == 0 {
            0u32
        } else {
            1u32
        };
        SphereWeight {
            center: input_pos,
            radius: (self.radius * size) as u32,
            falloff: (self.falloff * size) as u32,
            falloff_func: self.falloff_func,
            metric_squared: self.metric_squared,
        }
    }

    /// The selection for a stroke at `input_pos`, given the faces that a
    /// broad first pass (a spatial index) found near it: the vertices on
    /// those faces that are within reach, and every face that touches one.
    /// A brush of no size selects nothing, and on a mesh without faces the
    /// weight is zero everywhere.
    pub fn select_among(
        &self,
        mesh_graph: &SculptMesh,
        input_pos: Position,
        potential_faces: &Vec<usize>,
    ) -> (r: WeightedSelection<SphereWeight<D, F>>)
        requires
            mesh_graph.wf(),
            forall|k: int|
                0 <= k < potential_faces@.len() ==> #[trigger] potential_faces@[k]
                    < mesh_graph.faces@.len(),
        ensures
            r.selection.faces@ == self.selected_upto(
                mesh_graph,
                input_pos,
                potential_faces@,
                mesh_graph.faces@.len() as int,
            ),
            forall|k: int|
                0 <= k < r.selection.faces@.len() ==> {
                    let t = mesh_graph.faces@[#[trigger] r.selection.faces@[k] as int];
                    self.within_reach(mesh_graph, input_pos, t.a as int) || self.within_reach(
                        mesh_graph,
                        input_pos,
                        t.b as int,
                    ) || self.within_reach(mesh_graph, input_pos, t.c as int)
                },
            self.radius + self.falloff == 0 ==> r.selection.faces@.len() == 0,
            r.get_weight == self.weight_for(mesh_graph, input_pos),
            mesh_graph.faces@.len() == 0 ==> r.selection.faces@.len() == 0 && forall|p: Position|
                r.get_weight.spec_weight(p) == 0,
    {
        let nv = mesh_graph.positions.len();
        let nf = mesh_graph.faces.len();
        let candidates = potential_faces;

        // The vertices of the candidate faces.
        let mut on_candidate = VertexSet::new();
        let mut j: usize = 0;
        while j < candidates.len()
            invariant
                mesh_graph.wf(),
                nf == mesh_graph.faces@.len(),
                forall|k: int| 0 <= k < candidates@.len() ==> #[trigger] candidates@[k] < nf,
                j <= candidates@.len(),
                forall|u: usize|
                    #[trigger] vertex_set_contents(on_candidate).contains(u) <==> exists|k: int|
                        0 <= k < j && #[trigger] mesh_graph.faces@[candidates@[k] as int].has_vertex(
                            u as int,
                        ),
            decreases candidates@.len() - j,
        {
            let t = mesh_graph.faces[candidates[j]];
            on_candidate.insert(t.a);
            on_candidate.insert(t.b);
            on_candidate.insert(t.c);
            proof {
                assert forall|u: usize|
                    #[trigger] vertex_set_contents(on_candidate).contains(u) <==> exists|k: int|
                        0 <= k < j + 1 && #[trigger] mesh_graph.faces@[candidates@[k] as int].has_vertex(
                            u as int,
                        ) by {
                    if mesh_graph.faces@[candidates@[j as int] as int].has_vertex(u as int) {
                        assert(0 <= j < j + 1);
                    }
                    if exists|k: int|
                        0 <= k < j + 1 && #[trigger] mesh_graph.faces@[candidates@[k] as int].has_vertex(
                            u as int,
                        ) {
                        let k = choose|k: int|
                            0 <= k < j + 1 && #[trigger] mesh_graph.faces@[candidates@[k] as int].has_vertex(
                                u as int,
                            );
                        if k < j {
                            assert(0 <= k < j);
                        }
                    }
                }
            }
            j = j + 1;
        }

        let outer: u64 = self.radius as u64 + self.falloff as u64;
        assert(outer * outer <= 0x2_0000_0000 * 0x2_0000_0000) by (nonlinear_arith)
            requires outer <= 0x2_0000_0000;
        let outer_sq: u128 = outer as u128 * outer as u128;

        // Narrow pass: keep those within reach under the metric.
        let mut retained = VertexSet::new();
        let mut v: usize = 0;
        while v < nv
            invariant
                mesh_graph.wf(),
                nv == mesh_graph.positions@.len(),
                v <= nv,
                outer == self.radius + self.falloff,
                outer_sq == self.outer_sq(),
                forall|u: usize|
                    #[trigger] vertex_set_contents(on_candidate).contains(u) <==> on_listed_face(
                        mesh_graph,
                        candidates@,
                        u as int,
                    ),
                forall|u: usize|
                    #[trigger] vertex_set_contents(retained).contains(u) <==> u < v
                        && self.retained(mesh_graph, input_pos, candidates@, u as int),
            decreases nv - v,
        {
            if outer > 0 && on_candidate.contains(v) && self.metric_squared.distance_squared(
                mesh_graph.positions[v],
                input_pos,
            ) <= outer_sq {
                retained.insert(v);
            }
            v = v + 1;
        }

        // Every face that touches a kept vertex.
        let mut faces: Vec<usize> = Vec::new();
        let mut f: usize = 0;
        while f < nf
            invariant
                mesh_graph.wf(),
                nv == mesh_graph.positions@.len(),
                nf == mesh_graph.faces@.len(),
                f <= nf,
                forall|u: usize|
                    #[trigger] vertex_set_contents(retained).contains(u) <==> u < nv
                        && self.retained(mesh_graph, input_pos, candidates@, u as int),
                faces@ == self.selected_upto(mesh_graph, input_pos, candidates@, f as int),
                forall|k: int|
                    0 <= k < faces@.len() ==> #[trigger] faces@[k] < f && self.face_selected(
                        mesh_graph,
                        input_pos,
                        candidates@,
                        faces@[k] as int,
                    ),
            decreases nf - f,
        {
            let t = mesh_graph.faces[f];
            if retained.contains(t.a) || retained.contains(t.b) || retained.contains(t.c) {
                faces.push(f);
            }
            f = f + 1;
        }

        let (radius, falloff) = if nf == 0 {
            (0u32, 0u32)
        } else {
            (self.radius, self.falloff)
        };
        let get_weight = SphereWeight {
            center: input_pos,
            radius,
            falloff,
            falloff_func: self.falloff_func,
            metric_squared: self.metric_squared,
        };
        proof {
            if self.radius + self.falloff == 0 {
                lemma_zero_brush_upto(*self, mesh_graph, input_pos, candidates@, nf as int);
            }
            if nf == 0 {
                assert forall|p: Position| get_weight.spec_weight(p) == 0 by {
                    lemma_weight_core_and_outside(get_weight, p);
                }
            }
        }
        WeightedSelection { selection: Selection { faces }, get_weight }
    }
}

impl<D: DistanceCalculator + Copy, F: FalloffFn + Copy> MeshSelector for MetricWithFalloff<D, F> {
    type Weight = SphereWeight<D, F>;

    open spec fn spec_selected_faces(
        &self,
        mesh_graph: &SculptMesh,
        input_pos: Position,
        input_face: usize,
    ) -> Seq<usize> {
        let n = mesh_graph.faces@.len() as int;
        self.selected_upto(
            mesh_graph,
            input_pos,
            faces_meeting_box(mesh_graph, self.query_box(input_pos), n),
            n,
        )
    }

    open spec fn spec_weight_fn(&self, mesh_graph: &SculptMesh, input_pos: Position) -> SphereWeight<
        D,
        F,
    > {
        self.weight_for(mesh_graph, input_pos)
    }

    /// Selects around `input_pos`; this strategy has no use for `input_face`.
    fn select(&self, mesh_graph: &SculptMesh, input_pos: Position, input_face: usize) -> (r:
        WeightedSelection<SphereWeight<D, F>>) {
        let reach: u64 = self.radius as u64 + self.falloff as u64;
        let query = Aabb::from_half_extents(input_pos, reach);
        assert(query == self.query_box(input_pos));
        let potential_faces = faces_in_box(mesh_graph, &query);
        self.select_among(mesh_graph, input_pos, &potential_faces)
    }
}

/// Every face that a selection holds touches a vertex that lies on a
/// candidate face and within `radius + falloff` of the input position; no
/// vertex farther away brings a face in.
pub proof fn lemma_selection_sound<D: DistanceCalculator + Copy, F: FalloffFn + Copy>(
    selector: MetricWithFalloff<D, F>,
    mesh_graph: &SculptMesh,
    input_pos: Position,
    candidates: Seq<usize>,
    n: usize,
    k: int,
)
    requires
        n <= mesh_graph.faces@.len(),
        0 <= k < selector.selected_upto(mesh_graph, input_pos, candidates, n as int).len(),
    ensures
        ({
            let t = mesh_graph.faces@[selector.selected_upto(
                mesh_graph,
                input_pos,
                candidates,
                n as int,
            )[k] as int];
            ||| selector.retained(mesh_graph, input_pos, candidates, t.a as int)
            ||| selector.retained(mesh_graph, input_pos, candidates, t.b as int)
            ||| selector.retained(mesh_graph, input_pos, candidates, t.c as int)
        }),
    decreases n,
{
    if n > 0 {
        let prev = selector.selected_upto(mesh_graph, input_pos, candidates, n - 1 as int);
        if k < prev.len() {
            lemma_selection_sound(selector, mesh_graph, input_pos, candidates, (n - 1) as usize, k);
        }
    }
}

/// A brush of zero radius and zero falloff selects no face, whatever the
/// candidates, and weighs every position zero.
pub proof fn lemma_zero_brush_is_empty<D: DistanceCalculator + Copy, F: FalloffFn + Copy>(
    selector: MetricWithFalloff<D, F>,
    mesh_graph: &SculptMesh,
    input_pos: Position,
    input_face: usize,
    candidates: Seq<usize>,
    p: Position,
)
    requires
        selector.radius == 0,
        selector.falloff == 0,
    ensures
        selector.selected_upto(
            mesh_graph,
            input_pos,
            candidates,
            mesh_graph.faces@.len() as int,
        ) == Seq::<usize>::empty(),
        selector.spec_selected_faces(mesh_graph, input_pos, input_face) == Seq::<usize>::empty(),
        selector.weight_for(mesh_graph, input_pos).spec_weight(p) == 0,
{
    let n = mesh_graph.faces@.len() as int;
    let w = selector.weight_for(mesh_graph, input_pos);
    lemma_weight_core_and_outside(w, p);
    assert(w.outer() * w.outer() == 0);
    lemma_zero_brush_upto(selector, mesh_graph, input_pos, candidates, n);
    lemma_zero_brush_upto(
        selector,
        mesh_graph,
        input_pos,
        faces_meeting_box(mesh_graph, selector.query_box(input_pos), n),
        n,
    );
}

proof fn lemma_zero_brush_upto<D: DistanceCalculator + Copy, F: FalloffFn + Copy>(
    selector: MetricWithFalloff<D, F>,
    mesh_graph: &SculptMesh,
    input_pos: Position,
    candidates: Seq<usize>,
    n: int,
)
    requires
        selector.radius + selector.falloff == 0,
    ensures
        selector.selected_upto(mesh_graph, input_pos, candidates, n) == Seq::<usize>::empty(),
    decreases n,
{
    if n > 0 {
        lemma_zero_brush_upto(selector, mesh_graph, input_pos, candidates, n - 1);
    }
}

} // verus!
