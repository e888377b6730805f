use vstd::prelude::*;

use crate::geometry::euclid_sq;
use crate::mesh::{SculptMesh, MAX_LENGTH};

verus! {

/// The thresholds that bound one sculpting step, as squared lengths in
/// hundredths of a squared mesh unit. Built once from a target edge length;
/// a new value is made when they must change.
#[derive(Clone, Copy, Debug, PartialEq, Eq, Structural)]
pub struct SculptParams {
    pub max_move_dist_squared: u128,
    pub min_edge_length_squared: u128,
    pub max_edge_length_squared: u128,
}

/// The longest edge length whose squared thresholds fit the fields.
pub const MAX_EDGE_LENGTH: u64 = 0x1000_0000_0000_0000;

impl SculptParams {
    /// The thresholds that follow from a maximum edge length `l`, in
    /// hundredths of a squared unit: the maximum itself squared, 24% of that
    /// as the minimum squared, and 11% of it as the largest squared move of a
    /// single step.
    pub open spec fn derived_from(self, l: int) -> bool {
        &&& self.max_edge_length_squared == 100 * (l * l)
        &&& self.min_edge_length_squared == 24 * (l * l)
        &&& self.max_move_dist_squared == 11 * (l * l)
    }

    /// The parameters for the maximum edge length `max_edge_length`. For any
    /// positive length one step moves less than the shortest edge allowed,
    /// which is shorter than the longest.
    pub fn new(max_edge_length: u64) -> (r: Self)
        requires
            max_edge_length <= MAX_EDGE_LENGTH,
        ensures
            r.derived_from(max_edge_length as int),
            max_edge_length > 0 ==> 0 < r.max_move_dist_squared < r.min_edge_length_squared
                < r.max_edge_length_squared,
    {
        let l = max_edge_length as u128;
        assert(l * l <= 0x1000_0000_0000_0000 * 0x1000_0000_0000_0000) by (nonlinear_arith)
            requires l <= 0x1000_0000_0000_0000;
        assert(l > 0 ==> l * l > 0) by (nonlinear_arith);
        let sq: u128 = l * l;
        SculptParams {
            max_move_dist_squared: 11 * sq,
            min_edge_length_squared: 24 * sq,
            max_edge_length_squared: 100 * sq,
        }
    }

    /// The parameters for a maximum edge length of one and a half times the
    /// mesh's mean half-edge length.
    pub fn from_mesh_graph(mesh_graph: &SculptMesh) -> (r: Self)
        requires
            mesh_graph.wf(),
            mesh_graph.halfedges@.len() > 0,
        ensures
            r.derived_from((mesh_graph.mean_halfedge_length() * 3) / 2),
    {
        let n = mesh_graph.halfedges.len();
        let mut total: u128 = 0;
        let mut i: usize = 0;
        while i < n
            invariant
                mesh_graph.wf(),
                n == mesh_graph.halfedges@.len(),
                i <= n,
                total == mesh_graph.total_length(i as int),
                total <= i * MAX_LENGTH,
            decreases n - i,
        {
            let len = mesh_graph.halfedge_length(i);
            total = total + len as u128;
            i = i + 1;
        }
        let mean: u128 = total / (n as u128);
        proof {
            vstd::arithmetic::div_mod::lemma_div_is_ordered(
                total as int,
                n * MAX_LENGTH,
                n as int,
            );
            vstd::arithmetic::div_mod::lemma_div_by_multiple(MAX_LENGTH as int, n as int);
            assert((n * MAX_LENGTH) / (n as int) == MAX_LENGTH) by (nonlinear_arith)
                requires (MAX_LENGTH * n) / (n as int) == MAX_LENGTH;
        }
        let edge: u64 = (mean + mean / 2) as u64;
        assert(edge <= MAX_EDGE_LENGTH);
        assert(edge == (mean * 3) / 2);
        Self::new(edge)
    }
}

/// On a mesh whose half-edges all have length `e`, the parameters taken from
/// the mesh are those of a maximum edge length of one and a half times `e`.
pub proof fn lemma_uniform_mesh_params(mesh_graph: &SculptMesh, e: int)
    requires
        mesh_graph.wf(),
        mesh_graph.halfedges@.len() > 0,
        forall|h: int|
            0 <= h < mesh_graph.halfedges@.len() ==> #[trigger] mesh_graph.spec_halfedge_length(h)
                == e,
    ensures
        mesh_graph.mean_halfedge_length() == e,
        forall|p: SculptParams|
            #[trigger] p.derived_from((mesh_graph.mean_halfedge_length() * 3) / 2)
                <==> p.derived_from((e * 3) / 2),
{
    let n = mesh_graph.halfedges@.len() as int;
    lemma_total_length_uniform(mesh_graph, e, n);
    assert(mesh_graph.spec_halfedge_length(0) == e);
    let e0 = mesh_graph.halfedges@[0];
    crate::geometry::lemma_floor_sqrt_exists(
        euclid_sq(mesh_graph.positions@[e0.from as int], mesh_graph.positions@[e0.to as int]) as int,
    );
    vstd::arithmetic::div_mod::lemma_div_by_multiple(e, n);
    assert((n * e) / n == e) by (nonlinear_arith)
        requires (e * n) / n == e;
}

proof fn lemma_total_length_uniform(mesh_graph: &SculptMesh, e: int, k: int)
    requires
        0 <= k <= mesh_graph.halfedges@.len(),
        forall|h: int|
            0 <= h < mesh_graph.halfedges@.len() ==> #[trigger] mesh_graph.spec_halfedge_length(h)
                == e,
    ensures
        mesh_graph.total_length(k) == k * e,
    decreases k,
{
    if k > 0 {
        lemma_total_length_uniform(mesh_graph, e, k - 1);
        assert(mesh_graph.spec_halfedge_length(k - 1) == e);
        assert(k * e == (k - 1) * e + e) by (nonlinear_arith);
    } else {
        assert(k * e == 0) by (nonlinear_arith)
            requires k == 0;
    }
}

} // verus!
