use vstd::prelude::*;

use crate::geometry::{euclid_sq, floor_sqrt, isqrt, DistanceCalculator, Position, L2};

verus! {

/// A triangle, by the indices of its three vertices.
#[derive(Clone, Copy, Debug, PartialEq, Eq, Structural)]
pub struct Triangle {
    pub a: usize,
    pub b: usize,
    pub c: usize,
}

impl Triangle {
    pub open spec fn has_vertex(self, v: int) -> bool {
        self.a == v || self.b == v || self.c == v
    }
}

/// One directed side of a mesh edge, by the indices of its end vertices.
#[derive(Clone, Copy, Debug, PartialEq, Eq, Structural)]
pub struct HalfEdge {
    pub from: usize,
    pub to: usize,
}

/// A triangle mesh: vertex positions, faces and directed half-edges, all
/// referring to vertices by their index in `positions`.
pub struct SculptMesh {
    pub positions: Vec<Position>,
    pub faces: Vec<Triangle>,
    pub halfedges: Vec<HalfEdge>,
}

/// Upper bound (exclusive) of any half-edge length: coordinates are `i32`.
pub const MAX_LENGTH: u64 = 0x4_0000_0000;

impl SculptMesh {
    /// Every index held by a face or a half-edge names a vertex.
    pub open spec fn wf(&self) -> bool {
        &&& forall|f: int|
            0 <= f < self.faces@.len() ==> {
                let t = #[trigger] self.faces@[f];
                &&& t.a < self.positions@.len()
                &&& t.b < self.positions@.len()
                &&& t.c < self.positions@.len()
            }
        &&& forall|h: int|
            0 <= h < self.halfedges@.len() ==> {
                let e = #[trigger] self.halfedges@[h];
                &&& e.from < self.positions@.len()
                &&& e.to < self.positions@.len()
            }
    }

    /// Euclidean length of half-edge `h`, rounded down to whole mesh units.
    pub open spec fn spec_halfedge_length(&self, h: int) -> int {
        let e = self.halfedges@[h];
        floor_sqrt(euclid_sq(self.positions@[e.from as int], self.positions@[e.to as int]) as int)
    }

    /// Sum of the lengths of the first `n` half-edges.
    pub open spec fn total_length(&self, n: int) -> int
        decreases n,
    {
        if n <= 0 {
            0
        } else {
            self.total_length(n - 1) + self.spec_halfedge_length(n - 1)
        }
    }

    /// Mean length over all half-edges.
    pub open spec fn mean_halfedge_length(&self) -> int {
        self.total_length(self.halfedges@.len() as int) / (self.halfedges@.len() as int)
    }

    /// Euclidean length of half-edge `h`, rounded down to whole mesh units.
    pub fn halfedge_length(&self, h: usize) -> (r: u64)
        requires
            self.wf(),
            h < self.halfedges@.len(),
        ensures
            r == self.spec_halfedge_length(h as int),
            r < MAX_LENGTH,
    {
        let e = self.halfedges[h];
        let d = L2.distance_squared(self.positions[e.from], self.positions[e.to]);
        let r = isqrt(d);
        proof {
            let (p, q) = (self.positions@[e.from as int], self.positions@[e.to as int]);
            lemma_euclid_sq_bound(p, q);
            if r >= MAX_LENGTH {
                assert(r * r >= 0x4_0000_0000 * 0x4_0000_0000) by (nonlinear_arith)
                    requires r >= 0x4_0000_0000;
            }
        }
        r
    }
}

/// A squared distance between `i32` positions stays below `3 * 2^64`.
pub proof fn lemma_euclid_sq_bound(a: Position, b: Position)
    ensures
        euclid_sq(a, b) <= 3 * 0x1_0000_0000 * 0x1_0000_0000,
{
    let (dx, dy, dz) = (a.x - b.x, a.y - b.y, a.z - b.z);
    assert(dx * dx <= 0x1_0000_0000 * 0x1_0000_0000) by (nonlinear_arith)
        requires -0x1_0000_0000 <= dx <= 0x1_0000_0000;
    assert(dy * dy <= 0x1_0000_0000 * 0x1_0000_0000) by (nonlinear_arith)
        requires -0x1_0000_0000 <= dy <= 0x1_0000_0000;
    assert(dz * dz <= 0x1_0000_0000 * 0x1_0000_0000) by (nonlinear_arith)
        requires -0x1_0000_0000 <= dz <= 0x1_0000_0000;
    assert(0 <= dx * dx && 0 <= dy * dy && 0 <= dz * dz) by (nonlinear_arith);
}

} // verus!
