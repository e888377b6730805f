//! Selection and weighting core of a dynamic-topology sculpting tool.
//!
//! Positions are fixed-point: each coordinate is an `i32` count of mesh
//! units, and weights are fractions of [`WEIGHT_ONE`]. Given a contact point
//! and a mesh, a selector decides which faces a brush stroke affects and with
//! what intensity each position is moved.
pub mod geometry;
pub mod mesh;
pub mod metric_with_falloff;
pub mod params;
pub mod selectors;
mod vertex_set;
pub mod weight;

pub use geometry::{floor_sqrt, isqrt, Aabb, DistanceCalculator, Position, L2};
pub use mesh::{HalfEdge, SculptMesh, Triangle};
pub use metric_with_falloff::MetricWithFalloff;
pub use params::{SculptParams, MAX_EDGE_LENGTH};
pub use selectors::{faces_in_box, MeshSelector, Selection, WeightedSelection};
pub use weight::{FalloffFn, Linear, SphereWeight, WeightFn, WEIGHT_ONE};
