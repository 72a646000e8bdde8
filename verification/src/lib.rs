//! Geometric kernel for triangulated surfaces, built as a
//! doubly-connected edge list (DCEL).
//!
//! `TriangularMeshBuilder` turns an unconnected triangle soup into a
//! validated, immutable `TriangularMesh`: it links half-edges into
//! per-face cycles, pairs twins, rejects non-manifold input, resolves
//! face and vertex normals under the selected modes, and caches the
//! mesh's bounding box. The mesh answers shape queries (bounding
//! volume, surface normals, parametric point evaluation) through exact
//! contracts, and `laws` states the structural guarantees every built
//! mesh carries.
//!
//! All coordinates are fixed-point numbers: an `i64` counts units of
//! `1 / SCALE`, so the real value `1.0` is stored as `SCALE`. Every
//! arithmetic step is exact integer arithmetic, which lets each
//! operation carry a precise contract; square roots are rounded down
//! to the nearest unit, so the general comparison tolerance of the
//! kernel is a single unit.

pub mod arith;
pub mod bounding_box3;
pub mod builder;
pub mod constants;
pub mod laws;
pub mod triangle3;
pub mod triangular_mesh;
pub mod utils;
pub mod vector3;
