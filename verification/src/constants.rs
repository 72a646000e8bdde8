//! Shared numeric constants of the fixed-point coordinate model.

use vstd::prelude::*;

verus! {

/// Number of fixed-point units that represent the real value `1.0`.
pub const SCALE: i64 = 1_000_000;

/// General comparison tolerance: one fixed-point unit. Quantities that
/// differ by no more than this many units are considered equal.
pub const EPSILON: i64 = 1;

/// Largest magnitude a coordinate of a mesh vertex may have, in units.
/// Keeping coordinates within this bound keeps every cross product and
/// squared length inside the integer ranges the kernel computes in.
pub const COORD_LIMIT: i64 = 268_435_456;

/// Largest number of triangles a mesh may be built from; keeps the
/// vertex-normal averaging sums inside `i64`.
pub const MAX_TRIANGLES: usize = 500_000_000;

} // verus!
