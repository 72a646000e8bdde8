//! A triangle in 3-d space over fixed-point coordinates, storing its
//! three vertices in counter-clockwise order (with up direction
//! pointing to the exterior of the shape).

use vstd::prelude::*;
use crate::arith::isqrt_spec;
use crate::bounding_box3::BoundingBox3;
use crate::constants::{COORD_LIMIT, SCALE};
use crate::utils::{max, min, spec_max3, spec_min3};
use crate::vector3::{bounded, is_normalize_of, spec_cross_x, spec_cross_y, spec_cross_z,
    spec_len2, Vector3};

verus! {

/// First component of the cross product of the triangle's first two
/// edges `p1 - p0` and `p2 - p1`.
pub open spec fn tri_cross_x(p0: Vector3, p1: Vector3, p2: Vector3) -> int {
    (p1.y - p0.y) * (p2.z - p1.z) - (p1.z - p0.z) * (p2.y - p1.y)
}

/// Second component of the same cross product.
pub open spec fn tri_cross_y(p0: Vector3, p1: Vector3, p2: Vector3) -> int {
    (p1.z - p0.z) * (p2.x - p1.x) - (p1.x - p0.x) * (p2.z - p1.z)
}

/// Third component of the same cross product.
pub open spec fn tri_cross_z(p0: Vector3, p1: Vector3, p2: Vector3) -> int {
    (p1.x - p0.x) * (p2.y - p1.y) - (p1.y - p0.y) * (p2.x - p1.x)
}

/// A triangle is degenerate when its two leading edges are parallel or
/// of zero length: the cross product vanishes and no flat normal
/// exists.
pub open spec fn tri_degenerate(p0: Vector3, p1: Vector3, p2: Vector3) -> bool {
    &&& tri_cross_x(p0, p1, p2) == 0
    &&& tri_cross_y(p0, p1, p2) == 0
    &&& tri_cross_z(p0, p1, p2) == 0
}

/// Squared length of the edge cross product: four times the square of
/// the triangle's area, in squared units.
pub open spec fn tri_cross_len2(p0: Vector3, p1: Vector3, p2: Vector3) -> int {
    tri_cross_x(p0, p1, p2) * tri_cross_x(p0, p1, p2) + tri_cross_y(p0, p1, p2) * tri_cross_y(
        p0,
        p1,
        p2,
    ) + tri_cross_z(p0, p1, p2) * tri_cross_z(p0, p1, p2)
}

/// `r` is the flat unit normal of the (non-degenerate) triangle
/// `p0 p1 p2`: the normalized cross product of its leading edges.
pub open spec fn is_flat_normal(r: Vector3, p0: Vector3, p1: Vector3, p2: Vector3) -> bool {
    let l = isqrt_spec(tri_cross_len2(p0, p1, p2) as nat) as int;
    &&& !tri_degenerate(p0, p1, p2)
    &&& r.x == crate::arith::tdiv(tri_cross_x(p0, p1, p2) * SCALE, l)
    &&& r.y == crate::arith::tdiv(tri_cross_y(p0, p1, p2) * SCALE, l)
    &&& r.z == crate::arith::tdiv(tri_cross_z(p0, p1, p2) * SCALE, l)
}

/// A triangle given by its three vertices. Immutable after
/// initialization: to modify or update the triangle, copy and
/// initialize a new one.
#[derive(Debug, Clone, Copy)]
pub struct Triangle3 {
    pub vertices: [Vector3; 3],
}

impl Triangle3 {
    /// All three vertices lie within the coordinate bound `b`.
    pub open spec fn vertices_bounded(self, b: int) -> bool {
        &&& bounded(self.vertices[0], b)
        &&& bounded(self.vertices[1], b)
        &&& bounded(self.vertices[2], b)
    }

    /// Returns the vertice at a given index. Vertices are stored in the
    /// same order as they're passed in when initilized.
    pub fn v(&self, ind: usize) -> (r: Vector3)
        requires
            ind < 3,
        ensures
            r == self.vertices[ind as int],
    {
        self.vertices[ind]
    }

    /// Returns the edge at a given index. Edges are indexed as follows:
    ///
    /// - Edge #0: v0 -> v1;
    /// - Edge #1: v1 -> v2;
    /// - Edge #2: v2 -> v0.
    pub fn e(&self, ind: usize) -> (r: Vector3)
        requires
            ind < 3,
            self.vertices_bounded(COORD_LIMIT as int),
        ensures
            r.x == self.vertices[(ind + 1) % 3].x - self.vertices[ind as int].x,
            r.y == self.vertices[(ind + 1) % 3].y - self.vertices[ind as int].y,
            r.z == self.vertices[(ind + 1) % 3].z - self.vertices[ind as int].z,
            bounded(r, 2 * COORD_LIMIT as int),
    {
        self.vertices[(ind + 1) % 3].sub(&self.vertices[ind])
    }

    /// The flat unit normal: the normalized cross product of the first
    /// two edges, pointing along the right-hand rule of the stored
    /// counter-clockwise winding. The triangle must not be degenerate.
    pub fn normal(&self) -> (r: Vector3)
        requires
            self.vertices_bounded(COORD_LIMIT as int),
            !tri_degenerate(self.vertices[0], self.vertices[1], self.vertices[2]),
        ensures
            is_flat_normal(r, self.vertices[0], self.vertices[1], self.vertices[2]),
            bounded(r, SCALE as int),
    {
        let e0 = self.e(0);
        let e1 = self.e(1);
        let n = e0.cross(&e1);
        proof {
            assert(n.x == tri_cross_x(self.vertices[0], self.vertices[1], self.vertices[2]));
            assert(n.y == tri_cross_y(self.vertices[0], self.vertices[1], self.vertices[2]));
            assert(n.z == tri_cross_z(self.vertices[0], self.vertices[1], self.vertices[2]));
            assert(spec_len2(n) != 0) by {
                if spec_len2(n) == 0 {
                    crate::vector3::lemma_len2_zero(n);
                }
            }
        }
        n.normalize()
    }

    pub fn new(v1: Vector3, v2: Vector3, v3: Vector3) -> (r: Self)
        ensures
            r.vertices[0] == v1,
            r.vertices[1] == v2,
            r.vertices[2] == v3,
    {
        Triangle3 { vertices: [v1, v2, v3] }
    }

    pub fn new_from_array(v: &[Vector3; 3]) -> (r: Self)
        ensures
            r.vertices[0] == v[0],
            r.vertices[1] == v[1],
            r.vertices[2] == v[2],
    {
        Triangle3 { vertices: [v[0], v[1], v[2]] }
    }

    /// Whether this triangle equals another one vertex by vertex within
    /// the general tolerance.
    pub fn approx_eq(&self, rhs: &Triangle3) -> (r: bool)
        requires
            self.vertices_bounded(COORD_LIMIT as int),
            rhs.vertices_bounded(COORD_LIMIT as int),
        ensures
            r == (crate::utils::spec_equal_with_bound(self.vertices[0].x as int, rhs.vertices[0].x as int)
                && crate::utils::spec_equal_with_bound(self.vertices[0].y as int, rhs.vertices[0].y as int)
                && crate::utils::spec_equal_with_bound(self.vertices[0].z as int, rhs.vertices[0].z as int)
                && crate::utils::spec_equal_with_bound(self.vertices[1].x as int, rhs.vertices[1].x as int)
                && crate::utils::spec_equal_with_bound(self.vertices[1].y as int, rhs.vertices[1].y as int)
                && crate::utils::spec_equal_with_bound(self.vertices[1].z as int, rhs.vertices[1].z as int)
                && crate::utils::spec_equal_with_bound(self.vertices[2].x as int, rhs.vertices[2].x as int)
                && crate::utils::spec_equal_with_bound(self.vertices[2].y as int, rhs.vertices[2].y as int)
                && crate::utils::spec_equal_with_bound(self.vertices[2].z as int, rhs.vertices[2].z as int)),
    {
        let a0 = self.vertices[0].approx_eq(&rhs.vertices[0]);
        let a1 = self.vertices[1].approx_eq(&rhs.vertices[1]);
        let a2 = self.vertices[2].approx_eq(&rhs.vertices[2]);
        a0 && a1 && a2
    }

    /// The triangle's area in squared units: half the length of the
    /// edge cross product, rounded down.
    pub fn surface_area(&self) -> (r: i64)
        requires
            self.vertices_bounded(COORD_LIMIT as int),
        ensures
            r == isqrt_spec(
                tri_cross_len2(self.vertices[0], self.vertices[1], self.vertices[2]) as nat,
            ) as int / 2,
    {
        let e0 = self.e(0);
        let e1 = self.e(1);
        let n = e0.cross(&e1);
        proof {
            assert(n.x == tri_cross_x(self.vertices[0], self.vertices[1], self.vertices[2]));
            assert(n.y == tri_cross_y(self.vertices[0], self.vertices[1], self.vertices[2]));
            assert(n.z == tri_cross_z(self.vertices[0], self.vertices[1], self.vertices[2]));
        }
        let l = n.len();
        (l / 2) as i64
    }

    /// A flat triangle encloses no volume.
    pub fn volume(&self) -> (r: i64)
        ensures
            r == 0,
    {
        0
    }

    /// The smallest axis-aligned box containing the triangle.
    pub fn bounding_box3(&self) -> (r: BoundingBox3)
        requires
            self.vertices_bounded(COORD_LIMIT as int),
        ensures
            r.wf(),
            r.min_corner.x == spec_min3(
                self.vertices[0].x as int,
                self.vertices[1].x as int,
                self.vertices[2].x as int,
            ),
            r.min_corner.y == spec_min3(
                self.vertices[0].y as int,
                self.vertices[1].y as int,
                self.vertices[2].y as int,
            ),
            r.min_corner.z == spec_min3(
                self.vertices[0].z as int,
                self.vertices[1].z as int,
                self.vertices[2].z as int,
            ),
            r.max_corner.x == spec_max3(
                self.vertices[0].x as int,
                self.vertices[1].x as int,
                self.vertices[2].x as int,
            ),
            r.max_corner.y == spec_max3(
                self.vertices[0].y as int,
                self.vertices[1].y as int,
                self.vertices[2].y as int,
            ),
            r.max_corner.z == spec_max3(
                self.vertices[0].z as int,
                self.vertices[1].z as int,
                self.vertices[2].z as int,
            ),
            r.corners_bounded(COORD_LIMIT as int),
    {
        let v = &self.vertices;
        BoundingBox3::new_from_nums(
            min(v[0].x, v[1].x, v[2].x),
            min(v[0].y, v[1].y, v[2].y),
            min(v[0].z, v[1].z, v[2].z),
            max(v[0].x, v[1].x, v[2].x),
            max(v[0].y, v[1].y, v[2].y),
            max(v[0].z, v[1].z, v[2].z),
        )
    }
}

} // verus!
