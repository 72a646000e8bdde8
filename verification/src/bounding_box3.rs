//! An axis-aligned 3-d bounding box over fixed-point coordinates.

use vstd::prelude::*;
use crate::constants::COORD_LIMIT;
use crate::utils::{spec_max3, spec_min3};
use crate::vector3::{bounded, Vector3};

verus! {

/// A 3-d box with all edges parallel to the axes, represented by its
/// two extreme corners.
#[derive(Debug, Clone, Copy, PartialEq, Eq, Structural)]
pub struct BoundingBox3 {
    pub min_corner: Vector3,
    pub max_corner: Vector3,
}

impl BoundingBox3 {
    /// The minimum corner never exceeds the maximum corner on any axis.
    pub open spec fn wf(self) -> bool {
        &&& self.min_corner.x <= self.max_corner.x
        &&& self.min_corner.y <= self.max_corner.y
        &&& self.min_corner.z <= self.max_corner.z
    }

    /// Both corners lie within the coordinate bound `b`.
    pub open spec fn corners_bounded(self, b: int) -> bool {
        &&& bounded(self.min_corner, b)
        &&& bounded(self.max_corner, b)
    }

    pub fn min_corner(&self) -> (r: Vector3)
        ensures
            r == self.min_corner,
    {
        self.min_corner
    }

    pub fn max_corner(&self) -> (r: Vector3)
        ensures
            r == self.max_corner,
    {
        self.max_corner
    }

    pub fn min_x(&self) -> (r: i64)
        ensures
            r == self.min_corner.x,
    {
        self.min_corner.x
    }

    pub fn min_y(&self) -> (r: i64)
        ensures
            r == self.min_corner.y,
    {
        self.min_corner.y
    }

    pub fn min_z(&self) -> (r: i64)
        ensures
            r == self.min_corner.z,
    {
        self.min_corner.z
    }

    pub fn max_x(&self) -> (r: i64)
        ensures
            r == self.max_corner.x,
    {
        self.max_corner.x
    }

    pub fn max_y(&self) -> (r: i64)
        ensures
            r == self.max_corner.y,
    {
        self.max_corner.y
    }

    pub fn max_z(&self) -> (r: i64)
        ensures
            r == self.max_corner.z,
    {
        self.max_corner.z
    }

    pub fn len_x(&self) -> (r: i64)
        requires
            self.wf(),
            self.max_corner.x - self.min_corner.x <= i64::MAX,
        ensures
            r == self.max_corner.x - self.min_corner.x,
    {
        self.max_corner.x - self.min_corner.x
    }

    pub fn len_y(&self) -> (r: i64)
        requires
            self.wf(),
            self.max_corner.y - self.min_corner.y <= i64::MAX,
        ensures
            r == self.max_corner.y - self.min_corner.y,
    {
        self.max_corner.y - self.min_corner.y
    }

    pub fn len_z(&self) -> (r: i64)
        requires
            self.wf(),
            self.max_corner.z - self.min_corner.z <= i64::MAX,
        ensures
            r == self.max_corner.z - self.min_corner.z,
    {
        self.max_corner.z - self.min_corner.z
    }

    /// The componentwise extent of the box.
    pub fn size(&self) -> (r: Vector3)
        requires
            self.wf(),
            self.max_corner.x - self.min_corner.x <= i64::MAX,
            self.max_corner.y - self.min_corner.y <= i64::MAX,
            self.max_corner.z - self.min_corner.z <= i64::MAX,
        ensures
            r.x == self.max_corner.x - self.min_corner.x,
            r.y == self.max_corner.y - self.min_corner.y,
            r.z == self.max_corner.z - self.min_corner.z,
    {
        self.max_corner.sub(&self.min_corner)
    }

    /// Moves this bounding box along a specified direction.
    pub fn move_self(&mut self, dir: Vector3)
        requires
            i64::MIN <= old(self).min_corner.x + dir.x <= i64::MAX,
            i64::MIN <= old(self).min_corner.y + dir.y <= i64::MAX,
            i64::MIN <= old(self).min_corner.z + dir.z <= i64::MAX,
            i64::MIN <= old(self).max_corner.x + dir.x <= i64::MAX,
            i64::MIN <= old(self).max_corner.y + dir.y <= i64::MAX,
            i64::MIN <= old(self).max_corner.z + dir.z <= i64::MAX,
        ensures
            final(self).min_corner.x == old(self).min_corner.x + dir.x,
            final(self).min_corner.y == old(self).min_corner.y + dir.y,
            final(self).min_corner.z == old(self).min_corner.z + dir.z,
            final(self).max_corner.x == old(self).max_corner.x + dir.x,
            final(self).max_corner.y == old(self).max_corner.y + dir.y,
            final(self).max_corner.z == old(self).max_corner.z + dir.z,
    {
        self.min_corner = self.min_corner.add(&dir);
        self.max_corner = self.max_corner.add(&dir);
    }

    /// Returns a new bounding box by moving this one along a specified
    /// direction.
    pub fn move_by(self, dir: Vector3) -> (r: Self)
        requires
            i64::MIN <= self.min_corner.x + dir.x <= i64::MAX,
            i64::MIN <= self.min_corner.y + dir.y <= i64::MAX,
            i64::MIN <= self.min_corner.z + dir.z <= i64::MAX,
            i64::MIN <= self.max_corner.x + dir.x <= i64::MAX,
            i64::MIN <= self.max_corner.y + dir.y <= i64::MAX,
            i64::MIN <= self.max_corner.z + dir.z <= i64::MAX,
        ensures
            r.min_corner.x == self.min_corner.x + dir.x,
            r.min_corner.y == self.min_corner.y + dir.y,
            r.min_corner.z == self.min_corner.z + dir.z,
            r.max_corner.x == self.max_corner.x + dir.x,
            r.max_corner.y == self.max_corner.y + dir.y,
            r.max_corner.z == self.max_corner.z + dir.z,
    {
        let mut b = self;
        b.move_self(dir);
        b
    }

    pub fn new(min_corner: Vector3, max_corner: Vector3) -> (r: Self)
        requires
            max_corner.x >= min_corner.x,
            max_corner.y >= min_corner.y,
            max_corner.z >= min_corner.z,
        ensures
            r.min_corner == min_corner,
            r.max_corner == max_corner,
            r.wf(),
    {
        Self { min_corner, max_corner }
    }

    /// Returns a new empty bounding box with min and max corners be at
    /// (0, 0, 0).
    pub fn zero() -> (r: Self)
        ensures
            r.min_corner == (Vector3 { x: 0i64, y: 0i64, z: 0i64 }),
            r.max_corner == (Vector3 { x: 0i64, y: 0i64, z: 0i64 }),
            r.wf(),
    {
        Self::new(Vector3::zero(), Vector3::zero())
    }

    pub fn new_from_nums(min_x: i64, min_y: i64, min_z: i64, max_x: i64, max_y: i64, max_z: i64)
        -> (r: Self)
        requires
            max_x >= min_x,
            max_y >= min_y,
            max_z >= min_z,
        ensures
            r.min_corner == (Vector3 { x: min_x, y: min_y, z: min_z }),
            r.max_corner == (Vector3 { x: max_x, y: max_y, z: max_z }),
            r.wf(),
    {
        Self::new(Vector3::new(min_x, min_y, min_z), Vector3::new(max_x, max_y, max_z))
    }

    /// The smallest box containing this box and another one.
    pub fn union(&self, other: &BoundingBox3) -> (r: Self)
        requires
            self.wf(),
            other.wf(),
        ensures
            r.wf(),
            r.min_corner.x == if self.min_corner.x <= other.min_corner.x {
                self.min_corner.x
            } else {
                other.min_corner.x
            },
            r.min_corner.y == if self.min_corner.y <= other.min_corner.y {
                self.min_corner.y
            } else {
                other.min_corner.y
            },
            r.min_corner.z == if self.min_corner.z <= other.min_corner.z {
                self.min_corner.z
            } else {
                other.min_corner.z
            },
            r.max_corner.x == if self.max_corner.x >= other.max_corner.x {
                self.max_corner.x
            } else {
                other.max_corner.x
            },
            r.max_corner.y == if self.max_corner.y >= other.max_corner.y {
                self.max_corner.y
            } else {
                other.max_corner.y
            },
            r.max_corner.z == if self.max_corner.z >= other.max_corner.z {
                self.max_corner.z
            } else {
                other.max_corner.z
            },
    {
        let min_corner = Vector3::new(
            if self.min_corner.x <= other.min_corner.x {
                self.min_corner.x
            } else {
                other.min_corner.x
            },
            if self.min_corner.y <= other.min_corner.y {
                self.min_corner.y
            } else {
                other.min_corner.y
            },
            if self.min_corner.z <= other.min_corner.z {
                self.min_corner.z
            } else {
                other.min_corner.z
            },
        );
        let max_corner = Vector3::new(
            if self.max_corner.x >= other.max_corner.x {
                self.max_corner.x
            } else {
                other.max_corner.x
            },
            if self.max_corner.y >= other.max_corner.y {
                self.max_corner.y
            } else {
                other.max_corner.y
            },
            if self.max_corner.z >= other.max_corner.z {
                self.max_corner.z
            } else {
                other.max_corner.z
            },
        );
        Self::new(min_corner, max_corner)
    }

    /// Whether this box equals another one corner by corner within the
    /// general tolerance.
    pub fn approx_eq(&self, rhs: &BoundingBox3) -> (r: bool)
        requires
            self.corners_bounded(crate::vector3::NORM_LIMIT as int),
            rhs.corners_bounded(crate::vector3::NORM_LIMIT as int),
        ensures
            r == (crate::utils::spec_equal_with_bound(
                self.min_corner.x as int,
                rhs.min_corner.x as int,
            ) && crate::utils::spec_equal_with_bound(
                self.min_corner.y as int,
                rhs.min_corner.y as int,
            ) && crate::utils::spec_equal_with_bound(
                self.min_corner.z as int,
                rhs.min_corner.z as int,
            ) && crate::utils::spec_equal_with_bound(
                self.max_corner.x as int,
                rhs.max_corner.x as int,
            ) && crate::utils::spec_equal_with_bound(
                self.max_corner.y as int,
                rhs.max_corner.y as int,
            ) && crate::utils::spec_equal_with_bound(
                self.max_corner.z as int,
                rhs.max_corner.z as int,
            )),
    {
        let mins = self.min_corner.approx_eq(&rhs.min_corner);
        let maxs = self.max_corner.approx_eq(&rhs.max_corner);
        mins && maxs
    }

    /// Total area of the six box sides, in squared units.
    pub fn surface_area(&self) -> (r: i64)
        requires
            self.wf(),
            self.corners_bounded(COORD_LIMIT as int),
        ensures
            r == 2 * ((self.max_corner.x - self.min_corner.x) * (self.max_corner.y
                - self.min_corner.y) + (self.max_corner.y - self.min_corner.y) * (self.max_corner.z
                - self.min_corner.z) + (self.max_corner.z - self.min_corner.z) * (self.max_corner.x
                - self.min_corner.x)),
    {
        let lx = self.len_x();
        let ly = self.len_y();
        let lz = self.len_z();
        proof {
            lemma_extent_products(lx as int, ly as int, lz as int);
        }
        2 * (lx * ly + ly * lz + lz * lx)
    }

    /// Volume of the box, in cubed units.
    pub fn volume(&self) -> (r: i128)
        requires
            self.wf(),
            self.corners_bounded(COORD_LIMIT as int),
        ensures
            r == (self.max_corner.x - self.min_corner.x) * (self.max_corner.y - self.min_corner.y)
                * (self.max_corner.z - self.min_corner.z),
    {
        let lx = self.len_x();
        let ly = self.len_y();
        let lz = self.len_z();
        proof {
            lemma_extent_products(lx as int, ly as int, lz as int);
        }
        (lx as i128) * (ly as i128) * (lz as i128)
    }
}

/// Box extents bounded by twice `COORD_LIMIT` give pairwise and triple
/// products well inside the integer ranges used above.
proof fn lemma_extent_products(lx: int, ly: int, lz: int)
    requires
        0 <= lx <= 2 * COORD_LIMIT,
        0 <= ly <= 2 * COORD_LIMIT,
        0 <= lz <= 2 * COORD_LIMIT,
    ensures
        0 <= lx * ly <= 4 * COORD_LIMIT * COORD_LIMIT,
        0 <= ly * lz <= 4 * COORD_LIMIT * COORD_LIMIT,
        0 <= lz * lx <= 4 * COORD_LIMIT * COORD_LIMIT,
        0 <= lx * ly * lz <= 8 * COORD_LIMIT * COORD_LIMIT * COORD_LIMIT,
        4 * COORD_LIMIT * COORD_LIMIT < i64::MAX / 8,
        8 * COORD_LIMIT * COORD_LIMIT * COORD_LIMIT < i128::MAX / 8,
{
    assert(0 <= lx * ly <= 4 * COORD_LIMIT * COORD_LIMIT && 0 <= ly * lz <= 4 * COORD_LIMIT
        * COORD_LIMIT && 0 <= lz * lx <= 4 * COORD_LIMIT * COORD_LIMIT && 0 <= lx * ly * lz <= 8
        * COORD_LIMIT * COORD_LIMIT * COORD_LIMIT && 4 * COORD_LIMIT * COORD_LIMIT < i64::MAX / 8
        && 8 * COORD_LIMIT * COORD_LIMIT * COORD_LIMIT < i128::MAX / 8) by (nonlinear_arith)
        requires
            0 <= lx <= 2 * COORD_LIMIT,
            0 <= ly <= 2 * COORD_LIMIT,
            0 <= lz <= 2 * COORD_LIMIT,
    ;
}

} // verus!
