//! A 3-dimensional vector over fixed-point scalars, with exact
//! contracts for every operation.

use vstd::prelude::*;
use crate::arith::{isqrt, isqrt_spec, lemma_isqrt_spec_bounds, lemma_tdiv_scale_bound, tdiv,
    tdiv_i128, tdiv_signed, ISQRT_RANGE, TDIV_RANGE};
use crate::constants::SCALE;

verus! {

/// Magnitude bound under which all vector operations below stay inside
/// their integer ranges; equals two to the fifty-ninth power. Cross
/// products of vectors bounded by `CROSS_INPUT_LIMIT` stay within it.
pub const NORM_LIMIT: i64 = 576_460_752_303_423_488;

/// Magnitude bound on cross-product operands; equals two to the
/// twenty-ninth power.
pub const CROSS_INPUT_LIMIT: i64 = 536_870_912;

/// Magnitude bound on the operands of scalar multiplication and
/// division; equals two to the fortieth power.
pub const SCALE_OP_LIMIT: i64 = 1_099_511_627_776;

/// A vector of three fixed-point components. Two vectors are `==` when
/// their components are identical; use `approx_eq` for comparison
/// within the general tolerance.
#[derive(Debug, Clone, Copy, PartialEq, Eq, Structural)]
pub struct Vector3 {
    pub x: i64,
    pub y: i64,
    pub z: i64,
}

/// Every component of `v` is at most `b` in magnitude.
pub open spec fn bounded(v: Vector3, b: int) -> bool {
    &&& -b <= v.x <= b
    &&& -b <= v.y <= b
    &&& -b <= v.z <= b
}

/// Inner product, exactly.
pub open spec fn spec_dot(a: Vector3, b: Vector3) -> int {
    a.x * b.x + a.y * b.y + a.z * b.z
}

/// Squared norm-2 length, exactly.
pub open spec fn spec_len2(v: Vector3) -> int {
    spec_dot(v, v)
}

/// First component of the cross product `a` x `b`.
pub open spec fn spec_cross_x(a: Vector3, b: Vector3) -> int {
    a.y * b.z - a.z * b.y
}

/// Second component of the cross product `a` x `b`.
pub open spec fn spec_cross_y(a: Vector3, b: Vector3) -> int {
    a.z * b.x - a.x * b.z
}

/// Third component of the cross product `a` x `b`.
pub open spec fn spec_cross_z(a: Vector3, b: Vector3) -> int {
    a.x * b.y - a.y * b.x
}

/// `r` is the vector `(cx, cy, cz)` rescaled to length `SCALE` (one
/// unit of real length), each component rounded towards zero; the zero
/// vector stays zero.
pub open spec fn is_normalized_triple(r: Vector3, cx: int, cy: int, cz: int) -> bool {
    if cx == 0 && cy == 0 && cz == 0 {
        r == (Vector3 { x: 0i64, y: 0i64, z: 0i64 })
    } else {
        let l = isqrt_spec((cx * cx + cy * cy + cz * cz) as nat) as int;
        &&& r.x == tdiv(cx * SCALE, l)
        &&& r.y == tdiv(cy * SCALE, l)
        &&& r.z == tdiv(cz * SCALE, l)
    }
}

/// `r` is `v` rescaled to length `SCALE` (one unit of real length),
/// each component rounded towards zero; the zero vector stays zero.
pub open spec fn is_normalize_of(r: Vector3, v: Vector3) -> bool {
    is_normalized_triple(r, v.x as int, v.y as int, v.z as int)
}

impl Vector3 {
    /// Returns x component of the vector.
    pub fn x(&self) -> (r: i64)
        ensures
            r == self.x,
    {
        self.x
    }

    /// Returns y component of the vector.
    pub fn y(&self) -> (r: i64)
        ensures
            r == self.y,
    {
        self.y
    }

    /// Returns z component of the vector.
    pub fn z(&self) -> (r: i64)
        ensures
            r == self.z,
    {
        self.z
    }

    /// Constructor from three components.
    pub fn new(x: i64, y: i64, z: i64) -> (r: Self)
        ensures
            r == (Vector3 { x, y, z }),
    {
        Vector3 { x, y, z }
    }

    /// Constructs a vector from an array of length 3.
    pub fn new_from_array(arr: &[i64; 3]) -> (r: Self)
        ensures
            r == (Vector3 { x: arr[0], y: arr[1], z: arr[2] }),
    {
        Vector3 { x: arr[0], y: arr[1], z: arr[2] }
    }

    /// Converts the vector into an array of length 3.
    pub fn to_array(&self) -> (r: [i64; 3])
        ensures
            r[0] == self.x,
            r[1] == self.y,
            r[2] == self.z,
    {
        [self.x, self.y, self.z]
    }

    /// Constructs a vector of the same value for its three components.
    pub fn identity(s: i64) -> (r: Self)
        ensures
            r == (Vector3 { x: s, y: s, z: s }),
    {
        Vector3 { x: s, y: s, z: s }
    }

    /// Constructs a zero vector, i.e. (0, 0, 0).
    pub fn zero() -> (r: Self)
        ensures
            r == (Vector3 { x: 0i64, y: 0i64, z: 0i64 }),
    {
        Self::identity(0)
    }

    /// Constructs the vector whose three components are the real value
    /// one, i.e. `SCALE` units each.
    pub fn one() -> (r: Self)
        ensures
            r == (Vector3 { x: SCALE, y: SCALE, z: SCALE }),
    {
        Self::identity(SCALE)
    }

    /// Constructs the unit vector along the x axis.
    pub fn x_unit() -> (r: Self)
        ensures
            r == (Vector3 { x: SCALE, y: 0i64, z: 0i64 }),
    {
        Vector3 { x: SCALE, y: 0, z: 0 }
    }

    /// Constructs the unit vector along the y axis.
    pub fn y_unit() -> (r: Self)
        ensures
            r == (Vector3 { x: 0i64, y: SCALE, z: 0i64 }),
    {
        Vector3 { x: 0, y: SCALE, z: 0 }
    }

    /// Constructs the unit vector along the z axis.
    pub fn z_unit() -> (r: Self)
        ensures
            r == (Vector3 { x: 0i64, y: 0i64, z: SCALE }),
    {
        Vector3 { x: 0, y: 0, z: SCALE }
    }

    /// Componentwise sum.
    pub fn add(&self, rhs: &Vector3) -> (r: Vector3)
        requires
            i64::MIN <= self.x + rhs.x <= i64::MAX,
            i64::MIN <= self.y + rhs.y <= i64::MAX,
            i64::MIN <= self.z + rhs.z <= i64::MAX,
        ensures
            r.x == self.x + rhs.x,
            r.y == self.y + rhs.y,
            r.z == self.z + rhs.z,
    {
        Vector3 { x: self.x + rhs.x, y: self.y + rhs.y, z: self.z + rhs.z }
    }

    /// Componentwise difference.
    pub fn sub(&self, rhs: &Vector3) -> (r: Vector3)
        requires
            i64::MIN <= self.x - rhs.x <= i64::MAX,
            i64::MIN <= self.y - rhs.y <= i64::MAX,
            i64::MIN <= self.z - rhs.z <= i64::MAX,
        ensures
            r.x == self.x - rhs.x,
            r.y == self.y - rhs.y,
            r.z == self.z - rhs.z,
    {
        Vector3 { x: self.x - rhs.x, y: self.y - rhs.y, z: self.z - rhs.z }
    }

    /// Componentwise negation.
    pub fn neg(&self) -> (r: Vector3)
        requires
            self.x > i64::MIN,
            self.y > i64::MIN,
            self.z > i64::MIN,
        ensures
            r.x == -self.x,
            r.y == -self.y,
            r.z == -self.z,
    {
        Vector3 { x: -self.x, y: -self.y, z: -self.z }
    }

    /// Multiplication with a fixed-point scalar: each component becomes
    /// `c * s / SCALE`, rounded towards zero.
    pub fn scale(&self, s: i64) -> (r: Vector3)
        requires
            bounded(*self, SCALE_OP_LIMIT as int),
            -SCALE_OP_LIMIT <= s <= SCALE_OP_LIMIT,
        ensures
            r.x == tdiv(self.x * s, SCALE as int),
            r.y == tdiv(self.y * s, SCALE as int),
            r.z == tdiv(self.z * s, SCALE as int),
    {
        let x = Self::scale_component(self.x, s);
        let y = Self::scale_component(self.y, s);
        let z = Self::scale_component(self.z, s);
        Vector3 { x, y, z }
    }

    /// One component of a scalar multiplication.
    fn scale_component(c: i64, s: i64) -> (r: i64)
        requires
            -SCALE_OP_LIMIT <= c <= SCALE_OP_LIMIT,
            -SCALE_OP_LIMIT <= s <= SCALE_OP_LIMIT,
        ensures
            r == tdiv(c * s, SCALE as int),
    {
        proof {
            assert(-TDIV_RANGE < c * s < TDIV_RANGE && -(SCALE as int)
                * 1_208_925_819_614_629_175 <= c * s <= (SCALE as int) * 1_208_925_819_614_629_175)
                by (nonlinear_arith)
                requires
                    -SCALE_OP_LIMIT <= c <= SCALE_OP_LIMIT,
                    -SCALE_OP_LIMIT <= s <= SCALE_OP_LIMIT,
            ;
            crate::arith::lemma_tdiv_bound(c * s, SCALE as int, 1_208_925_819_614_629_175);
        }
        let q = tdiv_i128((c as i128) * (s as i128), SCALE as i128);
        q as i64
    }

    /// Division by a non-zero fixed-point scalar: each component
    /// becomes `c * SCALE / s`, rounded towards zero.
    pub fn div(&self, s: i64) -> (r: Vector3)
        requires
            bounded(*self, SCALE_OP_LIMIT as int),
            s != 0,
            -SCALE_OP_LIMIT <= s <= SCALE_OP_LIMIT,
        ensures
            r.x == tdiv_signed(self.x * SCALE, s as int),
            r.y == tdiv_signed(self.y * SCALE, s as int),
            r.z == tdiv_signed(self.z * SCALE, s as int),
    {
        let x = Self::div_component(self.x, s);
        let y = Self::div_component(self.y, s);
        let z = Self::div_component(self.z, s);
        Vector3 { x, y, z }
    }

    /// One component of a scalar division.
    fn div_component(c: i64, s: i64) -> (r: i64)
        requires
            -SCALE_OP_LIMIT <= c <= SCALE_OP_LIMIT,
            s != 0,
            -SCALE_OP_LIMIT <= s <= SCALE_OP_LIMIT,
        ensures
            r == tdiv_signed(c * SCALE, s as int),
    {
        let d: i64 = if s > 0 {
            s
        } else {
            -s
        };
        proof {
            assert(-TDIV_RANGE < c * SCALE < TDIV_RANGE && -(d as int) * 1_208_925_819_614_629_175
                <= c * SCALE <= (d as int) * 1_208_925_819_614_629_175) by (nonlinear_arith)
                requires
                    -SCALE_OP_LIMIT <= c <= SCALE_OP_LIMIT,
                    1 <= d <= SCALE_OP_LIMIT,
            ;
            crate::arith::lemma_tdiv_bound(c * SCALE, d as int, 1_208_925_819_614_629_175);
        }
        let q = tdiv_i128((c as i128) * (SCALE as i128), d as i128);
        if s > 0 {
            q as i64
        } else {
            proof {
                crate::arith::lemma_tdiv_bound(c * SCALE, d as int, 1_208_925_819_614_629_175);
            }
            -(q as i64)
        }
    }

    /// Inner product.
    pub fn dot(&self, rhs: &Vector3) -> (r: i128)
        requires
            bounded(*self, NORM_LIMIT as int),
            bounded(*rhs, NORM_LIMIT as int),
        ensures
            r == spec_dot(*self, *rhs),
    {
        proof {
            lemma_dot_range(*self, *rhs);
        }
        (self.x as i128) * (rhs.x as i128) + (self.y as i128) * (rhs.y as i128) + (self.z as i128)
            * (rhs.z as i128)
    }

    /// Returns the square of norm-2 length of the vector. This method
    /// is usually used when you just need the square of the length,
    /// but do not want to involve a redundant sqrt calculation.
    pub fn len2(&self) -> (r: u128)
        requires
            bounded(*self, NORM_LIMIT as int),
        ensures
            r == spec_len2(*self),
            r < ISQRT_RANGE,
    {
        proof {
            lemma_len2_range(*self);
        }
        ((self.x as i128) * (self.x as i128) + (self.y as i128) * (self.y as i128) + (
        self.z as i128) * (self.z as i128)) as u128
    }

    /// Returns the norm-2 length of the vector in units, rounded down.
    pub fn len(&self) -> (r: u64)
        requires
            bounded(*self, NORM_LIMIT as int),
        ensures
            r == isqrt_spec(spec_len2(*self) as nat),
    {
        let n2 = self.len2();
        isqrt(n2)
    }

    /// Returns the normalized vector of this instance, of length one
    /// real unit up to rounding. If this vector is a zero vector,
    /// return zero vector.
    pub fn normalize(&self) -> (r: Self)
        requires
            bounded(*self, NORM_LIMIT as int),
        ensures
            is_normalize_of(r, *self),
            bounded(r, SCALE as int),
    {
        let mut v = self.clone();
        v.normalize_self();
        v
    }

    /// Normalizes this vector itself, and returns the norm-2 length
    /// in units, rounded down. If this instance is a zero vector, do
    /// nothing and return 0.
    pub fn normalize_self(&mut self) -> (len: u64)
        requires
            bounded(*old(self), NORM_LIMIT as int),
        ensures
            len == isqrt_spec(spec_len2(*old(self)) as nat),
            is_normalize_of(*final(self), *old(self)),
            bounded(*final(self), SCALE as int),
    {
        let n2 = self.len2();
        if n2 == 0 {
            proof {
                lemma_len2_zero(*self);
            }
            self.x = 0;
            self.y = 0;
            self.z = 0;
            return 0;
        }
        let l = isqrt(n2);
        proof {
            lemma_isqrt_spec_bounds(n2 as nat);
            if l == 0 {
                crate::arith::lemma_isqrt_zero(n2 as nat);
            }
            lemma_component_within_len(*self, l as int);
        }
        self.x = Self::norm_component(self.x, l);
        self.y = Self::norm_component(self.y, l);
        self.z = Self::norm_component(self.z, l);
        l
    }

    /// One component of a normalization: `c * SCALE / l`, rounded
    /// towards zero.
    fn norm_component(c: i64, l: u64) -> (r: i64)
        requires
            l >= 1,
            -(l as int) <= c as int <= l as int,
        ensures
            r == tdiv(c * SCALE, l as int),
            -SCALE <= r <= SCALE,
    {
        proof {
            lemma_tdiv_scale_bound(c as int, l as int, SCALE as int);
            assert(-TDIV_RANGE < (c as int) * (SCALE as int) < TDIV_RANGE) by (nonlinear_arith);
        }
        let q = tdiv_i128((c as i128) * (SCALE as i128), l as i128);
        q as i64
    }

    /// Cross product of two vectors.
    pub fn cross(&self, rhs: &Vector3) -> (r: Vector3)
        requires
            bounded(*self, CROSS_INPUT_LIMIT as int),
            bounded(*rhs, CROSS_INPUT_LIMIT as int),
        ensures
            r.x == spec_cross_x(*self, *rhs),
            r.y == spec_cross_y(*self, *rhs),
            r.z == spec_cross_z(*self, *rhs),
            bounded(r, NORM_LIMIT as int),
    {
        proof {
            lemma_cross_range(*self, *rhs);
        }
        let cx = (self.y as i128) * (rhs.z as i128) - (self.z as i128) * (rhs.y as i128);
        let cy = (self.z as i128) * (rhs.x as i128) - (self.x as i128) * (rhs.z as i128);
        let cz = (self.x as i128) * (rhs.y as i128) - (self.y as i128) * (rhs.x as i128);
        Vector3 { x: cx as i64, y: cy as i64, z: cz as i64 }
    }

    /// Whether this vector equals another one componentwise within the
    /// general tolerance.
    pub fn approx_eq(&self, rhs: &Vector3) -> (r: bool)
        requires
            bounded(*self, NORM_LIMIT as int),
            bounded(*rhs, NORM_LIMIT as int),
        ensures
            r == (crate::utils::spec_equal_with_bound(self.x as int, rhs.x as int)
                && crate::utils::spec_equal_with_bound(self.y as int, rhs.y as int)
                && crate::utils::spec_equal_with_bound(self.z as int, rhs.z as int)),
    {
        crate::utils::equal_with_bound(self.x, rhs.x) && crate::utils::equal_with_bound(
            self.y,
            rhs.y,
        ) && crate::utils::equal_with_bound(self.z, rhs.z)
    }
}

/// The products inside an inner product of vectors bounded by
/// `NORM_LIMIT` stay well within the 128-bit range.
proof fn lemma_dot_range(a: Vector3, b2: Vector3)
    requires
        bounded(a, NORM_LIMIT as int),
        bounded(b2, NORM_LIMIT as int),
    ensures
        -(ISQRT_RANGE as int) <= a.x * b2.x <= ISQRT_RANGE as int,
        -(ISQRT_RANGE as int) <= a.y * b2.y <= ISQRT_RANGE as int,
        -(ISQRT_RANGE as int) <= a.z * b2.z <= ISQRT_RANGE as int,
        -3 * (ISQRT_RANGE as int) <= spec_dot(a, b2) <= 3 * (ISQRT_RANGE as int),
{
    assert(-(ISQRT_RANGE as int) <= a.x * b2.x <= ISQRT_RANGE as int && -(ISQRT_RANGE as int)
        <= a.y * b2.y <= ISQRT_RANGE as int && -(ISQRT_RANGE as int) <= a.z * b2.z
        <= ISQRT_RANGE as int) by (nonlinear_arith)
        requires
            -NORM_LIMIT <= a.x <= NORM_LIMIT,
            -NORM_LIMIT <= a.y <= NORM_LIMIT,
            -NORM_LIMIT <= a.z <= NORM_LIMIT,
            -NORM_LIMIT <= b2.x <= NORM_LIMIT,
            -NORM_LIMIT <= b2.y <= NORM_LIMIT,
            -NORM_LIMIT <= b2.z <= NORM_LIMIT,
    ;
}

/// The squared length of a vector bounded by `NORM_LIMIT` fits the
/// range of the square-root search.
proof fn lemma_len2_range(a: Vector3)
    requires
        bounded(a, NORM_LIMIT as int),
    ensures
        0 <= spec_len2(a),
        spec_len2(a) < ISQRT_RANGE as int,
        0 <= a.x * a.x < ISQRT_RANGE as int,
        0 <= a.y * a.y < ISQRT_RANGE as int,
        0 <= a.z * a.z < ISQRT_RANGE as int,
{
    assert(0 <= a.x * a.x && 0 <= a.y * a.y && 0 <= a.z * a.z && a.x * a.x + a.y * a.y + a.z * a.z
        < ISQRT_RANGE as int) by (nonlinear_arith)
        requires
            -NORM_LIMIT <= a.x <= NORM_LIMIT,
            -NORM_LIMIT <= a.y <= NORM_LIMIT,
            -NORM_LIMIT <= a.z <= NORM_LIMIT,
    ;
}

/// A vector of squared length zero is the zero vector.
pub proof fn lemma_len2_zero(a: Vector3)
    requires
        spec_len2(a) == 0,
    ensures
        a.x == 0 && a.y == 0 && a.z == 0,
{
    lemma_square_nonneg(a.x as int);
    lemma_square_nonneg(a.y as int);
    lemma_square_nonneg(a.z as int);
    assert(a.x == 0 && a.y == 0 && a.z == 0) by (nonlinear_arith)
        requires
            a.x * a.x + a.y * a.y + a.z * a.z == 0,
            a.x * a.x >= 0,
            a.y * a.y >= 0,
            a.z * a.z >= 0,
    ;
}

/// No component can exceed the length of the whole vector: with
/// `l` the rounded-down length, each component is at most `l`.
proof fn lemma_component_within_len(a: Vector3, l: int)
    requires
        spec_len2(a) < (l + 1) * (l + 1),
        l >= 0,
    ensures
        -l <= a.x <= l,
        -l <= a.y <= l,
        -l <= a.z <= l,
{
    lemma_square_nonneg(a.x as int);
    lemma_square_nonneg(a.y as int);
    lemma_square_nonneg(a.z as int);
    assert(-l <= a.x <= l && -l <= a.y <= l && -l <= a.z <= l) by (nonlinear_arith)
        requires
            a.x * a.x + a.y * a.y + a.z * a.z < (l + 1) * (l + 1),
            a.x * a.x >= 0,
            a.y * a.y >= 0,
            a.z * a.z >= 0,
            l >= 0,
    ;
}

/// Squares are non-negative.
proof fn lemma_square_nonneg(a: int)
    ensures
        a * a >= 0,
{
    assert(a * a >= 0) by (nonlinear_arith);
}

/// Each cross-product component of vectors bounded by
/// `CROSS_INPUT_LIMIT` is bounded by `NORM_LIMIT`.
proof fn lemma_cross_range(a: Vector3, c: Vector3)
    requires
        bounded(a, CROSS_INPUT_LIMIT as int),
        bounded(c, CROSS_INPUT_LIMIT as int),
    ensures
        -NORM_LIMIT <= spec_cross_x(a, c) <= NORM_LIMIT,
        -NORM_LIMIT <= spec_cross_y(a, c) <= NORM_LIMIT,
        -NORM_LIMIT <= spec_cross_z(a, c) <= NORM_LIMIT,
        -NORM_LIMIT <= a.y * c.z <= NORM_LIMIT,
        -NORM_LIMIT <= a.z * c.y <= NORM_LIMIT,
        -NORM_LIMIT <= a.z * c.x <= NORM_LIMIT,
        -NORM_LIMIT <= a.x * c.z <= NORM_LIMIT,
        -NORM_LIMIT <= a.x * c.y <= NORM_LIMIT,
        -NORM_LIMIT <= a.y * c.x <= NORM_LIMIT,
{
    assert(-NORM_LIMIT <= a.y * c.z <= NORM_LIMIT && -NORM_LIMIT <= a.z * c.y <= NORM_LIMIT
        && -NORM_LIMIT <= a.z * c.x <= NORM_LIMIT && -NORM_LIMIT <= a.x * c.z <= NORM_LIMIT
        && -NORM_LIMIT <= a.x * c.y <= NORM_LIMIT && -NORM_LIMIT <= a.y * c.x <= NORM_LIMIT
        && -NORM_LIMIT <= a.y * c.z - a.z * c.y <= NORM_LIMIT && -NORM_LIMIT <= a.z * c.x - a.x
        * c.z <= NORM_LIMIT && -NORM_LIMIT <= a.x * c.y - a.y * c.x <= NORM_LIMIT)
        by (nonlinear_arith)
        requires
            -CROSS_INPUT_LIMIT <= a.x <= CROSS_INPUT_LIMIT,
            -CROSS_INPUT_LIMIT <= a.y <= CROSS_INPUT_LIMIT,
            -CROSS_INPUT_LIMIT <= a.z <= CROSS_INPUT_LIMIT,
            -CROSS_INPUT_LIMIT <= c.x <= CROSS_INPUT_LIMIT,
            -CROSS_INPUT_LIMIT <= c.y <= CROSS_INPUT_LIMIT,
            -CROSS_INPUT_LIMIT <= c.z <= CROSS_INPUT_LIMIT,
    ;
}

} // verus!
