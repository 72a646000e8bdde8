//! Small helpers on fixed-point scalars.

use vstd::prelude::*;
use crate::constants::EPSILON;

verus! {

/// Mathematical maximum of three values.
pub open spec fn spec_max3(v1: int, v2: int, v3: int) -> int {
    if v1 >= v2 && v1 >= v3 {
        v1
    } else if v2 >= v3 {
        v2
    } else {
        v3
    }
}

/// Mathematical minimum of three values.
pub open spec fn spec_min3(v1: int, v2: int, v3: int) -> int {
    if v1 <= v2 && v1 <= v3 {
        v1
    } else if v2 <= v3 {
        v2
    } else {
        v3
    }
}

/// Maximum of three scalars.
pub fn max(v1: i64, v2: i64, v3: i64) -> (r: i64)
    ensures
        r == spec_max3(v1 as int, v2 as int, v3 as int),
{
    let mut r = v1;
    if v2 > r {
        r = v2;
    }
    if v3 > r {
        r = v3;
    }
    r
}

/// Minimum of three scalars.
pub fn min(v1: i64, v2: i64, v3: i64) -> (r: i64)
    ensures
        r == spec_min3(v1 as int, v2 as int, v3 as int),
{
    let mut r = v1;
    if v2 < r {
        r = v2;
    }
    if v3 < r {
        r = v3;
    }
    r
}

/// The greatest element among the first `n` of the sequence.
pub open spec fn spec_max_prefix(s: Seq<i64>, n: int) -> int
    decreases n,
{
    if n <= 1 {
        s[0] as int
    } else if s[n - 1] as int >= spec_max_prefix(s, n - 1) {
        s[n - 1] as int
    } else {
        spec_max_prefix(s, n - 1)
    }
}

/// The least element among the first `n` of the sequence.
pub open spec fn spec_min_prefix(s: Seq<i64>, n: int) -> int
    decreases n,
{
    if n <= 1 {
        s[0] as int
    } else if s[n - 1] as int <= spec_min_prefix(s, n - 1) {
        s[n - 1] as int
    } else {
        spec_min_prefix(s, n - 1)
    }
}

/// Maximum of a non-empty array of scalars.
pub fn max_array(v: &[i64]) -> (r: i64)
    requires
        v@.len() >= 1,
    ensures
        r == spec_max_prefix(v@, v@.len() as int),
{
    let mut r = v[0];
    let mut i: usize = 1;
    while i < v.len()
        invariant
            1 <= i <= v@.len(),
            r == spec_max_prefix(v@, i as int),
        decreases v@.len() - i,
    {
        if v[i] > r {
            r = v[i];
        }
        i = i + 1;
    }
    r
}

/// Minimum of a non-empty array of scalars.
pub fn min_array(v: &[i64]) -> (r: i64)
    requires
        v@.len() >= 1,
    ensures
        r == spec_min_prefix(v@, v@.len() as int),
{
    let mut r = v[0];
    let mut i: usize = 1;
    while i < v.len()
        invariant
            1 <= i <= v@.len(),
            r == spec_min_prefix(v@, i as int),
        decreases v@.len() - i,
    {
        if v[i] < r {
            r = v[i];
        }
        i = i + 1;
    }
    r
}

/// Whether two scalars agree within the general tolerance.
pub open spec fn spec_equal_with_bound(lhs: int, rhs: int) -> bool {
    lhs - rhs <= EPSILON && rhs - lhs <= EPSILON
}

/// Compares two scalars within the general tolerance.
pub fn equal_with_bound(lhs: i64, rhs: i64) -> (r: bool)
    requires
        lhs - rhs <= i64::MAX,
        rhs - lhs <= i64::MAX,
    ensures
        r == spec_equal_with_bound(lhs as int, rhs as int),
{
    if lhs >= rhs {
        lhs - rhs <= EPSILON
    } else {
        rhs - lhs <= EPSILON
    }
}

} // verus!
