//! Exact integer arithmetic the kernel is built on: truncating division
//! and the floor of the integer square root.

use vstd::prelude::*;
use vstd::arithmetic::div_mod::lemma_fundamental_div_mod;
use vstd::arithmetic::div_mod::lemma_fundamental_div_mod_converse;

verus! {

/// Division that rounds towards zero, as machine division does; `b` must
/// be positive. For non-negative `a` it agrees with Euclidean division.
pub open spec fn tdiv(a: int, b: int) -> int {
    if a >= 0 {
        a / b
    } else {
        -((-a) / b)
    }
}

/// Division that rounds towards zero for any non-zero divisor.
pub open spec fn tdiv_signed(a: int, b: int) -> int {
    if b > 0 {
        tdiv(a, b)
    } else {
        -tdiv(a, -b)
    }
}

/// Floor of the square root of a non-negative integer, defined by
/// counting up one candidate at a time.
pub open spec fn isqrt_spec(n: nat) -> nat
    decreases n,
{
    if n == 0 {
        0
    } else {
        let r = isqrt_spec((n - 1) as nat);
        if (r + 1) * (r + 1) <= n {
            r + 1
        } else {
            r
        }
    }
}

/// `isqrt_spec(n)` squares to at most `n`, while its successor squares
/// to more than `n`.
pub proof fn lemma_isqrt_spec_bounds(n: nat)
    ensures
        isqrt_spec(n) * isqrt_spec(n) <= n,
        n < (isqrt_spec(n) + 1) * (isqrt_spec(n) + 1),
    decreases n,
{
    if n == 0 {
        assert(isqrt_spec(0) == 0);
        assert(n < (isqrt_spec(n) + 1) * (isqrt_spec(n) + 1)) by (nonlinear_arith)
            requires
                n == 0,
                isqrt_spec(n) == 0,
        ;
    } else {
        let p = isqrt_spec((n - 1) as nat);
        lemma_isqrt_spec_bounds((n - 1) as nat);
        if (p + 1) * (p + 1) <= n {
            let r = isqrt_spec(n);
            assert(r == p + 1);
            assert(n <= (p + 1) * (p + 1));
            assert(n < (r + 1) * (r + 1)) by (nonlinear_arith)
                requires
                    r == p + 1,
                    n <= (p + 1) * (p + 1),
            ;
        } else {
            assert(isqrt_spec(n) == p);
            assert(p * p <= n - 1);
        }
    }
}

/// Only zero has integer square root zero.
pub proof fn lemma_isqrt_zero(n: nat)
    requires
        isqrt_spec(n) == 0,
    ensures
        n == 0,
{
    lemma_isqrt_spec_bounds(n);
    assert(n < 1) by (nonlinear_arith)
        requires
            n < (isqrt_spec(n) + 1) * (isqrt_spec(n) + 1),
            isqrt_spec(n) == 0,
    ;
}

/// Any value bracketed like the integer square root is the integer
/// square root.
pub proof fn lemma_isqrt_unique(n: nat, r: nat)
    requires
        r * r <= n,
        n < (r + 1) * (r + 1),
    ensures
        r == isqrt_spec(n),
{
    let s = isqrt_spec(n);
    lemma_isqrt_spec_bounds(n);
    assert(r == s) by (nonlinear_arith)
        requires
            r * r <= n,
            n < (r + 1) * (r + 1),
            s * s <= n,
            n < (s + 1) * (s + 1),
    ;
}

/// One more than the largest root the square-root search considers;
/// equals two to the sixtieth power.
pub const ISQRT_ROOT_CAP: u64 = 1152921504606846976;

/// Square of `ISQRT_ROOT_CAP`: the search handles inputs below it;
/// equals two to the one-hundred-twentieth power.
pub const ISQRT_RANGE: u128 = 1329227995784915872903807060280344576;

/// Floor of the square root, by binary search on the candidate root.
pub fn isqrt(n: u128) -> (r: u64)
    requires
        n < ISQRT_RANGE,
    ensures
        r == isqrt_spec(n as nat),
{
    let mut lo: u64 = 0;
    let mut hi: u64 = ISQRT_ROOT_CAP;
    proof {
        assert((ISQRT_ROOT_CAP as int) * (ISQRT_ROOT_CAP as int) == ISQRT_RANGE as int)
            by (nonlinear_arith);
    }
    while lo + 1 < hi
        invariant
            lo < hi <= ISQRT_ROOT_CAP,
            (lo as int) * (lo as int) <= n as int,
            (n as int) < (hi as int) * (hi as int),
        decreases hi - lo,
    {
        let mid = lo + (hi - lo) / 2;
        assert(lo < mid < hi);
        proof {
            assert((mid as int) * (mid as int) < ISQRT_RANGE as int) by (nonlinear_arith)
                requires
                    0 <= (mid as int) < (ISQRT_ROOT_CAP as int),
            ;
        }
        if (mid as u128) * (mid as u128) <= n {
            lo = mid;
        } else {
            hi = mid;
        }
    }
    proof {
        lemma_isqrt_unique(n as nat, lo as nat);
    }
    lo
}

/// Quotients do not change when numerator and denominator carry a
/// common positive factor.
pub proof fn lemma_div_common_factor(a: int, b: int, k: int)
    requires
        a >= 0,
        b > 0,
        k > 0,
    ensures
        (k * a) / (k * b) == a / b,
{
    let q = a / b;
    let r = a % b;
    lemma_fundamental_div_mod(a, b);
    assert(k * a == q * (k * b) + k * r) by (nonlinear_arith)
        requires
            a == q * b + r,
    ;
    assert(0 <= k * r < k * b) by (nonlinear_arith)
        requires
            0 <= r < b,
            k > 0,
    ;
    assert(k * b != 0);
    lemma_fundamental_div_mod_converse(k * a, k * b, q, k * r);
}

/// As above, for division truncating towards zero.
pub proof fn lemma_tdiv_common_factor(a: int, b: int, k: int)
    requires
        b > 0,
        k > 0,
    ensures
        tdiv(k * a, k * b) == tdiv(a, b),
{
    if a >= 0 {
        assert(k * a >= 0) by (nonlinear_arith)
            requires
                a >= 0,
                k > 0,
        ;
        lemma_div_common_factor(a, b, k);
    } else {
        assert(k * a < 0) by (nonlinear_arith)
            requires
                a < 0,
                k > 0,
        ;
        assert(-(k * a) == k * (-a)) by (nonlinear_arith);
        lemma_div_common_factor(-a, b, k);
    }
}

/// A multiple of a positive divisor divides back to the multiplier,
/// also under truncating division.
pub proof fn lemma_tdiv_exact(q: int, b: int)
    requires
        b > 0,
    ensures
        tdiv(q * b, b) == q,
{
    if q >= 0 {
        assert(q * b >= 0) by (nonlinear_arith)
            requires
                q >= 0,
                b > 0,
        ;
        lemma_fundamental_div_mod_converse(q * b, b, q, 0);
    } else {
        assert(q * b < 0) by (nonlinear_arith)
            requires
                q < 0,
                b > 0,
        ;
        assert(-(q * b) == (-q) * b) by (nonlinear_arith);
        lemma_fundamental_div_mod_converse((-q) * b, b, -q, 0);
    }
}

/// Scaling a value by `s / l` cannot exceed `s` when the value is at
/// most `l` in magnitude.
pub proof fn lemma_tdiv_scale_bound(c: int, l: int, s: int)
    requires
        l >= 1,
        s >= 0,
        -l <= c <= l,
    ensures
        -s <= tdiv(c * s, l) <= s,
{
    lemma_tdiv_scale_bound_nonneg(if c >= 0 { c } else { -c }, l, s);
    if c >= 0 {
    } else {
        assert((-c) * s == -(c * s)) by (nonlinear_arith);
        assert(c * s <= 0) by (nonlinear_arith)
            requires
                c < 0,
                s >= 0,
        ;
    }
}

proof fn lemma_tdiv_scale_bound_nonneg(c: int, l: int, s: int)
    requires
        l >= 1,
        s >= 0,
        0 <= c <= l,
    ensures
        0 <= tdiv(c * s, l) <= s,
{
    assert(0 <= c * s <= l * s) by (nonlinear_arith)
        requires
            0 <= c <= l,
            s >= 0,
    ;
    assert((c * s) / l <= (l * s) / l) by {
        vstd::arithmetic::div_mod::lemma_div_is_ordered(c * s, l * s, l);
    }
    assert((l * s) / l == s) by {
        vstd::arithmetic::div_mod::lemma_div_multiples_vanish(s, l);
    }
    assert((c * s) / l >= 0) by {
        vstd::arithmetic::div_mod::lemma_div_pos_is_pos(c * s, l);
    }
}

/// A quotient is bounded by `m` whenever the dividend is bounded by
/// `b * m`.
pub proof fn lemma_tdiv_bound(a: int, b: int, m: int)
    requires
        b >= 1,
        m >= 0,
        -(b * m) <= a <= b * m,
    ensures
        -m <= tdiv(a, b) <= m,
{
    vstd::arithmetic::div_mod::lemma_div_multiples_vanish(m, b);
    if a >= 0 {
        vstd::arithmetic::div_mod::lemma_div_is_ordered(a, b * m, b);
        vstd::arithmetic::div_mod::lemma_div_pos_is_pos(a, b);
    } else {
        vstd::arithmetic::div_mod::lemma_div_is_ordered(-a, b * m, b);
        vstd::arithmetic::div_mod::lemma_div_pos_is_pos(-a, b);
    }
}

/// Truncating division on 64-bit values; the divisor must be positive.
pub fn tdiv_i64(a: i64, b: i64) -> (r: i64)
    requires
        b > 0,
        i64::MIN < a,
    ensures
        r == tdiv(a as int, b as int),
{
    if a >= 0 {
        let q = (a as u64) / (b as u64);
        proof {
            vstd::arithmetic::div_mod::lemma_div_nonincreasing(a as int, b as int);
            vstd::arithmetic::div_mod::lemma_div_pos_is_pos(a as int, b as int);
        }
        q as i64
    } else {
        let q = ((-a) as u64) / (b as u64);
        proof {
            vstd::arithmetic::div_mod::lemma_div_nonincreasing(-(a as int), b as int);
            vstd::arithmetic::div_mod::lemma_div_pos_is_pos(-(a as int), b as int);
        }
        -(q as i64)
    }
}

/// Magnitude cap on the dividends `tdiv_i128` accepts; equals two to
/// the one-hundred-twenty-sixth power.
pub const TDIV_RANGE: i128 = 85070591730234615865843651857942052864;

/// Truncating division of a 128-bit value by a positive divisor, for
/// results that fit the range the callers need.
pub fn tdiv_i128(a: i128, b: i128) -> (r: i128)
    requires
        b > 0,
        -TDIV_RANGE < a < TDIV_RANGE,
    ensures
        r == tdiv(a as int, b as int),
{
    if a >= 0 {
        let q = (a as u128) / (b as u128);
        proof {
            assert(q == (a as int) / (b as int));
        }
        q as i128
    } else {
        let neg = (-a) as u128;
        let q = neg / (b as u128);
        proof {
            assert(q == (-(a as int)) / (b as int));
            assert((-(a as int)) / (b as int) <= -(a as int)) by (nonlinear_arith)
                requires
                    b as int >= 1,
                    -(a as int) >= 0,
            ;
        }
        -(q as i128)
    }
}

} // verus!
