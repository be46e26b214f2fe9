//! Saturating 32-bit arithmetic.
//!
//! Geometry flows through the engine as `i32` coordinates supplied by the
//! caller, so intermediate sums can exceed the machine range. Every
//! arithmetic step saturates at the `i32` bounds, and each executable
//! operation is pinned to the corresponding spec function exactly.

use vstd::prelude::*;

verus! {

/// The mathematical value of `a + b` clipped to the `i32` range.
pub open spec fn sat_add(a: int, b: int) -> int {
    clip_i32(a + b)
}

/// The mathematical value of `a - b` clipped to the `i32` range.
pub open spec fn sat_sub(a: int, b: int) -> int {
    clip_i32(a - b)
}

/// The mathematical value of `a * b` clipped to the `i32` range.
pub open spec fn sat_mul(a: int, b: int) -> int {
    clip_i32(a * b)
}

/// Truncating division (toward zero) by a positive divisor, as Rust's `/`
/// computes it; spec-level `/` is Euclidean, which differs on negative
/// dividends.
pub open spec fn quot(a: int, b: int) -> int
    recommends
        b > 0,
{
    if a >= 0 {
        a / b
    } else {
        -((-a) / b)
    }
}

/// `a` clipped to the `i32` range.
pub open spec fn clip_i32(a: int) -> int {
    if a < i32::MIN as int {
        i32::MIN as int
    } else if a > i32::MAX as int {
        i32::MAX as int
    } else {
        a
    }
}

/// Saturating addition.
pub fn sadd(a: i32, b: i32) -> (r: i32)
    ensures
        r == sat_add(a as int, b as int),
{
    match a.checked_add(b) {
        Some(v) => v,
        None => {
            if b > 0 {
                i32::MAX
            } else {
                i32::MIN
            }
        },
    }
}

/// Saturating subtraction.
pub fn ssub(a: i32, b: i32) -> (r: i32)
    ensures
        r == sat_sub(a as int, b as int),
{
    match a.checked_sub(b) {
        Some(v) => v,
        None => {
            if b < 0 {
                i32::MAX
            } else {
                i32::MIN
            }
        },
    }
}

/// Saturating multiplication.
pub fn smul(a: i32, b: i32) -> (r: i32)
    ensures
        r == sat_mul(a as int, b as int),
{
    match a.checked_mul(b) {
        Some(v) => v,
        None => {
            if (a > 0) == (b > 0) {
                proof {
                    assert(a as int * b as int >= 0) by (nonlinear_arith)
                        requires
                            (a > 0 && b > 0) || (a <= 0 && b <= 0),
                    ;
                }
                i32::MAX
            } else {
                proof {
                    assert(a as int * b as int <= 0) by (nonlinear_arith)
                        requires
                            (a > 0 && b <= 0) || (a <= 0 && b > 0),
                    ;
                }
                i32::MIN
            }
        },
    }
}

/// Truncating division by a positive divisor. Never overflows, since the
/// divisor is positive.
pub fn sdiv(a: i32, b: i32) -> (r: i32)
    requires
        b > 0,
    ensures
        r == quot(a as int, b as int),
{
    a / b
}

/// `a * b / c` for positive `c`, with the product taken over the full
/// mathematical range before the truncating division, then clipped to
/// `i32`.
pub fn smuldiv(a: i32, b: i32, c: i32) -> (r: i32)
    requires
        c > 0,
    ensures
        r == clip_i32(quot(a as int * b as int, c as int)),
{
    proof {
        assert(-0x4000000000000000 <= a as int * b as int <= 0x4000000000000000)
            by (nonlinear_arith)
            requires
                -0x80000000 <= a as int <= 0x7fffffff,
                -0x80000000 <= b as int <= 0x7fffffff,
        ;
    }
    let p: i64 = (a as i64) * (b as i64);
    let q: i64 = p / (c as i64);
    if q > i32::MAX as i64 {
        i32::MAX
    } else if q < i32::MIN as i64 {
        i32::MIN
    } else {
        q as i32
    }
}

/// Saturating negation.
pub fn ineg(a: i32) -> (r: i32)
    ensures
        r == clip_i32(-(a as int)),
{
    if a == i32::MIN {
        i32::MAX
    } else {
        -a
    }
}

/// The larger of two values.
pub fn imax(a: i32, b: i32) -> (r: i32)
    ensures
        r == if a >= b { a as int } else { b as int },
{
    if a >= b {
        a
    } else {
        b
    }
}

/// The smaller of two values.
pub fn imin(a: i32, b: i32) -> (r: i32)
    ensures
        r == if a <= b { a as int } else { b as int },
{
    if a <= b {
        a
    } else {
        b
    }
}

/// `v` forced into the interval `[lo, hi]`.
pub fn iclamp(v: i32, lo: i32, hi: i32) -> (r: i32)
    requires
        lo <= hi,
    ensures
        r == if v < lo {
            lo as int
        } else if v > hi {
            hi as int
        } else {
            v as int
        },
{
    if v < lo {
        lo
    } else if v > hi {
        hi
    } else {
        v
    }
}

} // verus!
