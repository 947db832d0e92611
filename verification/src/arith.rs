//! Truncating signed division and remainder, as the native operators
//! compute them: the quotient of the magnitudes, with the sign of the
//! quotient taken from the operand signs and the sign of the remainder
//! from the dividend.

use vstd::prelude::*;

verus! {

/// Truncating division: the magnitude quotient with the combined sign.
/// On non-negative operands this is plain Euclidean division.
pub open spec fn trunc_div_i(x: int, y: int) -> int {
    let q = abs_i(x) / abs_i(y);
    if (x < 0) != (y < 0) {
        -q
    } else {
        q
    }
}

/// Truncating remainder: what is left after the truncating division; its
/// sign follows the dividend.
pub open spec fn trunc_rem_i(x: int, y: int) -> int {
    let m = abs_i(x) % abs_i(y);
    if x < 0 {
        -m
    } else {
        m
    }
}

/// Absolute value.
pub open spec fn abs_i(x: int) -> int {
    if x < 0 {
        -x
    } else {
        x
    }
}

/// The magnitude of a 32-bit signed value, widened so that the smallest
/// value's magnitude is representable.
fn mag32(x: i32) -> (m: u64)
    ensures
        m == abs_i(x as int),
{
    if x >= 0 {
        x as u64
    } else {
        (-(x as i64)) as u64
    }
}

/// The magnitude of a 64-bit signed value.
fn mag64(x: i64) -> (m: u64)
    ensures
        m == abs_i(x as int),
{
    if x >= 0 {
        x as u64
    } else {
        (-(x as i128)) as u64
    }
}

/// The magnitude quotient is no larger than the dividend's magnitude.
proof fn lemma_div_le(a: u64, b: u64)
    requires
        b >= 1,
    ensures
        a as int / b as int <= a,
        a as int / b as int >= 0,
{
    assert(a as int / b as int <= a && a as int / b as int >= 0) by (nonlinear_arith)
        requires
            b >= 1,
            a >= 0,
    ;
}

/// Dividing by a magnitude of at least two at most halves the dividend.
proof fn lemma_div_halves(a: u64, b: u64)
    requires
        b >= 2,
    ensures
        a as int / b as int <= a as int / 2,
{
    assert(a as int / b as int <= a as int / 2) by (nonlinear_arith)
        requires
            b >= 2,
            a >= 0,
    ;
}

/// Truncating division of two 32-bit signed values.
pub fn div_i32(x: i32, y: i32) -> (r: i32)
    requires
        y != 0,
        !(x == i32::MIN && y == -1),
    ensures
        r == trunc_div_i(x as int, y as int),
{
    let xm = mag32(x);
    let ym = mag32(y);
    let q: u64 = xm / ym;
    proof {
        lemma_div_le(xm, ym);
    }
    if (x < 0) != (y < 0) {
        (-(q as i64)) as i32
    } else {
        proof {
            if xm == 0x8000_0000u64 {
                assert(x == i32::MIN);
                assert(y < 0);
                assert(ym >= 2);
                lemma_div_halves(xm, ym);
            }
        }
        (q as i64) as i32
    }
}

/// Truncating remainder of two 32-bit signed values.
pub fn rem_i32(x: i32, y: i32) -> (r: i32)
    requires
        y != 0,
        !(x == i32::MIN && y == -1),
    ensures
        r == trunc_rem_i(x as int, y as int),
{
    let xm = mag32(x);
    let ym = mag32(y);
    let m: u64 = xm % ym;
    proof {
        assert(m < ym) by (nonlinear_arith)
            requires
                ym >= 1,
                xm >= 0,
                m == xm as int % ym as int,
        ;
    }
    if x < 0 {
        (-(m as i64)) as i32
    } else {
        (m as i64) as i32
    }
}

/// Truncating division of two 64-bit signed values.
pub fn div_i64(x: i64, y: i64) -> (r: i64)
    requires
        y != 0,
        !(x == i64::MIN && y == -1),
    ensures
        r == trunc_div_i(x as int, y as int),
{
    let xm = mag64(x);
    let ym = mag64(y);
    let q: u64 = xm / ym;
    proof {
        lemma_div_le(xm, ym);
    }
    if (x < 0) != (y < 0) {
        (-(q as i128)) as i64
    } else {
        proof {
            if xm == 0x8000_0000_0000_0000u64 {
                assert(x == i64::MIN);
                assert(y < 0);
                assert(ym >= 2);
                lemma_div_halves(xm, ym);
            }
        }
        (q as i128) as i64
    }
}

/// Truncating remainder of two 64-bit signed values.
pub fn rem_i64(x: i64, y: i64) -> (r: i64)
    requires
        y != 0,
        !(x == i64::MIN && y == -1),
    ensures
        r == trunc_rem_i(x as int, y as int),
{
    let xm = mag64(x);
    let ym = mag64(y);
    let m: u64 = xm % ym;
    proof {
        assert(m < ym) by (nonlinear_arith)
            requires
                ym >= 1,
                xm >= 0,
                m == xm as int % ym as int,
        ;
    }
    if x < 0 {
        -(m as i64)
    } else {
        m as i64
    }
}

} // verus!
