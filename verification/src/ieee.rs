//! Ordering of floating-point values by their raw bit patterns.
//!
//! Literals carry floating-point values as raw bits, so the standard
//! partial order is recovered here with integer arithmetic alone: a bit
//! pattern is NaN when its exponent field is all ones and its mantissa is
//! non-zero, and every non-NaN pattern maps to an integer key whose order
//! is the numeric order (both zero patterns map to key 0).

use vstd::prelude::*;

verus! {

/// Whether a 32-bit pattern encodes a NaN.
pub open spec fn nan_bits32(b: u32) -> bool {
    (b >> 23) & 0xff == 0xff && b & 0x7fffff != 0
}

/// Whether a 64-bit pattern encodes a NaN.
pub open spec fn nan_bits64(b: u64) -> bool {
    (b >> 52) & 0x7ff == 0x7ff && b & 0xf_ffff_ffff_ffff != 0
}

/// The ordering key of a non-NaN 32-bit pattern: the magnitude bits,
/// negated for a negative sign. Positive and negative zero both map to 0.
pub open spec fn order_key32(b: u32) -> int {
    if b >> 31 == 1 {
        -((b & 0x7fff_ffff) as int)
    } else {
        (b & 0x7fff_ffff) as int
    }
}

/// The ordering key of a non-NaN 64-bit pattern.
pub open spec fn order_key64(b: u64) -> int {
    if b >> 63 == 1 {
        -((b & 0x7fff_ffff_ffff_ffff) as int)
    } else {
        (b & 0x7fff_ffff_ffff_ffff) as int
    }
}

/// Whether the 32-bit pattern `b` encodes a NaN.
pub fn bits32_is_nan(b: u32) -> (r: bool)
    ensures
        r == nan_bits32(b),
{
    (b >> 23) & 0xff == 0xff && b & 0x7fffff != 0
}

/// Whether the 64-bit pattern `b` encodes a NaN.
pub fn bits64_is_nan(b: u64) -> (r: bool)
    ensures
        r == nan_bits64(b),
{
    (b >> 52) & 0x7ff == 0x7ff && b & 0xf_ffff_ffff_ffff != 0
}

/// The ordering key of a 32-bit pattern.
pub fn bits32_key(b: u32) -> (k: i64)
    ensures
        k == order_key32(b),
{
    proof {
        assert(b & 0x7fff_ffff <= 0x7fff_ffff) by (bit_vector);
    }
    let mag = (b & 0x7fff_ffff) as i64;
    if b >> 31 == 1 {
        -mag
    } else {
        mag
    }
}

/// The ordering key of a 64-bit pattern.
pub fn bits64_key(b: u64) -> (k: i64)
    ensures
        k == order_key64(b),
{
    proof {
        assert(b & 0x7fff_ffff_ffff_ffff <= 0x7fff_ffff_ffff_ffff) by (bit_vector);
    }
    let mag = (b & 0x7fff_ffff_ffff_ffff) as i64;
    if b >> 63 == 1 {
        -mag
    } else {
        mag
    }
}

} // verus!
