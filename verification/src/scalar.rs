//! Ordering and clamping of scalars carried as IEEE 754 binary64 bit
//! patterns.
//!
//! A scalar is stored as the raw bit pattern of a binary64 value. The order
//! used throughout the crate is the classical monotone key order on such bit
//! patterns: complement the bits of a value whose sign bit is set, flip the
//! sign bit of the others. On the resulting keys, unsigned `u64` comparison
//! agrees with the numeric order of the encoded values for every pair of
//! non-NaN values (with the one refinement that the negative zero pattern
//! orders just below the positive zero pattern); NaN patterns sort below
//! negative infinity or above positive infinity depending on their sign bit,
//! so clamping still yields an in-range value for them.

use vstd::prelude::*;

verus! {

/// Sign bit of a binary64 bit pattern.
pub const SIGN_BIT: u64 = 0x8000_0000_0000_0000;

/// Bit pattern of positive infinity.
pub const POS_INFINITY_BITS: u64 = 0x7FF0_0000_0000_0000;

/// Monotone key of a scalar bit pattern: unsigned comparison of keys agrees
/// with the numeric order of the encoded binary64 values.
pub open spec fn spec_order_key(bits: u64) -> u64 {
    if bits & SIGN_BIT == SIGN_BIT {
        !bits
    } else {
        bits ^ SIGN_BIT
    }
}

/// `a` is at or below `b` in the scalar order.
pub open spec fn scalar_le(a: u64, b: u64) -> bool {
    spec_order_key(a) <= spec_order_key(b)
}

/// `bits` encodes a positive value: strictly above positive zero and at most
/// positive infinity in the scalar order. These are exactly the patterns of
/// the positive finite values and positive infinity; NaN patterns, which
/// sort outside that interval, are excluded.
pub open spec fn scalar_positive(bits: u64) -> bool {
    !scalar_le(bits, 0u64) && scalar_le(bits, POS_INFINITY_BITS)
}

/// The value of `x` pulled into `[lo, hi]` under the scalar order.
pub open spec fn spec_clamp(x: u64, lo: u64, hi: u64) -> u64 {
    if !scalar_le(lo, x) {
        lo
    } else if !scalar_le(x, hi) {
        hi
    } else {
        x
    }
}

/// Computes the monotone key of a scalar bit pattern.
pub fn order_key(bits: u64) -> (k: u64)
    ensures
        k == spec_order_key(bits),
{
    if bits & SIGN_BIT == SIGN_BIT {
        !bits
    } else {
        bits ^ SIGN_BIT
    }
}

/// Compares two scalars in the scalar order.
pub fn scalar_le_exec(a: u64, b: u64) -> (r: bool)
    ensures
        r == scalar_le(a, b),
{
    order_key(a) <= order_key(b)
}

/// Checks that `bits` encodes a positive value (see `scalar_positive`).
pub fn scalar_positive_exec(bits: u64) -> (r: bool)
    ensures
        r == scalar_positive(bits),
{
    !scalar_le_exec(bits, 0u64) && scalar_le_exec(bits, POS_INFINITY_BITS)
}

/// Clamps `x` into the limit pair `[lo, hi]` under the scalar order.
pub fn clamp_scalar(x: u64, lo: u64, hi: u64) -> (r: u64)
    requires
        scalar_le(lo, hi),
    ensures
        r == spec_clamp(x, lo, hi),
        scalar_le(lo, r),
        scalar_le(r, hi),
        scalar_le(lo, x) && scalar_le(x, hi) ==> r == x,
{
    let kx = order_key(x);
    if kx < order_key(lo) {
        lo
    } else if order_key(hi) < kx {
        hi
    } else {
        x
    }
}

} // verus!
