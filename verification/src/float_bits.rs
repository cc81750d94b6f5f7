//! Ordering of IEEE-754 binary64 values carried as their bit patterns.
//!
//! Parameter values, ranges and macro values are stored by the library as the
//! `u64` bit pattern of an `f64` (what `f64::to_bits` returns). Arithmetic on
//! them stays with the caller; the library only compares and selects, and this
//! module states exactly how IEEE-754 compares two values: NaN is unordered,
//! the two zeros are equal, and otherwise the order is that of the real values.
use vstd::prelude::*;

verus! {

/// Mask of the 63 bits below the sign bit.
pub const MAGNITUDE_MASK: u64 = 0x7fff_ffff_ffff_ffffu64;

/// Smallest magnitude pattern that is not finite-or-infinite (all exponent
/// bits set and a non-zero mantissa).
pub const NAN_MAGNITUDE_MIN: u64 = 0x7ff0_0000_0000_0001u64;

/// The sign bit.
pub const SIGN_BIT: u64 = 0x8000_0000_0000_0000u64;

/// The value is a NaN.
pub open spec fn is_nan(bits: u64) -> bool {
    (bits & MAGNITUDE_MASK) >= NAN_MAGNITUDE_MIN
}

/// An integer that orders the non-NaN values exactly as their real values:
/// the magnitude bits, negated when the sign bit is set (so both zeros map
/// to 0, and larger magnitudes of negative numbers map further down).
pub open spec fn order_key(bits: u64) -> int {
    if bits & SIGN_BIT != 0 {
        -((bits & MAGNITUDE_MASK) as int)
    } else {
        (bits & MAGNITUDE_MASK) as int
    }
}

/// `a < b` on the values the patterns stand for.
pub open spec fn spec_lt(a: u64, b: u64) -> bool {
    !is_nan(a) && !is_nan(b) && order_key(a) < order_key(b)
}

/// `a <= b` on the values the patterns stand for.
pub open spec fn spec_le(a: u64, b: u64) -> bool {
    !is_nan(a) && !is_nan(b) && order_key(a) <= order_key(b)
}

/// `min.clamp(..)` as `f64::clamp` computes it, for well-ordered bounds.
pub open spec fn spec_clamp(v: u64, min: u64, max: u64) -> u64 {
    if spec_lt(v, min) {
        min
    } else if spec_lt(max, v) {
        max
    } else {
        v
    }
}

fn key_parts(bits: u64) -> (r: (bool, u64))
    ensures
        r.0 == (bits & SIGN_BIT != 0),
        r.1 == bits & MAGNITUDE_MASK,
{
    (bits & SIGN_BIT != 0, bits & MAGNITUDE_MASK)
}

/// Whether the pattern is a NaN.
pub fn f64_is_nan(bits: u64) -> (r: bool)
    ensures
        r == is_nan(bits),
{
    (bits & MAGNITUDE_MASK) >= NAN_MAGNITUDE_MIN
}

/// `a < b` on the values the patterns stand for (false when either is NaN).
pub fn f64_lt(a: u64, b: u64) -> (r: bool)
    ensures
        r == spec_lt(a, b),
{
    if f64_is_nan(a) || f64_is_nan(b) {
        return false;
    }
    let (sa, ma) = key_parts(a);
    let (sb, mb) = key_parts(b);
    if sa {
        if sb {
            mb < ma
        } else {
            // -ma < mb unless both are zero
            ma != 0 || mb != 0
        }
    } else {
        if sb {
            false
        } else {
            ma < mb
        }
    }
}

/// `f64::clamp` on bit patterns. `f64::clamp` panics when `min > max` or
/// when either bound is NaN, so those inputs are excluded.
pub fn f64_clamp(v: u64, min: u64, max: u64) -> (r: u64)
    requires
        spec_le(min, max),
    ensures
        r == spec_clamp(v, min, max),
        !is_nan(v) ==> spec_le(min, r) && spec_le(r, max),
{
    if f64_lt(v, min) {
        min
    } else if f64_lt(max, v) {
        max
    } else {
        v
    }
}

} // verus!
