//! The scalar comparator at the bottom of the library.
//!
//! Scalars are IEEE-754 double-precision bit patterns carried as `u64`.
//! Two such numbers count as equal when their absolute difference is
//! strictly below a tolerance, by default 1e-6.  A general tolerance test
//! needs a floating-point subtraction, which has no exact model here, so it
//! is left to the caller as a strategy function.  Closeness to *zero* is the
//! one case the encoding itself decides: subtracting zero returns the other
//! operand unchanged, and on nonnegative patterns the numeric order of
//! doubles coincides with the unsigned order of their bit patterns, so
//! `|x| < tolerance` is a plain integer comparison of the pattern's
//! magnitude bits against the tolerance's pattern.  Patterns that denote
//! no number at all (exponent bits all set, fraction nonzero) sit above
//! every finite pattern in magnitude and are therefore never close to zero,
//! exactly as the floating-point test would decide.

use vstd::prelude::*;

verus! {

/// Bit pattern of the default tolerance, 1e-6.
pub const DEFAULT_TOL_BITS: u64 = 0x3EB0_C6F7_A0B5_ED8D;

/// Mask that clears the sign bit of a double-precision pattern.
pub const MAGNITUDE_MASK: u64 = 0x7FFF_FFFF_FFFF_FFFF;

/// The magnitude bits of a scalar: its pattern with the sign cleared.
pub open spec fn magnitude_bits(x: u64) -> u64 {
    x & MAGNITUDE_MASK
}

/// Whether the scalar `x` is closer to zero than the default tolerance.
pub open spec fn is_close_to_zero(x: u64) -> bool {
    magnitude_bits(x) < DEFAULT_TOL_BITS
}

/// Decides whether a scalar is closer to zero than the default tolerance.
pub fn close_to_zero(x: u64) -> (r: bool)
    ensures
        r == is_close_to_zero(x),
{
    (x & MAGNITUDE_MASK) < DEFAULT_TOL_BITS
}

} // verus!
