//! Exact rational numbers for overlay geometry.
//!
//! Every coordinate, size, angle and scale factor in this crate is a rational
//! `num / den` with a positive denominator.  The denominators come from the
//! fixed layout grid (quarter cells of a 26-column text box), from the
//! progress total, or from the millisecond clock, so no value is ever
//! rounded inside the library.  The host converts a `Frac` to floating point
//! only when it hands the value to the renderer.

use vstd::prelude::*;

verus! {

/// An exact rational number `num / den`; well-formed when `den > 0`.
#[derive(Clone, Copy, PartialEq, Eq, Structural, Debug)]
pub struct Frac {
    /// Numerator.
    pub num: i64,
    /// Denominator; positive for a well-formed value.
    pub den: i64,
}

impl Frac {
    /// Well-formed: the denominator is positive.
    pub open spec fn wf(self) -> bool {
        self.den > 0
    }

    /// The value of `self` is at most the value of `other`
    /// (cross multiplication; meaningful when both are well-formed).
    pub open spec fn le(self, other: Frac) -> bool {
        self.num * other.den <= other.num * self.den
    }

    /// The value of `self` is exactly the integer `k`.
    pub open spec fn is_int(self, k: int) -> bool {
        self.num == k * self.den
    }

    /// The value of `self` is at least the integer `k`.
    pub open spec fn ge_int(self, k: int) -> bool {
        self.num >= k * self.den
    }

    /// The value of `self` is at most the integer `k`.
    pub open spec fn le_int(self, k: int) -> bool {
        self.num <= k * self.den
    }
}

} // verus!
