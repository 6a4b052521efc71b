//! A fixed-point scalar standing in for the 32-bit float values the
//! driver consumes: vertex coordinates and color components.
//!
//! A `Fixed` holds a value in thousandths, so clip-space coordinates
//! such as 0.5 and 0.7 and unit-interval color components are exact,
//! and pixel coordinates are whole multiples of 1000.

use vstd::prelude::*;

verus! {

/// A scalar in thousandths: `milli == 1500` stands for 1.5.
#[derive(Clone, Copy, Debug, PartialEq, Eq, Structural)]
pub struct Fixed {
    pub milli: i64,
}

impl Fixed {
    /// The scalar standing for `px` whole units, at the spec level.
    pub open spec fn spec_from_px(px: int) -> Fixed {
        Fixed { milli: (px * 1000) as i64 }
    }

    /// The scalar for a whole number of pixels.
    pub fn from_px(px: u32) -> (r: Fixed)
        ensures
            r == Fixed::spec_from_px(px as int),
            r.milli == px as int * 1000,
    {
        Fixed { milli: px as i64 * 1000 }
    }

    /// The scalar for a sum of two pixel counts, as a rectangle's far
    /// edge is the near edge plus the extent.
    pub fn from_px_sum(a: u32, b: u32) -> (r: Fixed)
        ensures
            r == Fixed::spec_from_px(a as int + b as int),
            r.milli == (a as int + b as int) * 1000,
    {
        Fixed { milli: (a as i64 + b as i64) * 1000 }
    }

    /// The scalar holding exactly `milli` thousandths.
    pub fn from_milli(milli: i64) -> (r: Fixed)
        ensures
            r.milli == milli,
    {
        Fixed { milli }
    }
}

/// A color as the four scalars handed to the color uniform.
#[derive(Clone, Copy, Debug, PartialEq, Eq, Structural)]
pub struct Color {
    pub red: Fixed,
    pub green: Fixed,
    pub blue: Fixed,
    pub alpha: Fixed,
}

} // verus!
