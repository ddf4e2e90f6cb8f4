//! Scale factors of layers drawn inside the content bounds.
//!
//! A scale is the edge length of a decal or overlay relative to the shorter
//! side of the icon's content bounds, counted in ten-thousandths: `10000` is
//! the whole side, `2500` a quarter of it.

use vstd::prelude::*;

verus! {

/// The scale that spans the whole content bounds.
pub const FULL_SCALE: u32 = 10000;

/// A scale clamped to the range `0..=FULL_SCALE`.
pub open spec fn clamped_scale(scale: u32) -> u32 {
    if scale > FULL_SCALE {
        FULL_SCALE
    } else {
        scale
    }
}

/// Clamps a scale to the range `0..=FULL_SCALE`.
pub fn clamp_scale(scale: u32) -> (r: u32)
    ensures
        r == clamped_scale(scale),
{
    if scale > FULL_SCALE {
        FULL_SCALE
    } else {
        scale
    }
}

/// Two scales render differently when they are more than one ten-thousandth
/// apart.
pub open spec fn scales_differ(a: u32, b: u32) -> bool {
    a > b + 1 || b > a + 1
}

/// Whether two scales are more than one ten-thousandth apart.
pub fn scale_differs(a: u32, b: u32) -> (r: bool)
    ensures
        r == scales_differ(a, b),
{
    (a > b && a - b > 1) || (b > a && b - a > 1)
}

} // verus!
