//! Size clamping shared by images, layouts and widgets.

use vstd::prelude::*;

verus! {

/// A size clamped to half of `i32::MAX`.
pub open spec fn clamp_size_spec(val: u32) -> i32 {
    if val <= 1073741823u32 {
        val as i32
    } else {
        1073741823i32
    }
}

/// Clamps a size to `0..=i32::MAX / 2` and returns it as an `i32`.
pub fn clamp_size(val: u32) -> (r: i32)
    ensures
        r == clamp_size_spec(val),
        0 <= r <= 1073741823,
{
    if val <= 1073741823u32 {
        val as i32
    } else {
        1073741823i32
    }
}

/// Clamps a width and a height as [`clamp_size`] does.
pub fn clamp_dimensions(width: u32, height: u32) -> (r: (i32, i32))
    ensures
        r == (clamp_size_spec(width), clamp_size_spec(height)),
{
    (clamp_size(width), clamp_size(height))
}

} // verus!
