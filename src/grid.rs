use vstd::prelude::*;

verus! {

/// Width of the play area in pixels.
pub const SCREEN_WIDTH: u32 = 960;

/// Height of the play area in pixels.
pub const SCREEN_HEIGHT: u32 = 540;

/// Pixels per grid cell.
pub const SCALE: i32 = 10;

/// A position `(x, y)`; negative values are legal (used off screen).
#[derive(Clone, Copy, Debug, PartialEq, Eq, Structural)]
pub struct Location(pub i32, pub i32);

/// Converts a count of grid cells into pixels.
pub fn normalize_pixel(size: i32) -> (r: i32)
    requires
        i32::MIN <= size * SCALE <= i32::MAX,
    ensures
        r == size * 10,
{
    size * SCALE
}

} // verus!
