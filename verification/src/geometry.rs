//! App units, the engine's internal device-independent length unit.

use vstd::prelude::*;

verus! {

/// How many app units make up one device pixel.
pub const AU_PER_PX: i64 = 60;

/// A length in app units. There are [`AU_PER_PX`] app units to one device
/// pixel, so every pixel count an attribute can carry has an exact image.
#[derive(Clone, Copy, Debug, PartialEq, Eq, Structural)]
pub struct Au(pub i64);

impl Au {
    /// The app-unit length of `px` device pixels.
    pub open spec fn spec_from_px(px: i32) -> Au {
        Au(((px as int) * (AU_PER_PX as int)) as i64)
    }

    /// Converts a device-pixel count to app units.
    pub fn from_px(px: i32) -> (r: Au)
        ensures
            r == Au::spec_from_px(px),
            r.0 == (px as int) * (AU_PER_PX as int),
    {
        Au((px as i64) * AU_PER_PX)
    }
}

} // verus!
