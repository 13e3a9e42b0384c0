//! Specified CSS values, the shapes a `width` declaration can carry before
//! computed-value derivation.

use vstd::prelude::*;
use crate::geometry::Au;

verus! {

/// A specified CSS length.
#[derive(Clone, Copy, Debug, PartialEq, Eq, Structural)]
pub enum Length {
    /// An absolute length in app units.
    Absolute(Au),
    /// A width of so many average character advances, resolved against font
    /// metrics later in the pipeline; carries the raw character count.
    CharacterWidth(i32),
}

/// A specified value for a property, such as `width`, that accepts an
/// explicit length, a percentage, or the keyword `auto`.
#[derive(Clone, Copy, Debug, PartialEq, Eq, Structural)]
pub enum LengthOrPercentageOrAuto {
    Auto,
    /// A percentage of the containing block, in the attribute's native scale,
    /// exactly as the attribute accessor reported it.
    Percentage(i32),
    Length(Length),
}

} // verus!
