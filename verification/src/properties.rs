//! Property declarations: one CSS property paired with a declared value.

use vstd::prelude::*;
use crate::specified;

verus! {

/// A declared value for a property.
#[derive(Clone, Copy, Debug, PartialEq, Eq, Structural)]
pub enum DeclaredValue {
    /// An explicitly specified value.
    SpecifiedValue(specified::LengthOrPercentageOrAuto),
}

/// One CSS property declaration. Presentational hints currently synthesize
/// only `width`, but the dispatch is shaped so further properties can be
/// added without changing the entry point's contract.
#[derive(Clone, Copy, Debug, PartialEq, Eq, Structural)]
pub enum PropertyDeclaration {
    /// A declaration for the `width` property.
    Width(DeclaredValue),
}

} // verus!
