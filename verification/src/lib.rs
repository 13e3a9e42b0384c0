//! Synthesis of *presentational hints*: CSS declarations derived from legacy
//! HTML attributes such as `<td width>` and `<input size>`, merged into the
//! declarations already matched against an element's selectors.
//!
//! The entry point is
//! [`legacy::PresentationalHintSynthesis::synthesize_presentational_hints_for_legacy_attributes`],
//! invoked once per element during rule matching. The caller is responsible
//! for placing the appended blocks at the presentational-hint cascade tier:
//! below author-stylesheet declarations, above user-agent defaults.

pub mod geometry;
pub mod legacy;
pub mod node;
pub mod properties;
pub mod selector_matching;
pub mod specified;
