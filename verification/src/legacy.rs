//! Legacy presentational attributes defined in the HTML specification:
//! `<td width>`, `<input size>`, and so forth.

use vstd::prelude::*;
use crate::geometry::Au;
use crate::node::{Element, ElementView, LengthOrPercentageOrAuto, spec_lookup_attr};
use crate::properties::{DeclaredValue, PropertyDeclaration};
use crate::selector_matching::{DeclarationBlock, Stylist};
use crate::specified;

verus! {

/// Legacy presentational attributes that take a length.
#[derive(Clone, Copy, Debug, PartialEq, Eq, Structural)]
pub enum LengthAttribute {
    /// `<td width>`
    Width,
}

/// Legacy presentational attributes that take an integer.
#[derive(Clone, Copy, Debug, PartialEq, Eq, Structural)]
pub enum IntegerAttribute {
    /// `<input size>`
    Size,
}

/// Whether a `type` attribute value makes `<input size>` count character
/// widths rather than pixels: `text` and `password` do, every other value
/// and an absent attribute do not.
pub open spec fn counts_character_widths(type_attr: Option<Seq<char>>) -> bool {
    type_attr == Some("text"@) || type_attr == Some("password"@)
}

/// The specified length of an `<input size>` hint: `value` character widths
/// for text-like `type` values, `value` device pixels otherwise.
pub open spec fn spec_input_size_length(value: i32, type_attr: Option<Seq<char>>) -> specified::Length {
    if counts_character_widths(type_attr) {
        specified::Length::CharacterWidth(value)
    } else {
        specified::Length::Absolute(Au::spec_from_px(value))
    }
}

/// A `width` declaration with the given specified value.
pub open spec fn width_declaration(value: specified::LengthOrPercentageOrAuto) -> PropertyDeclaration {
    PropertyDeclaration::Width(DeclaredValue::SpecifiedValue(value))
}

/// The presentational hint, if any, that one element's attribute snapshot
/// gives rise to.
pub open spec fn spec_hint(e: ElementView) -> Option<PropertyDeclaration> {
    if e.local_name == "td"@ {
        match e.width {
            LengthOrPercentageOrAuto::Auto => None,
            LengthOrPercentageOrAuto::Percentage(percentage) => Some(
                width_declaration(specified::LengthOrPercentageOrAuto::Percentage(percentage)),
            ),
            LengthOrPercentageOrAuto::Length(length) => Some(
                width_declaration(specified::LengthOrPercentageOrAuto::Length(
                    specified::Length::Absolute(length),
                )),
            ),
        }
    } else if e.local_name == "input"@ {
        match e.size {
            Some(value) => if value != 0 {
                Some(width_declaration(specified::LengthOrPercentageOrAuto::Length(
                    spec_input_size_length(value, spec_lookup_attr(e.attrs, "type"@)),
                )))
            } else {
                None
            },
            None => None,
        }
    } else {
        None
    }
}

/// The declaration blocks synthesis appends for one element, by their views:
/// one single-declaration block per hint, in synthesis order.
pub open spec fn spec_hint_blocks(e: ElementView) -> Seq<Seq<PropertyDeclaration>> {
    match spec_hint(e) {
        Some(declaration) => seq![seq![declaration]],
        None => Seq::empty(),
    }
}

/// The views of a sequence of declaration blocks.
pub open spec fn blocks_view(blocks: Seq<DeclarationBlock>) -> Seq<Seq<PropertyDeclaration>> {
    blocks.map_values(|block: DeclarationBlock| block@)
}

/// Extension methods for `Stylist` that cause rules to be synthesized for
/// legacy attributes.
pub trait PresentationalHintSynthesis {
    /// Synthesizes rules from legacy HTML attributes that confer
    /// *presentational hints*: `<td width>`, `<input size>`, and so forth.
    ///
    /// Exactly the blocks of [`spec_hint_blocks`] are appended to
    /// `matching_rules_list` — at most one single-declaration block today —
    /// and `shareable` is cleared whenever a hint was synthesized, never
    /// raised, so elements styled by their attributes are excluded from
    /// style sharing. The caller places the appended blocks at the
    /// presentational-hint cascade tier.
    fn synthesize_presentational_hints_for_legacy_attributes(
        &self,
        element: &Element,
        matching_rules_list: &mut Vec<DeclarationBlock>,
        shareable: &mut bool,
    )
        ensures
            blocks_view(final(matching_rules_list)@) == blocks_view(old(matching_rules_list)@)
                + spec_hint_blocks(element@),
            *final(shareable) == (*old(shareable) && spec_hint(element@) is None),
            *final(shareable) ==> *old(shareable),
    ;
}

impl PresentationalHintSynthesis for Stylist {
    fn synthesize_presentational_hints_for_legacy_attributes(
        &self,
        element: &Element,
        matching_rules_list: &mut Vec<DeclarationBlock>,
        shareable: &mut bool,
    ) {
        let name = element.get_local_name();
        if *name == "td".to_owned() {
            match element.get_length_attribute(LengthAttribute::Width) {
                LengthOrPercentageOrAuto::Auto => {
                    proof {
                        lemma_append_nothing(matching_rules_list@, element@);
                    }
                }
                LengthOrPercentageOrAuto::Percentage(percentage) => {
                    let width_value = specified::LengthOrPercentageOrAuto::Percentage(percentage);
                    let declaration = PropertyDeclaration::Width(DeclaredValue::SpecifiedValue(
                        width_value,
                    ));
                    let block = DeclarationBlock::from_declaration(declaration);
                    let ghost before = matching_rules_list@;
                    matching_rules_list.push(block);
                    *shareable = false;
                    proof {
                        lemma_append_one(before, block, declaration, element@);
                    }
                }
                LengthOrPercentageOrAuto::Length(length) => {
                    let width_value = specified::LengthOrPercentageOrAuto::Length(
                        specified::Length::Absolute(length),
                    );
                    let declaration = PropertyDeclaration::Width(DeclaredValue::SpecifiedValue(
                        width_value,
                    ));
                    let block = DeclarationBlock::from_declaration(declaration);
                    let ghost before = matching_rules_list@;
                    matching_rules_list.push(block);
                    *shareable = false;
                    proof {
                        lemma_append_one(before, block, declaration, element@);
                    }
                }
            }
        } else if *name == "input".to_owned() {
            match element.get_integer_attribute(IntegerAttribute::Size) {
                Some(value) => {
                    if value != 0 {
                        // Per the HTML specification, the value counts
                        // characters if `type` is `text` or `password` and
                        // pixels otherwise.
                        let kind_attr: String = "type".to_owned();
                        let counts_characters = match element.get_attr(&kind_attr) {
                            Some(type_value) => {
                                *type_value == "text".to_owned()
                                    || *type_value == "password".to_owned()
                            }
                            None => false,
                        };
                        let width_value = if counts_characters {
                            specified::Length::CharacterWidth(value)
                        } else {
                            specified::Length::Absolute(Au::from_px(value))
                        };
                        let declaration = PropertyDeclaration::Width(DeclaredValue::SpecifiedValue(
                            specified::LengthOrPercentageOrAuto::Length(width_value),
                        ));
                        let block = DeclarationBlock::from_declaration(declaration);
                        let ghost before = matching_rules_list@;
                        matching_rules_list.push(block);
                        *shareable = false;
                        proof {
                            lemma_append_one(before, block, declaration, element@);
                        }
                    } else {
                        proof {
                            lemma_append_nothing(matching_rules_list@, element@);
                        }
                    }
                }
                None => {
                    proof {
                        lemma_append_nothing(matching_rules_list@, element@);
                    }
                }
            }
        } else {
            proof {
                lemma_append_nothing(matching_rules_list@, element@);
            }
        }
    }
}

/// Law: an element whose tag is neither `td` nor `input` yields no hint, so
/// synthesis appends nothing and, by the entry point's contract, leaves
/// `shareable` unchanged.
pub proof fn lemma_unrecognized_tag_no_hint(e: ElementView)
    requires
        e.local_name != "td"@,
        e.local_name != "input"@,
    ensures
        spec_hint(e) is None,
        spec_hint_blocks(e) == Seq::<Seq<PropertyDeclaration>>::empty(),
{
}

/// Law: a `td` whose `width` attribute is absent or `auto` yields no hint,
/// so synthesis appends nothing and leaves `shareable` unchanged.
pub proof fn lemma_td_auto_width_no_hint(e: ElementView)
    requires
        e.local_name == "td"@,
        e.width is Auto,
    ensures
        spec_hint(e) is None,
        spec_hint_blocks(e) == Seq::<Seq<PropertyDeclaration>>::empty(),
{
}

/// Law: an `input` whose `size` attribute is absent or zero yields no hint,
/// so synthesis appends nothing and leaves `shareable` unchanged.
pub proof fn lemma_input_no_size_no_hint(e: ElementView)
    requires
        e.local_name == "input"@,
        e.size is None || e.size == Some(0i32),
    ensures
        spec_hint(e) is None,
        spec_hint_blocks(e) == Seq::<Seq<PropertyDeclaration>>::empty(),
{
    reveal_strlit("td");
    reveal_strlit("input");
    assert("td"@.len() == 2);
    assert("input"@.len() == 5);
    assert(e.local_name != "td"@);
}

/// Law: synthesis is a pure function of the element's attribute snapshot.
/// Two invocations over equal snapshots append equal declaration blocks, so
/// repeating a pass over an unchanged element reproduces its hints exactly.
pub proof fn lemma_synthesis_deterministic(e1: ElementView, e2: ElementView)
    requires
        e1 == e2,
    ensures
        spec_hint_blocks(e1) == spec_hint_blocks(e2),
{
}

/// Law: at most one block is appended per invocation, and an appended block
/// holds exactly one declaration. Both recognized tags map to the one
/// property `width`, so no element can receive two hints today.
pub proof fn lemma_at_most_one_block(e: ElementView)
    ensures
        spec_hint_blocks(e).len() <= 1,
        forall|i: int| 0 <= i < spec_hint_blocks(e).len() ==> spec_hint_blocks(e)[i].len() == 1,
{
}

/// An unchanged rule list is the old list with the empty block sequence
/// appended: the no-hint paths of synthesis meet the entry point's contract.
proof fn lemma_append_nothing(blocks: Seq<DeclarationBlock>, e: ElementView)
    requires
        spec_hint(e) is None,
    ensures
        blocks_view(blocks) == blocks_view(blocks) + spec_hint_blocks(e),
{
    assert(blocks_view(blocks) =~= blocks_view(blocks) + spec_hint_blocks(e));
}

/// Pushing one block that holds exactly a synthesized hint appends exactly
/// `spec_hint_blocks` to the rule list's views.
proof fn lemma_append_one(
    before: Seq<DeclarationBlock>,
    block: DeclarationBlock,
    declaration: PropertyDeclaration,
    e: ElementView,
)
    requires
        spec_hint(e) == Some(declaration),
        block@ == seq![declaration],
    ensures
        blocks_view(before.push(block)) == blocks_view(before) + spec_hint_blocks(e),
{
    assert(blocks_view(before.push(block)) =~= blocks_view(before) + spec_hint_blocks(e));
}

} // verus!
