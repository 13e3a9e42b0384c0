use style::geometry::Au;
use style::legacy::PresentationalHintSynthesis;
use style::node::{Attr, Element, LengthOrPercentageOrAuto};
use style::properties::{DeclaredValue, PropertyDeclaration};
use style::selector_matching::{DeclarationBlock, Stylist};
use style::specified;

fn element(tag: &str, width: LengthOrPercentageOrAuto, size: Option<i32>, attrs: Vec<Attr>) -> Element {
    Element::new(tag.to_string(), width, size, attrs)
}

fn attr(name: &str, value: &str) -> Attr {
    Attr { name: name.to_string(), value: value.to_string() }
}

fn width_block(value: specified::LengthOrPercentageOrAuto) -> DeclarationBlock {
    DeclarationBlock {
        declarations: vec![PropertyDeclaration::Width(DeclaredValue::SpecifiedValue(value))],
    }
}

fn synthesize(element: &Element, shareable: &mut bool) -> Vec<DeclarationBlock> {
    let stylist = Stylist::new();
    let mut rules: Vec<DeclarationBlock> = Vec::new();
    stylist.synthesize_presentational_hints_for_legacy_attributes(element, &mut rules, shareable);
    rules
}

#[test]
fn unrecognized_tag_appends_nothing() {
    let e = element(
        "div",
        LengthOrPercentageOrAuto::Percentage(50),
        Some(20),
        vec![attr("type", "text")],
    );
    let mut shareable = true;
    let rules = synthesize(&e, &mut shareable);
    assert!(rules.is_empty());
    assert!(shareable);
}

#[test]
fn td_auto_width_appends_nothing() {
    let e = element("td", LengthOrPercentageOrAuto::Auto, None, Vec::new());
    let mut shareable = true;
    let rules = synthesize(&e, &mut shareable);
    assert!(rules.is_empty());
    assert!(shareable);
}

#[test]
fn td_percentage_width_synthesizes_percentage_declaration() {
    let e = element("td", LengthOrPercentageOrAuto::Percentage(50), None, Vec::new());
    let mut shareable = true;
    let rules = synthesize(&e, &mut shareable);
    assert_eq!(rules, vec![width_block(specified::LengthOrPercentageOrAuto::Percentage(50))]);
    assert!(!shareable);
}

#[test]
fn td_pixel_width_synthesizes_absolute_declaration() {
    let e = element(
        "td",
        LengthOrPercentageOrAuto::Length(Au::from_px(120)),
        None,
        Vec::new(),
    );
    let mut shareable = true;
    let rules = synthesize(&e, &mut shareable);
    let expected = specified::LengthOrPercentageOrAuto::Length(specified::Length::Absolute(Au(
        7200,
    )));
    assert_eq!(rules, vec![width_block(expected)]);
    assert!(!shareable);
}

#[test]
fn input_without_size_appends_nothing() {
    let e = element("input", LengthOrPercentageOrAuto::Auto, None, vec![attr("type", "text")]);
    let mut shareable = true;
    let rules = synthesize(&e, &mut shareable);
    assert!(rules.is_empty());
    assert!(shareable);
}

#[test]
fn input_zero_size_appends_nothing() {
    let e = element("input", LengthOrPercentageOrAuto::Auto, Some(0), vec![attr("type", "text")]);
    let mut shareable = true;
    let rules = synthesize(&e, &mut shareable);
    assert!(rules.is_empty());
    assert!(shareable);
}

#[test]
fn input_text_size_counts_character_widths() {
    let e = element("input", LengthOrPercentageOrAuto::Auto, Some(20), vec![attr("type", "text")]);
    let mut shareable = true;
    let rules = synthesize(&e, &mut shareable);
    let expected = specified::LengthOrPercentageOrAuto::Length(specified::Length::CharacterWidth(
        20,
    ));
    assert_eq!(rules, vec![width_block(expected)]);
    assert!(!shareable);
}

#[test]
fn input_password_size_counts_character_widths() {
    let e = element(
        "input",
        LengthOrPercentageOrAuto::Auto,
        Some(20),
        vec![attr("type", "password")],
    );
    let mut shareable = true;
    let rules = synthesize(&e, &mut shareable);
    let expected = specified::LengthOrPercentageOrAuto::Length(specified::Length::CharacterWidth(
        20,
    ));
    assert_eq!(rules, vec![width_block(expected)]);
    assert!(!shareable);
}

#[test]
fn input_checkbox_size_counts_pixels() {
    let e = element(
        "input",
        LengthOrPercentageOrAuto::Auto,
        Some(20),
        vec![attr("type", "checkbox")],
    );
    let mut shareable = true;
    let rules = synthesize(&e, &mut shareable);
    let expected = specified::LengthOrPercentageOrAuto::Length(specified::Length::Absolute(Au(
        1200,
    )));
    assert_eq!(rules, vec![width_block(expected)]);
    assert!(!shareable);
}

#[test]
fn input_without_type_counts_pixels() {
    let e = element("input", LengthOrPercentageOrAuto::Auto, Some(20), Vec::new());
    let mut shareable = true;
    let rules = synthesize(&e, &mut shareable);
    let expected = specified::LengthOrPercentageOrAuto::Length(specified::Length::Absolute(Au(
        1200,
    )));
    assert_eq!(rules, vec![width_block(expected)]);
    assert!(!shareable);
}

#[test]
fn input_negative_size_counts_pixels() {
    let e = element("input", LengthOrPercentageOrAuto::Auto, Some(-5), Vec::new());
    let mut shareable = true;
    let rules = synthesize(&e, &mut shareable);
    let expected = specified::LengthOrPercentageOrAuto::Length(specified::Length::Absolute(Au(
        -300,
    )));
    assert_eq!(rules, vec![width_block(expected)]);
    assert!(!shareable);
}

#[test]
fn synthesis_is_deterministic() {
    let make = || {
        element("input", LengthOrPercentageOrAuto::Auto, Some(20), vec![attr("type", "text")])
    };
    let mut shareable_first = true;
    let first = synthesize(&make(), &mut shareable_first);
    let mut shareable_second = true;
    let second = synthesize(&make(), &mut shareable_second);
    assert_eq!(first, second);
    assert_eq!(shareable_first, shareable_second);
}

#[test]
fn shareable_never_rises() {
    let hinted = element("td", LengthOrPercentageOrAuto::Percentage(10), None, Vec::new());
    let mut shareable = false;
    synthesize(&hinted, &mut shareable);
    assert!(!shareable);

    let plain = element("td", LengthOrPercentageOrAuto::Auto, None, Vec::new());
    let mut shareable = false;
    synthesize(&plain, &mut shareable);
    assert!(!shareable);
}

#[test]
fn hints_append_after_existing_blocks() {
    let existing = width_block(specified::LengthOrPercentageOrAuto::Auto);
    let e = element("td", LengthOrPercentageOrAuto::Percentage(25), None, Vec::new());
    let stylist = Stylist::new();
    let mut rules = vec![existing.clone()];
    let mut shareable = true;
    stylist.synthesize_presentational_hints_for_legacy_attributes(&e, &mut rules, &mut shareable);
    assert_eq!(
        rules,
        vec![existing, width_block(specified::LengthOrPercentageOrAuto::Percentage(25))],
    );
    assert!(!shareable);
}

#[test]
fn au_from_px_is_sixty_per_pixel() {
    assert_eq!(Au::from_px(120), Au(7200));
    assert_eq!(Au::from_px(0), Au(0));
    assert_eq!(Au::from_px(-5), Au(-300));
    assert_eq!(Au::from_px(i32::MAX), Au(i32::MAX as i64 * 60));
}

#[test]
fn get_attr_returns_first_match() {
    let e = element(
        "input",
        LengthOrPercentageOrAuto::Auto,
        None,
        vec![attr("type", "checkbox"), attr("type", "text"), attr("value", "on")],
    );
    assert_eq!(e.get_attr(&"type".to_string()), Some(&"checkbox".to_string()));
    assert_eq!(e.get_attr(&"value".to_string()), Some(&"on".to_string()));
    assert_eq!(e.get_attr(&"size".to_string()), None);
}
