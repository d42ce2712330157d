//! Modules, segments and affixes.

use starship::module::{Affix, Module};
use starship::segment::Segment;

#[test]
fn test_module_is_empty_with_no_segments() {
    let module = Module::new("unit_test");
    assert!(module.is_empty());
}

#[test]
fn test_module_is_empty_with_all_empty_segments() {
    let mut module = Module::new("unit_test");
    module.append_segment_str("");
    assert!(module.is_empty());
}

#[test]
fn module_with_text_is_not_empty() {
    let mut module = Module::new("unit_test");
    module.append_segment_str("  ");
    assert!(module.is_empty());
    module.append_segment_str("x");
    assert!(!module.is_empty());
}

#[test]
fn segment_emptiness_goes_by_trimmed_value() {
    let mut segment = Segment::new();
    assert!(segment.is_empty());
    segment.set_value(" \t\n");
    assert!(segment.is_empty());
    segment.set_value(" x ");
    assert!(!segment.is_empty());
}

#[test]
fn affix_defaults() {
    let prefix = Affix::default_prefix();
    assert_eq!(prefix.value, "");
    let suffix = Affix::default_suffix();
    assert_eq!(suffix.value, " ");
}

#[test]
fn plain_affix_paints_no_codes() {
    let mut affix = Affix::default_suffix();
    affix.set_value("| ");
    assert_eq!(affix.ansi_string(), "| ");
}

#[test]
fn styled_piece_paints_like_the_terminal_library() {
    // held against ansi_term directly: the painting relied on must agree
    let mut module = Module::new("unit_test");
    module.set_style(starship::style::Color::Green.bold());
    module.append_segment_str("ok");
    let rendered = module.render(true);
    let expected = format!("{}", ansi_term::Colour::Green.bold().paint("ok"));
    assert_eq!(rendered, format!("{} ", expected));
}

#[test]
fn segment_style_override_beats_the_module_default() {
    let mut segment = Segment::new();
    segment.set_value("x");
    let default = starship::style::Color::Blue.normal();
    // without an override, the given default paints
    let expected_default = format!("{}", ansi_term::Colour::Blue.paint("x"));
    assert_eq!(segment.ansi_string(&default), expected_default);
    // with one, the override paints
    segment.set_style(starship::style::Color::Red.bold());
    let expected_override = format!("{}", ansi_term::Colour::Red.bold().paint("x"));
    assert_eq!(segment.ansi_string(&default), expected_override);
}

#[test]
fn ansi_strings_lists_prefix_segments_suffix() {
    let mut module = Module::new("unit_test");
    module.append_segment_str("a");
    module.append_segment_str("b");
    let pieces = module.ansi_strings();
    assert_eq!(pieces, vec!["".to_string(), "a".to_string(), "b".to_string(), " ".to_string()]);
    assert_eq!(module.get_prefix().value, "");
    assert_eq!(module.get_suffix().value, " ");
}

#[test]
fn renderer_suppresses_the_first_prefix_and_the_one_after_a_line_break() {
    let mut first = Module::new("one");
    first.set_prefix_value("<");
    first.append_segment_str("1");
    let mut second = Module::new("two");
    second.set_prefix_value("<");
    second.append_segment_str("2");
    let mut lb = Module::new("line_break");
    lb.append_segment_str("\n");
    lb.set_suffix_value("");
    let mut third = Module::new("three");
    third.set_prefix_value("<");
    third.append_segment_str("3");
    // an empty module between the others is dropped entirely
    let mut blank = Module::new("blank");
    blank.append_segment_str(" ");
    blank.set_prefix_value("<");

    let mods = vec![first, blank, second, lb, third];
    let line = starship::print::render_modules(&mods);
    assert_eq!(line, "1 <2 \n3 ");
}

#[test]
fn background_code_comes_before_foreground() {
    let mut module = Module::new("unit_test");
    module.set_style(
        starship::style::Style::new()
            .fg(starship::style::Color::Fixed(120))
            .on(starship::style::Color::Rgb(5, 5, 5))
            .underline(),
    );
    module.append_segment_str("x");
    let rendered = module.render(true);
    let expected = format!(
        "{}",
        ansi_term::Style::new()
            .fg(ansi_term::Colour::Fixed(120))
            .on(ansi_term::Colour::RGB(5, 5, 5))
            .underline()
            .paint("x")
    );
    assert_eq!(rendered, format!("{} ", expected));
}
