//! The style-string grammar.

use starship::style::{parse_color_string, parse_style_string, Color, Style};

#[test]
fn test_from_style() {
    assert_eq!(parse_style_string("red bold").unwrap(), Color::Red.bold());
}

#[test]
fn table_get_styles_bold_italic_underline_green_dimmy_silly_caps() {
    let mystyle = parse_style_string("bOlD ItAlIc uNdErLiNe GrEeN diMMeD").unwrap();
    assert!(mystyle.is_bold);
    assert!(mystyle.is_italic);
    assert!(mystyle.is_underline);
    assert!(mystyle.is_dimmed);
    assert_eq!(
        mystyle,
        Style::new().bold().italic().underline().dimmed().fg(Color::Green)
    );
}

#[test]
fn table_get_styles_plain_and_broken_styles() {
    // A "plain" style with no formatting
    let plain_style = parse_style_string("").unwrap();
    assert_eq!(plain_style, Style::new());

    // A string that's clearly broken
    assert!(parse_style_string("djklgfhjkldhlhk;j").is_none());

    // A string that's nullified by `none`
    assert!(parse_style_string("fg:red bg:green bold none").is_none());

    // A string that's nullified by `none` at the start
    assert!(parse_style_string("none fg:red bg:green bold").is_none());
}

#[test]
fn table_get_styles_ordered() {
    // A background style with inverted order (also hex + palette index)
    let flipped_style = parse_style_string("bg:#050505 underline fg:120").unwrap();
    assert_eq!(
        flipped_style,
        Style::new().underline().fg(Color::Fixed(120)).on(Color::Rgb(5, 5, 5))
    );

    // The last colour style is always the one used, per channel
    let multi_style = parse_style_string("bg:120 bg:125 bg:127 fg:127 122 125").unwrap();
    assert_eq!(
        multi_style,
        Style::new().fg(Color::Fixed(125)).on(Color::Fixed(127))
    );
}

#[test]
fn named_and_bright_colors() {
    assert_eq!(parse_color_string("purple"), Some(Color::Purple));
    assert_eq!(parse_color_string("BRIGHT-WHITE"), Some(Color::Fixed(15)));
    assert_eq!(parse_color_string("42"), Some(Color::Fixed(42)));
    assert_eq!(parse_color_string("#aAbBcC"), Some(Color::Rgb(0xaa, 0xbb, 0xcc)));
    assert_eq!(parse_color_string("#aabbc"), None);
    assert_eq!(parse_color_string("256"), None);
    assert_eq!(parse_color_string("mauve"), None);
}

#[test]
fn none_under_a_channel_prefix_also_poisons() {
    assert!(parse_style_string("bold bg:none").is_none());
}

#[test]
fn a_repeated_channel_prefix_collapses() {
    assert_eq!(
        parse_style_string("fg:fg:red").unwrap(),
        Style::new().fg(Color::Red)
    );
    // a different prefix underneath is not a colour
    assert!(parse_style_string("fg:bg:red").is_none());
}
