use stardial::theme::parse_color;
use stardial::theme::Color;
use stardial::theme::Theme;

#[test]
fn test_parse_hex_color() {
    assert_eq!(parse_color("#ff6ac1"), Some(Color::Rgb(255, 106, 193)));
    assert_eq!(parse_color("#000000"), Some(Color::Rgb(0, 0, 0)));
    assert_eq!(parse_color("#ffffff"), Some(Color::Rgb(255, 255, 255)));
}

#[test]
fn test_parse_named_color() {
    assert_eq!(parse_color("red"), Some(Color::Red));
    assert_eq!(parse_color("Cyan"), Some(Color::Cyan));
}

#[test]
fn test_parse_invalid_color() {
    assert_eq!(parse_color("notacolor"), None);
    assert_eq!(parse_color("#xyz"), None);
}

#[test]
fn test_theme_by_name() {
    let t = Theme::by_name("nebula");
    assert_eq!(t.name, "nebula");
    let t = Theme::by_name("unknown");
    assert_eq!(t.name, "void"); // fallback
}

#[test]
fn test_accent_override() {
    let t = Theme::void().with_accent_override("#ff0000");
    assert_eq!(t.accent, Color::Rgb(255, 0, 0));
}

#[test]
fn test_parse_color_trims_whitespace() {
    assert_eq!(parse_color("  blue "), Some(Color::Blue));
    assert_eq!(parse_color(" #ffffff "), Some(Color::Rgb(255, 255, 255)));
}

#[test]
fn test_parse_hex_wrong_length_is_rejected() {
    assert_eq!(parse_color("#fff"), None);
    assert_eq!(parse_color("#ffffff0"), None);
}
