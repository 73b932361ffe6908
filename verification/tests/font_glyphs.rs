use stardial::font::glyph;
use stardial::font::render_time_string;
use stardial::font::rendered_width;
use stardial::font::DIGIT_WIDTH;
use stardial::font::GLYPH_HEIGHT;

#[test]
fn test_glyph_height() {
    for ch in "0123456789: ".chars() {
        let g = glyph(ch);
        assert_eq!(g.len(), GLYPH_HEIGHT, "glyph '{ch}' should have {GLYPH_HEIGHT} lines");
    }
}

#[test]
fn test_render_time_string_height() {
    let lines = render_time_string("12:34", false);
    assert_eq!(lines.len(), GLYPH_HEIGHT);
}

#[test]
fn test_digit_glyph_width_consistency() {
    // Every line of a digit glyph should have the same display width
    for d in '0'..='9' {
        let g = glyph(d);
        for (i, line) in g.iter().enumerate() {
            let w: usize = line.chars().count();
            assert_eq!(
                w, DIGIT_WIDTH,
                "digit '{d}' line {i} has width {w}, expected {DIGIT_WIDTH}"
            );
        }
    }
}

#[test]
fn test_rendered_width() {
    // "12:34" = 5 chars, widths: 5+5+1+5+5 = 21, gaps = 4 -> 25
    assert_eq!(rendered_width("12:34"), 25);
}

#[test]
fn test_render_specific_digit() {
    let g = glyph('0');
    assert_eq!(g[0], "█▀▀▀█");
    assert_eq!(g[4], "█▄▄▄█");
}

#[test]
fn test_hide_colons_preserves_width() {
    let visible = render_time_string("12:34:56", false);
    let hidden = render_time_string("12:34:56", true);
    for row in 0..GLYPH_HEIGHT {
        assert_eq!(
            visible[row].chars().count(),
            hidden[row].chars().count(),
            "row {row} width differs between visible and hidden colons"
        );
    }
}
