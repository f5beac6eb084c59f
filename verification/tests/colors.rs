use colors::clr;
use colors::clr::Color;
use colors::{Ansi, AnsiEscape};

#[test]
fn are_there_colors() {
    assert_eq!(clr::Color(255, 0, 0).display_string(), "(255, 0, 0)");
}

#[test]
fn convert_to_hex() {
    assert_eq!(clr::Color(255, 0, 0).to_hex(), "#FF0000");
}

#[test]
fn debug_working() {
    assert_eq!(clr::Color(255, 0, 0).debug_string(), "Color(r=255, g=0, b=0)");
}

#[test]
fn check_basic_colors() {
    assert_eq!(Color::from_rgb(clr::R).display_string(), "(255, 0, 0)");
    assert_eq!(Color::from_rgb(clr::B).display_string(), "(0, 0, 255)");
    assert_eq!(Color::from_rgb(clr::M).display_string(), "(191, 0, 191)");
}

#[test]
fn check_css_colors() {
    assert_eq!(Color::from_rgb(clr::CHARTREUSE).display_string(), "(127, 255, 0)");
    assert_eq!(Color::from_rgb(clr::GOLDENROD).display_string(), "(218, 165, 32)");
    assert_eq!(Color::from_rgb(clr::FIREBRICK).display_string(), "(178, 34, 34)");
}

#[test]
fn test_ansi_colors() {
    assert_eq!(
        Ansi::ColorEscape(Color::from_rgb(clr::R)).render(),
        "\x1B[38;2;255;0;0m"
    );
    assert_eq!(
        Ansi::ColorEscape(Color::from_rgb(clr::GOLDENROD)).render(),
        "\x1B[38;2;218;165;32m"
    );
    assert_eq!(Ansi::ColorEscape(Color(255, 0, 0)).render(), "\x1B[38;2;255;0;0m");
}

#[test]
fn hex_zero_padding() {
    assert_eq!(Color(5, 0, 16).to_hex(), "#050010");
    assert_eq!(Color(0, 0, 0).to_hex(), "#000000");
    assert_eq!(Color(255, 255, 255).to_hex(), "#FFFFFF");
    assert_eq!(Color(171, 205, 239).to_hex(), "#ABCDEF");
}

#[test]
fn display_digit_widths() {
    assert_eq!(Color(0, 9, 10).display_string(), "(0, 9, 10)");
    assert_eq!(Color(99, 100, 255).display_string(), "(99, 100, 255)");
}

#[test]
fn debug_digit_widths() {
    assert_eq!(Color(7, 42, 107).debug_string(), "Color(r=7, g=42, b=107)");
    assert_eq!(Color(255, 255, 255).debug_string(), "Color(r=255, g=255, b=255)");
}

#[test]
fn ansi_trait_on_color() {
    assert_eq!(Color(218, 165, 32).ansi(), "\x1B[38;2;218;165;32m");
    assert_eq!(Color(0, 0, 0).ansi(), "\x1B[38;2;0;0;0m");
}

#[test]
fn indexed_palette_escapes() {
    assert_eq!(Ansi::ForegroundColor(0).render(), "\x1B[38;5;0m");
    assert_eq!(Ansi::ForegroundColor(7).render(), "\x1B[38;5;7m");
    assert_eq!(Ansi::ForegroundColor(255).render(), "\x1B[38;5;255m");
    assert_eq!(Ansi::BackgroundColor(42).render(), "\x1B[48;5;42m");
    assert_eq!(Ansi::BackgroundColor(255).render(), "\x1B[48;5;255m");
}

#[test]
fn plain_escapes() {
    assert_eq!(Ansi::Bold.render(), "\x1B[1m");
    assert_eq!(Ansi::NotBold.render(), "\x1B[22m");
    assert_eq!(Ansi::Reset.render(), "\x1B[0m");
}

#[test]
fn named_constant_regressions() {
    assert_eq!(Color::from_rgb(clr::RED), Color(255, 0, 0));
    assert_eq!(Color::from_rgb(clr::RED).to_hex(), "#FF0000");
    assert_eq!(Color::from_rgb(clr::B), Color(0, 0, 255));
    assert_eq!(Color::from_rgb(clr::GOLDENROD), Color(218, 165, 32));
    assert_eq!(Color::from_rgb(clr::FIREBRICK), Color(178, 34, 34));
    assert_eq!(Color::from_rgb(clr::CHARTREUSE), Color(127, 255, 0));
}

#[test]
fn xkcd_constant_samples() {
    assert_eq!(Color::from_rgb(clr::XKCD_GREEN), Color(21, 176, 26));
    assert_eq!(Color::from_rgb(clr::XKCD_DUSTY_TEAL), Color(76, 144, 133));
}

#[test]
fn render_twice_is_identical() {
    let directives = [
        Ansi::ColorEscape(Color(12, 200, 3)),
        Ansi::ForegroundColor(19),
        Ansi::BackgroundColor(201),
        Ansi::Bold,
        Ansi::NotBold,
        Ansi::Reset,
    ];
    for d in directives {
        assert_eq!(d.render(), d.render());
    }
}
