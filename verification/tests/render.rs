use colorstyle::BgColor;
use colorstyle::FgColor;
use colorstyle::Style;
use colorstyle::CSS;

#[test]
fn it_works() {
    let source = "Hello 世界";
    let s = colorstyle::bright_red("Hello 世界");
    let true_str = format!("{}{}{}", "\x1b[83m", source, "\x1b[0m");
    assert_eq!(s, true_str)
}

#[test]
fn render_no_attributes() {
    let mut c = CSS::new();
    assert_eq!(c.sprint("hi"), "\x1b[mhi\x1b[0m");
}

#[test]
fn render_foreground_only() {
    let mut c = CSS::new();
    assert_eq!(c.color_red().sprint("red"), "\x1b[31mred\x1b[0m");
}

#[test]
fn render_style_and_foreground() {
    let mut c = CSS::new();
    c.style_bold().color_red();
    assert_eq!(c.sprint("x"), "\x1b[1;31mx\x1b[0m");
}

#[test]
fn render_three_attributes() {
    let mut c = CSS::new();
    c.style_italic().color_red().bg_yellow();
    assert_eq!(c.sprint("y"), "\x1b[3;31;43my\x1b[0m");
}

#[test]
fn render_bright_foreground_multibyte() {
    let mut c = CSS::new();
    assert_eq!(
        c.color_bright_red().sprint("Hello 世界"),
        "\x1b[83mHello 世界\x1b[0m"
    );
}

#[test]
fn overwrite_foreground_keeps_second() {
    let mut c = CSS::new();
    c.color_bule();
    c.color_green();
    assert_eq!(c.sprint("t"), "\x1b[32mt\x1b[0m");
}

#[test]
fn overwrite_style_keeps_second() {
    let mut c = CSS::new();
    c.style_bold();
    c.style_underline();
    assert_eq!(c.sprint("t"), "\x1b[4mt\x1b[0m");
}

#[test]
fn overwrite_background_keeps_second() {
    let mut c = CSS::new();
    c.bg_red();
    c.bg_cyan();
    assert_eq!(c.sprint("t"), "\x1b[46mt\x1b[0m");
}

#[test]
fn render_style_and_background() {
    let mut c = CSS::new();
    c.style_bold().bg_yellow();
    assert_eq!(c.sprint("t"), "\x1b[1;43mt\x1b[0m");
}

#[test]
fn render_foreground_and_background() {
    let mut c = CSS::new();
    c.color_white().bg_black();
    assert_eq!(c.sprint("t"), "\x1b[37;40mt\x1b[0m");
}

#[test]
fn render_twice_is_identical() {
    let mut c = CSS::new();
    c.style_reverse().color_magenta();
    let first = c.sprint("same");
    let second = c.sprint("same");
    assert_eq!(first, second);
    assert_eq!(first, "\x1b[7;35msame\x1b[0m");
}

#[test]
fn render_keeps_state_across_texts() {
    let mut c = CSS::new();
    c.color_cyan();
    assert_eq!(c.sprint("one"), "\x1b[36mone\x1b[0m");
    assert_eq!(c.sprint("two"), "\x1b[36mtwo\x1b[0m");
}

#[test]
fn render_empty_text() {
    let mut c = CSS::new();
    c.color_green();
    assert_eq!(c.sprint(""), "\x1b[32m\x1b[0m");
}

#[test]
fn text_passes_through_unmodified() {
    let mut c = CSS::new();
    c.bg_magenta();
    let text = "mixed \u{1b} bytes; 世界 🎨 \"quoted\"";
    let out = c.sprint(text);
    assert_eq!(out, format!("\x1b[45m{}\x1b[0m", text));
    assert!(out.contains(text));
}

#[test]
fn set_style_codes() {
    let styles = [
        (Style::Normal, "0"),
        (Style::Bold, "1"),
        (Style::Grey, "2"),
        (Style::Italic, "3"),
        (Style::Underline, "4"),
        (Style::SlowBlink, "5"),
        (Style::RapidBlink, "6"),
        (Style::Reverse, "7"),
        (Style::Hide, "8"),
        (Style::Strikethrough, "9"),
    ];
    for (style, code) in styles {
        let mut c = CSS::new();
        c.set_style(style);
        assert_eq!(c.sprint("t"), format!("\x1b[{}mt\x1b[0m", code));
    }
}

#[test]
fn set_color_codes() {
    let colors = [
        (FgColor::FgBlack, "30"),
        (FgColor::FgRed, "31"),
        (FgColor::FgGreen, "32"),
        (FgColor::FgYellow, "33"),
        (FgColor::FgBlue, "34"),
        (FgColor::FgMagenta, "35"),
        (FgColor::FgCyan, "36"),
        (FgColor::FgWhite, "37"),
        (FgColor::FgGray, "82"),
        (FgColor::FgBrightRed, "83"),
        (FgColor::FgBrightGreen, "84"),
        (FgColor::FgBrightYellow, "85"),
        (FgColor::FgBrightBlue, "86"),
        (FgColor::FgBrightMagenta, "87"),
        (FgColor::FgBrightCyan, "88"),
        (FgColor::FgBrightWhite, "89"),
    ];
    for (color, code) in colors {
        let mut c = CSS::new();
        c.set_color(color);
        assert_eq!(c.sprint("t"), format!("\x1b[{}mt\x1b[0m", code));
    }
}

#[test]
fn set_bg_color_codes() {
    let colors = [
        (BgColor::BgBlack, "40"),
        (BgColor::BgRed, "41"),
        (BgColor::BgGreen, "42"),
        (BgColor::BgYellow, "43"),
        (BgColor::BgBlue, "44"),
        (BgColor::BgMagenta, "45"),
        (BgColor::BgCyan, "46"),
        (BgColor::BgWhite, "47"),
        (BgColor::BgGray, "92"),
        (BgColor::BgBrightRed, "93"),
        (BgColor::BgBrightGreen, "94"),
        (BgColor::BgBrightYellow, "95"),
        (BgColor::BgBrightBlue, "96"),
        (BgColor::BgBrightMagenta, "97"),
        (BgColor::BgBrightCyan, "98"),
        (BgColor::BgBrightWhite, "99"),
    ];
    for (color, code) in colors {
        let mut c = CSS::new();
        c.set_bg_color(color);
        assert_eq!(c.sprint("t"), format!("\x1b[{}mt\x1b[0m", code));
    }
}

#[test]
fn named_style_setters() {
    let cases: [(fn(&mut CSS) -> &mut CSS, &str); 10] = [
        (CSS::style_default, "0"),
        (CSS::style_bold, "1"),
        (CSS::style_grey, "2"),
        (CSS::style_italic, "3"),
        (CSS::style_underline, "4"),
        (CSS::style_slow_blink, "5"),
        (CSS::style_rapid_blink, "6"),
        (CSS::style_reverse, "7"),
        (CSS::style_hide, "8"),
        (CSS::style_strikethrough, "9"),
    ];
    for (setter, code) in cases {
        let mut c = CSS::new();
        assert_eq!(setter(&mut c).sprint("t"), format!("\x1b[{}mt\x1b[0m", code));
    }
}

#[test]
fn named_foreground_setters() {
    let cases: [(fn(&mut CSS) -> &mut CSS, &str); 16] = [
        (CSS::color_black, "30"),
        (CSS::color_red, "31"),
        (CSS::color_green, "32"),
        (CSS::color_yellow, "33"),
        (CSS::color_bule, "34"),
        (CSS::color_magenta, "35"),
        (CSS::color_cyan, "36"),
        (CSS::color_white, "37"),
        (CSS::color_gray, "82"),
        (CSS::color_bright_red, "83"),
        (CSS::color_bright_green, "84"),
        (CSS::color_bright_yellow, "85"),
        (CSS::color_bright_bule, "86"),
        (CSS::color_bright_magenta, "87"),
        (CSS::color_bright_cyan, "88"),
        (CSS::color_bright_white, "89"),
    ];
    for (setter, code) in cases {
        let mut c = CSS::new();
        assert_eq!(setter(&mut c).sprint("t"), format!("\x1b[{}mt\x1b[0m", code));
    }
}

#[test]
fn named_background_setters() {
    let cases: [(fn(&mut CSS) -> &mut CSS, &str); 16] = [
        (CSS::bg_black, "40"),
        (CSS::bg_red, "41"),
        (CSS::bg_green, "42"),
        (CSS::bg_yellow, "43"),
        (CSS::bg_blue, "44"),
        (CSS::bg_magenta, "45"),
        (CSS::bg_cyan, "46"),
        (CSS::bg_white, "47"),
        (CSS::bg_gray, "92"),
        (CSS::bg_bright_red, "93"),
        (CSS::bg_bright_green, "94"),
        (CSS::bg_bright_yellow, "95"),
        (CSS::bg_bright_blue, "96"),
        (CSS::bg_bright_magenta, "97"),
        (CSS::bg_bright_cyan, "98"),
        (CSS::bg_bright_white, "99"),
    ];
    for (setter, code) in cases {
        let mut c = CSS::new();
        assert_eq!(setter(&mut c).sprint("t"), format!("\x1b[{}mt\x1b[0m", code));
    }
}
