use colorstyle::CSS;

#[test]
fn free_functions_render_single_foreground() {
    let cases: [(fn(&str) -> String, &str); 15] = [
        (colorstyle::black, "30"),
        (colorstyle::red, "31"),
        (colorstyle::green, "32"),
        (colorstyle::yellow, "33"),
        (colorstyle::blue, "34"),
        (colorstyle::magenta, "35"),
        (colorstyle::cyan, "36"),
        (colorstyle::white, "37"),
        (colorstyle::gray, "82"),
        (colorstyle::bright_red, "83"),
        (colorstyle::bright_yellow, "85"),
        (colorstyle::bright_blue, "86"),
        (colorstyle::bright_magenta, "87"),
        (colorstyle::bright_cyan, "88"),
        (colorstyle::bright_white, "89"),
    ];
    for (f, code) in cases {
        assert_eq!(f("text"), format!("\x1b[{}mtext\x1b[0m", code));
    }
}

#[test]
fn associated_functions_render_single_foreground() {
    let cases: [(fn(&str) -> String, &str); 15] = [
        (CSS::black, "30"),
        (CSS::red, "31"),
        (CSS::green, "32"),
        (CSS::yellow, "33"),
        (CSS::blue, "34"),
        (CSS::magenta, "35"),
        (CSS::cyan, "36"),
        (CSS::white, "37"),
        (CSS::gray, "82"),
        (CSS::bright_red, "83"),
        (CSS::bright_yellow, "85"),
        (CSS::bright_blue, "86"),
        (CSS::bright_magenta, "87"),
        (CSS::bright_cyan, "88"),
        (CSS::bright_white, "89"),
    ];
    for (f, code) in cases {
        assert_eq!(f("text"), format!("\x1b[{}mtext\x1b[0m", code));
    }
}

#[test]
fn green_matches_builder_output() {
    let mut c = CSS::new();
    assert_eq!(colorstyle::green("green"), c.color_green().sprint("green"));
}

#[test]
fn free_functions_pass_text_through() {
    let text = "Hello 世界";
    assert_eq!(colorstyle::blue(text), format!("\x1b[34m{}\x1b[0m", text));
    assert_eq!(colorstyle::gray(""), "\x1b[82m\x1b[0m");
}
