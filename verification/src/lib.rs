//! Styles for command-line text: foreground colour, background colour and a
//! single text style (bold, italic, underline, ...), encoded as ANSI SGR
//! escape sequences around the given text.

use vstd::prelude::*;

pub mod css;

pub use css::BgColor;
pub use css::CSS;
pub use css::FgColor;
pub use css::Style;

verus! {

/// Generate black text
pub fn black(text: &str) -> (r: String)
    ensures
        r@ == css::spec_decorated(css::fg_only(css::FgColor::FgBlack), text@),
{
    let mut c = css::CSS::new();
    c.color_black().sprint(text)
}

/// Generate red text
pub fn red(text: &str) -> (r: String)
    ensures
        r@ == css::spec_decorated(css::fg_only(css::FgColor::FgRed), text@),
{
    let mut c = css::CSS::new();
    c.color_red().sprint(text)
}

/// Generate green text
pub fn green(text: &str) -> (r: String)
    ensures
        r@ == css::spec_decorated(css::fg_only(css::FgColor::FgGreen), text@),
{
    let mut c = css::CSS::new();
    c.color_green().sprint(text)
}

/// Generate yellow text
pub fn yellow(text: &str) -> (r: String)
    ensures
        r@ == css::spec_decorated(css::fg_only(css::FgColor::FgYellow), text@),
{
    let mut c = css::CSS::new();
    c.color_yellow().sprint(text)
}

/// Generate blue text
pub fn blue(text: &str) -> (r: String)
    ensures
        r@ == css::spec_decorated(css::fg_only(css::FgColor::FgBlue), text@),
{
    let mut c = css::CSS::new();
    c.color_bule().sprint(text)
}

/// Generate magenta text
pub fn magenta(text: &str) -> (r: String)
    ensures
        r@ == css::spec_decorated(css::fg_only(css::FgColor::FgMagenta), text@),
{
    let mut c = css::CSS::new();
    c.color_magenta().sprint(text)
}

/// Generate cyan text
pub fn cyan(text: &str) -> (r: String)
    ensures
        r@ == css::spec_decorated(css::fg_only(css::FgColor::FgCyan), text@),
{
    let mut c = css::CSS::new();
    c.color_cyan().sprint(text)
}

/// Generate white text
pub fn white(text: &str) -> (r: String)
    ensures
        r@ == css::spec_decorated(css::fg_only(css::FgColor::FgWhite), text@),
{
    let mut c = css::CSS::new();
    c.color_white().sprint(text)
}

/// Generate gray text
pub fn gray(text: &str) -> (r: String)
    ensures
        r@ == css::spec_decorated(css::fg_only(css::FgColor::FgGray), text@),
{
    let mut c = css::CSS::new();
    c.color_gray().sprint(text)
}

/// Generate bright red text
pub fn bright_red(text: &str) -> (r: String)
    ensures
        r@ == css::spec_decorated(css::fg_only(css::FgColor::FgBrightRed), text@),
{
    let mut c = css::CSS::new();
    c.color_bright_red().sprint(text)
}

/// Generate bright yellow text
pub fn bright_yellow(text: &str) -> (r: String)
    ensures
        r@ == css::spec_decorated(css::fg_only(css::FgColor::FgBrightYellow), text@),
{
    let mut c = css::CSS::new();
    c.color_bright_yellow().sprint(text)
}

/// Generate bright blue text
pub fn bright_blue(text: &str) -> (r: String)
    ensures
        r@ == css::spec_decorated(css::fg_only(css::FgColor::FgBrightBlue), text@),
{
    let mut c = css::CSS::new();
    c.color_bright_bule().sprint(text)
}

/// Generate bright magenta text
pub fn bright_magenta(text: &str) -> (r: String)
    ensures
        r@ == css::spec_decorated(css::fg_only(css::FgColor::FgBrightMagenta), text@),
{
    let mut c = css::CSS::new();
    c.color_bright_magenta().sprint(text)
}

/// Generate bright cyan text
pub fn bright_cyan(text: &str) -> (r: String)
    ensures
        r@ == css::spec_decorated(css::fg_only(css::FgColor::FgBrightCyan), text@),
{
    let mut c = css::CSS::new();
    c.color_bright_cyan().sprint(text)
}

/// Generate bright white text
pub fn bright_white(text: &str) -> (r: String)
    ensures
        r@ == css::spec_decorated(css::fg_only(css::FgColor::FgBrightWhite), text@),
{
    let mut c = css::CSS::new();
    c.color_bright_white().sprint(text)
}

} // verus!
