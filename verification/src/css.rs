//! The decoration builder: it gathers up to three attribute selections
//! (text style, foreground colour, background colour) and serialises them
//! into an ANSI SGR escape sequence wrapped around a text.

use vstd::prelude::*;

verus! {

/// The closed set of text styles.
#[derive(Copy, Clone)]
pub enum Style {
    Normal,
    Bold,
    Grey,
    Italic,
    Underline,
    SlowBlink,
    RapidBlink,
    Reverse,
    Hide,
    Strikethrough,
}

impl Style {
    /// The numeric SGR code of this style.
    pub open spec fn spec_code(self) -> u8 {
        match self {
            Style::Normal => 0,
            Style::Bold => 1,
            Style::Grey => 2,
            Style::Italic => 3,
            Style::Underline => 4,
            Style::SlowBlink => 5,
            Style::RapidBlink => 6,
            Style::Reverse => 7,
            Style::Hide => 8,
            Style::Strikethrough => 9,
        }
    }

    /// The decimal string form of this style's code.
    pub fn value(&self) -> (r: String)
        ensures
            r@ == code_seq(self.spec_code()),
    {
        let c: u8 = match self {
            Style::Normal => 0,
            Style::Bold => 1,
            Style::Grey => 2,
            Style::Italic => 3,
            Style::Underline => 4,
            Style::SlowBlink => 5,
            Style::RapidBlink => 6,
            Style::Reverse => 7,
            Style::Hide => 8,
            Style::Strikethrough => 9,
        };
        code_string(c)
    }
}

/// The closed set of sixteen foreground colours.
#[derive(Copy, Clone)]
pub enum FgColor {
    FgBlack,
    FgRed,
    FgGreen,
    FgYellow,
    FgBlue,
    FgMagenta,
    FgCyan,
    FgWhite,
    FgGray,
    FgBrightRed,
    FgBrightGreen,
    FgBrightYellow,
    FgBrightBlue,
    FgBrightMagenta,
    FgBrightCyan,
    FgBrightWhite,
}

impl FgColor {
    /// The numeric SGR code of this foreground colour.
    pub open spec fn spec_code(self) -> u8 {
        match self {
            FgColor::FgBlack => 30,
            FgColor::FgRed => 31,
            FgColor::FgGreen => 32,
            FgColor::FgYellow => 33,
            FgColor::FgBlue => 34,
            FgColor::FgMagenta => 35,
            FgColor::FgCyan => 36,
            FgColor::FgWhite => 37,
            FgColor::FgGray => 82,
            FgColor::FgBrightRed => 83,
            FgColor::FgBrightGreen => 84,
            FgColor::FgBrightYellow => 85,
            FgColor::FgBrightBlue => 86,
            FgColor::FgBrightMagenta => 87,
            FgColor::FgBrightCyan => 88,
            FgColor::FgBrightWhite => 89,
        }
    }

    /// The decimal string form of this colour's code.
    pub fn value(&self) -> (r: String)
        ensures
            r@ == code_seq(self.spec_code()),
    {
        let c: u8 = match self {
            FgColor::FgBlack => 30,
            FgColor::FgRed => 31,
            FgColor::FgGreen => 32,
            FgColor::FgYellow => 33,
            FgColor::FgBlue => 34,
            FgColor::FgMagenta => 35,
            FgColor::FgCyan => 36,
            FgColor::FgWhite => 37,
            FgColor::FgGray => 82,
            FgColor::FgBrightRed => 83,
            FgColor::FgBrightGreen => 84,
            FgColor::FgBrightYellow => 85,
            FgColor::FgBrightBlue => 86,
            FgColor::FgBrightMagenta => 87,
            FgColor::FgBrightCyan => 88,
            FgColor::FgBrightWhite => 89,
        };
        code_string(c)
    }
}

/// The closed set of sixteen background colours.
#[derive(Copy, Clone)]
pub enum BgColor {
    BgBlack,
    BgRed,
    BgGreen,
    BgYellow,
    BgBlue,
    BgMagenta,
    BgCyan,
    BgWhite,
    BgGray,
    BgBrightRed,
    BgBrightGreen,
    BgBrightYellow,
    BgBrightBlue,
    BgBrightMagenta,
    BgBrightCyan,
    BgBrightWhite,
}

impl BgColor {
    /// The numeric SGR code of this background colour.
    pub open spec fn spec_code(self) -> u8 {
        match self {
            BgColor::BgBlack => 40,
            BgColor::BgRed => 41,
            BgColor::BgGreen => 42,
            BgColor::BgYellow => 43,
            BgColor::BgBlue => 44,
            BgColor::BgMagenta => 45,
            BgColor::BgCyan => 46,
            BgColor::BgWhite => 47,
            BgColor::BgGray => 92,
            BgColor::BgBrightRed => 93,
            BgColor::BgBrightGreen => 94,
            BgColor::BgBrightYellow => 95,
            BgColor::BgBrightBlue => 96,
            BgColor::BgBrightMagenta => 97,
            BgColor::BgBrightCyan => 98,
            BgColor::BgBrightWhite => 99,
        }
    }

    /// The decimal string form of this colour's code.
    pub fn value(&self) -> (r: String)
        ensures
            r@ == code_seq(self.spec_code()),
    {
        let c: u8 = match self {
            BgColor::BgBlack => 40,
            BgColor::BgRed => 41,
            BgColor::BgGreen => 42,
            BgColor::BgYellow => 43,
            BgColor::BgBlue => 44,
            BgColor::BgMagenta => 45,
            BgColor::BgCyan => 46,
            BgColor::BgWhite => 47,
            BgColor::BgGray => 92,
            BgColor::BgBrightRed => 93,
            BgColor::BgBrightGreen => 94,
            BgColor::BgBrightYellow => 95,
            BgColor::BgBrightBlue => 96,
            BgColor::BgBrightMagenta => 97,
            BgColor::BgBrightCyan => 98,
            BgColor::BgBrightWhite => 99,
        };
        code_string(c)
    }
}

/// The decimal digit character for `d`.
pub open spec fn digit_char(d: u8) -> char {
    if d == 0 {
        '0'
    } else if d == 1 {
        '1'
    } else if d == 2 {
        '2'
    } else if d == 3 {
        '3'
    } else if d == 4 {
        '4'
    } else if d == 5 {
        '5'
    } else if d == 6 {
        '6'
    } else if d == 7 {
        '7'
    } else if d == 8 {
        '8'
    } else {
        '9'
    }
}

/// The decimal string of a code below 100: one digit below ten, two digits
/// otherwise.
pub open spec fn code_seq(n: u8) -> Seq<char> {
    if n < 10 {
        seq![digit_char(n)]
    } else {
        seq![digit_char((n / 10) as u8), digit_char((n % 10) as u8)]
    }
}

fn digit_str(d: u8) -> (r: &'static str)
    requires
        d < 10,
    ensures
        r@ == seq![digit_char(d)],
{
    if d == 0 {
        proof {
            reveal_strlit("0");
            assert("0"@ =~= seq![digit_char(0)]);
        }
        "0"
    } else if d == 1 {
        proof {
            reveal_strlit("1");
            assert("1"@ =~= seq![digit_char(1)]);
        }
        "1"
    } else if d == 2 {
        proof {
            reveal_strlit("2");
            assert("2"@ =~= seq![digit_char(2)]);
        }
        "2"
    } else if d == 3 {
        proof {
            reveal_strlit("3");
            assert("3"@ =~= seq![digit_char(3)]);
        }
        "3"
    } else if d == 4 {
        proof {
            reveal_strlit("4");
            assert("4"@ =~= seq![digit_char(4)]);
        }
        "4"
    } else if d == 5 {
        proof {
            reveal_strlit("5");
            assert("5"@ =~= seq![digit_char(5)]);
        }
        "5"
    } else if d == 6 {
        proof {
            reveal_strlit("6");
            assert("6"@ =~= seq![digit_char(6)]);
        }
        "6"
    } else if d == 7 {
        proof {
            reveal_strlit("7");
            assert("7"@ =~= seq![digit_char(7)]);
        }
        "7"
    } else if d == 8 {
        proof {
            reveal_strlit("8");
            assert("8"@ =~= seq![digit_char(8)]);
        }
        "8"
    } else {
        proof {
            reveal_strlit("9");
            assert("9"@ =~= seq![digit_char(9)]);
        }
        "9"
    }
}

/// The decimal string form of a code below 100.
fn code_string(n: u8) -> (r: String)
    requires
        n < 100,
    ensures
        r@ == code_seq(n),
{
    if n < 10 {
        String::from_str(digit_str(n))
    } else {
        let mut s = String::from_str(digit_str(n / 10));
        s.append(digit_str(n % 10));
        proof {
            assert(s@ =~= code_seq(n));
        }
        s
    }
}

/// The decoration builder. Each slot keeps at most the most recently set
/// selection of its category; an unset slot contributes nothing to the
/// rendered sequence.
pub struct CSS {
    pub text_style: Option<Style>,
    pub text_color: Option<FgColor>,
    pub bg_color: Option<BgColor>,
}

/// A builder with no attribute set.
pub open spec fn spec_empty() -> CSS {
    (CSS { text_style: None, text_color: None, bg_color: None })
}

/// A builder whose only set attribute is the foreground colour `c`.
pub open spec fn fg_only(c: FgColor) -> CSS {
    (CSS { text_style: None, text_color: Some(c), bg_color: None })
}

/// Joins a further code string onto the codes gathered so far: a `;`
/// separates two codes, and nothing precedes the first one.
pub open spec fn join_code(acc: Seq<char>, part: Seq<char>) -> Seq<char> {
    if acc.len() == 0 {
        part
    } else {
        acc + seq![';'] + part
    }
}

/// The semicolon-joined code strings of the set slots, in the fixed order
/// style, foreground, background.
pub open spec fn opening_codes(css: CSS) -> Seq<char> {
    let after_style = match css.text_style {
        Some(s) => code_seq(s.spec_code()),
        None => Seq::<char>::empty(),
    };
    let after_fg = match css.text_color {
        Some(c) => join_code(after_style, code_seq(c.spec_code())),
        None => after_style,
    };
    match css.bg_color {
        Some(c) => join_code(after_fg, code_seq(c.spec_code())),
        None => after_fg,
    }
}

/// The opening escape sequence: the escape introducer, the joined codes and
/// the terminator `m`.
pub open spec fn spec_opening(css: CSS) -> Seq<char> {
    seq!['\u{1b}', '['] + opening_codes(css) + seq!['m']
}

/// The fixed reset sequence that closes every decorated text.
pub open spec fn reset_seq() -> Seq<char> {
    seq!['\u{1b}', '[', '0', 'm']
}

/// The decorated text: opening sequence, the text unmodified, reset sequence.
pub open spec fn spec_decorated(css: CSS, text: Seq<char>) -> Seq<char> {
    spec_opening(css) + text + reset_seq()
}

impl CSS {
    /// Creates a new builder with no attribute set.
    pub fn new() -> (c: CSS)
        ensures
            c == spec_empty(),
    {
        CSS { text_style: None, text_color: None, bg_color: None }
    }

    /// Sets the text style, overwriting any previous style.
    pub fn set_style(&mut self, s: Style) -> (ret: &mut CSS)
        ensures
            *ret == (CSS { text_style: Some(s), ..*old(self) }),
            *final(self) == *final(ret),
    {
        self.text_style = Some(s);
        self
    }

    /// Sets the foreground colour, overwriting any previous one.
    pub fn set_color(&mut self, s: FgColor) -> (ret: &mut CSS)
        ensures
            *ret == (CSS { text_color: Some(s), ..*old(self) }),
            *final(self) == *final(ret),
    {
        self.text_color = Some(s);
        self
    }

    /// Sets the background colour, overwriting any previous one.
    pub fn set_bg_color(&mut self, s: BgColor) -> (ret: &mut CSS)
        ensures
            *ret == (CSS { bg_color: Some(s), ..*old(self) }),
            *final(self) == *final(ret),
    {
        self.bg_color = Some(s);
        self
    }

    /// Set font style to default
    pub fn style_default(&mut self) -> (ret: &mut CSS)
        ensures
            *ret == (CSS { text_style: Some(Style::Normal), ..*old(self) }),
            *final(self) == *final(ret),
    {
        self.set_style(Style::Normal)
    }

    /// Set font style to bold
    pub fn style_bold(&mut self) -> (ret: &mut CSS)
        ensures
            *ret == (CSS { text_style: Some(Style::Bold), ..*old(self) }),
            *final(self) == *final(ret),
    {
        self.set_style(Style::Bold)
    }

    /// Set font style to grey
    pub fn style_grey(&mut self) -> (ret: &mut CSS)
        ensures
            *ret == (CSS { text_style: Some(Style::Grey), ..*old(self) }),
            *final(self) == *final(ret),
    {
        self.set_style(Style::Grey)
    }

    /// Set font style to italic
    pub fn style_italic(&mut self) -> (ret: &mut CSS)
        ensures
            *ret == (CSS { text_style: Some(Style::Italic), ..*old(self) }),
            *final(self) == *final(ret),
    {
        self.set_style(Style::Italic)
    }

    /// Set font style to underline
    pub fn style_underline(&mut self) -> (ret: &mut CSS)
        ensures
            *ret == (CSS { text_style: Some(Style::Underline), ..*old(self) }),
            *final(self) == *final(ret),
    {
        self.set_style(Style::Underline)
    }

    /// Set font style to rapid blink
    pub fn style_rapid_blink(&mut self) -> (ret: &mut CSS)
        ensures
            *ret == (CSS { text_style: Some(Style::RapidBlink), ..*old(self) }),
            *final(self) == *final(ret),
    {
        self.set_style(Style::RapidBlink)
    }

    /// Set font style to slow blink
    pub fn style_slow_blink(&mut self) -> (ret: &mut CSS)
        ensures
            *ret == (CSS { text_style: Some(Style::SlowBlink), ..*old(self) }),
            *final(self) == *final(ret),
    {
        self.set_style(Style::SlowBlink)
    }

    /// Set font style to reverse
    pub fn style_reverse(&mut self) -> (ret: &mut CSS)
        ensures
            *ret == (CSS { text_style: Some(Style::Reverse), ..*old(self) }),
            *final(self) == *final(ret),
    {
        self.set_style(Style::Reverse)
    }

    /// Set font style to hide, may not be supported
    pub fn style_hide(&mut self) -> (ret: &mut CSS)
        ensures
            *ret == (CSS { text_style: Some(Style::Hide), ..*old(self) }),
            *final(self) == *final(ret),
    {
        self.set_style(Style::Hide)
    }

    /// Set font style to strikethrough, may not be supported
    pub fn style_strikethrough(&mut self) -> (ret: &mut CSS)
        ensures
            *ret == (CSS { text_style: Some(Style::Strikethrough), ..*old(self) }),
            *final(self) == *final(ret),
    {
        self.set_style(Style::Strikethrough)
    }

    /// Set foreground colour to black
    pub fn color_black(&mut self) -> (ret: &mut CSS)
        ensures
            *ret == (CSS { text_color: Some(FgColor::FgBlack), ..*old(self) }),
            *final(self) == *final(ret),
    {
        self.set_color(FgColor::FgBlack)
    }

    /// Set foreground colour to red
    pub fn color_red(&mut self) -> (ret: &mut CSS)
        ensures
            *ret == (CSS { text_color: Some(FgColor::FgRed), ..*old(self) }),
            *final(self) == *final(ret),
    {
        self.set_color(FgColor::FgRed)
    }

    /// Set foreground colour to green
    pub fn color_green(&mut self) -> (ret: &mut CSS)
        ensures
            *ret == (CSS { text_color: Some(FgColor::FgGreen), ..*old(self) }),
            *final(self) == *final(ret),
    {
        self.set_color(FgColor::FgGreen)
    }

    /// Set foreground colour to yellow
    pub fn color_yellow(&mut self) -> (ret: &mut CSS)
        ensures
            *ret == (CSS { text_color: Some(FgColor::FgYellow), ..*old(self) }),
            *final(self) == *final(ret),
    {
        self.set_color(FgColor::FgYellow)
    }

    /// Set foreground colour to blue
    pub fn color_bule(&mut self) -> (ret: &mut CSS)
        ensures
            *ret == (CSS { text_color: Some(FgColor::FgBlue), ..*old(self) }),
            *final(self) == *final(ret),
    {
        self.set_color(FgColor::FgBlue)
    }

    /// Set foreground colour to magenta
    pub fn color_magenta(&mut self) -> (ret: &mut CSS)
        ensures
            *ret == (CSS { text_color: Some(FgColor::FgMagenta), ..*old(self) }),
            *final(self) == *final(ret),
    {
        self.set_color(FgColor::FgMagenta)
    }

    /// Set foreground colour to cyan
    pub fn color_cyan(&mut self) -> (ret: &mut CSS)
        ensures
            *ret == (CSS { text_color: Some(FgColor::FgCyan), ..*old(self) }),
            *final(self) == *final(ret),
    {
        self.set_color(FgColor::FgCyan)
    }

    /// Set foreground colour to white
    pub fn color_white(&mut self) -> (ret: &mut CSS)
        ensures
            *ret == (CSS { text_color: Some(FgColor::FgWhite), ..*old(self) }),
            *final(self) == *final(ret),
    {
        self.set_color(FgColor::FgWhite)
    }

    /// Set foreground colour to gray
    pub fn color_gray(&mut self) -> (ret: &mut CSS)
        ensures
            *ret == (CSS { text_color: Some(FgColor::FgGray), ..*old(self) }),
            *final(self) == *final(ret),
    {
        self.set_color(FgColor::FgGray)
    }

    /// Set foreground colour to bright red
    pub fn color_bright_red(&mut self) -> (ret: &mut CSS)
        ensures
            *ret == (CSS { text_color: Some(FgColor::FgBrightRed), ..*old(self) }),
            *final(self) == *final(ret),
    {
        self.set_color(FgColor::FgBrightRed)
    }

    /// Set foreground colour to bright green
    pub fn color_bright_green(&mut self) -> (ret: &mut CSS)
        ensures
            *ret == (CSS { text_color: Some(FgColor::FgBrightGreen), ..*old(self) }),
            *final(self) == *final(ret),
    {
        self.set_color(FgColor::FgBrightGreen)
    }

    /// Set foreground colour to bright yellow
    pub fn color_bright_yellow(&mut self) -> (ret: &mut CSS)
        ensures
            *ret == (CSS { text_color: Some(FgColor::FgBrightYellow), ..*old(self) }),
            *final(self) == *final(ret),
    {
        self.set_color(FgColor::FgBrightYellow)
    }

    /// Set foreground colour to bright blue
    pub fn color_bright_bule(&mut self) -> (ret: &mut CSS)
        ensures
            *ret == (CSS { text_color: Some(FgColor::FgBrightBlue), ..*old(self) }),
            *final(self) == *final(ret),
    {
        self.set_color(FgColor::FgBrightBlue)
    }

    /// Set foreground colour to bright magenta
    pub fn color_bright_magenta(&mut self) -> (ret: &mut CSS)
        ensures
            *ret == (CSS { text_color: Some(FgColor::FgBrightMagenta), ..*old(self) }),
            *final(self) == *final(ret),
    {
        self.set_color(FgColor::FgBrightMagenta)
    }

    /// Set foreground colour to bright cyan
    pub fn color_bright_cyan(&mut self) -> (ret: &mut CSS)
        ensures
            *ret == (CSS { text_color: Some(FgColor::FgBrightCyan), ..*old(self) }),
            *final(self) == *final(ret),
    {
        self.set_color(FgColor::FgBrightCyan)
    }

    /// Set foreground colour to bright white
    pub fn color_bright_white(&mut self) -> (ret: &mut CSS)
        ensures
            *ret == (CSS { text_color: Some(FgColor::FgBrightWhite), ..*old(self) }),
            *final(self) == *final(ret),
    {
        self.set_color(FgColor::FgBrightWhite)
    }

    /// Set the background colour to black
    pub fn bg_black(&mut self) -> (ret: &mut CSS)
        ensures
            *ret == (CSS { bg_color: Some(BgColor::BgBlack), ..*old(self) }),
            *final(self) == *final(ret),
    {
        self.set_bg_color(BgColor::BgBlack)
    }

    /// Set the background colour to red
    pub fn bg_red(&mut self) -> (ret: &mut CSS)
        ensures
            *ret == (CSS { bg_color: Some(BgColor::BgRed), ..*old(self) }),
            *final(self) == *final(ret),
    {
        self.set_bg_color(BgColor::BgRed)
    }

    /// Set the background colour to green
    pub fn bg_green(&mut self) -> (ret: &mut CSS)
        ensures
            *ret == (CSS { bg_color: Some(BgColor::BgGreen), ..*old(self) }),
            *final(self) == *final(ret),
    {
        self.set_bg_color(BgColor::BgGreen)
    }

    /// Set the background colour to yellow
    pub fn bg_yellow(&mut self) -> (ret: &mut CSS)
        ensures
            *ret == (CSS { bg_color: Some(BgColor::BgYellow), ..*old(self) }),
            *final(self) == *final(ret),
    {
        self.set_bg_color(BgColor::BgYellow)
    }

    /// Set the background colour to blue
    pub fn bg_blue(&mut self) -> (ret: &mut CSS)
        ensures
            *ret == (CSS { bg_color: Some(BgColor::BgBlue), ..*old(self) }),
            *final(self) == *final(ret),
    {
        self.set_bg_color(BgColor::BgBlue)
    }

    /// Set the background colour to magenta
    pub fn bg_magenta(&mut self) -> (ret: &mut CSS)
        ensures
            *ret == (CSS { bg_color: Some(BgColor::BgMagenta), ..*old(self) }),
            *final(self) == *final(ret),
    {
        self.set_bg_color(BgColor::BgMagenta)
    }

    /// Set the background colour to cyan
    pub fn bg_cyan(&mut self) -> (ret: &mut CSS)
        ensures
            *ret == (CSS { bg_color: Some(BgColor::BgCyan), ..*old(self) }),
            *final(self) == *final(ret),
    {
        self.set_bg_color(BgColor::BgCyan)
    }

    /// Set the background colour to white
    pub fn bg_white(&mut self) -> (ret: &mut CSS)
        ensures
            *ret == (CSS { bg_color: Some(BgColor::BgWhite), ..*old(self) }),
            *final(self) == *final(ret),
    {
        self.set_bg_color(BgColor::BgWhite)
    }

    /// Set the background colour to gray
    pub fn bg_gray(&mut self) -> (ret: &mut CSS)
        ensures
            *ret == (CSS { bg_color: Some(BgColor::BgGray), ..*old(self) }),
            *final(self) == *final(ret),
    {
        self.set_bg_color(BgColor::BgGray)
    }

    /// Set the background colour to bright red
    pub fn bg_bright_red(&mut self) -> (ret: &mut CSS)
        ensures
            *ret == (CSS { bg_color: Some(BgColor::BgBrightRed), ..*old(self) }),
            *final(self) == *final(ret),
    {
        self.set_bg_color(BgColor::BgBrightRed)
    }

    /// Set the background colour to bright green
    pub fn bg_bright_green(&mut self) -> (ret: &mut CSS)
        ensures
            *ret == (CSS { bg_color: Some(BgColor::BgBrightGreen), ..*old(self) }),
            *final(self) == *final(ret),
    {
        self.set_bg_color(BgColor::BgBrightGreen)
    }

    /// Set the background colour to bright yellow
    pub fn bg_bright_yellow(&mut self) -> (ret: &mut CSS)
        ensures
            *ret == (CSS { bg_color: Some(BgColor::BgBrightYellow), ..*old(self) }),
            *final(self) == *final(ret),
    {
        self.set_bg_color(BgColor::BgBrightYellow)
    }

    /// Set the background colour to bright blue
    pub fn bg_bright_blue(&mut self) -> (ret: &mut CSS)
        ensures
            *ret == (CSS { bg_color: Some(BgColor::BgBrightBlue), ..*old(self) }),
            *final(self) == *final(ret),
    {
        self.set_bg_color(BgColor::BgBrightBlue)
    }

    /// Set the background colour to bright magenta
    pub fn bg_bright_magenta(&mut self) -> (ret: &mut CSS)
        ensures
            *ret == (CSS { bg_color: Some(BgColor::BgBrightMagenta), ..*old(self) }),
            *final(self) == *final(ret),
    {
        self.set_bg_color(BgColor::BgBrightMagenta)
    }

    /// Set the background colour to bright cyan
    pub fn bg_bright_cyan(&mut self) -> (ret: &mut CSS)
        ensures
            *ret == (CSS { bg_color: Some(BgColor::BgBrightCyan), ..*old(self) }),
            *final(self) == *final(ret),
    {
        self.set_bg_color(BgColor::BgBrightCyan)
    }

    /// Set the background colour to bright white
    pub fn bg_bright_white(&mut self) -> (ret: &mut CSS)
        ensures
            *ret == (CSS { bg_color: Some(BgColor::BgBrightWhite), ..*old(self) }),
            *final(self) == *final(ret),
    {
        self.set_bg_color(BgColor::BgBrightWhite)
    }

    /// The opening and the reset sequence for the current state.
    #[verifier::rlimit(50)]
    fn decorated_string(&self) -> (r: (String, String))
        ensures
            r.0@ == spec_opening(*self),
            r.1@ == reset_seq(),
    {
        let mut start = String::from_str("\u{1b}[");
        proof {
            reveal_strlit("\u{1b}[");
            assert(start@ =~= seq!['\u{1b}', '[']);
        }
        let mut any = false;
        if let Some(s) = self.text_style {
            let v = s.value();
            start.append(v.as_str());
            any = true;
        }
        if let Some(c) = self.text_color {
            if any {
                start.append(";");
                proof {
                    reveal_strlit(";");
                    assert(";"@ =~= seq![';']);
                }
            }
            let v = c.value();
            start.append(v.as_str());
            any = true;
        }
        if let Some(c) = self.bg_color {
            if any {
                start.append(";");
                proof {
                    reveal_strlit(";");
                    assert(";"@ =~= seq![';']);
                }
            }
            let v = c.value();
            start.append(v.as_str());
        }
        start.append("m");
        let end = String::from_str("\u{1b}[0m");
        proof {
            reveal_strlit("m");
            reveal_strlit("\u{1b}[0m");
            assert("m"@ =~= seq!['m']);
            assert(end@ =~= reset_seq());
            assert(start@ =~= spec_opening(*self));
        }
        (start, end)
    }

    /// Returns the decorated text: the opening sequence for the current
    /// state, the text unmodified, then the reset sequence. The builder's
    /// state is left as it was.
    pub fn sprint(&mut self, text: &str) -> (r: String)
        ensures
            *final(self) == *old(self),
            r@ == spec_decorated(*old(self), text@),
    {
        let (start, end) = self.decorated_string();
        let mut r = start;
        r.append(text);
        r.append(end.as_str());
        r
    }

    /// Generate black text
    pub fn black(text: &str) -> (r: String)
        ensures
            r@ == spec_decorated(fg_only(FgColor::FgBlack), text@),
    {
        let mut c = CSS::new();
        c.color_black().sprint(text)
    }

    /// Generate red text
    pub fn red(text: &str) -> (r: String)
        ensures
            r@ == spec_decorated(fg_only(FgColor::FgRed), text@),
    {
        let mut c = CSS::new();
        c.color_red().sprint(text)
    }

    /// Generate green text
    pub fn green(text: &str) -> (r: String)
        ensures
            r@ == spec_decorated(fg_only(FgColor::FgGreen), text@),
    {
        let mut c = CSS::new();
        c.color_green().sprint(text)
    }

    /// Generate yellow text
    pub fn yellow(text: &str) -> (r: String)
        ensures
            r@ == spec_decorated(fg_only(FgColor::FgYellow), text@),
    {
        let mut c = CSS::new();
        c.color_yellow().sprint(text)
    }

    /// Generate blue text
    pub fn blue(text: &str) -> (r: String)
        ensures
            r@ == spec_decorated(fg_only(FgColor::FgBlue), text@),
    {
        let mut c = CSS::new();
        c.color_bule().sprint(text)
    }

    /// Generate magenta text
    pub fn magenta(text: &str) -> (r: String)
        ensures
            r@ == spec_decorated(fg_only(FgColor::FgMagenta), text@),
    {
        let mut c = CSS::new();
        c.color_magenta().sprint(text)
    }

    /// Generate cyan text
    pub fn cyan(text: &str) -> (r: String)
        ensures
            r@ == spec_decorated(fg_only(FgColor::FgCyan), text@),
    {
        let mut c = CSS::new();
        c.color_cyan().sprint(text)
    }

    /// Generate white text
    pub fn white(text: &str) -> (r: String)
        ensures
            r@ == spec_decorated(fg_only(FgColor::FgWhite), text@),
    {
        let mut c = CSS::new();
        c.color_white().sprint(text)
    }

    /// Generate gray text
    pub fn gray(text: &str) -> (r: String)
        ensures
            r@ == spec_decorated(fg_only(FgColor::FgGray), text@),
    {
        let mut c = CSS::new();
        c.color_gray().sprint(text)
    }

    /// Generate bright red text
    pub fn bright_red(text: &str) -> (r: String)
        ensures
            r@ == spec_decorated(fg_only(FgColor::FgBrightRed), text@),
    {
        let mut c = CSS::new();
        c.color_bright_red().sprint(text)
    }

    /// Generate bright yellow text
    pub fn bright_yellow(text: &str) -> (r: String)
        ensures
            r@ == spec_decorated(fg_only(FgColor::FgBrightYellow), text@),
    {
        let mut c = CSS::new();
        c.color_bright_yellow().sprint(text)
    }

    /// Generate bright blue text
    pub fn bright_blue(text: &str) -> (r: String)
        ensures
            r@ == spec_decorated(fg_only(FgColor::FgBrightBlue), text@),
    {
        let mut c = CSS::new();
        c.color_bright_bule().sprint(text)
    }

    /// Generate bright magenta text
    pub fn bright_magenta(text: &str) -> (r: String)
        ensures
            r@ == spec_decorated(fg_only(FgColor::FgBrightMagenta), text@),
    {
        let mut c = CSS::new();
        c.color_bright_magenta().sprint(text)
    }

    /// Generate bright cyan text
    pub fn bright_cyan(text: &str) -> (r: String)
        ensures
            r@ == spec_decorated(fg_only(FgColor::FgBrightCyan), text@),
    {
        let mut c = CSS::new();
        c.color_bright_cyan().sprint(text)
    }

    /// Generate bright white text
    pub fn bright_white(text: &str) -> (r: String)
        ensures
            r@ == spec_decorated(fg_only(FgColor::FgBrightWhite), text@),
    {
        let mut c = CSS::new();
        c.color_bright_white().sprint(text)
    }
}

/// With no attribute set, the decorated text is the bare opening sequence,
/// the text, and the reset sequence.
pub proof fn lemma_render_empty(text: Seq<char>)
    ensures
        spec_decorated(spec_empty(), text) == seq!['\u{1b}', '[', 'm'] + text + reset_seq(),
{
    assert(spec_decorated(spec_empty(), text) =~= seq!['\u{1b}', '[', 'm'] + text + reset_seq());
}

/// With exactly one attribute set, the opening sequence holds that one code
/// and no separator.
pub proof fn lemma_render_single(css: CSS, text: Seq<char>)
    ensures
        (css.text_style is Some && css.text_color is None && css.bg_color is None)
            ==> spec_decorated(css, text) == seq!['\u{1b}', '[']
                + code_seq(css.text_style->0.spec_code()) + seq!['m'] + text + reset_seq(),
        (css.text_style is None && css.text_color is Some && css.bg_color is None)
            ==> spec_decorated(css, text) == seq!['\u{1b}', '[']
                + code_seq(css.text_color->0.spec_code()) + seq!['m'] + text + reset_seq(),
        (css.text_style is None && css.text_color is None && css.bg_color is Some)
            ==> spec_decorated(css, text) == seq!['\u{1b}', '[']
                + code_seq(css.bg_color->0.spec_code()) + seq!['m'] + text + reset_seq(),
{
    if css.text_style is Some && css.text_color is None && css.bg_color is None {
        assert(spec_decorated(css, text) =~= seq!['\u{1b}', '[']
            + code_seq(css.text_style->0.spec_code()) + seq!['m'] + text + reset_seq());
    }
    if css.text_style is None && css.text_color is Some && css.bg_color is None {
        assert(spec_decorated(css, text) =~= seq!['\u{1b}', '[']
            + code_seq(css.text_color->0.spec_code()) + seq!['m'] + text + reset_seq());
    }
    if css.text_style is None && css.text_color is None && css.bg_color is Some {
        assert(spec_decorated(css, text) =~= seq!['\u{1b}', '[']
            + code_seq(css.bg_color->0.spec_code()) + seq!['m'] + text + reset_seq());
    }
}

/// With two or three attributes set, the codes appear in the fixed order
/// style, foreground, background, skipping unset slots, joined by `;`.
pub proof fn lemma_render_multi(css: CSS, text: Seq<char>)
    ensures
        (css.text_style is Some && css.text_color is Some && css.bg_color is None)
            ==> spec_decorated(css, text) == seq!['\u{1b}', '[']
                + code_seq(css.text_style->0.spec_code()) + seq![';']
                + code_seq(css.text_color->0.spec_code()) + seq!['m'] + text + reset_seq(),
        (css.text_style is Some && css.text_color is None && css.bg_color is Some)
            ==> spec_decorated(css, text) == seq!['\u{1b}', '[']
                + code_seq(css.text_style->0.spec_code()) + seq![';']
                + code_seq(css.bg_color->0.spec_code()) + seq!['m'] + text + reset_seq(),
        (css.text_style is None && css.text_color is Some && css.bg_color is Some)
            ==> spec_decorated(css, text) == seq!['\u{1b}', '[']
                + code_seq(css.text_color->0.spec_code()) + seq![';']
                + code_seq(css.bg_color->0.spec_code()) + seq!['m'] + text + reset_seq(),
        (css.text_style is Some && css.text_color is Some && css.bg_color is Some)
            ==> spec_decorated(css, text) == seq!['\u{1b}', '[']
                + code_seq(css.text_style->0.spec_code()) + seq![';']
                + code_seq(css.text_color->0.spec_code()) + seq![';']
                + code_seq(css.bg_color->0.spec_code()) + seq!['m'] + text + reset_seq(),
{
    if css.text_style is Some && css.text_color is Some && css.bg_color is None {
        assert(spec_decorated(css, text) =~= seq!['\u{1b}', '[']
            + code_seq(css.text_style->0.spec_code()) + seq![';']
            + code_seq(css.text_color->0.spec_code()) + seq!['m'] + text + reset_seq());
    }
    if css.text_style is Some && css.text_color is None && css.bg_color is Some {
        assert(spec_decorated(css, text) =~= seq!['\u{1b}', '[']
            + code_seq(css.text_style->0.spec_code()) + seq![';']
            + code_seq(css.bg_color->0.spec_code()) + seq!['m'] + text + reset_seq());
    }
    if css.text_style is None && css.text_color is Some && css.bg_color is Some {
        assert(spec_decorated(css, text) =~= seq!['\u{1b}', '[']
            + code_seq(css.text_color->0.spec_code()) + seq![';']
            + code_seq(css.bg_color->0.spec_code()) + seq!['m'] + text + reset_seq());
    }
    if css.text_style is Some && css.text_color is Some && css.bg_color is Some {
        assert(spec_decorated(css, text) =~= seq!['\u{1b}', '[']
            + code_seq(css.text_style->0.spec_code()) + seq![';']
            + code_seq(css.text_color->0.spec_code()) + seq![';']
            + code_seq(css.bg_color->0.spec_code()) + seq!['m'] + text + reset_seq());
    }
}

/// Rendering is deterministic: the decorated text is a function of the
/// builder state and the text alone, so rendering twice from the same state
/// with the same text yields the identical string both times.
pub proof fn lemma_render_deterministic(css1: CSS, css2: CSS, text1: Seq<char>, text2: Seq<char>)
    requires
        css1 == css2,
        text1 == text2,
    ensures
        spec_decorated(css1, text1) == spec_decorated(css2, text2),
{
}

/// Setting the same category twice keeps only the second selection: the
/// first has no effect on the state nor on any rendered text.
pub proof fn lemma_set_overwrite(
    css: CSS,
    s1: Style,
    s2: Style,
    f1: FgColor,
    f2: FgColor,
    b1: BgColor,
    b2: BgColor,
    text: Seq<char>,
)
    ensures
        (CSS { text_style: Some(s2), ..(CSS { text_style: Some(s1), ..css }) })
            == (CSS { text_style: Some(s2), ..css }),
        (CSS { text_color: Some(f2), ..(CSS { text_color: Some(f1), ..css }) })
            == (CSS { text_color: Some(f2), ..css }),
        (CSS { bg_color: Some(b2), ..(CSS { bg_color: Some(b1), ..css }) })
            == (CSS { bg_color: Some(b2), ..css }),
        spec_decorated((CSS { text_style: Some(s2), ..(CSS { text_style: Some(s1), ..css }) }), text)
            == spec_decorated((CSS { text_style: Some(s2), ..css }), text),
        spec_decorated((CSS { text_color: Some(f2), ..(CSS { text_color: Some(f1), ..css }) }), text)
            == spec_decorated((CSS { text_color: Some(f2), ..css }), text),
        spec_decorated((CSS { bg_color: Some(b2), ..(CSS { bg_color: Some(b1), ..css }) }), text)
            == spec_decorated((CSS { bg_color: Some(b2), ..css }), text),
{
}

/// The text passes through unmodified, whatever it holds: the decorated text
/// is the opening sequence, the text itself, then the reset sequence, and
/// the text is recovered verbatim between the two.
pub proof fn lemma_text_passthrough(css: CSS, text: Seq<char>)
    ensures
        spec_decorated(css, text) == spec_opening(css) + text + reset_seq(),
        spec_decorated(css, text).subrange(
            spec_opening(css).len() as int,
            spec_opening(css).len() + text.len() as int,
        ) == text,
{
    assert(spec_decorated(css, text).subrange(
        spec_opening(css).len() as int,
        spec_opening(css).len() + text.len() as int,
    ) =~= text);
}

} // verus!
