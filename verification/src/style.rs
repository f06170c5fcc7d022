//! Colour and weight for what the session prints, by way of the `colored`
//! crate.

use colored::{Color, Colorize};
use vstd::prelude::*;

verus! {

/// The colours that the session prints in.
#[derive(Clone, Copy, Debug, PartialEq, Eq, Structural)]
pub enum Hue {
    Red,
    Yellow,
    Cyan,
    BrightGreen,
    BrightYellow,
    BrightBlue,
}

/// How a piece of text is to look: its colour, and whether it is bold.
#[derive(Clone, Copy, Debug, PartialEq, Eq, Structural)]
pub struct Style {
    pub hue: Hue,
    pub bold: bool,
}

/// Whether the escape character occurs in `text`.
pub open spec fn has_escape(text: Seq<char>) -> bool {
    exists|i: int| 0 <= i < text.len() && text[i] == '\u{1b}'
}

impl Hue {
    /// The number by which a terminal knows the colour as a foreground.
    pub open spec fn code(self) -> Seq<char> {
        match self {
            Hue::Red => "31"@,
            Hue::Yellow => "33"@,
            Hue::Cyan => "36"@,
            Hue::BrightGreen => "92"@,
            Hue::BrightYellow => "93"@,
            Hue::BrightBlue => "94"@,
        }
    }
}

impl Style {
    /// The control sequence that switches the style on.
    pub open spec fn opening(self) -> Seq<char> {
        if self.bold {
            "\u{1b}[1;"@ + self.hue.code() + "m"@
        } else {
            "\u{1b}["@ + self.hue.code() + "m"@
        }
    }

    /// The control sequence that switches every style off.
    pub open spec fn closing() -> Seq<char> {
        "\u{1b}[0m"@
    }

    /// `text` between the sequences that switch the style on and off.
    pub open spec fn wraps(self, text: Seq<char>) -> Seq<char> {
        self.opening() + text + Style::closing()
    }

    /// Whether `out` shows `text` in this style: as it stands, where colour
    /// is switched off, or between the style's control sequences.
    pub open spec fn shows(self, text: Seq<char>, out: Seq<char>) -> bool {
        out == text || out == self.wraps(text)
    }

    /// Gives `text` the style. Whether colour is in use is for `colored` to
    /// say, from the settings of the process and the kind of terminal, so
    /// either form may come back. Of a text that itself holds an escape
    /// character nothing is promised.
    pub fn paint(self, text: &str) -> (r: String)
        ensures
            !has_escape(text@) ==> self.shows(text@, r@),
    {
        if self.bold {
            tint_bold(text, self.hue)
        } else {
            tint(text, self.hue)
        }
    }
}

/// Trusted: `colored::Colorize::color` on a `&str`, formatted with `{}`.
/// `color` keeps the text and sets its foreground; formatting writes the
/// text unchanged where `colored` finds colour switched off, and otherwise
/// `ESC [`, the colour's foreground code, `m`, the text, and the reset
/// sequence `ESC [ 0 m`. A text that holds reset sequences of its own is
/// written differently; the contract is silent on any text with an escape
/// character in it.
#[verifier::external_body]
fn tint(text: &str, hue: Hue) -> (r: String)
    ensures
        !has_escape(text@) ==> (Style { hue, bold: false }).shows(text@, r@),
{
    let color = match hue {
        Hue::Red => Color::Red,
        Hue::Yellow => Color::Yellow,
        Hue::Cyan => Color::Cyan,
        Hue::BrightGreen => Color::BrightGreen,
        Hue::BrightYellow => Color::BrightYellow,
        Hue::BrightBlue => Color::BrightBlue,
    };
    text.color(color).to_string()
}

/// Trusted: `colored::Colorize::color` on a `&str`, then
/// `colored::Colorize::bold`, formatted with `{}`. As `tint`, but with the
/// bold switch on, which `colored` writes as `1;` before the colour's code.
#[verifier::external_body]
fn tint_bold(text: &str, hue: Hue) -> (r: String)
    ensures
        !has_escape(text@) ==> (Style { hue, bold: true }).shows(text@, r@),
{
    let color = match hue {
        Hue::Red => Color::Red,
        Hue::Yellow => Color::Yellow,
        Hue::Cyan => Color::Cyan,
        Hue::BrightGreen => Color::BrightGreen,
        Hue::BrightYellow => Color::BrightYellow,
        Hue::BrightBlue => Color::BrightBlue,
    };
    text.color(color).bold().to_string()
}

} // verus!
