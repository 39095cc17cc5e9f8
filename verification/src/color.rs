//! ANSI colouring of terminal text.

use vstd::prelude::*;
use vstd::string::*;

verus! {

/// The eight-colour palette of a terminal, without black.
#[derive(Clone, Copy, Debug, PartialEq, Eq, Structural)]
pub enum TermColor {
    Red,
    Green,
    Yellow,
    Blue,
    Magenta,
    Cyan,
    White,
}

/// The digits of the colour's foreground code in a "select graphic
/// rendition" sequence: 31 for red up to 37 for white.
pub open spec fn sgr_code(color: TermColor) -> Seq<char> {
    match color {
        TermColor::Red => "31"@,
        TermColor::Green => "32"@,
        TermColor::Yellow => "33"@,
        TermColor::Blue => "34"@,
        TermColor::Magenta => "35"@,
        TermColor::Cyan => "36"@,
        TermColor::White => "37"@,
    }
}

/// `text` between the escape sequence that switches the colour on and the
/// one that resets it.
pub open spec fn colorized(text: Seq<char>, color: TermColor) -> Seq<char> {
    "\x1b["@ + sgr_code(color) + "m"@ + text + "\x1b[0m"@
}

/// Wraps `text` in the escape sequences for `color`.
pub fn colorize(text: &str, color: TermColor) -> (colored: String)
    ensures
        colored@ == colorized(text@, color),
{
    let code: &str = match color {
        TermColor::Red => "31",
        TermColor::Green => "32",
        TermColor::Yellow => "33",
        TermColor::Blue => "34",
        TermColor::Magenta => "35",
        TermColor::Cyan => "36",
        TermColor::White => "37",
    };
    String::from_str("\x1b[").concat(code).concat("m").concat(text).concat("\x1b[0m")
}

} // verus!
