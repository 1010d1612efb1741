//! Colouring of a piece of text, which is left to the `colored` crate.
//!
//! `colored` decides for itself, from the process environment, the terminal and its
//! own override switch, whether it colours at all. So a coloured piece of text comes
//! back in one of two forms: as it went in, or styled.

use colored::Colorize;
use vstd::prelude::*;

use crate::color::Color;

verus! {

/// The text that `colored` displays for `text` with the foreground colour `color`
/// while colouring is switched on. How a colour is encoded in it is the business of
/// `colored`; nothing is assumed of it here.
pub uninterp spec fn styled(text: Seq<char>, color: Color) -> Seq<char>;

/// Whether `painted` is what may come back when `text` is coloured with `color`:
/// `text` itself, or, for a colour other than `Plain`, its styled form.
pub open spec fn is_painting(painted: Seq<char>, text: Seq<char>, color: Color) -> bool {
    painted == text || (color != Color::Plain && painted == styled(text, color))
}

/// `colored::Colorize::black` on a `&str`, displayed. The result is `s` unchanged
/// where `colored` does not colour, and else its styling of `s` in black.
#[verifier::external_body]
fn black(s: &str) -> (painted: String)
    ensures
        painted@ == s@ || painted@ == styled(s@, Color::Black),
{
    s.black().to_string()
}

/// `colored::Colorize::blue` on a `&str`, displayed. The result is `s` unchanged
/// where `colored` does not colour, and else its styling of `s` in blue.
#[verifier::external_body]
fn blue(s: &str) -> (painted: String)
    ensures
        painted@ == s@ || painted@ == styled(s@, Color::Blue),
{
    s.blue().to_string()
}

/// `colored::Colorize::cyan` on a `&str`, displayed. The result is `s` unchanged
/// where `colored` does not colour, and else its styling of `s` in cyan.
#[verifier::external_body]
fn cyan(s: &str) -> (painted: String)
    ensures
        painted@ == s@ || painted@ == styled(s@, Color::Cyan),
{
    s.cyan().to_string()
}

/// `colored::Colorize::green` on a `&str`, displayed. The result is `s` unchanged
/// where `colored` does not colour, and else its styling of `s` in green.
#[verifier::external_body]
fn green(s: &str) -> (painted: String)
    ensures
        painted@ == s@ || painted@ == styled(s@, Color::Green),
{
    s.green().to_string()
}

/// `colored::Colorize::magenta` on a `&str`, displayed. The result is `s` unchanged
/// where `colored` does not colour, and else its styling of `s` in magenta.
#[verifier::external_body]
fn magenta(s: &str) -> (painted: String)
    ensures
        painted@ == s@ || painted@ == styled(s@, Color::Magenta),
{
    s.magenta().to_string()
}

/// `colored::Colorize::purple` on a `&str`, displayed. The result is `s` unchanged
/// where `colored` does not colour, and else its styling of `s` in purple (which
/// `colored` shows as it shows magenta).
#[verifier::external_body]
fn purple(s: &str) -> (painted: String)
    ensures
        painted@ == s@ || painted@ == styled(s@, Color::Purple),
{
    s.purple().to_string()
}

/// `colored::Colorize::red` on a `&str`, displayed. The result is `s` unchanged
/// where `colored` does not colour, and else its styling of `s` in red.
#[verifier::external_body]
fn red(s: &str) -> (painted: String)
    ensures
        painted@ == s@ || painted@ == styled(s@, Color::Red),
{
    s.red().to_string()
}

/// `colored::Colorize::white` on a `&str`, displayed. The result is `s` unchanged
/// where `colored` does not colour, and else its styling of `s` in white.
#[verifier::external_body]
fn white(s: &str) -> (painted: String)
    ensures
        painted@ == s@ || painted@ == styled(s@, Color::White),
{
    s.white().to_string()
}

/// `colored::Colorize::yellow` on a `&str`, displayed. The result is `s` unchanged
/// where `colored` does not colour, and else its styling of `s` in yellow.
#[verifier::external_body]
fn yellow(s: &str) -> (painted: String)
    ensures
        painted@ == s@ || painted@ == styled(s@, Color::Yellow),
{
    s.yellow().to_string()
}

/// Colours `s` with `color`. `Plain` never touches the text.
pub fn colorize_str(s: &str, color: &Color) -> (painted: String)
    ensures
        is_painting(painted@, s@, *color),
{
    match *color {
        Color::Black => black(s),
        Color::Blue => blue(s),
        Color::Cyan => cyan(s),
        Color::Green => green(s),
        Color::Magenta => magenta(s),
        Color::Purple => purple(s),
        Color::Red => red(s),
        Color::White => white(s),
        Color::Yellow => yellow(s),
        Color::Plain => s.to_string(),
    }
}

} // verus!
