//! The palette from which a colour is chosen for each kind of JSON value.

use vstd::prelude::*;

verus! {

/// The set of available colors for the various JSON components.
#[derive(Clone, Copy, Debug, PartialEq, Eq, Structural)]
pub enum Color {
    Black,
    Blue,
    Cyan,
    Green,
    Magenta,
    Purple,
    Red,
    White,
    Yellow,
    /// Default color: the text is left as it is.
    Plain,
}

impl Default for Color {
    fn default() -> (color: Self)
        ensures
            color == Color::Plain,
    {
        Color::Plain
    }
}

} // verus!
