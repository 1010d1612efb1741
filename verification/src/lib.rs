//! Pretty-printing of JSON documents with a colour per kind of value.
//!
//! A [`Colorizer`] is a colour policy: one [`Color`] for each of null, booleans,
//! numbers, strings and object keys. It formats a JSON text, or a [`JsonValue`], with
//! one member per line and two spaces of indentation per level of nesting, and hands
//! each scalar and each key to the `colored` crate with the colour of its category.
//!
//! The text is parsed by `serde_json` and coloured by `colored`; what this crate
//! decides, and proves, is the layout and which colour goes where. The modules
//! [`layout`] and [`render`] say what a formatted document is, [`laws`] what follows.

pub mod color;
pub mod format;
pub mod laws;
pub mod layout;
pub mod paint;
pub mod parse;
pub mod policy;
pub mod render;
pub mod value;

pub use color::Color;
pub use parse::{FormatError, ParseError};
pub use policy::{Category, Colorizer, ColorizerBuilder};
pub use value::{JsonValue, ValueTree};
