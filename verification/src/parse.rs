//! Parsing of JSON text, which is left to `serde_json`.

use vstd::prelude::*;

use crate::value::{JsonValue, ValueTree};

verus! {

/// `serde_json::Value`, the parser's own tree. Nothing of what is inside is visible
/// here: it is only handed from [`parse_value`] to [`to_json_value`].
#[verifier::external_type_specification]
#[verifier::external_body]
pub struct ExValue(serde_json::Value);

/// The mathematical model of a [`ParseError`].
pub struct Diagnostic {
    pub message: Seq<char>,
    pub line: nat,
    pub column: nat,
}

/// The parser's account of a text that is not JSON.
#[derive(Debug, PartialEq, Eq)]
pub struct ParseError {
    /// What the parser found wrong, in its own words.
    pub message: String,
    /// The line at which it gave up, counted from 1.
    pub line: usize,
    /// The column at which it gave up.
    pub column: usize,
}

impl View for ParseError {
    type V = Diagnostic;

    open spec fn view(&self) -> Diagnostic {
        Diagnostic { message: self.message@, line: self.line as nat, column: self.column as nat }
    }
}

/// Why a text could not be formatted.
#[derive(Debug, PartialEq, Eq)]
pub enum FormatError {
    /// The text is not JSON.
    InvalidJson(ParseError),
}

/// What `serde_json::from_str` makes of `text`: the document that it reads, or its
/// account of why `text` is not JSON.
pub uninterp spec fn parsed(text: Seq<char>) -> Result<ValueTree, Diagnostic>;

/// The document that a `serde_json::Value` holds: its numbers by the text that
/// `serde_json` displays for them, its object members in the order of its map.
pub uninterp spec fn tree_of(value: serde_json::Value) -> ValueTree;

/// `serde_json::from_str` at the type `serde_json::Value`. The same text always has
/// the same outcome: a value that holds the document read from `s`, or the error
/// with which `serde_json` rejects `s`, here by its message, line and column.
#[verifier::external_body]
pub(crate) fn parse_value(s: &str) -> (outcome: Result<serde_json::Value, ParseError>)
    ensures
        match outcome {
            Ok(value) => parsed(s@) == Ok::<ValueTree, Diagnostic>(tree_of(value)),
            Err(error) => parsed(s@) == Err::<ValueTree, Diagnostic>(error@),
        },
{
    match serde_json::from_str::<serde_json::Value>(s) {
        Ok(value) => Ok(value),
        Err(e) => Err(ParseError { message: e.to_string(), line: e.line(), column: e.column() }),
    }
}

/// Copies a `serde_json::Value` into a [`JsonValue`], variant by variant. A number is
/// copied as the text that `serde_json` displays for it, the members of an object
/// in the order in which its map hands them out.
#[verifier::external_body]
pub(crate) fn to_json_value(value: &serde_json::Value) -> (json: JsonValue)
    ensures
        json@ == tree_of(*value),
{
    match value {
        serde_json::Value::Null => JsonValue::Null,
        serde_json::Value::Bool(b) => JsonValue::Bool(*b),
        serde_json::Value::Number(n) => JsonValue::Number(n.to_string()),
        serde_json::Value::String(s) => JsonValue::Str(s.clone()),
        serde_json::Value::Array(items) => JsonValue::Array(items.iter().map(to_json_value).collect()),
        serde_json::Value::Object(members) => JsonValue::Object(
            members.iter().map(|(k, v)| (k.clone(), to_json_value(v))).collect(),
        ),
    }
}

} // verus!
