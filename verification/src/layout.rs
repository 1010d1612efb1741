//! What a formatted document consists of: the pieces of its text, in order.

use vstd::prelude::*;

use crate::policy::Category;
use crate::value::ValueTree;

verus! {

/// One stretch of the formatted text.
pub enum Piece {
    /// Text of the layout itself: brackets, commas, colons, line breaks, indentation.
    /// It is never coloured.
    Layout(Seq<char>),
    /// The text of a scalar or of a key, which is coloured as its category asks.
    Token(Category, Seq<char>),
}

impl Piece {
    /// The text of the piece before any colouring.
    pub open spec fn text(self) -> Seq<char> {
        match self {
            Piece::Layout(text) => text,
            Piece::Token(_, text) => text,
        }
    }
}

/// The indentation of a line at `depth`: two spaces for each level.
pub open spec fn indentation(depth: nat) -> Seq<char> {
    Seq::new(2 * depth, |i: int| ' ')
}

/// `text` between double quotes, with nothing escaped.
pub open spec fn quoted(text: Seq<char>) -> Seq<char> {
    "\""@ + text + "\""@
}

/// What precedes the member with index `index` of a container whose members stand at
/// `depth`: a comma unless the member is the first, a line break, the indentation.
pub open spec fn member_start(index: int, depth: nat) -> Seq<char> {
    if index == 0 {
        "\n"@ + indentation(depth)
    } else {
        ","@ + "\n"@ + indentation(depth)
    }
}

/// What closes a container of `count` members that was opened at `depth`: the bracket,
/// on a line of its own unless the container is empty.
pub open spec fn closing(count: nat, depth: nat, bracket: Seq<char>) -> Seq<char> {
    if count == 0 {
        bracket
    } else {
        "\n"@ + indentation(depth) + bracket
    }
}

/// The pieces of `tree`, formatted as a value that starts at `depth`.
pub open spec fn layout(tree: ValueTree, depth: nat) -> Seq<Piece>
    decreases tree, 0nat, 0nat,
{
    match tree {
        ValueTree::Null => seq![Piece::Token(Category::Null, "null"@)],
        ValueTree::Bool(b) => seq![
            Piece::Token(Category::Boolean, if b { "true"@ } else { "false"@ }),
        ],
        ValueTree::Number(text) => seq![Piece::Token(Category::Number, text)],
        ValueTree::Str(text) => seq![Piece::Token(Category::String, quoted(text))],
        ValueTree::Array(items) => seq![Piece::Layout("["@)] + items_layout(
            items,
            items.len(),
            depth,
        ) + seq![Piece::Layout(closing(items.len(), depth, "]"@))],
        ValueTree::Object(members) => seq![Piece::Layout("{"@)] + members_layout(
            members,
            members.len(),
            depth,
        ) + seq![Piece::Layout(closing(members.len(), depth, "}"@))],
    }
}

/// The pieces of the first `count` items of an array that was opened at `depth`.
pub open spec fn items_layout(items: Seq<ValueTree>, count: nat, depth: nat) -> Seq<Piece>
    decreases items, 1nat, count,
{
    if count == 0 || count > items.len() {
        Seq::empty()
    } else {
        items_layout(items, (count - 1) as nat, depth) + seq![
            Piece::Layout(member_start(count - 1, depth + 1)),
        ] + layout(items[count - 1], depth + 1)
    }
}

/// The pieces of the first `count` members of an object that was opened at `depth`.
pub open spec fn members_layout(
    members: Seq<(Seq<char>, ValueTree)>,
    count: nat,
    depth: nat,
) -> Seq<Piece>
    decreases members, 1nat, count,
{
    if count == 0 || count > members.len() {
        Seq::empty()
    } else {
        members_layout(members, (count - 1) as nat, depth) + seq![
            Piece::Layout(member_start(count - 1, depth + 1)),
            Piece::Token(Category::Key, quoted(members[count - 1].0)),
            Piece::Layout(": "@),
        ] + layout(members[count - 1].1, depth + 1)
    }
}

/// The texts of `pieces`, one after the other: the document without any colour.
pub open spec fn plain_text(pieces: Seq<Piece>) -> Seq<char>
    decreases pieces.len(),
{
    if pieces.len() == 0 {
        Seq::empty()
    } else {
        plain_text(pieces.drop_last()) + pieces.last().text()
    }
}

} // verus!
