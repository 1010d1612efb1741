//! What holds of every rendering, whatever the document.

use vstd::prelude::*;

use crate::color::Color;
use crate::layout::{items_layout, layout, members_layout, plain_text, Piece};
use crate::paint::{is_painting, styled};
use crate::policy::{Category, Colorizer};
use crate::value::ValueTree;

verus! {

/// A piece is shown as its own text or, if it is a token, as that text styled in
/// the colour that the policy gives to its category, and in no other way.
pub proof fn lemma_shown_is_painting(policy: Colorizer, piece: Piece, styled_on: bool)
    ensures
        match piece {
            Piece::Layout(text) => policy.shown(piece, styled_on) == text,
            Piece::Token(category, text) => is_painting(
                policy.shown(piece, styled_on),
                text,
                policy.color_of(category),
            ),
        },
{
}

/// Where the colouring of no piece takes effect, every policy shows the same text:
/// the plain text of the pieces.
pub proof fn lemma_unstyled_text_is_plain(
    policy: Colorizer,
    pieces: Seq<Piece>,
    styled_on: Seq<bool>,
)
    requires
        styled_on.len() == pieces.len(),
        forall|i: int| 0 <= i < styled_on.len() ==> !styled_on[i],
    ensures
        policy.shown_text(pieces, styled_on) == plain_text(pieces),
    decreases pieces.len(),
{
    if pieces.len() > 0 {
        lemma_unstyled_text_is_plain(policy, pieces.drop_last(), styled_on.drop_last());
    }
}

/// The plain text of a document is one of its renderings under every policy.
pub proof fn lemma_plain_text_renders(policy: Colorizer, pieces: Seq<Piece>)
    ensures
        policy.renders(pieces, plain_text(pieces)),
{
    let styled_on = Seq::new(pieces.len(), |i: int| false);
    lemma_unstyled_text_is_plain(policy, pieces, styled_on);
}

/// The policy that a builder gives when no colour was set colours nothing: whether
/// or not colouring takes effect, it shows the plain text.
pub proof fn lemma_plain_policy_shows_plain_text(pieces: Seq<Piece>, styled_on: Seq<bool>)
    requires
        styled_on.len() == pieces.len(),
    ensures
        Colorizer::plain().shown_text(pieces, styled_on) == plain_text(pieces),
    decreases pieces.len(),
{
    if pieces.len() > 0 {
        lemma_plain_policy_shows_plain_text(pieces.drop_last(), styled_on.drop_last());
    }
}

/// Under the policy that colours nothing a document has one rendering only, its
/// plain text.
pub proof fn lemma_plain_policy_renders_plain_text(pieces: Seq<Piece>, out: Seq<char>)
    requires
        Colorizer::plain().renders(pieces, out),
    ensures
        out == plain_text(pieces),
{
    let styled_on = choose|on: Seq<bool>|
        on.len() == pieces.len() && out == #[trigger] Colorizer::plain().shown_text(pieces, on);
    lemma_plain_policy_shows_plain_text(pieces, styled_on);
}

/// Under the preset each category is styled in its own colour where colouring takes
/// effect: null in cyan, booleans in yellow, numbers in magenta, strings in green,
/// keys in blue. Layout text is never styled.
pub proof fn lemma_preset_styles_each_category(text: Seq<char>)
    ensures
        Colorizer::preset().shown(Piece::Token(Category::Null, text), true) == styled(
            text,
            Color::Cyan,
        ),
        Colorizer::preset().shown(Piece::Token(Category::Boolean, text), true) == styled(
            text,
            Color::Yellow,
        ),
        Colorizer::preset().shown(Piece::Token(Category::Number, text), true) == styled(
            text,
            Color::Magenta,
        ),
        Colorizer::preset().shown(Piece::Token(Category::String, text), true) == styled(
            text,
            Color::Green,
        ),
        Colorizer::preset().shown(Piece::Token(Category::Key, text), true) == styled(
            text,
            Color::Blue,
        ),
        Colorizer::preset().shown(Piece::Layout(text), true) == text,
{
}

/// An empty array is the two brackets and nothing else, at every depth and under
/// every policy, whether or not colouring takes effect.
pub proof fn lemma_empty_array_is_two_brackets(policy: Colorizer, depth: nat, out: Seq<char>)
    requires
        policy.renders(layout(ValueTree::Array(Seq::empty()), depth), out),
    ensures
        out == "[]"@,
{
    let pieces = layout(ValueTree::Array(Seq::empty()), depth);
    let styled_on = choose|on: Seq<bool>|
        on.len() == pieces.len() && out == #[trigger] policy.shown_text(pieces, on);
    assert(items_layout(Seq::<ValueTree>::empty(), 0, depth) =~= Seq::empty());
    assert(pieces =~= seq![Piece::Layout("["@), Piece::Layout("]"@)]);
    assert(pieces.drop_last() =~= seq![Piece::Layout("["@)]);
    reveal_with_fuel(Colorizer::shown_text, 3);
    reveal_strlit("[");
    reveal_strlit("]");
    reveal_strlit("[]");
    assert(policy.shown_text(pieces, styled_on) =~= "[]"@);
}

/// An empty object is the two braces and nothing else, at every depth and under
/// every policy, whether or not colouring takes effect.
pub proof fn lemma_empty_object_is_two_braces(policy: Colorizer, depth: nat, out: Seq<char>)
    requires
        policy.renders(layout(ValueTree::Object(Seq::empty()), depth), out),
    ensures
        out == "{}"@,
{
    let pieces = layout(ValueTree::Object(Seq::empty()), depth);
    let styled_on = choose|on: Seq<bool>|
        on.len() == pieces.len() && out == #[trigger] policy.shown_text(pieces, on);
    assert(members_layout(Seq::<(Seq<char>, ValueTree)>::empty(), 0, depth) =~= Seq::empty());
    assert(pieces =~= seq![Piece::Layout("{"@), Piece::Layout("}"@)]);
    assert(pieces.drop_last() =~= seq![Piece::Layout("{"@)]);
    reveal_with_fuel(Colorizer::shown_text, 3);
    reveal_strlit("{");
    reveal_strlit("}");
    reveal_strlit("{}");
    assert(policy.shown_text(pieces, styled_on) =~= "{}"@);
}

} // verus!
