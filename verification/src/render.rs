//! How the pieces of a document read once a policy has coloured them.

use vstd::prelude::*;

use crate::color::Color;
use crate::layout::Piece;
use crate::paint::{is_painting, styled};
use crate::policy::{Category, Colorizer};

verus! {

impl Colorizer {
    /// How `piece` reads in the output: layout text as it is, and so a token that is
    /// not `styled_on` or whose category has the colour `Plain`; any other token
    /// styled in the colour of its category.
    pub open spec fn shown(&self, piece: Piece, styled_on: bool) -> Seq<char> {
        match piece {
            Piece::Layout(text) => text,
            Piece::Token(category, text) => if styled_on && self.color_of(category)
                != Color::Plain {
                styled(text, self.color_of(category))
            } else {
                text
            },
        }
    }

    /// The text of `pieces`, where `styled_on` says of each piece whether its
    /// colouring took effect.
    pub open spec fn shown_text(&self, pieces: Seq<Piece>, styled_on: Seq<bool>) -> Seq<char>
        decreases pieces.len(),
    {
        if pieces.len() == 0 {
            Seq::empty()
        } else {
            self.shown_text(pieces.drop_last(), styled_on.drop_last()) + self.shown(
                pieces.last(),
                styled_on.last(),
            )
        }
    }

    /// Whether `out` is a rendering of `pieces` under this policy: the pieces in
    /// their order, each token either as it is or styled in the colour of its
    /// category.
    pub open spec fn renders(&self, pieces: Seq<Piece>, out: Seq<char>) -> bool {
        exists|styled_on: Seq<bool>|
            styled_on.len() == pieces.len() && out == #[trigger] self.shown_text(
                pieces,
                styled_on,
            )
    }
}

/// The shown text of two runs of pieces, one after the other, is the shown text of
/// the first followed by that of the second.
pub proof fn lemma_shown_text_concat(
    policy: Colorizer,
    first: Seq<Piece>,
    first_on: Seq<bool>,
    second: Seq<Piece>,
    second_on: Seq<bool>,
)
    requires
        first_on.len() == first.len(),
        second_on.len() == second.len(),
    ensures
        policy.shown_text(first + second, first_on + second_on) == policy.shown_text(
            first,
            first_on,
        ) + policy.shown_text(second, second_on),
    decreases second.len(),
{
    if second.len() == 0 {
        assert(first + second =~= first);
        assert(first_on + second_on =~= first_on);
    } else {
        lemma_shown_text_concat(
            policy,
            first,
            first_on,
            second.drop_last(),
            second_on.drop_last(),
        );
        assert((first + second).drop_last() =~= first + second.drop_last());
        assert((first_on + second_on).drop_last() =~= first_on + second_on.drop_last());
        assert((first + second).last() == second.last());
        assert((first_on + second_on).last() == second_on.last());
    }
}

/// Renderings compose: a rendering of `first` followed by one of `second` is a
/// rendering of `first + second`.
pub proof fn lemma_renders_concat(
    policy: Colorizer,
    first: Seq<Piece>,
    first_out: Seq<char>,
    second: Seq<Piece>,
    second_out: Seq<char>,
)
    requires
        policy.renders(first, first_out),
        policy.renders(second, second_out),
    ensures
        policy.renders(first + second, first_out + second_out),
{
    let first_on = choose|on: Seq<bool>|
        on.len() == first.len() && first_out == #[trigger] policy.shown_text(first, on);
    let second_on = choose|on: Seq<bool>|
        on.len() == second.len() && second_out == #[trigger] policy.shown_text(second, on);
    lemma_shown_text_concat(policy, first, first_on, second, second_on);
    assert(policy.shown_text(first + second, first_on + second_on) == first_out + second_out);
}

/// Layout text renders as itself.
pub proof fn lemma_renders_layout(policy: Colorizer, text: Seq<char>)
    ensures
        policy.renders(seq![Piece::Layout(text)], text),
{
    let pieces = seq![Piece::Layout(text)];
    let on = seq![false];
    reveal_with_fuel(Colorizer::shown_text, 2);
    assert(policy.shown_text(pieces, on) =~= text);
}

/// A token renders as any painting of its text in the colour of its category.
pub proof fn lemma_renders_token(
    policy: Colorizer,
    category: Category,
    text: Seq<char>,
    painted: Seq<char>,
)
    requires
        is_painting(painted, text, policy.color_of(category)),
    ensures
        policy.renders(seq![Piece::Token(category, text)], painted),
{
    let pieces = seq![Piece::Token(category, text)];
    let on = seq![painted != text];
    reveal_with_fuel(Colorizer::shown_text, 2);
    assert(policy.shown_text(pieces, on) =~= painted);
}

/// A rendering, followed by layout text, renders the pieces followed by that text.
pub proof fn lemma_renders_then_layout(
    policy: Colorizer,
    pieces: Seq<Piece>,
    out: Seq<char>,
    text: Seq<char>,
)
    requires
        policy.renders(pieces, out),
    ensures
        policy.renders(pieces.push(Piece::Layout(text)), out + text),
{
    lemma_renders_layout(policy, text);
    lemma_renders_concat(policy, pieces, out, seq![Piece::Layout(text)], text);
    assert(pieces + seq![Piece::Layout(text)] =~= pieces.push(Piece::Layout(text)));
}

/// A rendering, followed by a painting of a token's text, renders the pieces
/// followed by that token.
pub proof fn lemma_renders_then_token(
    policy: Colorizer,
    pieces: Seq<Piece>,
    out: Seq<char>,
    category: Category,
    text: Seq<char>,
    painted: Seq<char>,
)
    requires
        policy.renders(pieces, out),
        is_painting(painted, text, policy.color_of(category)),
    ensures
        policy.renders(pieces.push(Piece::Token(category, text)), out + painted),
{
    lemma_renders_token(policy, category, text, painted);
    lemma_renders_concat(policy, pieces, out, seq![Piece::Token(category, text)], painted);
    assert(pieces + seq![Piece::Token(category, text)] =~= pieces.push(
        Piece::Token(category, text),
    ));
}

} // verus!
