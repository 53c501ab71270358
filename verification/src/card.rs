//! A playing card composed of a [`Rank`] and a [`Suit`].
//!
//! A card has no identity beyond its rank and suit: two cards with equal
//! rank and suit are equal, and a card is never mutated after construction.

use vstd::prelude::*;
use crate::rank::Rank;
use crate::rank::rank_name;
use crate::rank::lemma_rank_names_distinct;
use crate::suit::Suit;
use crate::suit::suit_name;
use crate::suit::lemma_suit_names_distinct;

verus! {

/// A card from a French deck of playing cards: one rank paired with one suit.
#[derive(Debug, Copy, Clone, PartialEq, Eq, Structural)]
pub struct Card {
    pub rank: Rank,
    pub suit: Suit,
}

/// The string a card renders as: `"<Rank> of <Suit>"`.
pub open spec fn card_name(c: Card) -> Seq<char> {
    rank_name(c.rank) + " of "@ + suit_name(c.suit)
}

/// Rendering is injective: two cards render as the same `"<Rank> of
/// <Suit>"` string only if they are the same card, so each of the 52
/// standard cards has its own rendered form.
pub proof fn lemma_render_injective(c1: Card, c2: Card)
    requires
        card_name(c1) == card_name(c2),
    ensures
        c1 == c2,
{
    reveal_strlit(" of ");
    let a1 = rank_name(c1.rank);
    let a2 = rank_name(c2.rank);
    let b1 = suit_name(c1.suit);
    let b2 = suit_name(c2.suit);
    let m = " of "@;
    let w = card_name(c1);
    lemma_rank_names_distinct(c1.rank, c2.rank);
    lemma_rank_names_distinct(c2.rank, c1.rank);
    lemma_suit_names_distinct(c1.suit, c2.suit);
    assert(m.len() == 4 && m[0] == ' ');
    let n1 = a1.len() as int;
    let n2 = a2.len() as int;
    // The rank names must be the same length: the character after a rank
    // name is the space of the separator, and no rank name contains one.
    if n1 < n2 {
        assert(w[n1] == (a1 + m)[n1] && (a1 + m)[n1] == m[0]);
        assert(w[n1] == (a2 + m)[n1] && (a2 + m)[n1] == a2[n1]);
        assert(false);
    }
    if n2 < n1 {
        assert(w[n2] == (a2 + m)[n2] && (a2 + m)[n2] == m[0]);
        assert(w[n2] == (a1 + m)[n2] && (a1 + m)[n2] == a1[n2]);
        assert(false);
    }
    assert forall|i: int| 0 <= i < n1 implies a1[i] == a2[i] by {
        assert(w[i] == (a1 + m)[i] && (a1 + m)[i] == a1[i]);
        assert(w[i] == (a2 + m)[i] && (a2 + m)[i] == a2[i]);
    }
    assert(a1 =~= a2);
    assert(c1.rank == c2.rank);
    assert(w.len() == (a1 + m).len() + b1.len());
    assert(w.len() == (a2 + m).len() + b2.len());
    assert(b1.len() == b2.len());
    assert forall|i: int| 0 <= i < b1.len() implies b1[i] == b2[i] by {
        assert(w[n1 + 4 + i] == b1[i]);
        assert(w[n1 + 4 + i] == b2[i]);
    }
    assert(b1 =~= b2);
    assert(c1.suit == c2.suit);
}

impl Card {
    /// Creates a new card with the given rank and suit.
    pub fn new(rank: Rank, suit: Suit) -> (c: Card)
        ensures
            c.rank == rank,
            c.suit == suit,
    {
        Card { rank, suit }
    }

    /// The rank of the card.
    pub fn rank(&self) -> (r: Rank)
        ensures
            r == self.rank,
    {
        self.rank
    }

    /// The suit of the card.
    pub fn suit(&self) -> (s: Suit)
        ensures
            s == self.suit,
    {
        self.suit
    }

    /// Render the card as a user-friendly string, `"<Rank> of <Suit>"`.
    pub fn render(&self) -> (r: String)
        ensures
            r@ == card_name(*self),
    {
        let mut s = String::new();
        s.append(self.rank.render());
        s.append(" of ");
        s.append(self.suit.render());
        proof {
            assert(s@ =~= card_name(*self));
        }
        s
    }
}

} // verus!
