//! All suits in a French deck of cards.

use vstd::prelude::*;

verus! {

/// One of the four suits of a French deck of playing cards.
#[derive(Debug, Copy, Clone, PartialEq, Eq, Hash, Structural)]
pub enum Suit {
    Hearts,
    Spades,
    Diamonds,
    Clubs,
}

/// The canonical iteration order of the suits: Hearts, Clubs, Diamonds,
/// Spades. Deck construction and any caller that enumerates suits rely on
/// this exact order.
pub open spec fn suit_values() -> Seq<Suit> {
    seq![Suit::Hearts, Suit::Clubs, Suit::Diamonds, Suit::Spades]
}

/// The English name of a suit, as a sequence of characters.
pub open spec fn suit_name(s: Suit) -> Seq<char> {
    match s {
        Suit::Hearts => "Hearts"@,
        Suit::Spades => "Spades"@,
        Suit::Diamonds => "Diamonds"@,
        Suit::Clubs => "Clubs"@,
    }
}

/// No two suits share a name, and a suit's name never contains a space, so
/// a suit can be read back off a rendered card unambiguously.
pub proof fn lemma_suit_names_distinct(s1: Suit, s2: Suit)
    ensures
        suit_name(s1) == suit_name(s2) ==> s1 == s2,
        forall|i: int| 0 <= i < suit_name(s1).len() ==> suit_name(s1)[i] != ' ',
{
    reveal_strlit("Hearts");
    reveal_strlit("Spades");
    reveal_strlit("Diamonds");
    reveal_strlit("Clubs");
    if suit_name(s1) == suit_name(s2) {
        assert(suit_name(s1).len() == suit_name(s2).len());
        assert(suit_name(s1)[0] == suit_name(s2)[0]);
        assert(s1 == s2);
    }
}

/// The position of a suit in the canonical iteration order.
pub open spec fn suit_index(s: Suit) -> int {
    match s {
        Suit::Hearts => 0,
        Suit::Clubs => 1,
        Suit::Diamonds => 2,
        Suit::Spades => 3,
    }
}

/// The canonical order is a faithful enumeration of the suits: it has
/// exactly 4 entries, every suit stands at its own index, and no suit
/// occurs twice.
pub proof fn lemma_suit_values_enumerates()
    ensures
        suit_values().len() == 4,
        forall|s: Suit| 0 <= #[trigger] suit_index(s) < 4 && suit_values()[suit_index(s)] == s,
        forall|i: int| 0 <= i < 4 ==> suit_index(#[trigger] suit_values()[i]) == i,
        suit_values().no_duplicates(),
{
    assert(suit_values()[0] == Suit::Hearts);
    assert(suit_values()[1] == Suit::Clubs);
    assert(suit_values()[2] == Suit::Diamonds);
    assert(suit_values()[3] == Suit::Spades);
    assert forall|i: int, j: int| 0 <= i < j < suit_values().len() implies suit_values()[i]
        != suit_values()[j] by {
        assert(suit_index(suit_values()[i]) == i);
        assert(suit_index(suit_values()[j]) == j);
    }
}

impl Suit {
    /// All suit values, in the canonical iteration order.
    pub fn values() -> (r: Vec<Suit>)
        ensures
            r@ == suit_values(),
    {
        let mut v: Vec<Suit> = Vec::new();
        v.push(Suit::Hearts);
        v.push(Suit::Clubs);
        v.push(Suit::Diamonds);
        v.push(Suit::Spades);
        proof {
            assert(v@ =~= suit_values());
        }
        v
    }

    /// The user-friendly English name of the suit.
    pub fn render(&self) -> (r: &'static str)
        ensures
            r@ == suit_name(*self),
    {
        match self {
            Suit::Hearts => "Hearts",
            Suit::Spades => "Spades",
            Suit::Diamonds => "Diamonds",
            Suit::Clubs => "Clubs",
        }
    }
}

} // verus!
