//! All ranks in a French deck of cards.

use vstd::prelude::*;

verus! {

/// One of the thirteen ranks of a French deck of playing cards.
#[derive(Debug, Copy, Clone, PartialEq, Eq, Hash, Structural)]
pub enum Rank {
    Ace,
    King,
    Queen,
    Jack,
    Ten,
    Nine,
    Eight,
    Seven,
    Six,
    Five,
    Four,
    Three,
    Two,
}

/// The canonical iteration order of the ranks: Ace high, down to Two.
/// Deck construction and any caller that enumerates ranks rely on this
/// exact order.
pub open spec fn rank_values() -> Seq<Rank> {
    seq![
        Rank::Ace,
        Rank::King,
        Rank::Queen,
        Rank::Jack,
        Rank::Ten,
        Rank::Nine,
        Rank::Eight,
        Rank::Seven,
        Rank::Six,
        Rank::Five,
        Rank::Four,
        Rank::Three,
        Rank::Two,
    ]
}

/// The numeric value of a rank in the aces-high mapping: Ace is 14 and the
/// rest run contiguously down to Two at 2.
pub open spec fn aces_high_value(r: Rank) -> int {
    match r {
        Rank::Ace => 14,
        Rank::King => 13,
        Rank::Queen => 12,
        Rank::Jack => 11,
        Rank::Ten => 10,
        Rank::Nine => 9,
        Rank::Eight => 8,
        Rank::Seven => 7,
        Rank::Six => 6,
        Rank::Five => 5,
        Rank::Four => 4,
        Rank::Three => 3,
        Rank::Two => 2,
    }
}

/// The numeric value of a rank in the aces-low mapping: Ace is the unique
/// minimum at 1, King tops the contiguous 2..=13 run.
pub open spec fn aces_low_value(r: Rank) -> int {
    match r {
        Rank::Ace => 1,
        Rank::King => 13,
        Rank::Queen => 12,
        Rank::Jack => 11,
        Rank::Ten => 10,
        Rank::Nine => 9,
        Rank::Eight => 8,
        Rank::Seven => 7,
        Rank::Six => 6,
        Rank::Five => 5,
        Rank::Four => 4,
        Rank::Three => 3,
        Rank::Two => 2,
    }
}

/// The name a rank renders as: face ranks by their English name, numeric
/// ranks by their digit string.
pub open spec fn rank_name(r: Rank) -> Seq<char> {
    match r {
        Rank::Ace => "Ace"@,
        Rank::King => "King"@,
        Rank::Queen => "Queen"@,
        Rank::Jack => "Jack"@,
        Rank::Ten => "10"@,
        Rank::Nine => "9"@,
        Rank::Eight => "8"@,
        Rank::Seven => "7"@,
        Rank::Six => "6"@,
        Rank::Five => "5"@,
        Rank::Four => "4"@,
        Rank::Three => "3"@,
        Rank::Two => "2"@,
    }
}

/// No two ranks share a name, and a rank's name never contains a space, so
/// a rank can be read back off a rendered card unambiguously.
pub proof fn lemma_rank_names_distinct(r1: Rank, r2: Rank)
    ensures
        rank_name(r1) == rank_name(r2) ==> r1 == r2,
        forall|i: int| 0 <= i < rank_name(r1).len() ==> rank_name(r1)[i] != ' ',
{
    reveal_strlit("Ace");
    reveal_strlit("King");
    reveal_strlit("Queen");
    reveal_strlit("Jack");
    reveal_strlit("10");
    reveal_strlit("9");
    reveal_strlit("8");
    reveal_strlit("7");
    reveal_strlit("6");
    reveal_strlit("5");
    reveal_strlit("4");
    reveal_strlit("3");
    reveal_strlit("2");
    if rank_name(r1) == rank_name(r2) {
        assert(rank_name(r1).len() == rank_name(r2).len());
        assert(rank_name(r1)[0] == rank_name(r2)[0]);
        assert(r1 == r2);
    }
}

/// The position of a rank in the canonical iteration order.
pub open spec fn rank_index(r: Rank) -> int {
    match r {
        Rank::Ace => 0,
        Rank::King => 1,
        Rank::Queen => 2,
        Rank::Jack => 3,
        Rank::Ten => 4,
        Rank::Nine => 5,
        Rank::Eight => 6,
        Rank::Seven => 7,
        Rank::Six => 8,
        Rank::Five => 9,
        Rank::Four => 10,
        Rank::Three => 11,
        Rank::Two => 12,
    }
}

/// The canonical order is a faithful enumeration of the ranks: it has
/// exactly 13 entries, every rank stands at its own index, and no rank
/// occurs twice.
pub proof fn lemma_rank_values_enumerates()
    ensures
        rank_values().len() == 13,
        forall|r: Rank| 0 <= #[trigger] rank_index(r) < 13 && rank_values()[rank_index(r)] == r,
        forall|i: int| 0 <= i < 13 ==> rank_index(#[trigger] rank_values()[i]) == i,
        rank_values().no_duplicates(),
{
    assert(rank_values()[0] == Rank::Ace);
    assert(rank_values()[1] == Rank::King);
    assert(rank_values()[2] == Rank::Queen);
    assert(rank_values()[3] == Rank::Jack);
    assert(rank_values()[4] == Rank::Ten);
    assert(rank_values()[5] == Rank::Nine);
    assert(rank_values()[6] == Rank::Eight);
    assert(rank_values()[7] == Rank::Seven);
    assert(rank_values()[8] == Rank::Six);
    assert(rank_values()[9] == Rank::Five);
    assert(rank_values()[10] == Rank::Four);
    assert(rank_values()[11] == Rank::Three);
    assert(rank_values()[12] == Rank::Two);
    assert forall|i: int, j: int| 0 <= i < j < rank_values().len() implies rank_values()[i]
        != rank_values()[j] by {
        assert(rank_index(rank_values()[i]) == i);
        assert(rank_index(rank_values()[j]) == j);
    }
}

impl Rank {
    /// All rank values, in the canonical iteration order.
    pub fn values() -> (r: Vec<Rank>)
        ensures
            r@ == rank_values(),
    {
        let mut v: Vec<Rank> = Vec::new();
        v.push(Rank::Ace);
        v.push(Rank::King);
        v.push(Rank::Queen);
        v.push(Rank::Jack);
        v.push(Rank::Ten);
        v.push(Rank::Nine);
        v.push(Rank::Eight);
        v.push(Rank::Seven);
        v.push(Rank::Six);
        v.push(Rank::Five);
        v.push(Rank::Four);
        v.push(Rank::Three);
        v.push(Rank::Two);
        proof {
            assert(v@ =~= rank_values());
        }
        v
    }

    /// Get the numerical representation of the rank, in the mapping the
    /// caller selects: aces high (Ace == 14) or aces low (Ace == 1).
    pub fn get_numerical_rank(&self, aces_high: bool) -> (r: i32)
        ensures
            aces_high ==> r == aces_high_value(*self),
            !aces_high ==> r == aces_low_value(*self),
    {
        match aces_high {
            true => self._aces_high_mapping(),
            false => self._aces_low_mapping(),
        }
    }

    /// The numerical representation of the rank in an aces-high deck.
    fn _aces_high_mapping(&self) -> (r: i32)
        ensures
            r == aces_high_value(*self),
    {
        match self {
            Rank::Ace => 14,
            Rank::King => 13,
            Rank::Queen => 12,
            Rank::Jack => 11,
            Rank::Ten => 10,
            Rank::Nine => 9,
            Rank::Eight => 8,
            Rank::Seven => 7,
            Rank::Six => 6,
            Rank::Five => 5,
            Rank::Four => 4,
            Rank::Three => 3,
            Rank::Two => 2,
        }
    }

    /// The numerical representation of the rank in an aces-low deck.
    fn _aces_low_mapping(&self) -> (r: i32)
        ensures
            r == aces_low_value(*self),
    {
        match self {
            Rank::Ace => 1,
            Rank::King => 13,
            Rank::Queen => 12,
            Rank::Jack => 11,
            Rank::Ten => 10,
            Rank::Nine => 9,
            Rank::Eight => 8,
            Rank::Seven => 7,
            Rank::Six => 6,
            Rank::Five => 5,
            Rank::Four => 4,
            Rank::Three => 3,
            Rank::Two => 2,
        }
    }

    /// The user-friendly name of the rank.
    pub fn render(&self) -> (r: &'static str)
        ensures
            r@ == rank_name(*self),
    {
        match self {
            Rank::Ace => "Ace",
            Rank::King => "King",
            Rank::Queen => "Queen",
            Rank::Jack => "Jack",
            Rank::Ten => "10",
            Rank::Nine => "9",
            Rank::Eight => "8",
            Rank::Seven => "7",
            Rank::Six => "6",
            Rank::Five => "5",
            Rank::Four => "4",
            Rank::Three => "3",
            Rank::Two => "2",
        }
    }
}

} // verus!
