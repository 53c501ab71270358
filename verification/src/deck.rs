//! Deck of playing cards with associated functionality.
//!
//! At its core, a wrapper around an ordered collection of [`Card`]s. Dealing a
//! card removes one from the top (or bottom) of the deck and returns it.
//! Shuffling randomizes the order and finishes with a single cut. Building a
//! deck is done by calling configuration methods after a
//! `Deck::custom_new()` call to customize the deck, or `Deck::default_new()`
//! to build a standard French deck; each stage-advancing call consumes the
//! previous stage's deck, so operations are only reachable in their
//! designated stage.

use vstd::prelude::*;
use vstd::arithmetic::div_mod::lemma_fundamental_div_mod;
use vstd::arithmetic::div_mod::lemma_fundamental_div_mod_converse;
use vstd::seq_lib::lemma_multiset_commutative;
use std::collections::VecDeque;
use std::marker::PhantomData;
use rand::seq::SliceRandom;
use crate::card::Card;
use crate::rank::Rank;
use crate::rank::rank_values;
use crate::rank::rank_index;
use crate::rank::lemma_rank_values_enumerates;
use crate::suit::Suit;
use crate::suit::suit_values;
use crate::suit::suit_index;
use crate::suit::lemma_suit_values_enumerates;

verus! {

/// A deck of playing cards, tagged with its lifecycle stage.
pub struct Deck<T: DeckState> {
    cards: VecDeque<Card>,
    state: PhantomData<T>,
}

/// Predefined types of [`Deck`]s.
pub enum DeckType {
    FullFrench,
}

/// Typestate trait to control valid states of the [`Deck`].
pub trait DeckState {}

/// The stage before any configuration has been chosen.
pub struct Start;

/// The stage in which the deck's contents are selected.
pub struct Building;

/// The stage in which the deck may be shuffled and cut.
pub struct Shuffling;

/// The stage in which the deck may be dealt from.
pub struct Finished;

impl DeckState for Start {}

impl DeckState for Building {}

impl DeckState for Shuffling {}

impl DeckState for Finished {}

impl<T: DeckState> View for Deck<T> {
    type V = Seq<Card>;

    closed spec fn view(&self) -> Seq<Card> {
        self.cards@
    }
}

/// The ordered Cartesian product of a rank list and a suit list: for each
/// suit (outer), for each rank (inner), one card, preserving the provided
/// lists' order and cardinality, duplicates included.
pub open spec fn built_deck(ranks: Seq<Rank>, suits: Seq<Suit>) -> Seq<Card> {
    Seq::new(
        ranks.len() * suits.len(),
        |k: int|
            Card {
                rank: ranks[k % ranks.len() as int],
                suit: suits[k / ranks.len() as int],
            },
    )
}

/// A single cut of a sequence: split at the midpoint (the first half is one
/// element shorter for odd lengths) and concatenate the second half followed
/// by the first half.
pub open spec fn cut_seq(s: Seq<Card>) -> Seq<Card> {
    s.subrange(s.len() as int / 2, s.len() as int) + s.subrange(0, s.len() as int / 2)
}

/// Relies on `rand::seq::SliceRandom::shuffle` (with `rand::rng` as the
/// randomness source): an in-place Fisher-Yates permutation of the slice,
/// picked uniformly. Whatever order comes out, the elements are exactly the
/// old ones rearranged.
#[verifier::external_body]
fn permute(cards: &mut VecDeque<Card>)
    ensures
        final(cards)@.len() == old(cards)@.len(),
        final(cards)@.to_multiset() == old(cards)@.to_multiset(),
{
    cards.make_contiguous().shuffle(&mut rand::rng());
}

/// Rotate the deque so that the back half comes first: the cut step of the
/// shuffle stage.
fn rotate_cut(cards: &mut VecDeque<Card>)
    ensures
        final(cards)@ == cut_seq(old(cards)@),
{
    let ghost orig = cards@;
    let halfway = cards.len() / 2;
    let mut k: usize = 0;
    while k < halfway
        invariant
            k <= halfway,
            halfway == orig.len() / 2,
            cards@.len() == orig.len(),
            cards@ =~= orig.subrange(k as int, orig.len() as int) + orig.subrange(0, k as int),
        decreases halfway - k,
    {
        let card = cards.pop_front().unwrap();
        cards.push_back(card);
        k = k + 1;
        proof {
            assert(cards@ =~= orig.subrange(k as int, orig.len() as int)
                + orig.subrange(0, k as int));
        }
    }
    proof {
        assert(cards@ =~= cut_seq(orig));
    }
}

/// The cut preserves the multiset of cards: it only rotates the sequence.
pub proof fn lemma_cut_preserves_multiset(s: Seq<Card>)
    ensures
        cut_seq(s).to_multiset() == s.to_multiset(),
{
    let front = s.subrange(0, s.len() as int / 2);
    let back = s.subrange(s.len() as int / 2, s.len() as int);
    lemma_multiset_commutative(back, front);
    lemma_multiset_commutative(front, back);
    assert(front + back =~= s);
    assert(cut_seq(s).to_multiset() =~= s.to_multiset());
}

/// A standard build is the full cross-product of the 13 ranks and the 4
/// suits: 52 cards, no duplicates, and every possible card exactly once.
pub proof fn lemma_standard_deck_composition()
    ensures
        built_deck(rank_values(), suit_values()).len() == 52,
        built_deck(rank_values(), suit_values()).no_duplicates(),
        forall|c: Card| built_deck(rank_values(), suit_values()).to_multiset().count(c) == 1,
{
    broadcast use vstd::seq_lib::group_to_multiset_ensures;

    let s = built_deck(rank_values(), suit_values());
    lemma_rank_values_enumerates();
    lemma_suit_values_enumerates();
    assert(s.len() == 52);
    assert forall|i: int, j: int| 0 <= i < j < s.len() implies s[i] != s[j] by {
        assert(s[i].rank == rank_values()[i % 13] && s[i].suit == suit_values()[i / 13]);
        assert(s[j].rank == rank_values()[j % 13] && s[j].suit == suit_values()[j / 13]);
        if s[i] == s[j] {
            assert(rank_index(rank_values()[i % 13]) == i % 13);
            assert(rank_index(rank_values()[j % 13]) == j % 13);
            assert(suit_index(suit_values()[i / 13]) == i / 13);
            assert(suit_index(suit_values()[j / 13]) == j / 13);
            assert(i % 13 == j % 13 && i / 13 == j / 13);
            lemma_fundamental_div_mod(i, 13);
            lemma_fundamental_div_mod(j, 13);
            assert(i == j);
        }
    }
    assert(s.no_duplicates());
    assert forall|c: Card| s.to_multiset().count(c) == 1 by {
        let k = suit_index(c.suit) * 13 + rank_index(c.rank);
        assert(0 <= k < 52) by (nonlinear_arith)
            requires
                k == suit_index(c.suit) * 13 + rank_index(c.rank),
                0 <= suit_index(c.suit) < 4,
                0 <= rank_index(c.rank) < 13,
        ;
        lemma_fundamental_div_mod_converse(k, 13, suit_index(c.suit), rank_index(c.rank));
        assert(s[k] == c);
        assert(s.contains(c));
        s.lemma_multiset_has_no_duplicates();
    }
}

/// Shuffling only permutes: any sequence that carries the same multiset of
/// cards as a duplicate-free sequence is itself duplicate-free. In
/// particular, a shuffled standard deck still deals 52 distinct cards.
pub proof fn lemma_permutation_preserves_no_duplicates(a: Seq<Card>, b: Seq<Card>)
    requires
        a.to_multiset() == b.to_multiset(),
        a.no_duplicates(),
    ensures
        b.no_duplicates(),
{
    a.lemma_multiset_has_no_duplicates();
    b.lemma_multiset_has_no_duplicates_conv();
}

/// Any deck that carries the standard multiset of cards — for example, the
/// deck `default_new` returns, or any standard build after `shuffle` — holds
/// exactly 52 cards with no duplicate among them, so dealing them all yields
/// 52 distinct cards.
pub proof fn lemma_standard_multiset_deck_distinct(d: Seq<Card>)
    requires
        d.to_multiset() == built_deck(rank_values(), suit_values()).to_multiset(),
    ensures
        d.len() == 52,
        d.no_duplicates(),
{
    broadcast use vstd::seq_lib::group_to_multiset_ensures;

    lemma_standard_deck_composition();
    lemma_permutation_preserves_no_duplicates(built_deck(rank_values(), suit_values()), d);
    assert(d.to_multiset().len() == d.len());
    assert(built_deck(rank_values(), suit_values()).to_multiset().len() == built_deck(
        rank_values(),
        suit_values(),
    ).len());
}

impl Deck<Start> {
    /// Begin creation of a custom [`Deck`].
    pub fn custom_new() -> (r: Deck<Building>)
        ensures
            r@ == Seq::<Card>::empty(),
    {
        Self::new()
    }

    /// Create a default playing card [`Deck`]: a full French deck,
    /// shuffled 7 times and cut.
    pub fn default_new() -> (r: Deck<Finished>)
        ensures
            r@.len() == 52,
            r@.to_multiset() == built_deck(rank_values(), suit_values()).to_multiset(),
            r@.no_duplicates(),
    {
        let deck = Self::new().deck_type(DeckType::FullFrench).shuffle(7);
        proof {
            lemma_standard_multiset_deck_distinct(deck@);
        }
        deck
    }

    fn new() -> (r: Deck<Building>)
        ensures
            r@ == Seq::<Card>::empty(),
    {
        Deck { cards: VecDeque::new(), state: PhantomData }
    }
}

impl Deck<Building> {
    /// Configure the [`Deck`] as a provided predefined [`DeckType`].
    pub fn deck_type(self, deck_type: DeckType) -> (r: Deck<Shuffling>)
        ensures
            r@ == built_deck(rank_values(), suit_values()),
            r@.len() == 52,
    {
        let deck_size: usize = match deck_type {
            DeckType::FullFrench => 52,
        };

        let ranks = Rank::values();
        let suits = Suit::values();
        let cards = Self::build_deck(deck_size, ranks.as_slice(), suits.as_slice());
        proof {
            assert(rank_values().len() == 13);
            assert(suit_values().len() == 4);
        }
        Deck { cards, state: PhantomData }
    }

    /// Pass in a slice of [`Rank`]s and [`Suit`]s to create a [`Deck`] with a
    /// custom set of [`Card`]s.
    ///
    /// Each rank will be applied with every suit to create a product of all
    /// ranks and suits. Thus, if a deck with a double set of a suit is
    /// required, the slice should have 2 instances of that suit, and likewise
    /// with ranks.
    pub fn custom_deck_type(self, ranks: &[Rank], suits: &[Suit]) -> (r: Deck<Shuffling>)
        requires
            ranks@.len() * suits@.len() <= usize::MAX,
        ensures
            r@ == built_deck(ranks@, suits@),
            r@.len() == ranks@.len() * suits@.len(),
    {
        let capacity: usize = ranks.len() * suits.len();
        Deck { cards: Self::build_deck(capacity, ranks, suits), state: PhantomData }
    }

    fn build_deck(capacity: usize, ranks: &[Rank], suits: &[Suit]) -> (cards: VecDeque<Card>)
        requires
            ranks@.len() * suits@.len() <= usize::MAX,
        ensures
            cards@ == built_deck(ranks@, suits@),
    {
        let r_len = ranks.len();
        let s_len = suits.len();
        let mut cards: VecDeque<Card> = VecDeque::with_capacity(capacity);

        let mut j: usize = 0;
        while j < s_len
            invariant
                r_len == ranks@.len(),
                s_len == suits@.len(),
                r_len * s_len <= usize::MAX,
                j <= s_len,
                cards@.len() == j * r_len,
                forall|k: int|
                    0 <= k < cards@.len() ==> cards@[k] == built_deck(ranks@, suits@)[k],
            decreases s_len - j,
        {
            let mut i: usize = 0;
            while i < r_len
                invariant
                    r_len == ranks@.len(),
                    s_len == suits@.len(),
                    r_len * s_len <= usize::MAX,
                    j < s_len,
                    i <= r_len,
                    cards@.len() == j * r_len + i,
                    forall|k: int|
                        0 <= k < cards@.len() ==> cards@[k] == built_deck(ranks@, suits@)[k],
                decreases r_len - i,
            {
                proof {
                    assert(j * r_len + i < r_len * s_len) by (nonlinear_arith)
                        requires
                            j < s_len,
                            i < r_len,
                    ;
                }
                let card = Card::new(ranks[i], suits[j]);
                cards.push_back(card);
                proof {
                    lemma_fundamental_div_mod_converse(
                        j * r_len + i,
                        r_len as int,
                        j as int,
                        i as int,
                    );
                }
                i = i + 1;
            }
            j = j + 1;
            proof {
                assert(j * r_len == (j - 1) * r_len + r_len) by (nonlinear_arith);
            }
        }
        proof {
            assert(cards@.len() == s_len * r_len) by (nonlinear_arith)
                requires
                    cards@.len() == s_len * r_len,
            ;
            assert(cards@ =~= built_deck(ranks@, suits@));
        }
        cards
    }
}

impl Deck<Shuffling> {
    /// Shuffle the [`Deck`]: if `shuffles` is between 1 and 10 inclusive,
    /// perform `shuffles + 1` independent random permutations (inclusive of
    /// the empty lower bound), otherwise exactly one; then perform a single
    /// cut. Whatever order comes out, the cards are exactly the ones that
    /// went in.
    pub fn shuffle(self, shuffles: usize) -> (r: Deck<Finished>)
        ensures
            r@.len() == self@.len(),
            r@.to_multiset() == self@.to_multiset(),
            self@.no_duplicates() ==> r@.no_duplicates(),
    {
        let mut cards = self.cards;
        let ghost orig = cards@;

        let reps: usize = if 1 <= shuffles && shuffles <= 10 {
            shuffles + 1
        } else {
            1
        };

        let mut t: usize = 0;
        while t < reps
            invariant
                cards@.len() == orig.len(),
                cards@.to_multiset() == orig.to_multiset(),
            decreases reps - t,
        {
            permute(&mut cards);
            t = t + 1;
        }

        proof {
            lemma_cut_preserves_multiset(cards@);
        }
        rotate_cut(&mut cards);

        proof {
            if orig.no_duplicates() {
                lemma_permutation_preserves_no_duplicates(orig, cards@);
            }
        }
        Deck { cards, state: PhantomData }
    }

    /// Perform only the cut step: rotate the deck so that the back half
    /// comes first, with no random permutation.
    pub fn cut(self) -> (r: Deck<Finished>)
        ensures
            r@ == cut_seq(self@),
    {
        let mut cards = self.cards;
        rotate_cut(&mut cards);
        Deck { cards, state: PhantomData }
    }

    /// Returns the [`Deck`] as it was created in the building phase,
    /// bypassing both the random permutations and the cut.
    pub fn no_shuffle(self) -> (r: Deck<Finished>)
        ensures
            r@ == self@,
    {
        Deck { cards: self.cards, state: PhantomData }
    }
}

impl Deck<Finished> {
    /// Deal the top [`Card`] from the [`Deck`]: remove and return the card at
    /// the front, or nothing if the deck is empty.
    pub fn deal_top_card(&mut self) -> (r: Option<Card>)
        ensures
            old(self)@.len() == 0 ==> r is None && final(self)@ == old(self)@,
            old(self)@.len() > 0 ==> r == Some(old(self)@[0]) && final(self)@ == old(self)@.subrange(
                1,
                old(self)@.len() as int,
            ),
    {
        self.cards.pop_front()
    }

    /// Deal the bottom [`Card`] from the [`Deck`]: remove and return the card
    /// at the back, or nothing if the deck is empty.
    pub fn deal_bottom_card(&mut self) -> (r: Option<Card>)
        ensures
            old(self)@.len() == 0 ==> r is None && final(self)@ == old(self)@,
            old(self)@.len() > 0 ==> r == Some(old(self)@[old(self)@.len() - 1]) && final(self)@
                == old(self)@.subrange(0, old(self)@.len() - 1),
    {
        self.cards.pop_back()
    }

    /// The number of [`Card`]s left in the [`Deck`].
    pub fn total_cards(&self) -> (r: usize)
        ensures
            r == self@.len(),
    {
        self.cards.len()
    }
}

} // verus!
