use card_deck::card::Card;
use card_deck::deck::Deck;
use card_deck::deck::DeckType;
use card_deck::rank::Rank;
use card_deck::suit::Suit;

fn deal_all(deck: &mut card_deck::deck::Deck<card_deck::deck::Finished>) -> Vec<Card> {
    let mut cards = Vec::new();
    while let Some(card) = deck.deal_top_card() {
        cards.push(card);
    }
    cards
}

fn sorted_names(cards: &[Card]) -> Vec<String> {
    let mut names: Vec<String> = cards.iter().map(|c| c.render()).collect();
    names.sort();
    names
}

#[test]
fn default_new_returns_52_card_deck() {
    let deck = Deck::default_new();

    assert_eq!(deck.total_cards(), 52)
}

#[test]
fn custom_new_returns_52_card_deck() {
    let deck = Deck::custom_new()
        .deck_type(DeckType::FullFrench)
        .shuffle(7);

    assert_eq!(deck.total_cards(), 52)
}

#[test]
fn standard_build_is_the_full_cross_product() {
    let mut deck = Deck::custom_new()
        .deck_type(DeckType::FullFrench)
        .no_shuffle();
    let cards = deal_all(&mut deck);
    assert_eq!(cards.len(), 52);

    let mut expected = Vec::new();
    for suit in Suit::values() {
        for rank in Rank::values() {
            expected.push(Card::new(rank, suit));
        }
    }
    assert_eq!(cards, expected);

    let mut seen: Vec<String> = Vec::new();
    for card in &cards {
        let name = card.render();
        assert!(!seen.contains(&name));
        seen.push(name);
    }
}

#[test]
fn custom_build_length_is_the_product_of_the_lists() {
    let ranks = [Rank::Ace, Rank::King, Rank::Queen];
    let suits = [Suit::Hearts, Suit::Spades];
    let deck = Deck::custom_new()
        .custom_deck_type(&ranks, &suits)
        .no_shuffle();
    assert_eq!(deck.total_cards(), 6);
}

#[test]
fn custom_build_follows_suit_major_rank_minor_order() {
    let ranks = [Rank::King, Rank::Ten];
    let suits = [Suit::Hearts, Suit::Spades];
    let mut deck = Deck::custom_new()
        .custom_deck_type(&ranks, &suits)
        .no_shuffle();
    let cards = deal_all(&mut deck);
    assert_eq!(
        cards,
        vec![
            Card::new(Rank::King, Suit::Hearts),
            Card::new(Rank::Ten, Suit::Hearts),
            Card::new(Rank::King, Suit::Spades),
            Card::new(Rank::Ten, Suit::Spades),
        ]
    );
}

#[test]
fn custom_build_keeps_caller_duplicates() {
    let ranks = [Rank::Ace, Rank::Ace];
    let suits = [Suit::Clubs];
    let mut deck = Deck::custom_new()
        .custom_deck_type(&ranks, &suits)
        .no_shuffle();
    let cards = deal_all(&mut deck);
    assert_eq!(
        cards,
        vec![
            Card::new(Rank::Ace, Suit::Clubs),
            Card::new(Rank::Ace, Suit::Clubs),
        ]
    );
}

#[test]
fn empty_custom_build_deals_nothing() {
    let ranks: [Rank; 0] = [];
    let suits = [Suit::Hearts];
    let mut deck = Deck::custom_new()
        .custom_deck_type(&ranks, &suits)
        .no_shuffle();
    assert_eq!(deck.total_cards(), 0);
    assert_eq!(deck.deal_top_card(), None);
    assert_eq!(deck.deal_bottom_card(), None);
}

#[test]
fn shuffle_preserves_the_multiset_of_cards() {
    let mut reference = Deck::custom_new()
        .deck_type(DeckType::FullFrench)
        .no_shuffle();
    let expected = sorted_names(&deal_all(&mut reference));

    for count in [0, 1, 10, 11, 1000] {
        let mut deck = Deck::custom_new()
            .deck_type(DeckType::FullFrench)
            .shuffle(count);
        let cards = deal_all(&mut deck);
        assert_eq!(cards.len(), 52);
        assert_eq!(sorted_names(&cards), expected);
    }
}

#[test]
fn cut_rotates_an_even_length_deck_at_the_midpoint() {
    let ranks = [Rank::Ace, Rank::King];
    let suits = [Suit::Hearts, Suit::Spades];
    let mut deck = Deck::custom_new().custom_deck_type(&ranks, &suits).cut();
    let cards = deal_all(&mut deck);
    assert_eq!(
        cards,
        vec![
            Card::new(Rank::Ace, Suit::Spades),
            Card::new(Rank::King, Suit::Spades),
            Card::new(Rank::Ace, Suit::Hearts),
            Card::new(Rank::King, Suit::Hearts),
        ]
    );
}

#[test]
fn cut_leaves_the_shorter_half_in_front_for_odd_lengths() {
    let ranks = [Rank::Ace, Rank::King, Rank::Queen, Rank::Jack, Rank::Ten];
    let suits = [Suit::Diamonds];
    let mut deck = Deck::custom_new().custom_deck_type(&ranks, &suits).cut();
    let cards = deal_all(&mut deck);
    // The pre-cut order is Ace, King, Queen, Jack, Ten; the midpoint of five
    // is two, so the back three come first.
    assert_eq!(
        cards,
        vec![
            Card::new(Rank::Queen, Suit::Diamonds),
            Card::new(Rank::Jack, Suit::Diamonds),
            Card::new(Rank::Ten, Suit::Diamonds),
            Card::new(Rank::Ace, Suit::Diamonds),
            Card::new(Rank::King, Suit::Diamonds),
        ]
    );
}

#[test]
fn no_shuffle_keeps_the_build_order_and_skips_the_cut() {
    let ranks = [Rank::Ace, Rank::King];
    let suits = [Suit::Hearts];
    let mut deck = Deck::custom_new()
        .custom_deck_type(&ranks, &suits)
        .no_shuffle();
    let cards = deal_all(&mut deck);
    assert_eq!(
        cards,
        vec![
            Card::new(Rank::Ace, Suit::Hearts),
            Card::new(Rank::King, Suit::Hearts),
        ]
    );
}

#[test]
fn deal_bottom_card_removes_from_the_back() {
    let ranks = [Rank::Ace, Rank::King, Rank::Queen];
    let suits = [Suit::Clubs];
    let mut deck = Deck::custom_new()
        .custom_deck_type(&ranks, &suits)
        .no_shuffle();
    assert_eq!(
        deck.deal_bottom_card(),
        Some(Card::new(Rank::Queen, Suit::Clubs))
    );
    assert_eq!(
        deck.deal_bottom_card(),
        Some(Card::new(Rank::King, Suit::Clubs))
    );
    assert_eq!(deck.total_cards(), 1);
    assert_eq!(
        deck.deal_top_card(),
        Some(Card::new(Rank::Ace, Suit::Clubs))
    );
    assert_eq!(deck.deal_bottom_card(), None);
}

#[test]
fn dealing_a_full_deck_yields_52_distinct_cards_then_none() {
    let mut deck = Deck::custom_new()
        .deck_type(DeckType::FullFrench)
        .shuffle(7);

    let mut seen: Vec<String> = Vec::new();
    for i in 0..52 {
        assert_eq!(deck.total_cards(), 52 - i);
        let card = deck.deal_top_card().expect("the deck should not be empty");
        let name = card.render();
        assert!(!seen.contains(&name));
        seen.push(name);
    }
    assert_eq!(deck.total_cards(), 0);
    assert_eq!(deck.deal_top_card(), None);
    assert_eq!(deck.total_cards(), 0);
}
