use card_deck::card::Card;
use card_deck::rank::Rank;
use card_deck::suit::Suit;

fn setup() -> Card {
    Card::new(Rank::Ace, Suit::Hearts)
}

#[test]
fn suit_returns_card_suit() {
    let card = setup();
    assert_eq!(card.suit(), Suit::Hearts);
}

#[test]
fn rank_returns_card_rank() {
    let card = setup();
    assert_eq!(card.rank(), Rank::Ace);
}

#[test]
fn render_formats_rank_of_suit() {
    assert_eq!(Card::new(Rank::Ace, Suit::Hearts).render(), "Ace of Hearts");
    assert_eq!(Card::new(Rank::Ten, Suit::Clubs).render(), "10 of Clubs");
    assert_eq!(Card::new(Rank::Two, Suit::Spades).render(), "2 of Spades");
    assert_eq!(
        Card::new(Rank::Queen, Suit::Diamonds).render(),
        "Queen of Diamonds"
    );
}

#[test]
fn render_matches_rank_and_suit_names() {
    for suit in Suit::values() {
        for rank in Rank::values() {
            let card = Card::new(rank, suit);
            let expected = format!("{} of {}", rank.render(), suit.render());
            assert_eq!(card.render(), expected);
        }
    }
}

#[test]
fn render_is_injective_over_all_cards() {
    let mut seen: Vec<String> = Vec::new();
    for suit in Suit::values() {
        for rank in Rank::values() {
            let name = Card::new(rank, suit).render();
            assert!(!seen.contains(&name));
            seen.push(name);
        }
    }
    assert_eq!(seen.len(), 52);
}
