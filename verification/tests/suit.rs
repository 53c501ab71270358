use card_deck::suit::Suit;

#[test]
fn suit_names_are_correct_when_printed() {
    let expected_names: [String; 4] = [
        "Hearts".into(),
        "Clubs".into(),
        "Diamonds".into(),
        "Spades".into(),
    ];
    let actual_names: Vec<String> = Suit::values()
        .iter()
        .map(|e| e.render().to_string())
        .collect();

    assert_eq!(expected_names.to_vec(), actual_names);
}

#[test]
fn suit_values_keep_their_literal_order() {
    assert_eq!(
        Suit::values(),
        vec![Suit::Hearts, Suit::Clubs, Suit::Diamonds, Suit::Spades]
    );
}
