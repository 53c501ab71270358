use card_deck::rank::Rank;

#[test]
fn rank_values_keep_their_literal_order() {
    assert_eq!(
        Rank::values(),
        vec![
            Rank::Ace,
            Rank::King,
            Rank::Queen,
            Rank::Jack,
            Rank::Ten,
            Rank::Nine,
            Rank::Eight,
            Rank::Seven,
            Rank::Six,
            Rank::Five,
            Rank::Four,
            Rank::Three,
            Rank::Two,
        ]
    );
}

#[test]
fn ace_is_fourteen_when_aces_high() {
    assert_eq!(Rank::Ace.get_numerical_rank(true), 14);
}

#[test]
fn ace_is_one_when_aces_low() {
    assert_eq!(Rank::Ace.get_numerical_rank(false), 1);
}

#[test]
fn king_is_thirteen_in_both_mappings() {
    assert_eq!(Rank::King.get_numerical_rank(true), 13);
    assert_eq!(Rank::King.get_numerical_rank(false), 13);
}

#[test]
fn aces_high_mapping_is_contiguous_two_to_fourteen() {
    let expected: Vec<i32> = vec![14, 13, 12, 11, 10, 9, 8, 7, 6, 5, 4, 3, 2];
    let actual: Vec<i32> = Rank::values()
        .iter()
        .map(|r| r.get_numerical_rank(true))
        .collect();
    assert_eq!(actual, expected);
}

#[test]
fn aces_low_mapping_puts_ace_at_the_bottom() {
    let expected: Vec<i32> = vec![1, 13, 12, 11, 10, 9, 8, 7, 6, 5, 4, 3, 2];
    let actual: Vec<i32> = Rank::values()
        .iter()
        .map(|r| r.get_numerical_rank(false))
        .collect();
    assert_eq!(actual, expected);
}

#[test]
fn rank_names_render_as_face_names_and_digits() {
    let expected: Vec<&str> = vec![
        "Ace", "King", "Queen", "Jack", "10", "9", "8", "7", "6", "5", "4", "3", "2",
    ];
    let actual: Vec<&str> = Rank::values().iter().map(|r| r.render()).collect();
    assert_eq!(actual, expected);
}
