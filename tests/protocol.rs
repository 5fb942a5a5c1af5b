use tableturf::board::Rotation;
use tableturf::cards::Deck;
use tableturf::protocol::PlayerId;

#[test]
fn rotate_right_turns_a_quarter_clockwise() {
    assert_eq!(Rotation::Up.rotate_right(), Rotation::Right);
    assert_eq!(Rotation::Right.rotate_right(), Rotation::Down);
    assert_eq!(Rotation::Down.rotate_right(), Rotation::Left);
    assert_eq!(Rotation::Left.rotate_right(), Rotation::Up);
}

#[test]
fn four_right_turns_come_back() {
    let r = Rotation::Down;
    assert_eq!(r.rotate_right().rotate_right().rotate_right().rotate_right(), r);
}

#[test]
fn other_side_swaps() {
    assert_eq!(PlayerId::P1.other(), PlayerId::P2);
    assert_eq!(PlayerId::P2.other(), PlayerId::P1);
}

#[test]
fn deck_keeps_its_cards_in_order() {
    let cards = [3, 1, 4, 1, 5, 9, 2, 6, 5, 3, 5, 8, 9, 7, 9];
    let deck = Deck::new(cards);
    assert_eq!(deck.cards(), cards);
    assert_eq!(deck.clone(), Deck::new(cards));
}
