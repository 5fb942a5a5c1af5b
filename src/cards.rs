//! Card decks as players submit them.

use vstd::prelude::*;

verus! {

/// Index of a card in the game's card list.
pub type CardId = usize;

/// The number of cards in a deck.
pub const DECK_SIZE: usize = 15;

/// The cards a player brings to a match.
#[derive(Debug, Clone, PartialEq, Eq)]
pub struct Deck {
    cards: [CardId; DECK_SIZE],
}

impl View for Deck {
    type V = Seq<CardId>;

    closed spec fn view(&self) -> Seq<CardId> {
        self.cards@
    }
}

impl Deck {
    /// A deck holding `cards`, in that order.
    pub fn new(cards: [CardId; DECK_SIZE]) -> (r: Deck)
        ensures
            r@ == cards@,
    {
        Deck { cards }
    }

    /// The deck's cards, in order.
    pub fn cards(&self) -> (r: [CardId; DECK_SIZE])
        ensures
            r@ == self@,
    {
        self.cards
    }
}

} // verus!
