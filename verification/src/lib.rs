//! A playing-card domain model: ranks, suits, cards, and a deck that is
//! built, shuffled, cut, and dealt through a staged (typestate) interface.

pub mod card;
pub mod deck;
pub mod rank;
pub mod suit;
