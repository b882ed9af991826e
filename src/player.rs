use vstd::prelude::*;

use crate::card::Card;
use crate::game::GameError;

verus! {

/// A seat at the table: its index in turn order, a display name and the
/// cards held.
#[derive(Debug, Clone, PartialEq)]
pub struct Player {
    pub id: usize,
    pub name: String,
    pub hand: Vec<Card>,
}

/// The mathematical model of a player.
pub struct PlayerView {
    pub id: usize,
    pub name: Seq<char>,
    pub hand: Seq<Card>,
}

impl View for Player {
    type V = PlayerView;

    open spec fn view(&self) -> PlayerView {
        PlayerView { id: self.id, name: self.name@, hand: self.hand@ }
    }
}

impl PlayerView {
    /// The same player holding `hand` instead.
    pub open spec fn with_hand(self, hand: Seq<Card>) -> PlayerView {
        PlayerView { hand, ..self }
    }
}

impl Player {
    /// A player with an empty hand.
    pub fn new(id: usize, name: String) -> (r: Player)
        ensures
            r.id == id,
            r.name == name,
            r.hand@ == Seq::<Card>::empty(),
    {
        Player { id, name, hand: Vec::new() }
    }

    /// Adds a card to the player's hand.
    pub fn add_card(&mut self, card: Card)
        ensures
            final(self).id == old(self).id,
            final(self).name == old(self).name,
            final(self).hand@ == old(self).hand@.push(card),
    {
        self.hand.push(card);
    }

    /// Takes the card at `card_index` out of the hand; fails with
    /// `CardNotInHand` when there is no such card.
    pub fn remove_card(&mut self, card_index: usize) -> (r: Result<Card, GameError>)
        ensures
            card_index < old(self).hand.len() ==> r == Ok::<Card, GameError>(
                old(self).hand@[card_index as int],
            ) && final(self).id == old(self).id && final(self).name == old(self).name
                && final(self).hand@ == old(self).hand@.remove(card_index as int),
            card_index >= old(self).hand.len() ==> r == Err::<Card, GameError>(
                GameError::CardNotInHand,
            ) && *final(self) == *old(self),
    {
        if card_index < self.hand.len() {
            Ok(self.hand.remove(card_index))
        } else {
            Err(GameError::CardNotInHand)
        }
    }

    /// A player has won when the hand is empty.
    pub fn has_won(&self) -> (r: bool)
        ensures
            r == (self.hand.len() == 0),
    {
        self.hand.is_empty()
    }
}

} // verus!
