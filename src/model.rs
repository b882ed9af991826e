use vstd::prelude::*;

use crate::card::{playable, Card, CardType, Color};
use crate::game::{Direction, GameError, GameStatus};
use crate::player::PlayerView;

verus! {

/// The mathematical model of a game.
pub struct GameView {
    pub players: Seq<PlayerView>,
    pub deck: Seq<Card>,
    pub discard_pile: Seq<(Card, usize)>,
    pub current_turn: usize,
    pub direction: Direction,
    pub pending_draws: usize,
    pub status: GameStatus,
}

/// The mathematical model of an event.
pub enum EventView {
    CardPlayed { player_id: usize, player_name: Seq<char>, card: Card },
    CardDrawn { player_id: usize, card: Card },
    Skip { player_id: usize },
    Reverse,
    DrawTwo { player_id: usize, cards: Seq<Card> },
    WildColorChosen { player_id: usize, color: Color },
    WildDrawFour { player_id: usize, next_player_id: usize, cards: Seq<Card>, color: Color },
    PlayerWins { player_id: usize },
}

/// The seat after seat `i` of `n`, going in direction `d`.
pub open spec fn next_index(i: int, n: int, d: Direction) -> int {
    match d {
        Direction::Clockwise => (i + 1) % n,
        Direction::CounterClockwise => (i + n - 1) % n,
    }
}

/// How many cards the players hold together.
pub open spec fn hand_total(players: Seq<PlayerView>) -> int
    decreases players.len(),
{
    if players.len() == 0 {
        0
    } else {
        hand_total(players.drop_last()) + players.last().hand.len()
    }
}

impl GameView {
    /// The invariant of a game: at least two seats, a valid turn, a card in
    /// play, and a winner only with an empty hand.
    pub open spec fn wf(self) -> bool {
        &&& 2 <= self.players.len()
        &&& self.current_turn < self.players.len()
        &&& self.discard_pile.len() > 0
        &&& self.status matches GameStatus::Complete { winner_id } ==> winner_id
            < self.players.len() && self.players[winner_id as int].hand.len() == 0
    }

    /// All cards in the game, wherever they are.
    pub open spec fn card_count(self) -> int {
        self.deck.len() + self.discard_pile.len() + hand_total(self.players)
    }

    /// The card in play.
    pub open spec fn top(self) -> Card {
        self.discard_pile.last().0
    }

    /// The seat whose turn comes next.
    pub open spec fn next_seat(self) -> usize {
        next_index(self.current_turn as int, self.players.len() as int, self.direction) as usize
    }

    /// The turn passed on by one seat.
    pub open spec fn advanced(self) -> GameView {
        GameView { current_turn: self.next_seat(), ..self }
    }

    /// The direction of play reversed.
    pub open spec fn reversed(self) -> GameView {
        GameView { direction: self.direction.opposite(), ..self }
    }
}

impl GameView {
    /// The seat `player_id` with `hand` in place of its cards.
    pub open spec fn with_hand(self, player_id: usize, hand: Seq<Card>) -> GameView {
        GameView {
            players: self.players.update(
                player_id as int,
                self.players[player_id as int].with_hand(hand),
            ),
            ..self
        }
    }

    /// Why seat `player_id` may not play the card at `card_index`, if it may
    /// not: the checks are made in this order.
    pub open spec fn play_rejection(self, player_id: usize, card_index: usize) -> Option<
        GameError,
    > {
        if self.status is Complete {
            Some(GameError::GameAlreadyOver)
        } else if player_id != self.current_turn {
            Some(GameError::InvalidMove)
        } else if self.pending_draws > 0 {
            Some(GameError::InvalidMove)
        } else if card_index >= self.players[player_id as int].hand.len() {
            Some(GameError::CardNotInHand)
        } else if !playable(self.players[player_id as int].hand[card_index as int], self.top()) {
            Some(GameError::InvalidMove)
        } else {
            None
        }
    }

    /// The card at `card_index` moved from the hand of `player_id` to the
    /// top of the discard pile.
    pub open spec fn after_discard(self, player_id: usize, card_index: usize) -> GameView {
        let hand = self.players[player_id as int].hand;
        GameView {
            discard_pile: self.discard_pile.push((hand[card_index as int], player_id)),
            ..self.with_hand(player_id, hand.remove(card_index as int))
        }
    }

    /// The game after a legal play of the card at `card_index` by
    /// `player_id`. Emptying the hand wins at once, without the card's
    /// effect; a plain wild leaves the turn where it is until its colour is
    /// chosen.
    pub open spec fn played(self, player_id: usize, card_index: usize) -> GameView {
        let card = self.players[player_id as int].hand[card_index as int];
        let g = self.after_discard(player_id, card_index);
        if g.players[player_id as int].hand.len() == 0 {
            GameView { status: GameStatus::Complete { winner_id: player_id }, ..g }
        } else {
            match card.card_type {
                CardType::Skip => g.advanced().advanced(),
                CardType::Reverse => g.reversed().advanced(),
                CardType::DrawTwo => GameView { pending_draws: 2, ..g }.advanced(),
                CardType::WildDrawFour => GameView { pending_draws: 4, ..g }.advanced(),
                CardType::Wild => g,
                CardType::Number(_) => g.advanced(),
            }
        }
    }

    /// The event that reports a legal play.
    pub open spec fn play_event(self, player_id: usize, card_index: usize) -> EventView {
        let player = self.players[player_id as int];
        let card = player.hand[card_index as int];
        if player.hand.len() == 1 {
            EventView::PlayerWins { player_id }
        } else {
            match card.card_type {
                CardType::Wild => EventView::WildColorChosen { player_id, color: card.color },
                CardType::WildDrawFour => EventView::WildDrawFour {
                    player_id,
                    next_player_id: self.played(player_id, card_index).current_turn,
                    cards: Seq::empty(),
                    color: card.color,
                },
                _ => EventView::CardPlayed { player_id, player_name: player.name, card },
            }
        }
    }
}

impl GameView {
    /// How many cards the player to move must draw: the pending penalty, or
    /// a single card when none is pending.
    pub open spec fn owed(self) -> int {
        if self.pending_draws > 0 {
            self.pending_draws as int
        } else {
            1
        }
    }

    /// Why seat `player_id` may not draw, if it may not. A draw that the
    /// deck cannot cover in full is refused before any card moves.
    pub open spec fn draw_rejection(self, player_id: usize) -> Option<GameError> {
        if self.status is Complete {
            Some(GameError::GameAlreadyOver)
        } else if player_id != self.current_turn {
            Some(GameError::InvalidMove)
        } else if self.deck.len() < self.owed() {
            Some(GameError::EmptyDeck)
        } else {
            None
        }
    }

    /// The cards a draw takes, in the order they come off the top of the
    /// deck.
    pub open spec fn drawn(self) -> Seq<Card> {
        Seq::new(self.owed() as nat, |j: int| self.deck[self.deck.len() - 1 - j])
    }

    /// The game after seat `player_id` draws what it owes: the cards join
    /// its hand, the penalty is cleared and the turn passes on.
    pub open spec fn after_draw(self, player_id: usize) -> GameView {
        GameView {
            deck: self.deck.subrange(0, self.deck.len() - self.owed()),
            pending_draws: 0,
            ..self.with_hand(player_id, self.players[player_id as int].hand + self.drawn())
        }.advanced()
    }

    /// The event that reports a draw.
    pub open spec fn draw_event(self, player_id: usize) -> EventView {
        if self.pending_draws > 0 {
            EventView::DrawTwo { player_id, cards: self.drawn() }
        } else {
            EventView::CardDrawn { player_id, card: self.drawn()[0] }
        }
    }
}

impl GameView {
    /// Why the colour of the card in play may not be set to `color`, if it
    /// may not: only a wild card whose colour is still open takes a colour,
    /// and only a real one.
    pub open spec fn color_rejection(self, color: Color) -> Option<GameError> {
        if self.status is Complete {
            Some(GameError::GameAlreadyOver)
        } else if !self.top().card_type.is_wild_kind() || self.top().color != Color::Wild
            || color == Color::Wild {
            Some(GameError::InvalidMove)
        } else {
            None
        }
    }

    /// The card in play with its colour set to `color`.
    pub open spec fn with_top_color(self, color: Color) -> GameView {
        let last = self.discard_pile.len() - 1;
        let (card, by) = self.discard_pile[last];
        GameView {
            discard_pile: self.discard_pile.update(last, (Card { color, ..card }, by)),
            ..self
        }
    }
}

/// Replacing one player changes the number of cards held by the difference
/// between the two hands.
pub proof fn lemma_hand_total_update(players: Seq<PlayerView>, i: int, p: PlayerView)
    requires
        0 <= i < players.len(),
    ensures
        hand_total(players.update(i, p)) == hand_total(players) - players[i].hand.len()
            + p.hand.len(),
    decreases players.len(),
{
    if i == players.len() - 1 {
        assert(players.update(i, p).drop_last() =~= players.drop_last());
    } else {
        lemma_hand_total_update(players.drop_last(), i, p);
        assert(players.update(i, p).drop_last() =~= players.drop_last().update(i, p));
    }
}

/// The next seat is a seat.
pub proof fn lemma_next_seat_in_range(g: GameView)
    requires
        g.players.len() > 0,
        g.current_turn < g.players.len(),
    ensures
        g.next_seat() < g.players.len(),
        g.advanced().current_turn < g.players.len(),
{
    let n = g.players.len() as int;
    let i = g.current_turn as int;
    vstd::arithmetic::div_mod::lemma_mod_pos_bound(i + 1, n);
    vstd::arithmetic::div_mod::lemma_mod_pos_bound(i + n - 1, n);
}

/// A legal play keeps the game well formed and keeps every card.
pub proof fn lemma_played_wf(g: GameView, player_id: usize, card_index: usize)
    requires
        g.wf(),
        g.play_rejection(player_id, card_index) is None,
    ensures
        g.played(player_id, card_index).wf(),
        g.played(player_id, card_index).card_count() == g.card_count(),
        g.played(player_id, card_index).players.len() == g.players.len(),
{
    let hand = g.players[player_id as int].hand;
    let a = g.after_discard(player_id, card_index);
    lemma_hand_total_update(
        g.players,
        player_id as int,
        g.players[player_id as int].with_hand(hand.remove(card_index as int)),
    );
    lemma_next_seat_in_range(a);
    lemma_next_seat_in_range(a.reversed());
    lemma_next_seat_in_range(a.advanced());
    lemma_next_seat_in_range(GameView { pending_draws: 2, ..a });
    lemma_next_seat_in_range(GameView { pending_draws: 4, ..a });
}

/// A draw keeps the game well formed and keeps every card.
pub proof fn lemma_after_draw_wf(g: GameView, player_id: usize)
    requires
        g.wf(),
        g.draw_rejection(player_id) is None,
    ensures
        g.after_draw(player_id).wf(),
        g.after_draw(player_id).card_count() == g.card_count(),
        g.after_draw(player_id).players.len() == g.players.len(),
{
    let hand = g.players[player_id as int].hand;
    lemma_hand_total_update(
        g.players,
        player_id as int,
        g.players[player_id as int].with_hand(hand + g.drawn()),
    );
    lemma_next_seat_in_range(
        GameView {
            deck: g.deck.subrange(0, g.deck.len() - g.owed()),
            pending_draws: 0,
            ..g.with_hand(player_id, hand + g.drawn())
        },
    );
}

/// The game dealt from `deck` to players named `names`: seven rounds, one
/// card at a time to each seat in order, from the top of the deck; then one
/// more card opens the discard pile. Seat `i` gets, in round `r`, card number
/// `r * n + i` counted from the top.
pub open spec fn dealt(names: Seq<Seq<char>>, deck: Seq<Card>) -> GameView {
    let n = names.len() as int;
    let top = deck.len() - 1;
    GameView {
        players: Seq::new(
            names.len(),
            |i: int|
                PlayerView {
                    id: i as usize,
                    name: names[i],
                    hand: Seq::new(7, |r: int| deck[top - (r * n + i)]),
                },
        ),
        deck: deck.subrange(0, deck.len() - (7 * n + 1)),
        discard_pile: seq![(deck[top - 7 * n], usize::MAX)],
        current_turn: 0,
        direction: Direction::Clockwise,
        pending_draws: 0,
        status: GameStatus::InProgress,
    }
}

/// Players whose hands all hold `k` cards hold `k` times as many together.
pub proof fn lemma_hand_total_uniform(players: Seq<PlayerView>, k: int)
    requires
        forall|i: int| 0 <= i < players.len() ==> #[trigger] players[i].hand.len() == k,
    ensures
        hand_total(players) == k * players.len(),
    decreases players.len(),
{
    if players.len() > 0 {
        lemma_hand_total_uniform(players.drop_last(), k);
        vstd::arithmetic::mul::lemma_mul_is_distributive_add(k, players.len() - 1, 1);
    }
}

} // verus!
