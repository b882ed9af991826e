use vstd::prelude::*;

use crate::card::{playable, Card, CardType, Color};
use crate::deck::standard_deck;
use crate::model::{
    dealt, lemma_after_draw_wf, lemma_hand_total_uniform, lemma_next_seat_in_range,
    lemma_played_wf, EventView, GameView,
};
use crate::player::Player;

verus! {

/// Whether the game is still being played, and who won once it is over.
#[derive(Debug, Clone, Copy, PartialEq, Eq, Structural)]
pub enum GameStatus {
    InProgress,
    Complete { winner_id: usize },
}

/// Why an operation of the engine was refused.
#[derive(Debug, Clone)]
pub enum GameError {
    InvalidMove,
    CardNotInHand,
    GameAlreadyOver,
    EmptyDeck,
    Other(String),
}

/// What an operation of the engine did, for the caller to report.
///
/// The engine reports a play as `CardPlayed`, `WildColorChosen`,
/// `WildDrawFour` or `PlayerWins`, and a draw as `CardDrawn` or, when a
/// penalty is paid, `DrawTwo` whatever its size. `Skip` and `Reverse` are
/// there for callers that describe an effect on its own.
#[derive(Debug, Clone)]
pub enum GameEvent {
    CardPlayed { player_id: usize, player_name: String, card: Card },
    CardDrawn { player_id: usize, card: Card },
    Skip { player_id: usize },
    Reverse,
    DrawTwo { player_id: usize, cards: Vec<Card> },
    WildColorChosen { player_id: usize, color: Color },
    WildDrawFour { player_id: usize, next_player_id: usize, cards: Vec<Card>, color: Color },
    PlayerWins { player_id: usize },
}

/// The direction in which turns pass around the table.
#[derive(Debug, Clone, Copy, PartialEq, Eq, Structural)]
pub enum Direction {
    Clockwise,
    CounterClockwise,
}

/// A game in progress: the seats, the draw pile (its back is the top), the
/// discard pile (its back is the card in play, with the seat that played it)
/// and whose turn it is.
#[derive(Debug, Clone, PartialEq)]
pub struct UnoGame {
    pub players: Vec<Player>,
    pub deck: Vec<Card>,
    pub discard_pile: Vec<(Card, usize)>,
    pub current_turn: usize,
    pub direction: Direction,
    pub pending_draws: usize,
    pub status: GameStatus,
}

impl View for UnoGame {
    type V = GameView;

    open spec fn view(&self) -> GameView {
        GameView {
            players: self.players@.map_values(|p: Player| p@),
            deck: self.deck@,
            discard_pile: self.discard_pile@,
            current_turn: self.current_turn,
            direction: self.direction,
            pending_draws: self.pending_draws,
            status: self.status,
        }
    }
}

impl View for GameEvent {
    type V = EventView;

    open spec fn view(&self) -> EventView {
        match *self {
            GameEvent::CardPlayed { player_id, player_name, card } => EventView::CardPlayed {
                player_id,
                player_name: player_name@,
                card,
            },
            GameEvent::CardDrawn { player_id, card } => EventView::CardDrawn { player_id, card },
            GameEvent::Skip { player_id } => EventView::Skip { player_id },
            GameEvent::Reverse => EventView::Reverse,
            GameEvent::DrawTwo { player_id, cards } => EventView::DrawTwo {
                player_id,
                cards: cards@,
            },
            GameEvent::WildColorChosen { player_id, color } => EventView::WildColorChosen {
                player_id,
                color,
            },
            GameEvent::WildDrawFour { player_id, next_player_id, cards, color } =>
                EventView::WildDrawFour { player_id, next_player_id, cards: cards@, color },
            GameEvent::PlayerWins { player_id } => EventView::PlayerWins { player_id },
        }
    }
}

/// What an error says to a person.
pub open spec fn error_text(e: GameError) -> Seq<char> {
    match e {
        GameError::InvalidMove => seq!['I', 'n', 'v', 'a', 'l', 'i', 'd', ' ', 'm', 'o', 'v', 'e'],
        GameError::CardNotInHand => seq![
            'C', 'a', 'r', 'd', ' ', 'n', 'o', 't', ' ', 'i', 'n', ' ', 'h', 'a', 'n', 'd',
        ],
        GameError::GameAlreadyOver => seq![
            'G', 'a', 'm', 'e', ' ', 'i', 's', ' ', 'a', 'l', 'r', 'e', 'a', 'd', 'y', ' ', 'o',
            'v', 'e', 'r',
        ],
        GameError::EmptyDeck => seq!['D', 'e', 'c', 'k', ' ', 'i', 's', ' ', 'e', 'm', 'p', 't', 'y'],
        GameError::Other(message) => message@,
    }
}

impl GameError {
    /// The error as a sentence for a person to read.
    pub fn message(&self) -> (r: String)
        ensures
            r@ == error_text(*self),
    {
        proof {
            reveal_strlit("Invalid move");
            reveal_strlit("Card not in hand");
            reveal_strlit("Game is already over");
            reveal_strlit("Deck is empty");
        }
        match self {
            GameError::InvalidMove => String::from_str("Invalid move"),
            GameError::CardNotInHand => String::from_str("Card not in hand"),
            GameError::GameAlreadyOver => String::from_str("Game is already over"),
            GameError::EmptyDeck => String::from_str("Deck is empty"),
            GameError::Other(message) => message.clone(),
        }
    }
}

/// How a direction is written out.
pub open spec fn direction_label(d: Direction) -> Seq<char> {
    match d {
        Direction::Clockwise => seq!['C', 'l', 'o', 'c', 'k', 'w', 'i', 's', 'e'],
        Direction::CounterClockwise => seq![
            'C', 'o', 'u', 'n', 't', 'e', 'r', 'C', 'l', 'o', 'c', 'k', 'w', 'i', 's', 'e',
        ],
    }
}

impl Direction {
    /// The other direction.
    pub open spec fn opposite(self) -> Direction {
        match self {
            Direction::Clockwise => Direction::CounterClockwise,
            Direction::CounterClockwise => Direction::Clockwise,
        }
    }

    /// The direction written out.
    pub fn label(&self) -> (r: String)
        ensures
            r@ == direction_label(*self),
    {
        proof {
            reveal_strlit("Clockwise");
            reveal_strlit("CounterClockwise");
        }
        match self {
            Direction::Clockwise => String::from_str("Clockwise"),
            Direction::CounterClockwise => String::from_str("CounterClockwise"),
        }
    }

    /// The other direction.
    pub fn reverse(&self) -> (r: Direction)
        ensures
            r == self.opposite(),
    {
        match self {
            Direction::Clockwise => Direction::CounterClockwise,
            Direction::CounterClockwise => Direction::Clockwise,
        }
    }
}

impl UnoGame {
    /// A new game for the players named, dealt as `from_deck` deals from a
    /// freshly shuffled standard deck. Fails with `Other` for fewer than two names, and with
    /// `EmptyDeck` when the deck cannot give every player seven cards and
    /// open the discard pile (more than fifteen players).
    pub fn new(player_names: Vec<String>) -> (r: Result<UnoGame, GameError>)
        ensures
            player_names.len() < 2 ==> r matches Err(GameError::Other(_)),
            2 <= player_names.len() <= 15 ==> (r matches Ok(game) && (exists|order: Seq<Card>|
                #[trigger] order.to_multiset() == standard_deck().to_multiset() && game@ == dealt(
                    player_names@.map_values(|s: String| s@),
                    order,
                )) && game@.wf() && game@.card_count() == 108 && game.players.len() == player_names.len() && (
            forall|i: int|
                0 <= i < player_names.len() ==> #[trigger] game.players@[i].id == i
                    && game.players@[i].name@ == player_names@[i]@ && game.players@[i].hand.len()
                    == 7) && game.discard_pile.len() == 1 && game.deck.len() == 108 - 7
                * player_names.len() - 1 && game.current_turn == 0 && game.direction
                == Direction::Clockwise && game.pending_draws == 0 && game.status
                == GameStatus::InProgress),
            player_names.len() > 15 ==> r == Err::<UnoGame, GameError>(GameError::EmptyDeck),
    {
        let deck = UnoGame::initialize_deck();
        let ghost order = deck@;
        let r = Self::from_deck(player_names, deck);
        proof {
            if let Ok(game) = &r {
                if 2 <= player_names.len() <= 15 {
                    assert(order.to_multiset() == standard_deck().to_multiset() && game@ == dealt(
                        player_names@.map_values(|s: String| s@),
                        order,
                    ));
                    assert forall|i: int| 0 <= i < player_names.len() implies #[trigger] game.players@[i].id
                        == i && game.players@[i].name@ == player_names@[i]@
                        && game.players@[i].hand.len() == 7 by {
                        assert(game@.players[i] == game.players@[i]@);
                    }
                }
            }
        }
        r
    }

    /// A new game for the players named, dealt from `deck` as it stands,
    /// its back being the top: seven rounds of one card to each seat in
    /// order, then one card to open the discard pile. Seat `i` is called
    /// `player_names[i]` and plays `i`-th; the first seat moves first,
    /// clockwise.
    ///
    /// Fails with `Other` for fewer than two names, and with `EmptyDeck`
    /// when the deck runs out before the discard pile is opened.
    #[verifier::loop_isolation(false)]
    pub fn from_deck(player_names: Vec<String>, deck: Vec<Card>) -> (r: Result<UnoGame, GameError>)
        ensures
            player_names.len() < 2 ==> r matches Err(GameError::Other(_)),
            player_names.len() >= 2 && deck.len() < 7 * player_names.len() + 1 ==> r
                == Err::<UnoGame, GameError>(GameError::EmptyDeck),
            player_names.len() >= 2 && deck.len() >= 7 * player_names.len() + 1 ==> (r matches Ok(
                game,
            ) && game@ == dealt(player_names@.map_values(|s: String| s@), deck@) && game@.wf()
                && game@.card_count() == deck.len()),
    {
        let n = player_names.len();
        if n < 2 {
            return Err(GameError::Other(String::from_str("a game needs at least two players")));
        }
        let ghost names = player_names@.map_values(|s: String| s@);
        let ghost d = deck@;
        let ghost top = d.len() - 1;
        assert(d.len() == deck.len());
        let mut players: Vec<Player> = Vec::new();
        let mut i: usize = 0;
        while i < n
            invariant
                i <= n,
                n == player_names.len(),
                players.len() == i,
                forall|j: int|
                    0 <= j < i ==> (#[trigger] players@[j]).id == j && players@[j].name
                        == player_names@[j] && players@[j].hand@ == Seq::<Card>::empty(),
            decreases n - i,
        {
            players.push(Player::new(i, player_names[i].clone()));
            i = i + 1;
        }
        let mut pile = deck;
        let mut taken: usize = 0;
        let mut round: usize = 0;
        while round < 7
            invariant
                2 <= n,
                n == player_names.len(),
                round <= 7,
                taken == round * n,
                taken <= d.len(),
                d.len() <= usize::MAX,
                pile@ == d.subrange(0, d.len() - taken),
                players.len() == n,
                forall|j: int|
                    0 <= j < n ==> (#[trigger] players@[j]).id == j && players@[j].name
                        == player_names@[j] && players@[j].hand@.len() == round,
                forall|j: int, r: int|
                    0 <= j < n && 0 <= r < players@[j].hand@.len() ==> #[trigger] players@[j].hand@[r]
                        == d[top - (r * n + j)],
            decreases 7 - round,
        {
            let mut i: usize = 0;
            while i < n
                invariant
                    2 <= n,
                    n == player_names.len(),
                    round < 7,
                    i <= n,
                    taken == round * n + i,
                    taken <= d.len(),
                    d.len() <= usize::MAX,
                    pile@ == d.subrange(0, d.len() - taken),
                    players.len() == n,
                    forall|j: int|
                        0 <= j < n ==> (#[trigger] players@[j]).id == j && players@[j].name
                            == player_names@[j] && players@[j].hand@.len() == if j < i {
                            round + 1
                        } else {
                            round as int
                        },
                    forall|j: int, r: int|
                        0 <= j < n && 0 <= r < players@[j].hand@.len()
                            ==> #[trigger] players@[j].hand@[r] == d[top - (r * n + j)],
                decreases n - i,
            {
                let popped = pile.pop();
                match popped {
                    Some(card) => {
                        assert(taken < d.len());
                        assert(card == d[top - (round * n + i)]);
                        let ghost before = players@;
                        players[i].add_card(card);
                        proof {
                            assert forall|j: int| 0 <= j < n && j != i implies #[trigger] players@[j]
                                == before[j] by {}
                            assert forall|j: int, r: int|
                                0 <= j < n && 0 <= r < players@[j].hand@.len() implies #[trigger] players@[j].hand@[r]
                                == d[top - (r * n + j)] by {
                                if j != i {
                                    assert(players@[j] == before[j]);
                                } else if r < before[j].hand@.len() {
                                    assert(players@[j].hand@[r] == before[j].hand@[r]);
                                }
                            }
                        }
                    },
                    None => {
                        proof {
                            vstd::arithmetic::mul::lemma_mul_inequality(round as int, 6, n as int);
                            assert(d.len() == taken);
                            assert(taken < 7 * n);
                            assert(!(d.len() >= 7 * player_names.len() + 1));
                        }
                        return Err(GameError::EmptyDeck);
                    },
                }
                taken = taken + 1;
                i = i + 1;
            }
            proof {
                vstd::arithmetic::mul::lemma_mul_is_distributive_add_other_way(
                    n as int,
                    round as int,
                    1,
                );
            }
            round = round + 1;
        }
        let top_card = match pile.pop() {
            Some(card) => card,
            None => {
                return Err(GameError::EmptyDeck);
            },
        };
        let game = UnoGame {
            players,
            deck: pile,
            discard_pile: vec![(top_card, usize::MAX)],
            current_turn: 0,
            direction: Direction::Clockwise,
            pending_draws: 0,
            status: GameStatus::InProgress,
        };
        proof {
            let expected = dealt(names, d);
            assert(game@.players =~= expected.players) by {
                assert forall|j: int| 0 <= j < n implies #[trigger] game@.players[j]
                    == expected.players[j] by {
                    assert(game.players@[j].hand@ =~= expected.players[j].hand);
                }
            }
            assert(game@.deck =~= expected.deck);
            assert(game@.discard_pile =~= expected.discard_pile);
            lemma_hand_total_uniform(game@.players, 7);
        }
        Ok(game)
    }

    /// Decides the invariant of a game (`GameView::wf`): at least two seats,
    /// a valid turn, a card in play, and a winner only with an empty hand.
    /// A game restored from storage should pass it before it is played on.
    pub fn is_well_formed(&self) -> (r: bool)
        ensures
            r == self@.wf(),
    {
        let n = self.players.len();
        if n < 2 || self.current_turn >= n || self.discard_pile.len() == 0 {
            return false;
        }
        match self.status {
            GameStatus::InProgress => true,
            GameStatus::Complete { winner_id } => {
                if winner_id < n {
                    assert(self@.players[winner_id as int] == self.players@[winner_id as int]@);
                    self.players[winner_id].hand.len() == 0
                } else {
                    false
                }
            },
        }
    }

    /// Passes the turn to the next seat in the direction of play.
    pub fn next_turn(&mut self)
        requires
            old(self).players.len() > 0,
            old(self).current_turn < old(self).players.len(),
        ensures
            final(self)@ == old(self)@.advanced(),
    {
        let num_players = self.players.len();
        match self.direction {
            Direction::Clockwise => {
                self.current_turn = (self.current_turn + 1) % num_players;
            },
            Direction::CounterClockwise => {
                let t = self.current_turn;
                proof {
                    if t == 0 {
                        vstd::arithmetic::div_mod::lemma_small_mod(
                            (num_players - 1) as nat,
                            num_players as nat,
                        );
                    } else {
                        vstd::arithmetic::div_mod::lemma_mod_add_multiples_vanish(
                            t - 1,
                            num_players as int,
                        );
                        vstd::arithmetic::div_mod::lemma_small_mod(
                            (t - 1) as nat,
                            num_players as nat,
                        );
                    }
                }
                self.current_turn = if t == 0 {
                    num_players - 1
                } else {
                    t - 1
                };
            },
        }
    }

    /// Reverses the direction of play.
    pub fn reverse_direction(&mut self)
        ensures
            final(self)@ == old(self)@.reversed(),
    {
        self.direction = self.direction.reverse();
    }

    /// Decides whether `card` may be played on `top_card`.
    pub fn can_play_card(card: &Card, top_card: &Card) -> (r: bool)
        ensures
            r == playable(*card, *top_card),
    {
        if card.color == Color::Wild || card.is_wild() {
            return true;
        }
        if top_card.color == Color::Wild {
            return true;
        }
        if card.color == top_card.color {
            return true;
        }
        match (card.card_type, top_card.card_type) {
            (CardType::Number(n), CardType::Number(m)) => n == m,
            _ => false,
        }
    }

    /// Plays the card at `card_index` from the hand of `player_id`.
    ///
    /// Refused, with the game unchanged, when the game is over, when it is
    /// not that player's turn, while the player owes draws, when there is no
    /// such card, or when the card may not go on the card in play. Otherwise
    /// the card goes on the discard pile and its effect is applied; a player
    /// who plays the last card wins.
    pub fn play_card(&mut self, player_id: usize, card_index: usize) -> (r: Result<
        GameEvent,
        GameError,
    >)
        requires
            old(self)@.wf(),
        ensures
            final(self)@.wf(),
            final(self)@.card_count() == old(self)@.card_count(),
            match old(self)@.play_rejection(player_id, card_index) {
                Some(e) => r == Err::<GameEvent, GameError>(e) && *final(self) == *old(self),
                None => r matches Ok(event) && event@ == old(self)@.play_event(
                    player_id,
                    card_index,
                ) && final(self)@ == old(self)@.played(player_id, card_index),
            },
    {
        if let GameStatus::Complete { .. } = self.status {
            return Err(GameError::GameAlreadyOver);
        }
        if player_id != self.current_turn {
            return Err(GameError::InvalidMove);
        }
        if self.pending_draws > 0 {
            return Err(GameError::InvalidMove);
        }
        if card_index >= self.players[player_id].hand.len() {
            return Err(GameError::CardNotInHand);
        }
        let top = self.discard_pile[self.discard_pile.len() - 1].0;
        if !Self::can_play_card(&self.players[player_id].hand[card_index], &top) {
            return Err(GameError::InvalidMove);
        }
        proof {
            lemma_played_wf(self@, player_id, card_index);
        }
        let ghost g0 = self@;
        let card = self.players[player_id].hand.remove(card_index);
        let player_name = self.players[player_id].name.clone();
        let hand_empty = self.players[player_id].hand.is_empty();
        self.discard_pile.push((card, player_id));
        assert(self@.players =~= g0.after_discard(player_id, card_index).players);
        assert(self@ == g0.after_discard(player_id, card_index));
        if hand_empty {
            self.status = GameStatus::Complete { winner_id: player_id };
            return Ok(GameEvent::PlayerWins { player_id });
        }
        proof {
            lemma_next_seat_in_range(self@);
        }
        match card.card_type {
            CardType::Skip => {
                self.next_turn();
                proof {
                    lemma_next_seat_in_range(self@);
                }
                self.next_turn();
                Ok(GameEvent::CardPlayed { player_id, player_name, card })
            },
            CardType::Reverse => {
                self.reverse_direction();
                self.next_turn();
                Ok(GameEvent::CardPlayed { player_id, player_name, card })
            },
            CardType::DrawTwo => {
                self.pending_draws = 2;
                self.next_turn();
                Ok(GameEvent::CardPlayed { player_id, player_name, card })
            },
            CardType::WildDrawFour => {
                self.pending_draws = 4;
                self.next_turn();
                Ok(
                    GameEvent::WildDrawFour {
                        player_id,
                        next_player_id: self.current_turn,
                        cards: Vec::new(),
                        color: card.color,
                    },
                )
            },
            CardType::Wild => Ok(GameEvent::WildColorChosen { player_id, color: card.color }),
            CardType::Number(_) => {
                self.next_turn();
                Ok(GameEvent::CardPlayed { player_id, player_name, card })
            },
        }
    }

    /// Seat `player_id` draws what it owes: the pending penalty, or one card
    /// when none is pending. The cards come off the top of the deck into the
    /// hand, the penalty is cleared and the turn passes on.
    ///
    /// Refused, with the game unchanged, when the game is over, when it is
    /// not that player's turn, or when the deck holds fewer cards than are
    /// owed: a draw is applied whole or not at all.
    pub fn draw_card(&mut self, player_id: usize) -> (r: Result<GameEvent, GameError>)
        requires
            old(self)@.wf(),
        ensures
            final(self)@.wf(),
            final(self)@.card_count() == old(self)@.card_count(),
            match old(self)@.draw_rejection(player_id) {
                Some(e) => r == Err::<GameEvent, GameError>(e) && *final(self) == *old(self),
                None => r matches Ok(event) && event@ == old(self)@.draw_event(player_id)
                    && final(self)@ == old(self)@.after_draw(player_id),
            },
    {
        if let GameStatus::Complete { .. } = self.status {
            return Err(GameError::GameAlreadyOver);
        }
        if player_id != self.current_turn {
            return Err(GameError::InvalidMove);
        }
        let penalty = self.pending_draws > 0;
        let owed: usize = if penalty {
            self.pending_draws
        } else {
            1
        };
        if self.deck.len() < owed {
            return Err(GameError::EmptyDeck);
        }
        let ghost g0 = self@;
        proof {
            lemma_after_draw_wf(g0, player_id);
        }
        let mut cards: Vec<Card> = Vec::new();
        let mut k: usize = 0;
        let ghost hand0 = g0.players[player_id as int].hand;
        assert(hand0 + cards@ =~= hand0);
        assert(g0.with_hand(player_id, hand0).players =~= g0.players);
        assert(g0.deck.subrange(0, g0.deck.len() as int) =~= g0.deck);
        while k < owed
            invariant
                k <= owed,
                self.players.len() == g0.players.len(),
                hand0 == g0.players[player_id as int].hand,
                owed == g0.owed(),
                owed <= g0.deck.len(),
                g0.wf(),
                player_id == g0.current_turn,
                cards@ == g0.drawn().take(k as int),
                self@ == (GameView {
                    deck: g0.deck.subrange(0, g0.deck.len() - k),
                    ..g0.with_hand(player_id, g0.players[player_id as int].hand + cards@)
                }),
            decreases owed - k,
        {
            let ghost before = cards@;
            let ghost view_before = self@;
            let card = self.deck.pop().unwrap();
            self.players[player_id].hand.push(card);
            cards.push(card);
            assert((hand0 + before).push(card) =~= hand0 + cards@);
            proof {
                let target = g0.with_hand(player_id, hand0 + cards@);
                assert(view_before.players[player_id as int].hand == hand0 + before);
                assert forall|i: int| 0 <= i < self@.players.len() implies #[trigger] self@.players[i]
                    == target.players[i] by {
                    if i != player_id as int {
                        assert(self@.players[i] == view_before.players[i]);
                    }
                }
            }
            k = k + 1;
            assert(cards@ =~= g0.drawn().take(k as int));
            assert(self.deck@ =~= g0.deck.subrange(0, g0.deck.len() - k));
            assert(self@.players =~= g0.with_hand(
                player_id,
                g0.players[player_id as int].hand + cards@,
            ).players);
        }
        assert(cards@ =~= g0.drawn());
        self.pending_draws = 0;
        proof {
            lemma_next_seat_in_range(self@);
        }
        self.next_turn();
        if penalty {
            Ok(GameEvent::DrawTwo { player_id, cards })
        } else {
            Ok(GameEvent::CardDrawn { player_id, card: cards[0] })
        }
    }

    /// Settles the colour of the wild card in play: the player who played
    /// it names `color`, which the next cards must then match.
    ///
    /// Refused, with the game unchanged, when the game is over, when the
    /// card in play is not a wild card still waiting for its colour, or when
    /// `color` is `Wild`.
    pub fn choose_wild_color(&mut self, color: Color) -> (r: Result<(), GameError>)
        requires
            old(self)@.wf(),
        ensures
            final(self)@.wf(),
            final(self)@.card_count() == old(self)@.card_count(),
            match old(self)@.color_rejection(color) {
                Some(e) => r == Err::<(), GameError>(e) && *final(self) == *old(self),
                None => r is Ok && final(self)@ == old(self)@.with_top_color(color),
            },
    {
        if let GameStatus::Complete { .. } = self.status {
            return Err(GameError::GameAlreadyOver);
        }
        let last = self.discard_pile.len() - 1;
        let (card, by) = self.discard_pile[last];
        if !card.is_wild() || card.color != Color::Wild || color == Color::Wild {
            return Err(GameError::InvalidMove);
        }
        self.discard_pile.set(last, (Card { color, ..card }, by));
        assert(self@.discard_pile =~= old(self)@.with_top_color(color).discard_pile);
        Ok(())
    }
}

} // verus!
