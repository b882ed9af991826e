use vstd::prelude::*;

use crate::card::{card_type_label, color_label, Card};
use crate::game::{direction_label, GameStatus, UnoGame};
use crate::session::GameSession;

verus! {

/// A card written out for a client.
pub struct CardResponse {
    pub color: String,
    pub card_type: String,
}

/// A seat as every client may see it: the size of the hand, not the cards.
pub struct PlayerResponse {
    pub id: usize,
    pub name: String,
    pub hand_size: usize,
}

/// The winner of a finished game.
pub struct WinnerResponse {
    pub id: usize,
    pub name: String,
}

/// A summary of a stored game.
pub struct GameResponse {
    pub id: String,
    pub current_turn: usize,
    pub players: Vec<PlayerResponse>,
    pub discard_pile_top: CardResponse,
    pub deck_cards_remaining: usize,
    pub pending_draws: usize,
    pub status: String,
    pub winner: Option<WinnerResponse>,
}

/// A seat with its cards, each with its position in the hand.
pub struct PlayerStateResponse {
    pub id: usize,
    pub name: String,
    pub hand: Vec<(usize, CardResponse)>,
}

/// The full state of a stored game.
pub struct GameStateResponse {
    pub id: String,
    pub current_turn: usize,
    pub direction: String,
    pub players: Vec<PlayerStateResponse>,
    pub discard_pile_top: CardResponse,
    pub deck_cards_remaining: usize,
    pub pending_draws: usize,
    pub status: String,
    pub winner: Option<WinnerResponse>,
}

/// The draw pile of a stored game, bottom first.
pub struct DeckResponse {
    pub cards: Vec<CardResponse>,
}

/// How the status of a game is written out.
pub open spec fn status_label(status: GameStatus) -> Seq<char> {
    match status {
        GameStatus::InProgress => seq!['I', 'n', ' ', 'P', 'r', 'o', 'g', 'r', 'e', 's', 's'],
        GameStatus::Complete { .. } => seq!['C', 'o', 'm', 'p', 'l', 'e', 't', 'e'],
    }
}

/// `r` writes out `card`.
pub open spec fn describes(r: CardResponse, card: Card) -> bool {
    r.color@ == color_label(card.color) && r.card_type@ == card_type_label(card.card_type)
}

/// `winner` names the winner of `game`, and is there only once the game is
/// over.
pub open spec fn names_winner(winner: Option<WinnerResponse>, game: UnoGame) -> bool {
    match game.status {
        GameStatus::InProgress => winner is None,
        GameStatus::Complete { winner_id } => winner matches Some(w) && w.id == winner_id
            && w.name@ == game.players@[winner_id as int].name@,
    }
}

/// `cards` writes out `deck`, card by card.
pub open spec fn describes_all(cards: Seq<CardResponse>, deck: Seq<Card>) -> bool {
    cards.len() == deck.len() && forall|k: int| 0 <= k < deck.len() ==> describes(#[trigger] cards[k], deck[k])
}

impl CardResponse {
    /// Writes out a card.
    pub fn from_card(card: &Card) -> (r: CardResponse)
        ensures
            describes(r, *card),
    {
        CardResponse { color: card.color.label(), card_type: card.card_type.label() }
    }
}

/// The status of `game` written out, with its winner once it is over.
fn status_of(game: &UnoGame) -> (r: (String, Option<WinnerResponse>))
    requires
        game@.wf(),
    ensures
        r.0@ == status_label(game.status),
        names_winner(r.1, *game),
{
    proof {
        reveal_strlit("In Progress");
        reveal_strlit("Complete");
    }
    match game.status {
        GameStatus::InProgress => (String::from_str("In Progress"), None),
        GameStatus::Complete { winner_id } => {
            assert(game@.players[winner_id as int] == game.players@[winner_id as int]@);
            (
                String::from_str("Complete"),
                Some(
                    WinnerResponse { id: winner_id, name: game.players[winner_id].name.clone() },
                ),
            )
        },
    }
}

/// Writes out `cards`, card by card.
fn describe_cards(cards: &Vec<Card>) -> (r: Vec<CardResponse>)
    ensures
        describes_all(r@, cards@),
{
    let mut out: Vec<CardResponse> = Vec::new();
    let mut k: usize = 0;
    while k < cards.len()
        invariant
            k <= cards.len(),
            out@.len() == k,
            forall|j: int| 0 <= j < k ==> describes(#[trigger] out@[j], cards@[j]),
        decreases cards.len() - k,
    {
        out.push(CardResponse::from_card(&cards[k]));
        k = k + 1;
    }
    out
}

/// The card in play, written out.
fn describe_top(game: &UnoGame) -> (r: CardResponse)
    requires
        game@.wf(),
    ensures
        describes(r, game@.top()),
{
    CardResponse::from_card(&game.discard_pile[game.discard_pile.len() - 1].0)
}

impl GameResponse {
    /// The summary of a stored game.
    pub fn from_session(session: &GameSession) -> (r: GameResponse)
        requires
            session.game@.wf(),
        ensures
            r.id == session.id,
            r.current_turn == session.game.current_turn,
            r.players@.len() == session.game.players.len(),
            forall|i: int|
                0 <= i < r.players@.len() ==> (#[trigger] r.players@[i]).id
                    == session.game.players@[i].id && r.players@[i].name@
                    == session.game.players@[i].name@ && r.players@[i].hand_size
                    == session.game.players@[i].hand.len(),
            describes(r.discard_pile_top, session.game@.top()),
            r.deck_cards_remaining == session.game.deck.len(),
            r.pending_draws == session.game.pending_draws,
            r.status@ == status_label(session.game.status),
            names_winner(r.winner, session.game),
    {
        let game = &session.game;
        let (status, winner) = status_of(game);
        let mut players: Vec<PlayerResponse> = Vec::new();
        let mut i: usize = 0;
        while i < game.players.len()
            invariant
                i <= game.players.len(),
                players@.len() == i,
                forall|j: int|
                    0 <= j < i ==> (#[trigger] players@[j]).id == game.players@[j].id
                        && players@[j].name@ == game.players@[j].name@ && players@[j].hand_size
                        == game.players@[j].hand.len(),
            decreases game.players.len() - i,
        {
            let p = &game.players[i];
            players.push(
                PlayerResponse { id: p.id, name: p.name.clone(), hand_size: p.hand.len() },
            );
            i = i + 1;
        }
        GameResponse {
            id: session.id.clone(),
            current_turn: game.current_turn,
            players,
            discard_pile_top: describe_top(game),
            deck_cards_remaining: game.deck.len(),
            pending_draws: game.pending_draws,
            status,
            winner,
        }
    }
}

impl GameStateResponse {
    /// The full state of a stored game.
    pub fn from_session(session: &GameSession) -> (r: GameStateResponse)
        requires
            session.game@.wf(),
        ensures
            r.id == session.id,
            r.current_turn == session.game.current_turn,
            r.direction@ == direction_label(session.game.direction),
            r.players@.len() == session.game.players.len(),
            forall|i: int|
                0 <= i < r.players@.len() ==> (#[trigger] r.players@[i]).id
                    == session.game.players@[i].id && r.players@[i].name@
                    == session.game.players@[i].name@ && r.players@[i].hand@.len()
                    == session.game.players@[i].hand.len() && forall|k: int|
                    0 <= k < r.players@[i].hand@.len() ==> (#[trigger] r.players@[i].hand@[k]).0
                        == k && describes(
                        r.players@[i].hand@[k].1,
                        session.game.players@[i].hand@[k],
                    ),
            describes(r.discard_pile_top, session.game@.top()),
            r.deck_cards_remaining == session.game.deck.len(),
            r.pending_draws == session.game.pending_draws,
            r.status@ == status_label(session.game.status),
            names_winner(r.winner, session.game),
    {
        let game = &session.game;
        let (status, winner) = status_of(game);
        let mut players: Vec<PlayerStateResponse> = Vec::new();
        let mut i: usize = 0;
        while i < game.players.len()
            invariant
                i <= game.players.len(),
                players@.len() == i,
                forall|j: int|
                    0 <= j < i ==> (#[trigger] players@[j]).id == game.players@[j].id
                        && players@[j].name@ == game.players@[j].name@ && players@[j].hand@.len()
                        == game.players@[j].hand.len() && forall|k: int|
                        0 <= k < players@[j].hand@.len() ==> (#[trigger] players@[j].hand@[k]).0
                            == k && describes(players@[j].hand@[k].1, game.players@[j].hand@[k]),
            decreases game.players.len() - i,
        {
            let p = &game.players[i];
            let mut hand: Vec<(usize, CardResponse)> = Vec::new();
            let mut k: usize = 0;
            while k < p.hand.len()
                invariant
                    k <= p.hand.len(),
                    hand@.len() == k,
                    forall|m: int|
                        0 <= m < k ==> (#[trigger] hand@[m]).0 == m && describes(
                            hand@[m].1,
                            p.hand@[m],
                        ),
                decreases p.hand.len() - k,
            {
                hand.push((k, CardResponse::from_card(&p.hand[k])));
                k = k + 1;
            }
            players.push(PlayerStateResponse { id: p.id, name: p.name.clone(), hand });
            i = i + 1;
        }
        GameStateResponse {
            id: session.id.clone(),
            current_turn: game.current_turn,
            direction: game.direction.label(),
            players,
            discard_pile_top: describe_top(game),
            deck_cards_remaining: game.deck.len(),
            pending_draws: game.pending_draws,
            status,
            winner,
        }
    }
}

impl DeckResponse {
    /// The draw pile of a stored game, bottom first.
    pub fn from_session(session: &GameSession) -> (r: DeckResponse)
        ensures
            describes_all(r.cards@, session.game.deck@),
    {
        DeckResponse { cards: describe_cards(&session.game.deck) }
    }
}

} // verus!
