//! The rules engine of the card game Uno: the deck, the hands, the legality
//! of a move, turn order and the effects of the action cards, with the
//! stored-game record and the summaries that clients are sent.
pub mod card;
pub mod deck;
pub mod game;
pub mod laws;
pub mod model;
pub mod player;
pub mod response;
pub mod session;
pub mod text;

pub use card::{Card, CardType, Color};
pub use game::{Direction, GameError, GameEvent, GameStatus, UnoGame};
pub use player::Player;
pub use response::{
    CardResponse, DeckResponse, GameResponse, GameStateResponse, PlayerResponse,
    PlayerStateResponse, WinnerResponse,
};
pub use session::GameSession;
