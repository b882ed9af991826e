use vstd::prelude::*;

use crate::game::UnoGame;

verus! {

/// Relies on chrono's `Utc::now` and `DateTime::timestamp_millis`: the
/// time now, in milliseconds since the Unix epoch. Nothing is promised of
/// its value.
#[verifier::external_body]
fn now_millis() -> i64 {
    chrono::Utc::now().timestamp_millis()
}

/// A stored game: its identifier, the game itself and when it was last
/// touched, in milliseconds since the Unix epoch.
#[derive(Debug)]
pub struct GameSession {
    pub id: String,
    pub game: UnoGame,
    pub last_updated: i64,
}

impl GameSession {
    /// A session for `game` under `id`, stamped with the time now.
    pub fn new(id: String, game: UnoGame) -> (r: GameSession)
        ensures
            r.id == id,
            r.game == game,
    {
        GameSession { id, game, last_updated: now_millis() }
    }

    /// Stamps the session with the time now, leaving the rest alone.
    pub fn touch(&mut self)
        ensures
            final(self).id == old(self).id,
            final(self).game == old(self).game,
    {
        self.last_updated = now_millis();
    }
}

} // verus!
