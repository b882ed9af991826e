use vstd::prelude::*;

use crate::card::{playable, Card, Color};
use crate::game::{Direction, GameStatus};
use crate::model::{lemma_after_draw_wf, lemma_played_wf, EventView, GameView};

verus! {

/// The game after the turn has been passed on `k` times.
pub open spec fn advanced_by(g: GameView, k: nat) -> GameView
    decreases k,
{
    if k == 0 {
        g
    } else {
        advanced_by(g, (k - 1) as nat).advanced()
    }
}

/// Turn order. With `n` seats and the first seat to move, passing the turn
/// `k` times (for `k` up to `n`) reaches seat `k mod n` clockwise, so the
/// seats come up as 1, 2, ..., n - 1, 0; counter-clockwise it reaches seat
/// `n - k`, so they come up as n - 1, n - 2, ..., 0. Either way `n` passes
/// bring the turn back to the first seat.
pub proof fn lemma_turn_cycling(g: GameView, k: nat)
    requires
        1 <= g.players.len() <= usize::MAX,
        g.current_turn == 0,
        k <= g.players.len(),
    ensures
        g.direction == Direction::Clockwise ==> advanced_by(g, k).current_turn == k
            % g.players.len(),
        g.direction == Direction::CounterClockwise && k >= 1 ==> advanced_by(g, k).current_turn
            == g.players.len() - k,
        advanced_by(g, k).players == g.players,
        advanced_by(g, k).direction == g.direction,
    decreases k,
{
    let n = g.players.len() as int;
    if k == 0 {
        vstd::arithmetic::div_mod::lemma_small_mod(0, n as nat);
    } else {
        lemma_turn_cycling(g, (k - 1) as nat);
        let prev = advanced_by(g, (k - 1) as nat);
        assert(advanced_by(g, k) == prev.advanced());
        assert(prev.players.len() == n);
        if g.direction == Direction::Clockwise {
            assert(prev.current_turn == k - 1) by {
                vstd::arithmetic::div_mod::lemma_small_mod((k - 1) as nat, n as nat);
            }
            if k < n {
                vstd::arithmetic::div_mod::lemma_small_mod(k, n as nat);
            } else {
                vstd::arithmetic::div_mod::lemma_mod_self_0(n);
            }
        } else if k == 1 {
            vstd::arithmetic::div_mod::lemma_small_mod((n - 1) as nat, n as nat);
        } else {
            assert(prev.current_turn == n - (k - 1));
            vstd::arithmetic::div_mod::lemma_mod_add_multiples_vanish(n - k, n);
            vstd::arithmetic::div_mod::lemma_small_mod((n - k) as nat, n as nat);
        }
    }
}

/// Two cards of the same colour may each be played on the other; in
/// particular two number cards of one colour.
pub proof fn lemma_same_color_plays_both_ways(a: Card, b: Card)
    requires
        a.color == b.color,
    ensures
        playable(a, b),
        playable(b, a),
{
}

/// A wild card, by kind or by colour, may be played on any card.
pub proof fn lemma_wild_plays_on_anything(wild: Card, top: Card)
    requires
        wild.card_type.is_wild_kind() || wild.color == Color::Wild,
    ensures
        playable(wild, top),
{
}

/// Playing one's last card wins at once: the game is over with that
/// player as winner, the event says so, and the card's effect is not
/// applied (the turn, the direction and the pending draws stay as they
/// were).
pub proof fn lemma_last_card_wins(g: GameView, player_id: usize, card_index: usize)
    requires
        g.wf(),
        g.play_rejection(player_id, card_index) is None,
        g.players[player_id as int].hand.len() == 1,
    ensures
        g.played(player_id, card_index).status == (GameStatus::Complete { winner_id: player_id }),
        g.play_event(player_id, card_index) == (EventView::PlayerWins { player_id }),
        g.played(player_id, card_index).players[player_id as int].hand.len() == 0,
        g.played(player_id, card_index).current_turn == g.current_turn,
        g.played(player_id, card_index).direction == g.direction,
        g.played(player_id, card_index).pending_draws == g.pending_draws,
{
}

/// No card is made or lost: a legal play, a draw, the choice of a wild
/// colour and the passing or reversing of the turn all keep the number of
/// cards in the game.
pub proof fn lemma_cards_conserved(
    g: GameView,
    player_id: usize,
    card_index: usize,
    color: Color,
)
    requires
        g.wf(),
    ensures
        g.play_rejection(player_id, card_index) is None ==> g.played(
            player_id,
            card_index,
        ).card_count() == g.card_count(),
        g.draw_rejection(player_id) is None ==> g.after_draw(player_id).card_count()
            == g.card_count(),
        g.color_rejection(color) is None ==> g.with_top_color(color).card_count()
            == g.card_count(),
        g.advanced().card_count() == g.card_count(),
        g.reversed().card_count() == g.card_count(),
{
    if g.play_rejection(player_id, card_index) is None {
        lemma_played_wf(g, player_id, card_index);
    }
    if g.draw_rejection(player_id) is None {
        lemma_after_draw_wf(g, player_id);
    }
}

} // verus!
