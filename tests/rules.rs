use uno::{Card, CardType, Color, Direction, GameError, GameEvent, GameStatus, UnoGame};

fn names(list: &[&str]) -> Vec<String> {
    list.iter().map(|s| s.to_string()).collect()
}

fn card(color: Color, card_type: CardType) -> Card {
    Card::new(color, card_type)
}

fn total_cards(game: &UnoGame) -> usize {
    game.deck.len()
        + game.discard_pile.len()
        + game.players.iter().map(|p| p.hand.len()).sum::<usize>()
}

/// A deck whose top card is `top_first[0]`, then `top_first[1]`, and so on.
fn stacked(top_first: &[Card]) -> Vec<Card> {
    top_first.iter().rev().cloned().collect()
}

/// A game of three (A, B, C) with A to move and a red 3 in play; each hand
/// is given explicitly, and the draw pile holds `deck_top_first`.
fn table(hands: [Vec<Card>; 3], top: Card, deck_top_first: &[Card]) -> UnoGame {
    let mut game = UnoGame::new(names(&["A", "B", "C"])).unwrap();
    for (seat, hand) in hands.into_iter().enumerate() {
        game.players[seat].hand = hand;
    }
    game.discard_pile = vec![(top, usize::MAX)];
    game.deck = stacked(deck_top_first);
    game
}

#[test]
fn deck_has_the_standard_composition() {
    let deck = UnoGame::initialize_deck();
    assert_eq!(deck.len(), 108);
    let count = |c: Card| deck.iter().filter(|d| **d == c).count();
    for color in [Color::Red, Color::Green, Color::Blue, Color::Yellow] {
        assert_eq!(count(card(color, CardType::Number(0))), 1);
        for n in 1..=9u8 {
            assert_eq!(count(card(color, CardType::Number(n))), 2);
        }
        assert_eq!(count(card(color, CardType::Skip)), 2);
        assert_eq!(count(card(color, CardType::Reverse)), 2);
        assert_eq!(count(card(color, CardType::DrawTwo)), 2);
    }
    assert_eq!(count(card(Color::Wild, CardType::Wild)), 4);
    assert_eq!(count(card(Color::Wild, CardType::WildDrawFour)), 4);
}

#[test]
fn initial_deck_is_shuffled() {
    // The deck in the order it is built: four colour suits, then the wilds.
    let mut factory = Vec::new();
    for color in [Color::Red, Color::Green, Color::Blue, Color::Yellow] {
        factory.push(card(color, CardType::Number(0)));
        for n in 1..=9u8 {
            factory.push(card(color, CardType::Number(n)));
            factory.push(card(color, CardType::Number(n)));
        }
        for _ in 0..2 {
            factory.push(card(color, CardType::Skip));
            factory.push(card(color, CardType::Reverse));
            factory.push(card(color, CardType::DrawTwo));
        }
    }
    for _ in 0..4 {
        factory.push(card(Color::Wild, CardType::Wild));
        factory.push(card(Color::Wild, CardType::WildDrawFour));
    }
    let first = UnoGame::initialize_deck();
    let second = UnoGame::initialize_deck();
    assert_eq!(first.len(), factory.len());
    // Two shuffles that both keep the factory order are, for all practical
    // purposes, impossible.
    assert!(first != factory || second != factory);
    let mut sorted_first: Vec<String> = first.iter().map(|c| format!("{:?}", c)).collect();
    let mut sorted_factory: Vec<String> = factory.iter().map(|c| format!("{:?}", c)).collect();
    sorted_first.sort();
    sorted_factory.sort();
    assert_eq!(sorted_first, sorted_factory);
}

#[test]
fn deal_gives_seven_each_for_thirteen_players() {
    let list: Vec<String> = (0..13).map(|i| format!("P{}", i)).collect();
    let game = UnoGame::new(list.clone()).unwrap();
    assert_eq!(game.players.len(), 13);
    for (i, p) in game.players.iter().enumerate() {
        assert_eq!(p.id, i);
        assert_eq!(p.name, list[i]);
        assert_eq!(p.hand.len(), 7);
    }
    assert_eq!(game.discard_pile.len(), 1);
    assert_eq!(game.deck.len(), 108 - 7 * 13 - 1);
    assert_eq!(game.pending_draws, 0);
    assert_eq!(game.status, GameStatus::InProgress);
    assert_eq!(total_cards(&game), 108);
}

#[test]
fn fifteen_players_fit_and_sixteen_do_not() {
    let fifteen: Vec<String> = (0..15).map(|i| format!("P{}", i)).collect();
    let game = UnoGame::new(fifteen).unwrap();
    assert_eq!(game.deck.len(), 2);
    let sixteen: Vec<String> = (0..16).map(|i| format!("P{}", i)).collect();
    assert!(matches!(UnoGame::new(sixteen), Err(GameError::EmptyDeck)));
}

#[test]
fn fewer_than_two_players_is_refused() {
    assert!(matches!(UnoGame::new(names(&["Solo"])), Err(GameError::Other(_))));
    assert!(matches!(UnoGame::new(Vec::new()), Err(GameError::Other(_))));
}

#[test]
fn deal_is_round_robin_from_the_top() {
    // 2 players need 15 cards; give 16 numbered so that each is recognisable.
    let colors = [Color::Red, Color::Green];
    let top_first: Vec<Card> = (0..16u8)
        .map(|i| card(colors[(i / 8) as usize], CardType::Number(i % 8)))
        .collect();
    let game = UnoGame::from_deck(names(&["A", "B"]), stacked(&top_first)).unwrap();
    for r in 0..7 {
        assert_eq!(game.players[0].hand[r], top_first[2 * r]);
        assert_eq!(game.players[1].hand[r], top_first[2 * r + 1]);
    }
    assert_eq!(game.discard_pile, vec![(top_first[14], usize::MAX)]);
    assert_eq!(game.deck, vec![top_first[15]]);
}

#[test]
fn deal_from_a_short_deck_fails() {
    let top_first = vec![card(Color::Red, CardType::Number(1)); 14];
    let result = UnoGame::from_deck(names(&["A", "B"]), stacked(&top_first));
    assert!(matches!(result, Err(GameError::EmptyDeck)));
}

#[test]
fn turn_cycles_through_five_players() {
    let mut game = UnoGame::new(names(&["A", "B", "C", "D", "E"])).unwrap();
    let mut seen = Vec::new();
    for _ in 0..5 {
        game.next_turn();
        seen.push(game.current_turn);
    }
    assert_eq!(seen, vec![1, 2, 3, 4, 0]);
    game.reverse_direction();
    let mut seen = Vec::new();
    for _ in 0..5 {
        game.next_turn();
        seen.push(game.current_turn);
    }
    assert_eq!(seen, vec![4, 3, 2, 1, 0]);
}

#[test]
fn legality_is_not_symmetric_in_general() {
    let red_skip = card(Color::Red, CardType::Skip);
    let blue_skip = card(Color::Blue, CardType::Skip);
    let green_wild = card(Color::Green, CardType::Wild);
    // Action cards do not match by kind across colours.
    assert!(!UnoGame::can_play_card(&red_skip, &blue_skip));
    // A wild goes on the skip, the skip does not go on a green wild.
    assert!(UnoGame::can_play_card(&green_wild, &red_skip));
    assert!(!UnoGame::can_play_card(&red_skip, &green_wild));
    // Same colour works both ways, actions included.
    let red_reverse = card(Color::Red, CardType::Reverse);
    assert!(UnoGame::can_play_card(&red_skip, &red_reverse));
    assert!(UnoGame::can_play_card(&red_reverse, &red_skip));
    // Different numbers of different colours do not match.
    let r1 = card(Color::Red, CardType::Number(1));
    let b2 = card(Color::Blue, CardType::Number(2));
    assert!(!UnoGame::can_play_card(&r1, &b2));
    // A wild draw four goes on anything.
    let wd4 = card(Color::Wild, CardType::WildDrawFour);
    assert!(UnoGame::can_play_card(&wd4, &b2));
}

#[test]
fn illegal_play_leaves_the_hand_alone() {
    let top = card(Color::Red, CardType::Number(3));
    let hand = vec![
        card(Color::Blue, CardType::Number(7)),
        card(Color::Green, CardType::Skip),
    ];
    let mut game = table([hand.clone(), vec![top], vec![top]], top, &[top; 5]);
    let before_discard = game.discard_pile.clone();
    let result = game.play_card(0, 0);
    assert!(matches!(result, Err(GameError::InvalidMove)));
    assert_eq!(game.players[0].hand, hand);
    assert_eq!(game.discard_pile, before_discard);
    assert_eq!(game.current_turn, 0);
}

#[test]
fn refusals_in_order() {
    let top = card(Color::Red, CardType::Number(3));
    let red = card(Color::Red, CardType::Number(5));
    let mut game = table([vec![red, red], vec![red], vec![red]], top, &[top; 5]);
    // Not B's turn.
    assert!(matches!(game.play_card(1, 0), Err(GameError::InvalidMove)));
    assert!(matches!(game.draw_card(1), Err(GameError::InvalidMove)));
    // No such card.
    assert!(matches!(game.play_card(0, 2), Err(GameError::CardNotInHand)));
    // Owing draws.
    game.pending_draws = 2;
    assert!(matches!(game.play_card(0, 0), Err(GameError::InvalidMove)));
    assert_eq!(game.players[0].hand.len(), 2);
}

#[test]
fn winning_on_a_skip_applies_no_effect() {
    let top = card(Color::Red, CardType::Number(3));
    let skip = card(Color::Red, CardType::Skip);
    let mut game = table([vec![skip], vec![top], vec![top]], top, &[top; 5]);
    let result = game.play_card(0, 0);
    assert!(matches!(result, Ok(GameEvent::PlayerWins { player_id: 0 })));
    assert_eq!(game.status, GameStatus::Complete { winner_id: 0 });
    assert_eq!(game.current_turn, 0);
    assert_eq!(game.direction, Direction::Clockwise);
    assert_eq!(game.pending_draws, 0);
    // Nothing moves once the game is over.
    assert!(matches!(game.play_card(0, 0), Err(GameError::GameAlreadyOver)));
    assert!(matches!(game.draw_card(0), Err(GameError::GameAlreadyOver)));
    assert!(matches!(game.choose_wild_color(Color::Red), Err(GameError::GameAlreadyOver)));
}

#[test]
fn draw_two_obligation() {
    let top = card(Color::Green, CardType::Number(4));
    let draw_two = card(Color::Green, CardType::DrawTwo);
    let filler = card(Color::Yellow, CardType::Number(1));
    let extra = [
        card(Color::Blue, CardType::Number(8)),
        card(Color::Red, CardType::Number(6)),
        filler,
    ];
    let mut game = table(
        [vec![draw_two, filler], vec![filler, filler], vec![filler]],
        top,
        &extra,
    );
    let played = game.play_card(0, 0);
    assert!(matches!(played, Ok(GameEvent::CardPlayed { player_id: 0, .. })));
    assert_eq!(game.pending_draws, 2);
    assert_eq!(game.current_turn, 1);
    // B must draw before playing.
    assert!(matches!(game.play_card(1, 0), Err(GameError::InvalidMove)));
    match game.draw_card(1) {
        Ok(GameEvent::DrawTwo { player_id, cards }) => {
            assert_eq!(player_id, 1);
            assert_eq!(cards, vec![extra[0], extra[1]]);
        }
        other => panic!("unexpected result {:?}", other),
    }
    assert_eq!(game.players[1].hand.len(), 4);
    assert_eq!(game.players[1].hand[2], extra[0]);
    assert_eq!(game.players[1].hand[3], extra[1]);
    assert_eq!(game.pending_draws, 0);
    assert_eq!(game.current_turn, 2);
    assert_eq!(game.deck, vec![filler]);
}

#[test]
fn short_deck_refuses_the_whole_penalty() {
    let top = card(Color::Green, CardType::Number(4));
    let filler = card(Color::Yellow, CardType::Number(1));
    let mut game = table(
        [vec![filler], vec![filler], vec![filler]],
        top,
        &[filler, filler, filler],
    );
    game.pending_draws = 4;
    assert!(matches!(game.draw_card(0), Err(GameError::EmptyDeck)));
    assert_eq!(game.deck.len(), 3);
    assert_eq!(game.players[0].hand.len(), 1);
    assert_eq!(game.pending_draws, 4);
    assert_eq!(game.current_turn, 0);
}

#[test]
fn drawing_from_an_empty_deck_fails() {
    let top = card(Color::Green, CardType::Number(4));
    let mut game = table([vec![top], vec![top], vec![top]], top, &[]);
    assert!(matches!(game.draw_card(0), Err(GameError::EmptyDeck)));
    assert_eq!(game.current_turn, 0);
}

#[test]
fn plain_draw_takes_the_top_card() {
    let top = card(Color::Green, CardType::Number(4));
    let first = card(Color::Blue, CardType::Skip);
    let second = card(Color::Red, CardType::Number(2));
    let mut game = table([vec![top], vec![top], vec![top]], top, &[first, second]);
    let result = game.draw_card(0);
    assert!(matches!(result, Ok(GameEvent::CardDrawn { player_id: 0, card }) if card == first));
    assert_eq!(game.players[0].hand[1], first);
    assert_eq!(game.deck, vec![second]);
    assert_eq!(game.current_turn, 1);
}

#[test]
fn wild_color_binds_the_next_play() {
    let top = card(Color::Red, CardType::Number(3));
    let wild = card(Color::Wild, CardType::Wild);
    let green = card(Color::Green, CardType::Number(9));
    let red = card(Color::Red, CardType::Number(3));
    let mut game = table(
        [vec![wild, red], vec![red, green], vec![red]],
        top,
        &[red; 3],
    );
    let result = game.play_card(0, 0);
    assert!(matches!(
        result,
        Ok(GameEvent::WildColorChosen { player_id: 0, color: Color::Wild })
    ));
    // The turn waits for the colour.
    assert_eq!(game.current_turn, 0);
    assert!(matches!(game.choose_wild_color(Color::Wild), Err(GameError::InvalidMove)));
    assert!(game.choose_wild_color(Color::Green).is_ok());
    assert_eq!(game.discard_pile.last().unwrap().0.color, Color::Green);
    assert_eq!(game.discard_pile.last().unwrap().0.card_type, CardType::Wild);
    // The colour is settled once.
    assert!(matches!(game.choose_wild_color(Color::Blue), Err(GameError::InvalidMove)));
    game.next_turn();
    assert_eq!(game.current_turn, 1);
    // B's red card no longer matches; the green one does.
    assert!(matches!(game.play_card(1, 0), Err(GameError::InvalidMove)));
    assert!(game.play_card(1, 1).is_ok());
    assert_eq!(game.current_turn, 2);
}

#[test]
fn wild_draw_four_event_names_the_next_player() {
    let top = card(Color::Red, CardType::Number(3));
    let wd4 = card(Color::Wild, CardType::WildDrawFour);
    let mut game = table([vec![wd4, top], vec![top], vec![top]], top, &[top; 5]);
    match game.play_card(0, 0) {
        Ok(GameEvent::WildDrawFour { player_id, next_player_id, cards, color }) => {
            assert_eq!(player_id, 0);
            assert_eq!(next_player_id, 1);
            assert!(cards.is_empty());
            assert_eq!(color, Color::Wild);
        }
        other => panic!("unexpected result {:?}", other),
    }
    assert_eq!(game.pending_draws, 4);
    assert!(game.choose_wild_color(Color::Yellow).is_ok());
    let drawn = game.draw_card(1);
    assert!(matches!(drawn, Ok(GameEvent::DrawTwo { player_id: 1, ref cards }) if cards.len() == 4));
    assert_eq!(game.players[1].hand.len(), 5);
    assert_eq!(game.current_turn, 2);
}

#[test]
fn choosing_a_colour_needs_a_wild_in_play() {
    let top = card(Color::Red, CardType::Number(3));
    let mut game = table([vec![top], vec![top], vec![top]], top, &[top; 5]);
    assert!(matches!(game.choose_wild_color(Color::Blue), Err(GameError::InvalidMove)));
    assert_eq!(game.discard_pile[0].0, top);
}

#[test]
fn cards_are_conserved_through_play() {
    let mut game = UnoGame::new(names(&["A", "B", "C", "D"])).unwrap();
    for _ in 0..200 {
        if game.status != GameStatus::InProgress {
            break;
        }
        let seat = game.current_turn;
        let top = game.discard_pile.last().unwrap().0;
        let playable = game.players[seat]
            .hand
            .iter()
            .position(|c| UnoGame::can_play_card(c, &top));
        let result = match (game.pending_draws, playable) {
            (0, Some(index)) => game.play_card(seat, index),
            _ => game.draw_card(seat),
        };
        match result {
            Ok(GameEvent::WildColorChosen { .. }) => {
                game.choose_wild_color(Color::Blue).unwrap();
                game.next_turn();
            }
            Ok(GameEvent::WildDrawFour { .. }) => {
                game.choose_wild_color(Color::Yellow).unwrap();
            }
            Ok(_) => {}
            Err(GameError::EmptyDeck) => break,
            Err(e) => panic!("unexpected error {:?}", e),
        }
        assert_eq!(total_cards(&game), 108);
    }
    assert_eq!(total_cards(&game), 108);
}

#[test]
fn skip_with_two_players_comes_back() {
    let top = card(Color::Red, CardType::Number(3));
    let skip = card(Color::Red, CardType::Skip);
    let mut game = UnoGame::new(names(&["A", "B"])).unwrap();
    game.players[0].hand = vec![skip, top];
    game.discard_pile = vec![(top, usize::MAX)];
    assert!(game.play_card(0, 0).is_ok());
    assert_eq!(game.current_turn, 0);
}

#[test]
fn reverse_from_the_first_seat_goes_to_the_last() {
    let top = card(Color::Blue, CardType::Number(3));
    let reverse = card(Color::Blue, CardType::Reverse);
    let mut game = table([vec![reverse, top], vec![top], vec![top]], top, &[top; 5]);
    let result = game.play_card(0, 0);
    assert!(matches!(result, Ok(GameEvent::CardPlayed { player_id: 0, ref player_name, card }) if player_name == "A" && card == reverse));
    assert_eq!(game.direction, Direction::CounterClockwise);
    assert_eq!(game.current_turn, 2);
    assert_eq!(game.discard_pile.last().unwrap(), &(reverse, 0));
}
