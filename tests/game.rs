use uno::{Card, CardType, Color, Direction, UnoGame};

fn names(list: &[&str]) -> Vec<String> {
    list.iter().map(|s| s.to_string()).collect()
}

/// Puts `card` on top of the discard pile, so that a play can be checked
/// against a known card.
fn set_top(game: &mut UnoGame, card: Card) {
    let last = game.discard_pile.len() - 1;
    game.discard_pile[last].0 = card;
}

#[test]
fn test_initialize_deck() {
    let deck = UnoGame::initialize_deck();
    assert_eq!(deck.len(), 108); // Standard Uno deck has 108 cards
}

#[test]
fn test_new_game() {
    let player_names = names(&["Alice", "Bob"]);
    let game = UnoGame::new(player_names).unwrap();

    assert_eq!(game.players[0].hand.len(), 7);
    assert_eq!(game.players[1].hand.len(), 7);
    assert_eq!(game.discard_pile.len(), 1);
    assert_eq!(game.deck.len(), 108 - (7 * 2) - 1);
    assert_eq!(game.current_turn, 0);
    assert_eq!(game.direction, Direction::Clockwise);
}

#[test]
fn game_test_play_card() {
    let player_names = names(&["Alice", "Bob"]);
    let mut game = UnoGame::new(player_names).unwrap();

    // Make sure Alice holds a card that goes on the card in play.
    set_top(&mut game, Card::new(Color::Red, CardType::Number(4)));
    game.players[0].hand.push(Card::new(Color::Red, CardType::Number(8)));

    let top_card = game.discard_pile.last().unwrap().0;
    let matching_card_index = game.players[0]
        .hand
        .iter()
        .position(|card| UnoGame::can_play_card(card, &top_card))
        .unwrap();
    let card_to_play = game.players[0].hand[matching_card_index];

    let result = game.play_card(0, matching_card_index);
    assert!(result.is_ok());

    assert_eq!(
        game.discard_pile.last().unwrap().0.card_type,
        card_to_play.card_type
    );
}

#[test]
fn game_test_draw_card() {
    let player_names = names(&["Alice", "Bob"]);
    let mut game = UnoGame::new(player_names).unwrap();

    let initial_hand_size = game.players[0].hand.len();
    let initial_deck_size = game.deck.len();

    let result = game.draw_card(0);
    assert!(result.is_ok());

    assert_eq!(game.players[0].hand.len(), initial_hand_size + 1);
    assert_eq!(game.deck.len(), initial_deck_size - 1);
}

#[test]
fn test_next_turn() {
    let player_names = names(&["Alice", "Bob", "Charlie"]);
    let mut game = UnoGame::new(player_names).unwrap();

    assert_eq!(game.current_turn, 0);
    game.next_turn();
    assert_eq!(game.current_turn, 1);
    game.next_turn();
    assert_eq!(game.current_turn, 2);
    game.next_turn();
    assert_eq!(game.current_turn, 0);
}

#[test]
fn test_reverse_direction() {
    let player_names = names(&["Alice", "Bob"]);
    let mut game = UnoGame::new(player_names).unwrap();

    assert_eq!(game.direction, Direction::Clockwise);
    game.reverse_direction();
    assert_eq!(game.direction, Direction::CounterClockwise);
    game.reverse_direction();
    assert_eq!(game.direction, Direction::Clockwise);
}

#[test]
fn test_next_turn_reversed() {
    let player_names = names(&["Alice", "Bob", "Charlie"]);
    let mut game = UnoGame::new(player_names).unwrap();

    game.reverse_direction();
    assert_eq!(game.direction, Direction::CounterClockwise);
    assert_eq!(game.current_turn, 0);
    game.next_turn();
    assert_eq!(game.current_turn, 2);
    game.next_turn();
    assert_eq!(game.current_turn, 1);
    game.next_turn();
    assert_eq!(game.current_turn, 0);
}

#[test]
fn test_can_play_card() {
    let red_card = Card::new(Color::Red, CardType::Number(1));
    let blue_card = Card::new(Color::Blue, CardType::Number(1));
    let wild_card = Card::new(Color::Wild, CardType::Wild);

    // Same color
    assert!(UnoGame::can_play_card(&red_card, &red_card));
    // Same number, different color
    assert!(UnoGame::can_play_card(&red_card, &blue_card));
    // Wild card can be played on anything
    assert!(UnoGame::can_play_card(&wild_card, &red_card));
    // Regular card on wild
    assert!(UnoGame::can_play_card(&red_card, &wild_card));
}

#[test]
fn test_wild_draw_four_turn_progression() {
    let player_names = names(&["Martin", "Tanya"]);
    let mut game = UnoGame::new(player_names).unwrap();

    game.current_turn = 1; // Tanya's turn
    game.direction = Direction::Clockwise;

    let wild_draw_four = Card::new(Color::Wild, CardType::WildDrawFour);
    game.players[1].hand.insert(0, wild_draw_four);

    let result = game.play_card(1, 0);
    assert!(result.is_ok());

    assert_eq!(game.current_turn, 0);
    assert_eq!(game.pending_draws, 4);
}

#[test]
fn test_skip_turn_progression() {
    let player_names = names(&["Alice", "Bob", "Charlie"]);
    let mut game = UnoGame::new(player_names).unwrap();

    game.current_turn = 0; // Alice's turn
    game.direction = Direction::Clockwise;
    set_top(&mut game, Card::new(Color::Red, CardType::Number(3)));

    let skip_card = Card::new(Color::Red, CardType::Skip);
    game.players[0].hand.insert(0, skip_card);

    let result = game.play_card(0, 0);
    assert!(result.is_ok());

    // Bob is skipped: Charlie moves next.
    assert_eq!(game.current_turn, 2);
}

#[test]
fn test_reverse_turn_progression() {
    let player_names = names(&["Alice", "Bob", "Charlie"]);
    let mut game = UnoGame::new(player_names).unwrap();

    game.current_turn = 1; // Bob's turn
    game.direction = Direction::Clockwise;
    set_top(&mut game, Card::new(Color::Blue, CardType::Number(6)));

    let reverse_card = Card::new(Color::Blue, CardType::Reverse);
    game.players[1].hand.insert(0, reverse_card);

    let result = game.play_card(1, 0);
    assert!(result.is_ok());

    assert_eq!(game.direction, Direction::CounterClockwise);
    assert_eq!(game.current_turn, 0);
}

#[test]
fn test_draw_two_turn_progression() {
    let player_names = names(&["Alice", "Bob", "Charlie"]);
    let mut game = UnoGame::new(player_names).unwrap();

    game.current_turn = 0; // Alice's turn
    game.direction = Direction::Clockwise;
    set_top(&mut game, Card::new(Color::Green, CardType::Number(2)));

    let draw_two_card = Card::new(Color::Green, CardType::DrawTwo);
    game.players[0].hand.insert(0, draw_two_card);

    let result = game.play_card(0, 0);
    assert!(result.is_ok());

    assert_eq!(game.pending_draws, 2);
    assert_eq!(game.current_turn, 1);
}

#[test]
fn test_normal_card_turn_progression() {
    let player_names = names(&["Alice", "Bob", "Charlie"]);
    let mut game = UnoGame::new(player_names).unwrap();

    game.current_turn = 0; // Alice's turn
    game.direction = Direction::Clockwise;
    set_top(&mut game, Card::new(Color::Red, CardType::Number(9)));

    let normal_card = Card::new(Color::Red, CardType::Number(5));
    game.players[0].hand.insert(0, normal_card);

    let result = game.play_card(0, 0);
    assert!(result.is_ok());

    assert_eq!(game.current_turn, 1);
}

#[test]
fn test_draw_card_turn_progression() {
    let player_names = names(&["Alice", "Bob", "Charlie"]);
    let mut game = UnoGame::new(player_names).unwrap();

    game.current_turn = 0; // Alice's turn
    game.direction = Direction::Clockwise;

    let result = game.draw_card(0);
    assert!(result.is_ok());

    assert_eq!(game.current_turn, 1);
}

#[test]
fn test_draw_card_with_pending_draws() {
    let player_names = names(&["Alice", "Bob", "Charlie"]);
    let mut game = UnoGame::new(player_names).unwrap();

    game.current_turn = 0; // Alice's turn
    game.direction = Direction::Clockwise;
    game.pending_draws = 2; // Alice has pending draws

    let result = game.draw_card(0);
    assert!(result.is_ok());

    assert_eq!(game.pending_draws, 0);
    assert_eq!(game.current_turn, 1);
}
