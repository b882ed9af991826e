use rand::seq::SliceRandom;
use vstd::prelude::*;

use crate::card::{Card, CardType, Color};
use crate::game::UnoGame;

verus! {

/// A card as it comes in a new deck, with no owner tag.
pub open spec fn fresh(color: Color, card_type: CardType) -> Card {
    Card { color, card_type, player_id: None }
}

/// The `j`-th of the 25 cards of one colour: one zero, two of each number
/// from one to nine, then two rounds of skip, reverse and draw-two.
pub open spec fn suit_card(color: Color, j: int) -> Card {
    if j == 0 {
        fresh(color, CardType::Number(0))
    } else if j <= 18 {
        fresh(color, CardType::Number(((j - 1) / 2 + 1) as u8))
    } else if (j - 19) % 3 == 0 {
        fresh(color, CardType::Skip)
    } else if (j - 19) % 3 == 1 {
        fresh(color, CardType::Reverse)
    } else {
        fresh(color, CardType::DrawTwo)
    }
}

/// The 25 cards of one colour.
pub open spec fn suit(color: Color) -> Seq<Card> {
    Seq::new(25, |j: int| suit_card(color, j))
}

/// The eight wild cards: four wilds and four wild-draw-fours, alternating.
pub open spec fn wilds() -> Seq<Card> {
    Seq::new(
        8,
        |k: int|
            if k % 2 == 0 {
                fresh(Color::Wild, CardType::Wild)
            } else {
                fresh(Color::Wild, CardType::WildDrawFour)
            },
    )
}

/// The standard deck of 108 cards, before shuffling.
pub open spec fn standard_deck() -> Seq<Card> {
    suit(Color::Red) + suit(Color::Green) + suit(Color::Blue) + suit(Color::Yellow) + wilds()
}

/// How many copies of `card` a standard deck holds: one zero and two of
/// every other number, skip, reverse and draw-two in each of the four
/// colours, and four each of the wild and the wild-draw-four, coloured wild.
pub open spec fn copies(card: Card) -> nat {
    if card.player_id is Some {
        0
    } else if card.color == Color::Wild {
        if card.card_type.is_wild_kind() {
            4
        } else {
            0
        }
    } else {
        match card.card_type {
            CardType::Number(n) => if n == 0 {
                1
            } else if n <= 9 {
                2
            } else {
                0
            },
            CardType::Skip | CardType::Reverse | CardType::DrawTwo => 2,
            CardType::Wild | CardType::WildDrawFour => 0,
        }
    }
}

/// How many of the first `k` cards of `s` are `card`.
pub open spec fn occurrences(s: Seq<Card>, card: Card, k: int) -> nat
    decreases k,
{
    if k <= 0 {
        0
    } else {
        occurrences(s, card, k - 1) + if s[k - 1] == card {
            1nat
        } else {
            0nat
        }
    }
}

/// A multiset counts what the sequence holds.
proof fn lemma_count_is_occurrences(s: Seq<Card>, card: Card, k: int)
    requires
        0 <= k <= s.len(),
    ensures
        s.take(k).to_multiset().count(card) == occurrences(s, card, k),
    decreases k,
{
    if k == 0 {
        vstd::seq_lib::to_multiset_contains(s.take(0), card);
    } else {
        lemma_count_is_occurrences(s, card, k - 1);
        assert(s.take(k) =~= s.take(k - 1).push(s[k - 1]));
        vstd::seq_lib::to_multiset_build(s.take(k - 1), s[k - 1]);
    }
}

/// The number of copies of `card` in `s`.
proof fn lemma_count_whole(s: Seq<Card>, card: Card)
    ensures
        s.to_multiset().count(card) == occurrences(s, card, s.len() as int),
{
    lemma_count_is_occurrences(s, card, s.len() as int);
    assert(s.take(s.len() as int) =~= s);
}

/// The copies of `card` among the 25 cards of one colour.
proof fn lemma_suit_count(color: Color, card: Card)
    requires
        color != Color::Wild,
    ensures
        suit(color).to_multiset().count(card) == if card.color == color {
            copies(card)
        } else {
            0
        },
{
    lemma_count_whole(suit(color), card);
    reveal_with_fuel(occurrences, 26);
}

/// The copies of `card` among the eight wild cards.
proof fn lemma_wilds_count(card: Card)
    ensures
        wilds().to_multiset().count(card) == if card.color == Color::Wild {
            copies(card)
        } else {
            0
        },
{
    lemma_count_whole(wilds(), card);
    reveal_with_fuel(occurrences, 9);
}

/// The standard deck holds exactly `copies(card)` of each card.
pub proof fn lemma_deck_composition(card: Card)
    ensures
        standard_deck().to_multiset().count(card) == copies(card),
{
    let r = suit(Color::Red);
    let g = suit(Color::Green);
    let b = suit(Color::Blue);
    let y = suit(Color::Yellow);
    let w = wilds();
    vstd::seq_lib::lemma_multiset_commutative(r, g);
    vstd::seq_lib::lemma_multiset_commutative(r + g, b);
    vstd::seq_lib::lemma_multiset_commutative(r + g + b, y);
    vstd::seq_lib::lemma_multiset_commutative(r + g + b + y, w);
    lemma_suit_count(Color::Red, card);
    lemma_suit_count(Color::Green, card);
    lemma_suit_count(Color::Blue, card);
    lemma_suit_count(Color::Yellow, card);
    lemma_wilds_count(card);
}

/// Relies on rand's `SliceRandom::shuffle`, driven by the thread-local
/// generator of `rand::rng`: it permutes the cards in place.
#[verifier::external_body]
fn shuffle_cards(cards: &mut Vec<Card>)
    ensures
        final(cards)@.len() == old(cards)@.len(),
        final(cards)@.to_multiset() == old(cards)@.to_multiset(),
{
    cards.shuffle(&mut rand::rng());
}

/// Appends the 25 cards of `color`.
fn push_suit(deck: &mut Vec<Card>, color: Color)
    ensures
        final(deck)@ == old(deck)@ + suit(color),
{
    let ghost start = deck@;
    deck.push(Card::new(color, CardType::Number(0)));
    assert(deck@ =~= start + suit(color).take(1));
    let mut number: u8 = 1;
    while number <= 9
        invariant
            1 <= number <= 10,
            deck@ == start + suit(color).take(2 * number - 1),
        decreases 10 - number,
    {
        deck.push(Card::new(color, CardType::Number(number)));
        deck.push(Card::new(color, CardType::Number(number)));
        number = number + 1;
        assert(deck@ =~= start + suit(color).take(2 * number - 1));
    }
    let mut round: usize = 0;
    while round < 2
        invariant
            round <= 2,
            deck@ == start + suit(color).take(19 + 3 * round),
        decreases 2 - round,
    {
        deck.push(Card::new(color, CardType::Skip));
        deck.push(Card::new(color, CardType::Reverse));
        deck.push(Card::new(color, CardType::DrawTwo));
        round = round + 1;
        assert(deck@ =~= start + suit(color).take(19 + 3 * round));
    }
    assert(suit(color).take(25) =~= suit(color));
}

impl UnoGame {
    /// A full deck of 108 cards in random order: for each of red, green,
    /// blue and yellow one zero, two of each number from one to nine and two
    /// each of skip, reverse and draw-two; then four wilds and four
    /// wild-draw-fours.
    pub fn initialize_deck() -> (r: Vec<Card>)
        ensures
            r@.len() == 108,
            r@.to_multiset() == standard_deck().to_multiset(),
    {
        let mut deck: Vec<Card> = Vec::new();
        push_suit(&mut deck, Color::Red);
        push_suit(&mut deck, Color::Green);
        push_suit(&mut deck, Color::Blue);
        push_suit(&mut deck, Color::Yellow);
        let ghost suits = deck@;
        let mut k: usize = 0;
        while k < 4
            invariant
                k <= 4,
                deck@ == suits + wilds().take(2 * k),
            decreases 4 - k,
        {
            deck.push(Card::new(Color::Wild, CardType::Wild));
            deck.push(Card::new(Color::Wild, CardType::WildDrawFour));
            k = k + 1;
            assert(deck@ =~= suits + wilds().take(2 * k));
        }
        assert(wilds().take(8) =~= wilds());
        assert(deck@ =~= standard_deck());
        shuffle_cards(&mut deck);
        deck
    }
}

} // verus!
