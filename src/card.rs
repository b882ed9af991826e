use vstd::prelude::*;

use crate::text::{decimal, decimal_text, lower_of, lowercase, same_text};

verus! {

/// The colour of a card. `Wild` marks a wild card whose colour has not
/// been chosen yet.
#[derive(Debug, Clone, Copy, PartialEq, Eq, Structural)]
pub enum Color {
    Red,
    Green,
    Blue,
    Yellow,
    Wild,
}

/// What a card does when it is played.
#[derive(Debug, Clone, Copy, PartialEq, Eq, Structural)]
pub enum CardType {
    Number(u8),
    Skip,
    Reverse,
    DrawTwo,
    Wild,
    WildDrawFour,
}

/// A card: a colour and a kind. `player_id` is free for callers that want
/// to tag a card with its owner; the engine leaves it as it finds it.
#[derive(Debug, Clone, Copy, PartialEq, Eq, Structural)]
pub struct Card {
    pub color: Color,
    pub card_type: CardType,
    pub player_id: Option<usize>,
}

impl CardType {
    /// A wild kind: `Wild` or `WildDrawFour`.
    pub open spec fn is_wild_kind(self) -> bool {
        self is Wild || self is WildDrawFour
    }
}

/// The legality rule: may `card` be played on top of `top`?
///
/// A wild card (by colour or by kind) goes on anything; anything goes on a
/// top card whose colour is still unresolved; otherwise the colours must
/// agree, or both cards must be numbers of the same rank.
pub open spec fn playable(card: Card, top: Card) -> bool {
    ||| card.color == Color::Wild
    ||| card.card_type.is_wild_kind()
    ||| top.color == Color::Wild
    ||| card.color == top.color
    ||| (card.card_type matches CardType::Number(n) && top.card_type matches CardType::Number(
        m,
    ) && n == m)
}

impl Card {
    /// A fresh card with no owner tag.
    pub fn new(color: Color, card_type: CardType) -> (r: Card)
        ensures
            r.color == color,
            r.card_type == card_type,
            r.player_id is None,
    {
        Card { color, card_type, player_id: None }
    }

    /// Whether the card is a `Wild` or a `WildDrawFour`, whose colour is
    /// chosen by the player who plays it.
    pub fn is_wild(&self) -> (r: bool)
        ensures
            r == self.card_type.is_wild_kind(),
    {
        match self.card_type {
            CardType::Wild | CardType::WildDrawFour => true,
            _ => false,
        }
    }
}

/// The colour called `name`: "red", "green", "blue" or "yellow".
pub open spec fn color_named(name: Seq<char>) -> Option<Color> {
    if name == seq!['r', 'e', 'd'] {
        Some(Color::Red)
    } else if name == seq!['g', 'r', 'e', 'e', 'n'] {
        Some(Color::Green)
    } else if name == seq!['b', 'l', 'u', 'e'] {
        Some(Color::Blue)
    } else if name == seq!['y', 'e', 'l', 'l', 'o', 'w'] {
        Some(Color::Yellow)
    } else {
        None
    }
}

/// The colour picked by its number on a menu: 1 red, 2 green, 3 blue,
/// 4 yellow.
pub open spec fn color_numbered(choice: Seq<char>) -> Option<Color> {
    if choice == seq!['1'] {
        Some(Color::Red)
    } else if choice == seq!['2'] {
        Some(Color::Green)
    } else if choice == seq!['3'] {
        Some(Color::Blue)
    } else if choice == seq!['4'] {
        Some(Color::Yellow)
    } else {
        None
    }
}

/// How a colour is written out.
pub open spec fn color_label(color: Color) -> Seq<char> {
    match color {
        Color::Red => seq!['R', 'e', 'd'],
        Color::Green => seq!['G', 'r', 'e', 'e', 'n'],
        Color::Blue => seq!['B', 'l', 'u', 'e'],
        Color::Yellow => seq!['Y', 'e', 'l', 'l', 'o', 'w'],
        Color::Wild => seq!['W', 'i', 'l', 'd'],
    }
}

/// How a kind of card is written out; a number card as `Number(7)`.
pub open spec fn card_type_label(card_type: CardType) -> Seq<char> {
    match card_type {
        CardType::Number(n) => seq!['N', 'u', 'm', 'b', 'e', 'r', '('] + decimal(n as nat) + seq![
            ')',
        ],
        CardType::Skip => seq!['S', 'k', 'i', 'p'],
        CardType::Reverse => seq!['R', 'e', 'v', 'e', 'r', 's', 'e'],
        CardType::DrawTwo => seq!['D', 'r', 'a', 'w', 'T', 'w', 'o'],
        CardType::Wild => seq!['W', 'i', 'l', 'd'],
        CardType::WildDrawFour => seq!['W', 'i', 'l', 'd', 'D', 'r', 'a', 'w', 'F', 'o', 'u', 'r'],
    }
}

impl Color {
    /// The colour picked by its number on a menu: "1" red, "2" green,
    /// "3" blue, "4" yellow; `None` for anything else.
    pub fn from_choice(choice: &str) -> (r: Option<Color>)
        ensures
            r == color_numbered(choice@),
    {
        proof {
            reveal_strlit("1");
            reveal_strlit("2");
            reveal_strlit("3");
            reveal_strlit("4");
        }
        assert("1"@ =~= seq!['1']);
        assert("2"@ =~= seq!['2']);
        assert("3"@ =~= seq!['3']);
        assert("4"@ =~= seq!['4']);
        if same_text(choice, "1") {
            Some(Color::Red)
        } else if same_text(choice, "2") {
            Some(Color::Green)
        } else if same_text(choice, "3") {
            Some(Color::Blue)
        } else if same_text(choice, "4") {
            Some(Color::Yellow)
        } else {
            None
        }
    }

    /// The colour called `name`, written in lower case; `None` for anything
    /// else.
    pub fn from_lowercase_name(name: &str) -> (r: Option<Color>)
        ensures
            r == color_named(name@),
    {
        proof {
            reveal_strlit("red");
            reveal_strlit("green");
            reveal_strlit("blue");
            reveal_strlit("yellow");
        }
        assert("red"@ =~= seq!['r', 'e', 'd']);
        assert("green"@ =~= seq!['g', 'r', 'e', 'e', 'n']);
        assert("blue"@ =~= seq!['b', 'l', 'u', 'e']);
        assert("yellow"@ =~= seq!['y', 'e', 'l', 'l', 'o', 'w']);
        if same_text(name, "red") {
            Some(Color::Red)
        } else if same_text(name, "green") {
            Some(Color::Green)
        } else if same_text(name, "blue") {
            Some(Color::Blue)
        } else if same_text(name, "yellow") {
            Some(Color::Yellow)
        } else {
            None
        }
    }

    /// The colour called `name`, in any mix of upper and lower case.
    pub fn from_name(name: &str) -> (r: Option<Color>)
        ensures
            r == color_named(lower_of(name@)),
    {
        let lowered = lowercase(name);
        Color::from_lowercase_name(lowered.as_str())
    }

    /// The colour written out.
    pub fn label(&self) -> (r: String)
        ensures
            r@ == color_label(*self),
    {
        proof {
            reveal_strlit("Red");
            reveal_strlit("Green");
            reveal_strlit("Blue");
            reveal_strlit("Yellow");
            reveal_strlit("Wild");
        }
        match self {
            Color::Red => String::from_str("Red"),
            Color::Green => String::from_str("Green"),
            Color::Blue => String::from_str("Blue"),
            Color::Yellow => String::from_str("Yellow"),
            Color::Wild => String::from_str("Wild"),
        }
    }
}

impl CardType {
    /// The kind of card written out.
    pub fn label(&self) -> (r: String)
        ensures
            r@ == card_type_label(*self),
    {
        proof {
            reveal_strlit("Number(");
            reveal_strlit(")");
            reveal_strlit("Skip");
            reveal_strlit("Reverse");
            reveal_strlit("DrawTwo");
            reveal_strlit("Wild");
            reveal_strlit("WildDrawFour");
        }
        match self {
            CardType::Number(n) => {
                let mut s = String::from_str("Number(");
                let digits = decimal_text(*n);
                s.append(digits.as_str());
                s.append(")");
                s
            },
            CardType::Skip => String::from_str("Skip"),
            CardType::Reverse => String::from_str("Reverse"),
            CardType::DrawTwo => String::from_str("DrawTwo"),
            CardType::Wild => String::from_str("Wild"),
            CardType::WildDrawFour => String::from_str("WildDrawFour"),
        }
    }
}

} // verus!
