//! The card model: colours, values, and the matching rule that decides
//! whether one card may legally be played on top of another.

use vstd::prelude::*;
use vstd::string::StringExecFns;

verus! {

/// The possible colours of a card.
///
/// `Wild` is the neutral colour carried by wild cards while they sit in a
/// pile; a wild card only takes on one of the four real colours while it is
/// the active card of the discard pile.
#[derive(Debug, Clone, Copy, PartialEq, Eq, Structural)]
pub enum Colour {
    Red,
    Yellow,
    Green,
    Blue,
    Wild,
}

/// The possible values of a card.
#[derive(Debug, Clone, Copy, PartialEq, Eq, Structural)]
pub enum Value {
    Reverse,
    Skip,
    DrawTwo,
    Number(usize),
    Wild,
    WildDraw(usize),
}

/// A card: an immutable pair of colour and value.
#[derive(Debug, Clone, Copy, PartialEq, Eq, Structural)]
pub struct Card {
    pub colour: Colour,
    pub value: Value,
}

/// Whether the card carries a wild value (`Wild` or `WildDraw`).
///
/// Such cards only hold a chosen colour while they are the active card of
/// the discard pile; everywhere else their colour is the neutral `Wild`.
pub open spec fn has_wild_value(c: Card) -> bool {
    c.value is Wild || c.value is WildDraw
}

/// The matching rule of the game: `card` may be played on the active card
/// `top` when the colours match, the values match (number cards only on the
/// same number), or either card is coloured `Wild`.
pub open spec fn cards_match(card: Card, top: Card) -> bool {
    ||| card.colour == top.colour
    ||| card.value == top.value
    ||| card.colour == Colour::Wild
    ||| top.colour == Colour::Wild
}

/// A card with a wild value taken back to the neutral `Wild` colour; any
/// other card unchanged.
pub open spec fn spec_revert_wild(c: Card) -> Card {
    if has_wild_value(c) {
        Card { colour: Colour::Wild, value: c.value }
    } else {
        c
    }
}

/// The character of the decimal digit `d`.
pub open spec fn spec_digit_char(d: int) -> char {
    if d == 0 {
        '0'
    } else if d == 1 {
        '1'
    } else if d == 2 {
        '2'
    } else if d == 3 {
        '3'
    } else if d == 4 {
        '4'
    } else if d == 5 {
        '5'
    } else if d == 6 {
        '6'
    } else if d == 7 {
        '7'
    } else if d == 8 {
        '8'
    } else {
        '9'
    }
}

/// The decimal digits of `n`.
pub open spec fn spec_decimal(n: int) -> Seq<char>
    decreases n,
{
    if n < 10 {
        seq![spec_digit_char(n)]
    } else {
        spec_decimal(n / 10).push(spec_digit_char(n % 10))
    }
}

/// The name of a colour, as a card is shown.
pub open spec fn colour_text(c: Colour) -> Seq<char> {
    match c {
        Colour::Blue => "Blue"@,
        Colour::Red => "Red"@,
        Colour::Yellow => "Yellow"@,
        Colour::Green => "Green"@,
        Colour::Wild => "Wild"@,
    }
}

/// The text of a card value, as a card is shown.
pub open spec fn value_text(v: Value) -> Seq<char> {
    match v {
        Value::DrawTwo => "Draw Two"@,
        Value::Reverse => "Reverse"@,
        Value::Skip => "Skip"@,
        Value::Number(n) => spec_decimal(n as int),
        Value::Wild => "Select Color"@,
        Value::WildDraw(n) => "Draw +"@ + spec_decimal(n as int),
    }
}

/// The text of a card: its colour, a space, and its value.
pub open spec fn card_text(c: Card) -> Seq<char> {
    colour_text(c.colour) + " "@ + value_text(c.value)
}

/// Appends the decimal digits of `n` to `out`.
pub(crate) fn append_decimal(out: &mut String, n: usize)
    ensures
        final(out)@ == old(out)@ + spec_decimal(n as int),
    decreases n,
{
    if n >= 10 {
        append_decimal(out, n / 10);
    }
    let d = n % 10;
    proof {
        reveal_strlit("0");
        reveal_strlit("1");
        reveal_strlit("2");
        reveal_strlit("3");
        reveal_strlit("4");
        reveal_strlit("5");
        reveal_strlit("6");
        reveal_strlit("7");
        reveal_strlit("8");
        reveal_strlit("9");
    }
    match d {
        0 => out.append("0"),
        1 => out.append("1"),
        2 => out.append("2"),
        3 => out.append("3"),
        4 => out.append("4"),
        5 => out.append("5"),
        6 => out.append("6"),
        7 => out.append("7"),
        8 => out.append("8"),
        _ => out.append("9"),
    }
    proof {
        assert(out@ =~= old(out)@ + spec_decimal(n as int));
    }
}

impl Card {
    /// The card as plain text, colour first: `Red 5`, `Blue Skip`,
    /// `Wild Draw +4`.
    pub fn to_text(&self) -> (r: String)
        ensures
            r@ == card_text(*self),
    {
        let mut s = String::new();
        match self.colour {
            Colour::Blue => s.append("Blue"),
            Colour::Red => s.append("Red"),
            Colour::Yellow => s.append("Yellow"),
            Colour::Green => s.append("Green"),
            Colour::Wild => s.append("Wild"),
        }
        s.append(" ");
        match self.value {
            Value::DrawTwo => s.append("Draw Two"),
            Value::Reverse => s.append("Reverse"),
            Value::Skip => s.append("Skip"),
            Value::Number(n) => append_decimal(&mut s, n),
            Value::Wild => s.append("Select Color"),
            Value::WildDraw(n) => {
                s.append("Draw +");
                append_decimal(&mut s, n);
            },
        }
        proof {
            assert(s@ =~= card_text(*self));
        }
        s
    }

    /// Decides whether `self` may legally be played on the active card `top`.
    pub fn matches_for_play(&self, top: &Card) -> (r: bool)
        ensures
            r == cards_match(*self, *top),
    {
        self.colour == top.colour || self.value == top.value
            || self.colour == Colour::Wild || top.colour == Colour::Wild
    }

    /// Returns the card with a wild value reset to the neutral `Wild`
    /// colour; any other card is returned unchanged.
    pub fn revert_wild(&self) -> (r: Card)
        ensures
            r == spec_revert_wild(*self),
    {
        match self.value {
            Value::Wild | Value::WildDraw(_) => Card { colour: Colour::Wild, value: self.value },
            _ => *self,
        }
    }
}

} // verus!
