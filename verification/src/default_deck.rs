//! The standard 108-card set that a game is played with: for each of the
//! four real colours one 0, two of each number 1 to 9, two Skips, two
//! Draw Twos and two Reverses, plus four Wilds and four Wild Draw Fours.

use vstd::prelude::*;
use crate::card::{Card, Colour, Value};

verus! {

/// The 25 cards of one real colour, in the order the standard set lists
/// them: the numbers 0 to 9 (0 once, the others twice), then the special
/// cards.
pub open spec fn colour_block(c: Colour) -> Seq<Card> {
    seq![
        Card { colour: c, value: Value::Number(0) },
        Card { colour: c, value: Value::Number(1) },
        Card { colour: c, value: Value::Number(1) },
        Card { colour: c, value: Value::Number(2) },
        Card { colour: c, value: Value::Number(2) },
        Card { colour: c, value: Value::Number(3) },
        Card { colour: c, value: Value::Number(3) },
        Card { colour: c, value: Value::Number(4) },
        Card { colour: c, value: Value::Number(4) },
        Card { colour: c, value: Value::Number(5) },
        Card { colour: c, value: Value::Number(5) },
        Card { colour: c, value: Value::Number(6) },
        Card { colour: c, value: Value::Number(6) },
        Card { colour: c, value: Value::Number(7) },
        Card { colour: c, value: Value::Number(7) },
        Card { colour: c, value: Value::Number(8) },
        Card { colour: c, value: Value::Number(8) },
        Card { colour: c, value: Value::Number(9) },
        Card { colour: c, value: Value::Number(9) },
        Card { colour: c, value: Value::Skip },
        Card { colour: c, value: Value::Skip },
        Card { colour: c, value: Value::DrawTwo },
        Card { colour: c, value: Value::DrawTwo },
        Card { colour: c, value: Value::Reverse },
        Card { colour: c, value: Value::Reverse },
    ]
}

/// The eight wild cards of the standard set.
pub open spec fn wild_block() -> Seq<Card> {
    seq![
        Card { colour: Colour::Wild, value: Value::Wild },
        Card { colour: Colour::Wild, value: Value::Wild },
        Card { colour: Colour::Wild, value: Value::Wild },
        Card { colour: Colour::Wild, value: Value::Wild },
        Card { colour: Colour::Wild, value: Value::WildDraw(4) },
        Card { colour: Colour::Wild, value: Value::WildDraw(4) },
        Card { colour: Colour::Wild, value: Value::WildDraw(4) },
        Card { colour: Colour::Wild, value: Value::WildDraw(4) },
    ]
}

/// The full standard set, colour by colour, wild cards last.
pub open spec fn standard_deck() -> Seq<Card> {
    colour_block(Colour::Red) + colour_block(Colour::Green) + colour_block(Colour::Blue)
        + colour_block(Colour::Yellow) + wild_block()
}

/// Appends the 25 cards of one colour to `v`.
fn push_colour_block(v: &mut Vec<Card>, c: Colour)
    ensures
        final(v)@ == old(v)@ + colour_block(c),
{
    v.push(Card { colour: c, value: Value::Number(0) });
    v.push(Card { colour: c, value: Value::Number(1) });
    v.push(Card { colour: c, value: Value::Number(1) });
    v.push(Card { colour: c, value: Value::Number(2) });
    v.push(Card { colour: c, value: Value::Number(2) });
    v.push(Card { colour: c, value: Value::Number(3) });
    v.push(Card { colour: c, value: Value::Number(3) });
    v.push(Card { colour: c, value: Value::Number(4) });
    v.push(Card { colour: c, value: Value::Number(4) });
    v.push(Card { colour: c, value: Value::Number(5) });
    v.push(Card { colour: c, value: Value::Number(5) });
    v.push(Card { colour: c, value: Value::Number(6) });
    v.push(Card { colour: c, value: Value::Number(6) });
    v.push(Card { colour: c, value: Value::Number(7) });
    v.push(Card { colour: c, value: Value::Number(7) });
    v.push(Card { colour: c, value: Value::Number(8) });
    v.push(Card { colour: c, value: Value::Number(8) });
    v.push(Card { colour: c, value: Value::Number(9) });
    v.push(Card { colour: c, value: Value::Number(9) });
    v.push(Card { colour: c, value: Value::Skip });
    v.push(Card { colour: c, value: Value::Skip });
    v.push(Card { colour: c, value: Value::DrawTwo });
    v.push(Card { colour: c, value: Value::DrawTwo });
    v.push(Card { colour: c, value: Value::Reverse });
    v.push(Card { colour: c, value: Value::Reverse });
    proof {
        assert(v@ =~= old(v)@ + colour_block(c));
    }
}

/// Builds the standard 108-card set, in its listed order (a game shuffles
/// it before use).
pub fn game_deck() -> (v: Vec<Card>)
    ensures
        v@ == standard_deck(),
        v@.len() == 108,
{
    let mut v: Vec<Card> = Vec::new();
    push_colour_block(&mut v, Colour::Red);
    push_colour_block(&mut v, Colour::Green);
    push_colour_block(&mut v, Colour::Blue);
    push_colour_block(&mut v, Colour::Yellow);
    v.push(Card { colour: Colour::Wild, value: Value::Wild });
    v.push(Card { colour: Colour::Wild, value: Value::Wild });
    v.push(Card { colour: Colour::Wild, value: Value::Wild });
    v.push(Card { colour: Colour::Wild, value: Value::Wild });
    v.push(Card { colour: Colour::Wild, value: Value::WildDraw(4) });
    v.push(Card { colour: Colour::Wild, value: Value::WildDraw(4) });
    v.push(Card { colour: Colour::Wild, value: Value::WildDraw(4) });
    v.push(Card { colour: Colour::Wild, value: Value::WildDraw(4) });
    proof {
        assert(v@ =~= standard_deck());
    }
    v
}

} // verus!
