use uno_engine::card::{Card, Colour, Value};
use uno_engine::deck::{Deck, DeckTrait, Error};

fn empty_deck() -> Deck {
    Deck::from_piles(Vec::new(), Vec::new())
}

#[test]
fn test_draw_card_success() {
    let card = Card { colour: Colour::Red, value: Value::Number(5) };
    let mut deck = Deck::from_piles(vec![card], Vec::new());
    let result = deck.draw();
    assert_eq!(result, Ok(card));
}

#[test]
fn test_draw_card_empty_draw_pile() {
    let mut deck = empty_deck();
    assert_eq!(deck.draw().unwrap_err(), Error::DrawPileIsEmpty);
}

#[test]
fn test_discard_card() {
    let mut deck = empty_deck();
    let card = Card { colour: Colour::Blue, value: Value::Skip };
    deck.discard(card);
    assert_eq!(deck.get_top_card().unwrap(), &card);
}

#[test]
fn test_refill_draw_pile_success() {
    let mut deck = empty_deck();
    let card1 = Card { colour: Colour::Green, value: Value::Reverse };
    let card2 = Card { colour: Colour::Green, value: Value::Reverse };
    deck.discard(card1);
    deck.discard(card2);
    deck.refill_draw_pile().unwrap();
    assert_eq!(deck.number_of_cards_in_draw_pile(), 1);
    assert_eq!(deck.number_of_cards_in_discard_pile(), 1);
    assert_eq!(deck.get_top_card().unwrap(), &card2);
}

#[test]
fn test_refill_draw_pile_single_card() {
    let mut deck = empty_deck();
    let card = Card { colour: Colour::Green, value: Value::Reverse };
    deck.discard(card);
    deck.refill_draw_pile().unwrap();
    assert_eq!(deck.number_of_cards_in_draw_pile(), 0);
    assert_eq!(deck.number_of_cards_in_discard_pile(), 1);
    assert_eq!(deck.get_top_card().unwrap(), &card);
}

#[test]
fn test_refill_draw_pile_empty_discard_pile() {
    let mut deck = empty_deck();
    assert_eq!(deck.refill_draw_pile().unwrap_err(), Error::DiscardPileIsEmpty);
}

#[test]
fn test_get_top_card_success() {
    let mut deck = empty_deck();
    let card = Card { colour: Colour::Yellow, value: Value::DrawTwo };
    deck.discard(card);
    let top_card = deck.get_top_card().unwrap();
    assert_eq!(top_card, &card);
}

#[test]
fn test_get_top_card_empty_discard_pile() {
    let deck = empty_deck();
    assert_eq!(deck.get_top_card().unwrap_err(), Error::DiscardPileIsEmpty);
}

#[test]
fn test_number_of_cards_in_draw_pile() {
    let deck = empty_deck();
    assert_eq!(deck.number_of_cards_in_draw_pile(), 0);
    let deck = Deck::from_piles(
        vec![Card { colour: Colour::Red, value: Value::Number(3) }],
        Vec::new(),
    );
    assert_eq!(deck.number_of_cards_in_draw_pile(), 1);
}

#[test]
fn test_change_colour_of_top_card_in_discard() {
    let mut deck = empty_deck();
    let card = Card { colour: Colour::Wild, value: Value::Wild };
    deck.discard(card);
    deck.change_colour_of_top_card_in_discard(&Colour::Blue);
    assert_eq!(deck.get_top_card().unwrap().colour, Colour::Blue);
}

#[test]
fn test_new_deck_default() {
    let deck = Deck::new(None);
    assert!(deck.number_of_cards_in_draw_pile() > 0);
    assert_eq!(deck.number_of_cards_in_discard_pile(), 1);
}

#[test]
fn test_new_deck_custom() {
    let card_set = [
        Card { colour: Colour::Red, value: Value::Number(1) },
        Card { colour: Colour::Blue, value: Value::Number(2) },
    ];
    let deck = Deck::new(Some(card_set.to_vec()));
    assert_eq!(deck.number_of_cards_in_draw_pile(), card_set.len() - 1);
    assert_eq!(deck.number_of_cards_in_discard_pile(), 1);
}

#[test]
fn test_shuffle_deck() {
    let card1 = Card { colour: Colour::Red, value: Value::Number(1) };
    let card2 = Card { colour: Colour::Blue, value: Value::Number(2) };
    let mut deck = Deck::from_piles(vec![card1, card2], Vec::new());
    deck.shuffle();
    let first = deck.draw().unwrap();
    let second = deck.draw().unwrap();
    assert!(
        (first == card1 && second == card2) || (first == card2 && second == card1),
        "shuffling must keep exactly the same cards"
    );
}

#[test]
fn test_rever_wild_cards_in_discard_pile() {
    let mut deck = empty_deck();
    let card = Card { colour: Colour::Blue, value: Value::Wild };
    deck.discard(card);
    deck.revert_wild_cards_in_discard_pile();
    assert_eq!(
        *deck.get_top_card().unwrap(),
        Card { colour: Colour::Wild, value: Value::Wild }
    );
}

#[test]
fn test_discard_from_draw_pile_success() {
    let card = Card { colour: Colour::Red, value: Value::Number(5) };
    let mut deck = Deck::from_piles(vec![card], Vec::new());
    deck.discard_from_draw_pile().unwrap();
    assert_eq!(deck.get_top_card().unwrap(), &card);
}

#[test]
fn test_discard_from_draw_pile_empty_draw_pile() {
    let mut deck = empty_deck();
    assert_eq!(deck.discard_from_draw_pile().unwrap_err(), Error::DrawPileIsEmpty);
}
