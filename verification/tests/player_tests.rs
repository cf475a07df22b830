use uno_engine::card::{Card, Colour, Value};
use uno_engine::player::{Error, Player};

#[test]
fn test_play_card_ok() {
    let mut player = Player::new();
    player.take_card(Card { colour: Colour::Red, value: Value::Number(1) });
    let result = player.play_card(0);
    assert!(result.is_ok());
    assert!(player.is_hand_empty());
}

#[test]
fn test_play_card_fail() {
    let mut player = Player::new();
    let result = player.play_card(1);
    assert_eq!(result, Err(Error::IndexOutOfBounds));
}

#[test]
fn test_take_card() {
    let mut player = Player::new();
    let card = Card { colour: Colour::Red, value: Value::Number(1) };
    player.take_card(card);
    assert_eq!(player.get_hand(), &vec![card]);
}

#[test]
fn test_is_hand_empty_true() {
    let player = Player::new();
    assert!(player.is_hand_empty());
}

#[test]
fn test_is_hand_empty_false() {
    let mut player = Player::new();
    player.take_card(Card { colour: Colour::Red, value: Value::Number(1) });
    assert!(!player.is_hand_empty());
}

#[test]
fn test_get_number_of_cards() {
    let mut player = Player::new();
    assert_eq!(player.get_number_of_cards(), 0);
    player.take_card(Card { colour: Colour::Red, value: Value::Number(1) });
    assert_eq!(player.get_number_of_cards(), 1);
}

#[test]
fn test_get_hand_ok() {
    let card = Card { colour: Colour::Red, value: Value::Number(1) };
    let mut player = Player::new();
    player.take_card(card);
    assert_eq!(player.get_hand(), &vec![card]);
}

#[test]
fn test_get_card_ok() {
    let card = Card { colour: Colour::Red, value: Value::Number(1) };
    let mut player = Player::new();
    player.take_card(card);
    let result = player.get_card(0);
    assert_eq!(result, Ok(&card));
}

#[test]
fn test_get_card_index_out_of_bounds() {
    let player = Player::new();
    let result = player.get_card(0);
    assert_eq!(result, Err(Error::IndexOutOfBounds));
}

#[test]
fn test_print_hand() {
    let card = Card { colour: Colour::Red, value: Value::Number(1) };
    let mut player = Player::new();
    player.take_card(card);
    player.take_card(card);
    player.take_card(card);
    let expected = format!("00: {card}\n01: {card}\n02: {card}", card = card.to_text());
    assert_eq!(player.hand_to_string(), expected);
}

#[test]
fn test_card_to_text() {
    assert_eq!(
        Card { colour: Colour::Red, value: Value::Number(5) }.to_text(),
        "Red 5"
    );
    assert_eq!(Card { colour: Colour::Blue, value: Value::Skip }.to_text(), "Blue Skip");
    assert_eq!(
        Card { colour: Colour::Green, value: Value::DrawTwo }.to_text(),
        "Green Draw Two"
    );
    assert_eq!(
        Card { colour: Colour::Yellow, value: Value::Reverse }.to_text(),
        "Yellow Reverse"
    );
    assert_eq!(
        Card { colour: Colour::Wild, value: Value::Wild }.to_text(),
        "Wild Select Color"
    );
    assert_eq!(
        Card { colour: Colour::Wild, value: Value::WildDraw(4) }.to_text(),
        "Wild Draw +4"
    );
}

#[test]
fn test_hand_to_string_two_digit_index() {
    let card = Card { colour: Colour::Blue, value: Value::Number(0) };
    let mut player = Player::new();
    let mut i = 0;
    while i < 11 {
        player.take_card(card);
        i += 1;
    }
    let text = player.hand_to_string();
    assert!(text.contains("10: Blue 0"));
    assert!(text.starts_with("00: Blue 0"));
}
