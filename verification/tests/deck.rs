//! Deck economy: conservation, reshuffle-on-empty, hand management.

use boingle::cards::ShopCardType;
use boingle::player::Player;
use boingle::randomness::rng_from_seed;

fn total_cards(p: &Player) -> usize {
    p.widget_deck.len() + p.discard_pile.len() + p.current_hand.len()
}

fn count_card(cards: &[ShopCardType], card: ShopCardType) -> usize {
    let mut n = 0;
    for c in cards.iter() {
        if *c == card {
            n += 1;
        }
    }
    n
}

#[test]
fn new_player_has_shuffled_starter_deck() {
    let mut rng = rng_from_seed(7);
    let p = Player::new(5, &mut rng);
    assert_eq!(p.widget_deck.len(), 4);
    assert_eq!(p.discard_pile.len(), 0);
    assert_eq!(p.current_hand.len(), 0);
    assert_eq!(count_card(&p.widget_deck, ShopCardType::WideBlockCard), 3);
    assert_eq!(count_card(&p.widget_deck, ShopCardType::GravityReverserCard), 1);
    assert_eq!(p.points, 0);
    assert_eq!(p.coins, 0);
    assert_eq!(p.balls_left, 5);
    assert_eq!(p.balls_per_level, 5);
    assert_eq!(p.current_level, 0);
    assert_eq!(p.point_for_next_level, 5);
}

#[test]
fn card_conservation_across_draws_and_discards() {
    let mut rng = rng_from_seed(11);
    let mut p = Player::new(3, &mut rng);
    assert_eq!(total_cards(&p), 4);

    let c1 = p.next_card(&mut rng);
    p.discard(c1);
    assert_eq!(total_cards(&p), 4);

    p.fill_hand_to(3, &mut rng);
    assert_eq!(total_cards(&p), 4);
    assert_eq!(p.current_hand.len(), 3);

    let in_hand = p.current_hand[0];
    let removed = p.remove_from_hand(in_hand);
    assert_eq!(removed, in_hand);
    p.discard(removed);
    assert_eq!(total_cards(&p), 4);

    p.reshuffle_deck(&mut rng);
    assert_eq!(total_cards(&p), 4);
    assert_eq!(p.discard_pile.len(), 0);
}

#[test]
fn reshuffle_on_empty_draw_pile_never_fails() {
    let mut rng = rng_from_seed(23);
    let mut p = Player::new(3, &mut rng);
    // Spend the whole draw pile onto the discard pile.
    for _ in 0..4 {
        let c = p.next_card(&mut rng);
        p.discard(c);
    }
    assert_eq!(p.widget_deck.len(), 0);
    assert_eq!(p.discard_pile.len(), 4);

    // Drawing now reshuffles the discard pile into the draw pile first.
    let drawn = p.next_card(&mut rng);
    assert_eq!(p.widget_deck.len(), 3);
    assert_eq!(p.discard_pile.len(), 0);

    // The new draw pile plus the drawn card is a permutation of the former
    // discard pile: three wide blocks and one gravity reverser in all.
    let mut all: Vec<ShopCardType> = p.widget_deck.clone();
    all.push(drawn);
    assert_eq!(count_card(&all, ShopCardType::WideBlockCard), 3);
    assert_eq!(count_card(&all, ShopCardType::GravityReverserCard), 1);
}

#[test]
fn shuffle_deck_keeps_the_same_cards() {
    let mut rng = rng_from_seed(99);
    let mut p = Player::new(3, &mut rng);
    p.shuffle_deck(&mut rng);
    assert_eq!(p.widget_deck.len(), 4);
    assert_eq!(count_card(&p.widget_deck, ShopCardType::WideBlockCard), 3);
    assert_eq!(count_card(&p.widget_deck, ShopCardType::GravityReverserCard), 1);
}

#[test]
fn fill_hand_keeps_existing_cards_in_order() {
    let mut rng = rng_from_seed(5);
    let mut p = Player::new(3, &mut rng);
    let first = p.next_card(&mut rng);
    p.current_hand.push(first);
    p.fill_hand_to(3, &mut rng);
    assert_eq!(p.current_hand.len(), 3);
    assert_eq!(p.current_hand[0], first);
    assert_eq!(total_cards(&p), 4);
}

#[test]
fn remove_from_hand_takes_first_match() {
    let mut rng = rng_from_seed(13);
    let mut p = Player::new(3, &mut rng);
    p.current_hand = vec![
        ShopCardType::WideBlockCard,
        ShopCardType::BumperCard,
        ShopCardType::WideBlockCard,
    ];
    let r = p.remove_from_hand(ShopCardType::WideBlockCard);
    assert_eq!(r, ShopCardType::WideBlockCard);
    assert_eq!(
        p.current_hand,
        vec![ShopCardType::BumperCard, ShopCardType::WideBlockCard]
    );
}

#[test]
fn reset_restores_a_fresh_run() {
    let mut rng = rng_from_seed(3);
    let mut p = Player::new(3, &mut rng);
    p.points = 42;
    p.points_this_round = 7;
    p.points_last_round = 9;
    p.coins = 12;
    p.balls_left = 0;
    p.current_level = 2;
    p.point_for_next_level = 24;
    let drawn = p.next_card(&mut rng);
    p.current_hand.push(drawn);

    p.reset(&mut rng);
    assert_eq!(p.points, 0);
    assert_eq!(p.points_this_round, 0);
    assert_eq!(p.points_last_round, 0);
    assert_eq!(p.coins, 0);
    assert_eq!(p.balls_left, 3);
    assert_eq!(p.current_level, 0);
    assert_eq!(p.point_for_next_level, 5);
    assert_eq!(p.current_widget, None);
    assert_eq!(p.widget_deck.len(), 4);
    assert_eq!(p.discard_pile.len(), 0);
    assert_eq!(p.current_hand.len(), 0);
}
