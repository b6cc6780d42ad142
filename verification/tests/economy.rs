//! Economy: level thresholds, prices, catalog, shop offers.

use boingle::cards::ShopCardType;
use boingle::gadgets::GadgetType;
use boingle::player::Player;
use boingle::randomness::rng_from_seed;
use boingle::resources::GameResources;

#[test]
fn points_threshold_exact_values() {
    // round(5 * 2.2^level), half-up.
    assert_eq!(Player::points_for_level(0), 5);
    assert_eq!(Player::points_for_level(1), 11);
    assert_eq!(Player::points_for_level(2), 24);
    assert_eq!(Player::points_for_level(3), 53);
    assert_eq!(Player::points_for_level(4), 117);
    assert_eq!(Player::points_for_level(5), 258);
}

#[test]
fn points_threshold_strictly_increases() {
    for level in 0..17 {
        assert!(Player::points_for_level(level + 1) > Player::points_for_level(level));
    }
}

#[test]
fn prices_match_the_catalog() {
    let mut resources = GameResources::new();
    resources.setup();
    assert_eq!(resources.get_price_per_card(&ShopCardType::OneMoreBallCard), 3);
    assert_eq!(resources.get_price_per_card(&ShopCardType::MoreBallsCard), 0);
    assert_eq!(resources.get_price_per_card(&ShopCardType::SquareBlockCard), 1);
    assert_eq!(resources.get_price_per_card(&ShopCardType::WideBlockCard), 1);
    assert_eq!(resources.get_price_per_card(&ShopCardType::BumperCard), 2);
    assert_eq!(resources.get_price_per_card(&ShopCardType::CoinBumperCard), 5);
    assert_eq!(resources.get_price_per_card(&ShopCardType::HighFrictionBlockCard), 4);
    assert_eq!(resources.get_price_per_card(&ShopCardType::MagnetCard), 9);
    assert_eq!(resources.get_price_per_card(&ShopCardType::ReactivateLaserBridgeCard), 25);
    assert_eq!(resources.get_price_per_card(&ShopCardType::GravityReverserCard), 12);
    assert_eq!(resources.get_price_per_card(&ShopCardType::MultiBallCard), 35);
    assert_eq!(resources.get_price_per_card(&ShopCardType::RecycleGadgetCard), 15);
    assert_eq!(resources.get_price_per_card(&ShopCardType::RearrangeGadgetCard), 8);
}

#[test]
fn can_afford_gates_on_price() {
    let mut resources = GameResources::new();
    resources.setup();
    assert!(!resources.can_afford(2, &ShopCardType::CoinBumperCard));
    assert!(resources.can_afford(5, &ShopCardType::CoinBumperCard));
    assert!(resources.can_afford(0, &ShopCardType::MoreBallsCard));
}

#[test]
fn setup_fills_the_standard_catalog() {
    let mut resources = GameResources::new();
    resources.setup();
    assert_eq!(resources.balls_per_level, 3);
    assert_eq!(resources.gadgets.len(), 5);
    assert_eq!(resources.gadgets[0].0, ShopCardType::SquareBlockCard);
    assert_eq!(resources.gadgets[0].1.activations_per_round, 5);
    assert_eq!(resources.gadgets[2].0, ShopCardType::BumperCard);
    assert_eq!(resources.gadgets[2].1.activations_per_round, 3);
    assert_eq!(resources.gadget_points.len(), 3);
    assert_eq!(resources.gadget_points[2].1.amount, 3);
    assert_eq!(resources.activation_time.len(), 1);
    assert_eq!(resources.activation_time[0].1.millis, 5000);
    assert_eq!(resources.shop_items_per_level.len(), 3);
    assert_eq!(resources.shop_items_per_level[0].len(), 3);
    assert_eq!(resources.shop_items_per_level[1].len(), 4);
    assert_eq!(resources.shop_items_per_level[2].len(), 4);
}

#[test]
fn card_titles_and_descriptions() {
    let resources = GameResources::new();
    assert_eq!(resources.card_title(&ShopCardType::WideBlockCard), "Wide Block");
    assert_eq!(resources.card_title(&ShopCardType::OneMoreBallCard), "+1 Ball");
    assert_eq!(resources.card_title(&ShopCardType::MoreBallsCard), "+3 Ball");
    assert_eq!(resources.card_description(&ShopCardType::BumperCard), "3x3 Points");
    assert_eq!(resources.card_description(&ShopCardType::CoinBumperCard), "Spawn Coins");
    assert_eq!(
        resources.card_description(&ShopCardType::MagnetCard),
        "Attracts coins for 5.0s"
    );
}

#[test]
fn shop_offer_has_free_balls_plus_three_from_the_pool() {
    let mut resources = GameResources::new();
    resources.setup();
    let mut rng = rng_from_seed(1);
    let offer = resources.get_shop_cards_for_level(0, &mut rng);
    assert_eq!(offer.len(), 4);
    assert_eq!(offer[0], ShopCardType::MoreBallsCard);
    // The level-0 pool has exactly three cards, so sampling three without
    // replacement must return all of them, in some order.
    let pool = [
        ShopCardType::OneMoreBallCard,
        ShopCardType::BumperCard,
        ShopCardType::CoinBumperCard,
    ];
    for card in pool.iter() {
        assert!(offer[1..].contains(card));
    }
}

#[test]
fn shop_offer_clamps_the_level_to_the_last_pool() {
    let mut resources = GameResources::new();
    resources.setup();
    let mut rng = rng_from_seed(2);
    let offer = resources.get_shop_cards_for_level(99, &mut rng);
    assert_eq!(offer.len(), 4);
    assert_eq!(offer[0], ShopCardType::MoreBallsCard);
    let last_pool = [
        ShopCardType::OneMoreBallCard,
        ShopCardType::BumperCard,
        ShopCardType::CoinBumperCard,
        ShopCardType::WideBlockCard,
    ];
    for card in offer[1..].iter() {
        assert!(last_pool.contains(card));
    }
    // Sampling without replacement from four distinct cards gives three
    // distinct cards.
    assert!(offer[1] != offer[2] && offer[2] != offer[3] && offer[1] != offer[3]);
}

#[test]
fn gadget_cards_map_to_their_archetypes() {
    assert_eq!(
        ShopCardType::SquareBlockCard.get_gadget_type(),
        Some(GadgetType::SquareBlockType)
    );
    assert_eq!(
        ShopCardType::WideBlockCard.get_gadget_type(),
        Some(GadgetType::WideBlockType)
    );
    assert_eq!(ShopCardType::BumperCard.get_gadget_type(), Some(GadgetType::BumperType));
    assert_eq!(
        ShopCardType::CoinBumperCard.get_gadget_type(),
        Some(GadgetType::CoinBumperType)
    );
    assert_eq!(ShopCardType::OneMoreBallCard.get_gadget_type(), None);
    assert_eq!(ShopCardType::GravityReverserCard.get_gadget_type(), None);
}
