//! Component data: gadget archetypes and the small value types.

use boingle::cards::{ShopCard, ShopCardType};
use boingle::gadgets::{
    ActivationTime, Coin, CoinBumperGadget, Gadget, GadgetType, GravityReverseField,
    RemainingRounds,
};

#[test]
fn gadget_ledger_starts_full() {
    let g = Gadget::new(5);
    assert_eq!(g.activations_per_round, 5);
    assert_eq!(g.activations_left, 5);
    assert!(!g.is_deactivated());
    let spent = Gadget { activations_left: 0, activations_per_round: 5 };
    assert!(spent.is_deactivated());
}

#[test]
fn spawn_widget_archetypes_match_the_catalog() {
    let square = GadgetType::SquareBlockType.spawn_widget();
    assert_eq!(square.gadget.unwrap().activations_per_round, 5);
    assert_eq!(square.points_on_hit.unwrap().amount, 1);
    assert!(square.coin_bumper.is_none());

    let wide = GadgetType::WideBlockType.spawn_widget();
    assert_eq!(wide.gadget.unwrap().activations_per_round, 5);
    assert_eq!(wide.points_on_hit.unwrap().amount, 1);

    let bumper = GadgetType::BumperType.spawn_widget();
    assert_eq!(bumper.gadget.unwrap().activations_per_round, 3);
    assert_eq!(bumper.points_on_hit.unwrap().amount, 3);

    let coin_bumper = GadgetType::CoinBumperType.spawn_widget();
    assert_eq!(coin_bumper.gadget.unwrap().activations_per_round, 1);
    assert_eq!(coin_bumper.coin_bumper.unwrap().coins_to_spawn, 3);
    assert!(coin_bumper.points_on_hit.is_none());

    let cannon = GadgetType::BallCannonType.spawn_widget();
    assert!(cannon.gadget.is_none());

    let field = GadgetType::GravityReverseType.spawn_widget();
    assert!(field.gadget.is_none() && field.points_on_hit.is_none());
}

#[test]
fn small_value_types_hold_their_data() {
    assert_eq!(Coin::new(1).value, 1);
    assert_eq!(CoinBumperGadget::default().coins_to_spawn, 3);
    assert_eq!(GravityReverseField::new().time_since_last_emission_millis, 0);
    assert_eq!(ActivationTime::new(5000).millis, 5000);
    assert_eq!(RemainingRounds(3).0, 3);
    assert_eq!(ShopCard::new(ShopCardType::BumperCard).card_type, ShopCardType::BumperCard);
}
