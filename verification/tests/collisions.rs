//! The collision router and the gadget activation lifecycle.

use boingle::collision::{
    on_coin_collected, on_coins_spawn_from_bumper, on_collision_start,
    on_entering_reverse_gravity_field, on_exiting_reverse_gravity_field, on_hit_gain_points,
    reactivate_gadgets, BallGravity,
};
use boingle::gadgets::{Gadget, GadgetType, PointsOnHit};
use boingle::player::Player;
use boingle::randomness::rng_from_seed;

#[test]
fn bumper_exhausts_after_three_hits_and_fourth_is_a_noop() {
    let mut rng = rng_from_seed(4);
    let mut player = Player::new(3, &mut rng);
    let mut bumper = GadgetType::BumperType.spawn_widget();
    assert_eq!(bumper.gadget.unwrap().activations_per_round, 3);
    assert_eq!(bumper.gadget.unwrap().activations_left, 3);

    for hit in 1..=3u64 {
        let effects = on_collision_start(&mut bumper, &mut player, true);
        assert_eq!(effects.points_scored, Some(3));
        assert_eq!(bumper.gadget.unwrap().activations_left, 3 - hit);
        assert_eq!(player.points, 3 * hit);
        assert_eq!(player.points_this_round, 3 * hit);
    }
    assert!(bumper.gadget.unwrap().is_deactivated());

    // A fourth collision is silently ignored: no points, no decrement.
    let effects = on_collision_start(&mut bumper, &mut player, true);
    assert_eq!(effects.points_scored, None);
    assert_eq!(effects.coins_requested, 0);
    assert_eq!(bumper.gadget.unwrap().activations_left, 0);
    assert_eq!(player.points, 9);
}

#[test]
fn only_balls_trigger_gadget_effects() {
    let mut rng = rng_from_seed(8);
    let mut player = Player::new(3, &mut rng);
    let mut block = GadgetType::SquareBlockType.spawn_widget();
    let effects = on_collision_start(&mut block, &mut player, false);
    assert_eq!(effects.points_scored, None);
    assert_eq!(effects.coins_requested, 0);
    assert!(!effects.reverse_gravity);
    assert_eq!(block.gadget.unwrap().activations_left, 5);
    assert_eq!(player.points, 0);
}

#[test]
fn coin_bumper_requests_coins_once_per_round() {
    let mut rng = rng_from_seed(15);
    let mut player = Player::new(3, &mut rng);
    let mut bumper = GadgetType::CoinBumperType.spawn_widget();
    let effects = on_collision_start(&mut bumper, &mut player, true);
    assert_eq!(effects.coins_requested, 3);
    assert_eq!(effects.points_scored, None);
    assert_eq!(bumper.gadget.unwrap().activations_left, 0);

    // The single activation is spent; the next hit asks for nothing.
    let effects = on_collision_start(&mut bumper, &mut player, true);
    assert_eq!(effects.coins_requested, 0);
    assert_eq!(bumper.gadget.unwrap().activations_left, 0);
}

#[test]
fn gain_points_clamps_at_zero_activations() {
    let mut rng = rng_from_seed(16);
    let mut player = Player::new(3, &mut rng);
    let mut ledger = Gadget::new(1);
    let points = PointsOnHit::new(7);
    assert_eq!(on_hit_gain_points(&mut ledger, &points, &mut player, true), Some(7));
    assert_eq!(ledger.activations_left, 0);
    assert_eq!(on_hit_gain_points(&mut ledger, &points, &mut player, true), None);
    assert_eq!(ledger.activations_left, 0);
    assert_eq!(player.points, 7);
}

#[test]
fn coin_bumper_helper_honours_the_ball_marker() {
    let mut ledger = Gadget::new(1);
    let bumper = boingle::gadgets::CoinBumperGadget::default();
    assert_eq!(on_coins_spawn_from_bumper(&mut ledger, &bumper, false), 0);
    assert_eq!(ledger.activations_left, 1);
    assert_eq!(on_coins_spawn_from_bumper(&mut ledger, &bumper, true), 3);
    assert_eq!(ledger.activations_left, 0);
}

#[test]
fn collected_coins_are_credited() {
    let mut rng = rng_from_seed(21);
    let mut player = Player::new(3, &mut rng);
    on_coin_collected(&mut player);
    on_coin_collected(&mut player);
    assert_eq!(player.coins, 2);
    assert_eq!(player.points, 0);
}

#[test]
fn gravity_field_flips_and_reverts() {
    let mut gravity = BallGravity::Normal;
    on_entering_reverse_gravity_field(&mut gravity);
    assert_eq!(gravity, BallGravity::Reversed);
    on_exiting_reverse_gravity_field(&mut gravity);
    assert_eq!(gravity, BallGravity::Normal);
}

#[test]
fn gravity_field_consumes_no_activations() {
    let mut rng = rng_from_seed(33);
    let mut player = Player::new(3, &mut rng);
    let mut field = GadgetType::GravityReverseType.spawn_widget();
    let effects = on_collision_start(&mut field, &mut player, true);
    assert!(effects.reverse_gravity);
    assert_eq!(effects.points_scored, None);
    assert_eq!(effects.coins_requested, 0);
    assert!(field.gadget.is_none());
}

#[test]
fn round_boundary_reactivates_every_gadget() {
    let mut rng = rng_from_seed(42);
    let mut player = Player::new(3, &mut rng);
    let mut gadgets = vec![
        GadgetType::BumperType.spawn_widget(),
        GadgetType::CoinBumperType.spawn_widget(),
        GadgetType::GravityReverseType.spawn_widget(),
    ];
    on_collision_start(&mut gadgets[0], &mut player, true);
    on_collision_start(&mut gadgets[1], &mut player, true);
    assert_eq!(gadgets[0].gadget.unwrap().activations_left, 2);
    assert_eq!(gadgets[1].gadget.unwrap().activations_left, 0);

    reactivate_gadgets(&mut gadgets);
    assert_eq!(gadgets[0].gadget.unwrap().activations_left, 3);
    assert_eq!(gadgets[1].gadget.unwrap().activations_left, 1);
    assert!(!gadgets[1].gadget.unwrap().is_deactivated());
    assert!(gadgets[2].gadget.is_none());
}
