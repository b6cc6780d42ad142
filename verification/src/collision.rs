//! The collision event router and the gadget activation ledger.
//!
//! The physics collaborator delivers discrete collision-start and
//! collision-end events. The router maps them onto gadget activation,
//! scoring, coin placement requests and gravity-field effects. Only balls
//! trigger gadget effects; a deactivated gadget ignores further hits until
//! the round boundary reactivates it.

use vstd::prelude::*;

use crate::gadgets::{CoinBumperGadget, Gadget, GadgetType, PlacedGadget, PointsOnHit};
use crate::player::Player;

verus! {

/// A ball's gravity response: reversed while inside a gravity-reverse field.
#[derive(Clone, Copy, Debug, PartialEq, Eq, Structural)]
pub enum BallGravity {
    Normal,
    Reversed,
}

/// What one collision-start event asks the surrounding world to do.
#[derive(Clone, Copy, Debug, PartialEq, Eq, Structural)]
pub struct CollisionEffects {
    /// Points awarded, to be shown as a floating score; `None` if none.
    pub points_scored: Option<u64>,
    /// How many coins to place on the field.
    pub coins_requested: u64,
    /// Whether the ball's gravity must flip to reversed.
    pub reverse_gravity: bool,
}

impl CollisionEffects {
    /// The event asked for nothing: the collision was ignored.
    pub open spec fn is_noop(self) -> bool {
        self.points_scored is None && self.coins_requested == 0 && !self.reverse_gravity
    }
}

/// A ball struck a scoring gadget. If the collider is no ball or the gadget
/// is out of activations, nothing happens; otherwise one activation is
/// consumed and the points are awarded to the player, both in the total and
/// in this round's tally. Returns the points awarded, for display.
pub fn on_hit_gain_points(
    gadget: &mut Gadget,
    points_on_hit: &PointsOnHit,
    player: &mut Player,
    collider_is_ball: bool,
) -> (scored: Option<u64>)
    requires
        old(player).points + points_on_hit.amount <= u64::MAX,
        old(player).points_this_round + points_on_hit.amount <= u64::MAX,
    ensures
        final(gadget).activations_per_round == old(gadget).activations_per_round,
        final(gadget).activations_left <= old(gadget).activations_left,
        old(gadget).wf() ==> final(gadget).wf(),
        final(player).current_hand@ == old(player).current_hand@,
        final(player).widget_deck@ == old(player).widget_deck@,
        final(player).discard_pile@ == old(player).discard_pile@,
        final(player).starter() == old(player).starter(),
        !collider_is_ball || old(gadget).is_deactivated_spec() ==> {
            &&& *final(gadget) == *old(gadget)
            &&& *final(player) == *old(player)
            &&& scored is None
        },
        collider_is_ball && !old(gadget).is_deactivated_spec() ==> {
            &&& final(gadget).activations_left == old(gadget).activations_left - 1
            &&& final(player).points == old(player).points + points_on_hit.amount
            &&& final(player).points_this_round == old(player).points_this_round
                + points_on_hit.amount
            &&& final(player).points_last_round == old(player).points_last_round
            &&& final(player).coins == old(player).coins
            &&& final(player).balls_left == old(player).balls_left
            &&& final(player).balls_per_level == old(player).balls_per_level
            &&& final(player).current_level == old(player).current_level
            &&& final(player).point_for_next_level == old(player).point_for_next_level
            &&& final(player).current_widget == old(player).current_widget
            &&& scored == Some(points_on_hit.amount)
        },
{
    if !collider_is_ball {
        return None;
    }
    if gadget.activations_left > 0 {
        gadget.activations_left = gadget.activations_left - 1;
        player.points = player.points + points_on_hit.amount;
        player.points_this_round = player.points_this_round + points_on_hit.amount;
        Some(points_on_hit.amount)
    } else {
        None
    }
}

/// A ball struck a coin bumper. A deactivated bumper (or a collider that is
/// no ball) is silently ignored; otherwise one activation is consumed and
/// the bumper's coins are requested to be placed on the field.
pub fn on_coins_spawn_from_bumper(
    gadget: &mut Gadget,
    coin_bumper: &CoinBumperGadget,
    collider_is_ball: bool,
) -> (coins_requested: u64)
    ensures
        final(gadget).activations_per_round == old(gadget).activations_per_round,
        final(gadget).activations_left <= old(gadget).activations_left,
        old(gadget).wf() ==> final(gadget).wf(),
        !collider_is_ball || old(gadget).is_deactivated_spec() ==> *final(gadget) == *old(gadget)
            && coins_requested == 0,
        collider_is_ball && !old(gadget).is_deactivated_spec() ==> {
            &&& final(gadget).activations_left == old(gadget).activations_left - 1
            &&& coins_requested == coin_bumper.coins_to_spawn
        },
{
    if !collider_is_ball {
        return 0;
    }
    if gadget.activations_left > 0 {
        gadget.activations_left = gadget.activations_left - 1;
        coin_bumper.coins_to_spawn
    } else {
        0
    }
}

/// A ball touched a coin: the coin is collected and credited.
pub fn on_coin_collected(player: &mut Player)
    requires
        old(player).coins < u64::MAX,
    ensures
        final(player).coins == old(player).coins + 1,
        final(player).points == old(player).points,
        final(player).points_this_round == old(player).points_this_round,
        final(player).points_last_round == old(player).points_last_round,
        final(player).balls_left == old(player).balls_left,
        final(player).balls_per_level == old(player).balls_per_level,
        final(player).current_level == old(player).current_level,
        final(player).point_for_next_level == old(player).point_for_next_level,
        final(player).current_widget == old(player).current_widget,
        Player::same_piles(*final(player), *old(player)),
        final(player).starter() == old(player).starter(),
{
    player.coins = player.coins + 1;
}

/// A ball entered a gravity-reverse field: its gravity flips. The field is
/// a sensor; it consumes no activations.
pub fn on_entering_reverse_gravity_field(gravity: &mut BallGravity)
    ensures
        *final(gravity) == BallGravity::Reversed,
{
    *gravity = BallGravity::Reversed;
}

/// A ball left a gravity-reverse field: its gravity reverts to normal.
pub fn on_exiting_reverse_gravity_field(gravity: &mut BallGravity)
    ensures
        *final(gravity) == BallGravity::Normal,
{
    *gravity = BallGravity::Normal;
}

/// Routes one collision-start event to the placed gadget's effect,
/// switching on its archetype. Exactly one effect fires per discrete event;
/// a deactivated gadget, or a collider that is no ball, produces none.
pub fn on_collision_start(
    placed: &mut PlacedGadget,
    player: &mut Player,
    collider_is_ball: bool,
) -> (effects: CollisionEffects)
    requires
        old(placed).wf(),
        old(placed).points_on_hit is Some ==> old(player).points + old(
            placed,
        ).points_on_hit->Some_0.amount <= u64::MAX && old(player).points_this_round + old(
            placed,
        ).points_on_hit->Some_0.amount <= u64::MAX,
    ensures
        final(placed).wf(),
        final(placed).kind == old(placed).kind,
        final(placed).points_on_hit == old(placed).points_on_hit,
        final(placed).coin_bumper == old(placed).coin_bumper,
        final(placed).gadget is Some <==> old(placed).gadget is Some,
        final(placed).gadget is Some ==> {
            &&& final(placed).gadget->Some_0.activations_per_round == old(
                placed,
            ).gadget->Some_0.activations_per_round
            &&& final(placed).gadget->Some_0.activations_left <= old(
                placed,
            ).gadget->Some_0.activations_left
        },
        final(player).current_hand@ == old(player).current_hand@,
        final(player).widget_deck@ == old(player).widget_deck@,
        final(player).discard_pile@ == old(player).discard_pile@,
        final(player).starter() == old(player).starter(),
        final(player).coins == old(player).coins,
        final(player).balls_left == old(player).balls_left,
        final(player).current_level == old(player).current_level,
        !collider_is_ball ==> *final(placed) == *old(placed) && *final(player) == *old(player)
            && effects.is_noop(),
        old(placed).gadget is Some && old(placed).gadget->Some_0.is_deactivated_spec() ==> {
            &&& *final(placed) == *old(placed)
            &&& *final(player) == *old(player)
            &&& effects.points_scored is None
            &&& effects.coins_requested == 0
        },
        collider_is_ball && old(placed).is_scoring_kind() && !old(
            placed,
        ).gadget->Some_0.is_deactivated_spec() ==> {
            &&& final(placed).gadget->Some_0.activations_left == old(
                placed,
            ).gadget->Some_0.activations_left - 1
            &&& final(player).points == old(player).points + old(
                placed,
            ).points_on_hit->Some_0.amount
            &&& final(player).points_this_round == old(player).points_this_round + old(
                placed,
            ).points_on_hit->Some_0.amount
            &&& effects.points_scored == Some(old(placed).points_on_hit->Some_0.amount)
            &&& effects.coins_requested == 0
        },
        collider_is_ball && old(placed).kind == GadgetType::CoinBumperType && !old(
            placed,
        ).gadget->Some_0.is_deactivated_spec() ==> {
            &&& final(placed).gadget->Some_0.activations_left == old(
                placed,
            ).gadget->Some_0.activations_left - 1
            &&& effects.coins_requested == old(placed).coin_bumper->Some_0.coins_to_spawn
        },
        effects.reverse_gravity <==> collider_is_ball && old(placed).kind
            == GadgetType::GravityReverseType,
        !old(placed).is_scoring_kind() ==> final(player).points == old(player).points
            && final(player).points_this_round == old(player).points_this_round,
{
    let mut effects = CollisionEffects { points_scored: None, coins_requested: 0, reverse_gravity: false };
    if !collider_is_ball {
        return effects;
    }
    match placed.kind {
        GadgetType::SquareBlockType | GadgetType::WideBlockType | GadgetType::BumperType => {
            let points = placed.points_on_hit.unwrap();
            let mut ledger = placed.gadget.unwrap();
            effects.points_scored = on_hit_gain_points(&mut ledger, &points, player, true);
            placed.gadget = Some(ledger);
        },
        GadgetType::CoinBumperType => {
            let bumper = placed.coin_bumper.unwrap();
            let mut ledger = placed.gadget.unwrap();
            effects.coins_requested = on_coins_spawn_from_bumper(&mut ledger, &bumper, true);
            placed.gadget = Some(ledger);
        },
        GadgetType::GravityReverseType => {
            effects.reverse_gravity = true;
        },
        GadgetType::BallCannonType => {},
    }
    effects
}

/// A round boundary (leaving widget selection) reactivates every placed
/// gadget: each ledger is refilled to its per-round allowance and the
/// deactivated state is cleared.
pub fn reactivate_gadgets(gadgets: &mut Vec<PlacedGadget>)
    ensures
        final(gadgets)@.len() == old(gadgets)@.len(),
        forall|i: int|
            0 <= i < old(gadgets)@.len() ==> {
                &&& final(gadgets)@[i].kind == old(gadgets)@[i].kind
                &&& final(gadgets)@[i].points_on_hit == old(gadgets)@[i].points_on_hit
                &&& final(gadgets)@[i].coin_bumper == old(gadgets)@[i].coin_bumper
                &&& (final(gadgets)@[i].gadget is Some <==> old(gadgets)@[i].gadget is Some)
                &&& old(gadgets)@[i].gadget is Some ==> final(gadgets)@[i].gadget
                    == Some(
                    Gadget {
                        activations_left: old(gadgets)@[i].gadget->Some_0.activations_per_round,
                        activations_per_round: old(
                            gadgets,
                        )@[i].gadget->Some_0.activations_per_round,
                    },
                )
                &&& (old(gadgets)@[i].wf() ==> final(gadgets)@[i].wf())
            },
{
    let n = gadgets.len();
    let mut i: usize = 0;
    while i < n
        invariant
            i <= n == gadgets@.len() == old(gadgets)@.len(),
            forall|j: int| i <= j < n ==> gadgets@[j] == old(gadgets)@[j],
            forall|j: int|
                0 <= j < i ==> {
                    &&& gadgets@[j].kind == old(gadgets)@[j].kind
                    &&& gadgets@[j].points_on_hit == old(gadgets)@[j].points_on_hit
                    &&& gadgets@[j].coin_bumper == old(gadgets)@[j].coin_bumper
                    &&& (gadgets@[j].gadget is Some <==> old(gadgets)@[j].gadget is Some)
                    &&& old(gadgets)@[j].gadget is Some ==> gadgets@[j].gadget
                        == Some(
                        Gadget {
                            activations_left: old(gadgets)@[j].gadget->Some_0.activations_per_round,
                            activations_per_round: old(
                                gadgets,
                            )@[j].gadget->Some_0.activations_per_round,
                        },
                    )
                    &&& (old(gadgets)@[j].wf() ==> gadgets@[j].wf())
                },
        decreases n - i,
    {
        let current = gadgets[i];
        if let Some(ledger) = current.gadget {
            let refreshed = PlacedGadget {
                gadget: Some(Gadget::new(ledger.activations_per_round)),
                ..current
            };
            gadgets.set(i, refreshed);
        }
        i = i + 1;
    }
}

} // verus!
