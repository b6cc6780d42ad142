//! The round/level state machine: the orchestrator that observes world
//! conditions (balls in play, balls left, score against the threshold) and
//! drives the phase transitions, which in turn trigger deck draws, economy
//! updates and gadget reactivation.
//!
//! The surrounding world (physics, input, rendering) runs the loop: it
//! reports events as plain values, applies the returned requests (coins to
//! place, widgets to spawn), and the session decides every transition.

use vstd::prelude::*;

use crate::cards::ShopCardType;
use crate::collision::reactivate_gadgets;
use crate::gadgets::PlacedGadget;
use crate::player::{Player, points_threshold_spec, HAND_SIZE, MAX_LEVEL};
use crate::resources::{price_spec, GameResources};
use crate::states::LevelState;

verus! {

/// Coins placed on the field at a level start and after each shop visit.
pub const COINS_PER_PLACEMENT: u64 = 5;

/// Rounds a freshly placed collectible survives.
pub const COLLECTIBLE_ROUNDS: u64 = 3;

/// One round of collectible aging: every counter drops by one and the
/// expired collectibles leave the field, order preserved.
pub open spec fn tick_rounds_spec(s: Seq<u64>) -> Seq<u64>
    decreases s.len(),
{
    if s.len() == 0 {
        Seq::empty()
    } else {
        let rest = tick_rounds_spec(s.drop_last());
        if s.last() > 1 {
            rest.push((s.last() - 1) as u64)
        } else {
            rest
        }
    }
}

/// A running game: the current phase, the player's run state, the committed
/// placed gadgets, the gadget being placed (if any) and the ages of the
/// collectibles on the field.
pub struct GameSession {
    pub phase: LevelState,
    pub player: Player,
    /// Gadgets committed to the field, with their activation ledgers.
    pub gadgets: Vec<PlacedGadget>,
    /// The preview gadget following the cursor, not yet committed.
    pub pending_gadget: Option<PlacedGadget>,
    /// Remaining rounds of each collectible on the field.
    pub collectible_rounds: Vec<u64>,
}

impl GameSession {
    /// The session invariant: the player is well formed, a preview gadget
    /// exists exactly while a widget is being placed, and every gadget's
    /// ledger is within bounds.
    pub open spec fn wf(self) -> bool {
        &&& self.player.wf()
        &&& (self.player.current_widget is Some <==> self.pending_gadget is Some)
        &&& (self.pending_gadget is Some ==> self.pending_gadget->Some_0.wf())
        &&& forall|i: int| 0 <= i < self.gadgets@.len() ==> (#[trigger] self.gadgets@[i]).wf()
    }

    /// Everything but the phase agrees.
    pub open spec fn same_but_phase(a: GameSession, b: GameSession) -> bool {
        &&& a.player == b.player
        &&& a.gadgets == b.gadgets
        &&& a.pending_gadget == b.pending_gadget
        &&& a.collectible_rounds == b.collectible_rounds
    }

    /// A new session: a fresh player, no gadgets, no collectibles, entering
    /// the run at its initial phase.
    pub fn new(balls_per_level: u64, rng: &mut rand::rngs::StdRng) -> (s: GameSession)
        ensures
            s.wf(),
            s.phase == LevelState::LevelStart,
            s.player.balls_per_level == balls_per_level,
            s.player.balls_left == balls_per_level,
            s.player.points == 0 && s.player.coins == 0,
            s.player.current_level == 0,
            s.gadgets@.len() == 0,
            s.pending_gadget is None,
            s.collectible_rounds@.len() == 0,
    {
        GameSession {
            phase: LevelState::LevelStart,
            player: Player::new(balls_per_level, rng),
            gadgets: Vec::new(),
            pending_gadget: None,
            collectible_rounds: Vec::new(),
        }
    }

    /// Entering a level (re)start: leftover collectibles and placed gadgets
    /// despawn, the player's run state resets, and an initial coin
    /// placement is requested. The run then moves on to widget selection.
    pub fn restarting_level(&mut self, rng: &mut rand::rngs::StdRng) -> (coins_requested: u64)
        requires
            old(self).phase == LevelState::LevelStart,
            old(self).player.wf(),
        ensures
            final(self).wf(),
            final(self).phase == LevelState::WidgetSelection,
            final(self).gadgets@.len() == 0,
            final(self).collectible_rounds@.len() == 0,
            final(self).pending_gadget is None,
            final(self).player.points == 0,
            final(self).player.coins == 0,
            final(self).player.balls_left == old(self).player.balls_per_level,
            final(self).player.balls_per_level == old(self).player.balls_per_level,
            final(self).player.current_level == 0,
            final(self).player.point_for_next_level == points_threshold_spec(0),
            final(self).player.current_hand@.len() == 0,
            final(self).player.discard_pile@.len() == 0,
            final(self).player.widget_deck@.to_multiset() == old(
                self,
            ).player.starter().to_multiset(),
            final(self).player.starter() == old(self).player.starter(),
            coins_requested == COINS_PER_PLACEMENT,
    {
        self.gadgets = Vec::new();
        self.collectible_rounds = Vec::new();
        self.pending_gadget = None;
        self.player.reset(rng);
        self.player.current_widget = None;
        self.phase = LevelState::WidgetSelection;
        COINS_PER_PLACEMENT
    }

    /// Entering widget selection: the hand is drawn up to its full size so
    /// the player always chooses among `HAND_SIZE` cards.
    pub fn show_widget_selection(&mut self, rng: &mut rand::rngs::StdRng)
        requires
            old(self).phase == LevelState::WidgetSelection,
            old(self).wf(),
            old(self).player.current_hand@.len() + old(self).player.widget_deck@.len() + old(
                self,
            ).player.discard_pile@.len() >= HAND_SIZE,
        ensures
            final(self).wf(),
            final(self).phase == old(self).phase,
            final(self).player.current_hand@.len() == HAND_SIZE,
            final(self).player.all_cards() == old(self).player.all_cards(),
            final(self).player.starter() == old(self).player.starter(),
            Player::same_counters(final(self).player, old(self).player),
            final(self).gadgets == old(self).gadgets,
            final(self).pending_gadget == old(self).pending_gadget,
            final(self).collectible_rounds == old(self).collectible_rounds,
    {
        self.player.fill_hand_to(HAND_SIZE, rng);
    }

    /// The player picked a gadget card from the hand: the card moves from
    /// the hand to the discard pile, a preview gadget of the card's
    /// archetype starts following the cursor (under the identifier the
    /// caller spawned for it), every placed gadget is reactivated for the
    /// coming round, and placement begins.
    pub fn on_gadget_card_selected(&mut self, card: ShopCardType, widget: u64)
        requires
            old(self).phase == LevelState::WidgetSelection,
            old(self).wf(),
            old(self).player.current_hand@.contains(card),
            old(self).player.current_widget is None,
            card.gadget_type_spec() is Some,
        ensures
            final(self).wf(),
            final(self).phase == LevelState::PlaceWidget,
            final(self).player.current_widget == Some(widget),
            final(self).pending_gadget == Some(
                card.gadget_type_spec()->Some_0.archetype_spec(),
            ),
            final(self).player.current_hand@.len() == old(self).player.current_hand@.len() - 1,
            final(self).player.current_hand@.to_multiset() == old(
                self,
            ).player.current_hand@.to_multiset().remove(card),
            final(self).player.discard_pile@ == old(self).player.discard_pile@.push(card),
            final(self).player.widget_deck@ == old(self).player.widget_deck@,
            final(self).player.all_cards() == old(self).player.all_cards(),
            final(self).player.starter() == old(self).player.starter(),
            final(self).player.points == old(self).player.points,
            final(self).player.coins == old(self).player.coins,
            final(self).player.balls_left == old(self).player.balls_left,
            final(self).gadgets@.len() == old(self).gadgets@.len(),
            forall|i: int|
                0 <= i < old(self).gadgets@.len()
                    ==> (#[trigger] final(self).gadgets@[i]).fully_active(),
            final(self).collectible_rounds == old(self).collectible_rounds,
    {
        let used_card = self.player.remove_from_hand(card);
        self.player.discard(used_card);
        let archetype = card.get_gadget_type().unwrap().spawn_widget();
        self.pending_gadget = Some(archetype);
        self.player.current_widget = Some(widget);
        // Leaving widget selection is the round boundary: every placed
        // gadget gets its activations back.
        reactivate_gadgets(&mut self.gadgets);
        self.phase = LevelState::PlaceWidget;
        proof {
            broadcast use vstd::multiset::group_multiset_axioms;
            broadcast use vstd::multiset::group_multiset_properties;
            broadcast use vstd::seq_lib::group_to_multiset_ensures;

            assert(old(self).player.current_hand@.to_multiset().count(card) > 0);
            assert(old(self).player.all_cards().count(card) > 0);
            assert(self.player.all_cards() =~= old(self).player.all_cards());
        }
    }

    /// One placement tick: the preview follows the cursor; a click while
    /// the preview does not intersect any existing collider commits the
    /// gadget to the field and play moves on to shooting. An obstructed or
    /// unclicked preview leaves everything as it was.
    pub fn widget_placement_system(&mut self, is_intersecting: bool, confirm_click: bool) -> (placed:
        bool)
        requires
            old(self).phase == LevelState::PlaceWidget,
            old(self).wf(),
        ensures
            final(self).wf(),
            placed <==> (!is_intersecting && confirm_click && old(self).pending_gadget is Some),
            !placed ==> *final(self) == *old(self),
            placed ==> {
                &&& final(self).phase == LevelState::ShootBall
                &&& final(self).gadgets@ == old(self).gadgets@.push(
                    old(self).pending_gadget->Some_0,
                )
                &&& final(self).pending_gadget is None
                &&& final(self).player.current_widget is None
                &&& final(self).player.current_hand@ == old(self).player.current_hand@
                &&& final(self).player.widget_deck@ == old(self).player.widget_deck@
                &&& final(self).player.discard_pile@ == old(self).player.discard_pile@
                &&& final(self).player.starter() == old(self).player.starter()
                &&& final(self).player.points == old(self).player.points
                &&& final(self).player.coins == old(self).player.coins
                &&& final(self).player.balls_left == old(self).player.balls_left
                &&& final(self).collectible_rounds == old(self).collectible_rounds
            },
    {
        if self.pending_gadget.is_none() {
            return false;
        }
        if is_intersecting || !confirm_click {
            return false;
        }
        let committed = self.pending_gadget.unwrap();
        self.gadgets.push(committed);
        self.pending_gadget = None;
        self.player.current_widget = None;
        self.phase = LevelState::ShootBall;
        true
    }

    /// The cannon was released. With the session in the shooting phase and
    /// any power accumulated, a ball launches and bouncing begins;
    /// otherwise nothing happens.
    pub fn fire_cannon(&mut self, has_power: bool) -> (fired: bool)
        ensures
            old(self).wf() ==> final(self).wf(),
            fired <==> (old(self).phase == LevelState::ShootBall && has_power),
            fired ==> final(self).phase == LevelState::BallBouncing && GameSession::same_but_phase(
                *final(self),
                *old(self),
            ),
            !fired ==> *final(self) == *old(self),
    {
        if !matches!(self.phase, LevelState::ShootBall) {
            return false;
        }
        if !has_power {
            return false;
        }
        self.phase = LevelState::BallBouncing;
        true
    }

    /// One bouncing-phase tick, after out-of-bounds and standing-still
    /// checks despawned their balls: once no ball is left in play the round
    /// is over; a remaining ball is consumed on the way. The end-of-round
    /// evaluation happens on entry to that phase, uniformly, even when no
    /// balls remain.
    pub fn ball_left_play_area_system(&mut self, balls_in_play: u64)
        requires
            old(self).wf(),
        ensures
            final(self).wf(),
            old(self).phase != LevelState::BallBouncing || balls_in_play > 0 ==> *final(self)
                == *old(self),
            old(self).phase == LevelState::BallBouncing && balls_in_play == 0 ==> {
                &&& final(self).phase == LevelState::EndOfRound
                &&& final(self).player.balls_left == if old(self).player.balls_left > 0 {
                    old(self).player.balls_left - 1
                } else {
                    0
                }
                &&& final(self).player.points == old(self).player.points
                &&& final(self).player.points_this_round == old(self).player.points_this_round
                &&& final(self).player.coins == old(self).player.coins
                &&& final(self).player.current_level == old(self).player.current_level
                &&& final(self).player.point_for_next_level == old(
                    self,
                ).player.point_for_next_level
                &&& Player::same_piles(final(self).player, old(self).player)
                &&& final(self).player.starter() == old(self).player.starter()
                &&& final(self).gadgets == old(self).gadgets
                &&& final(self).pending_gadget == old(self).pending_gadget
                &&& final(self).collectible_rounds == old(self).collectible_rounds
            },
    {
        if !matches!(self.phase, LevelState::BallBouncing) {
            return ;
        }
        if balls_in_play > 0 {
            return ;
        }
        if self.player.balls_left > 0 {
            self.player.balls_left = self.player.balls_left - 1;
        }
        self.phase = LevelState::EndOfRound;
    }

    /// Entering the end of a round: this round's points are archived and
    /// the tally cleared, collectibles age by one round (expired ones
    /// leave), and the promotion rule decides what comes next: the shop if
    /// the threshold is met, another round if balls remain, else the run is
    /// over.
    pub fn end_of_round_system(&mut self)
        requires
            old(self).phase == LevelState::EndOfRound,
            old(self).wf(),
        ensures
            final(self).wf(),
            final(self).player.points_last_round == old(self).player.points_this_round,
            final(self).player.points_this_round == 0,
            final(self).player.points == old(self).player.points,
            final(self).player.coins == old(self).player.coins,
            final(self).player.balls_left == old(self).player.balls_left,
            final(self).player.current_level == old(self).player.current_level,
            final(self).player.point_for_next_level == old(self).player.point_for_next_level,
            final(self).player.current_widget == old(self).player.current_widget,
            Player::same_piles(final(self).player, old(self).player),
            final(self).player.starter() == old(self).player.starter(),
            final(self).gadgets == old(self).gadgets,
            final(self).pending_gadget == old(self).pending_gadget,
            final(self).collectible_rounds@ == tick_rounds_spec(old(self).collectible_rounds@),
            final(self).phase == if old(self).player.points >= old(
                self,
            ).player.point_for_next_level {
                LevelState::Shop
            } else if old(self).player.balls_left > 0 {
                LevelState::WidgetSelection
            } else {
                LevelState::GameOver
            },
    {
        let mut kept: Vec<u64> = Vec::new();
        let n = self.collectible_rounds.len();
        let mut i: usize = 0;
        while i < n
            invariant
                *self == *old(self),
                i <= n == self.collectible_rounds@.len(),
                kept@ == tick_rounds_spec(self.collectible_rounds@.subrange(0, i as int)),
            decreases n - i,
        {
            let r = self.collectible_rounds[i];
            proof {
                let prefix = self.collectible_rounds@.subrange(0, i + 1);
                assert(prefix.drop_last() =~= self.collectible_rounds@.subrange(0, i as int));
                assert(prefix.last() == self.collectible_rounds@[i as int]);
            }
            if r > 1 {
                kept.push(r - 1);
            }
            i = i + 1;
        }
        proof {
            assert(self.collectible_rounds@.subrange(0, n as int) =~= self.collectible_rounds@);
        }
        self.collectible_rounds = kept;

        self.player.points_last_round = self.player.points_this_round;
        self.player.points_this_round = 0;

        if self.player.points >= self.player.point_for_next_level {
            self.phase = LevelState::Shop;
        } else if self.player.balls_left > 0 {
            self.phase = LevelState::WidgetSelection;
        } else {
            self.phase = LevelState::GameOver;
        }
    }

    /// A click on a shop card: the purchase is refused silently when the
    /// coins do not cover the price; otherwise the price is deducted and
    /// the card's effect resolves at once. Ball cards grant balls; gadget
    /// cards join the discard pile and the whole deck is reshuffled.
    pub fn on_click_on_shop_card_system(
        &mut self,
        card: ShopCardType,
        resources: &GameResources,
        rng: &mut rand::rngs::StdRng,
    ) -> (purchased: bool)
        requires
            old(self).phase == LevelState::Shop,
            old(self).wf(),
            old(self).player.balls_left + 1 <= u64::MAX,
            old(self).player.balls_left + resources.balls_per_level <= u64::MAX,
        ensures
            final(self).wf(),
            final(self).phase == old(self).phase,
            purchased <==> price_spec(card) <= old(self).player.coins,
            !purchased ==> *final(self) == *old(self),
            purchased ==> {
                &&& final(self).player.coins == old(self).player.coins - price_spec(card)
                &&& final(self).player.points == old(self).player.points
                &&& final(self).player.current_level == old(self).player.current_level
                &&& final(self).player.point_for_next_level == old(
                    self,
                ).player.point_for_next_level
                &&& final(self).player.current_hand@ == old(self).player.current_hand@
                &&& final(self).player.starter() == old(self).player.starter()
                &&& final(self).gadgets == old(self).gadgets
                &&& final(self).pending_gadget == old(self).pending_gadget
                &&& final(self).collectible_rounds == old(self).collectible_rounds
            },
            purchased && card == ShopCardType::OneMoreBallCard ==> final(self).player.balls_left
                == old(self).player.balls_left + 1 && Player::same_piles(
                final(self).player,
                old(self).player,
            ),
            purchased && card == ShopCardType::MoreBallsCard ==> final(self).player.balls_left
                == old(self).player.balls_left + resources.balls_per_level && Player::same_piles(
                final(self).player,
                old(self).player,
            ),
            purchased && card != ShopCardType::OneMoreBallCard && card != ShopCardType::MoreBallsCard
                ==> {
                &&& final(self).player.balls_left == old(self).player.balls_left
                &&& final(self).player.all_cards() == old(self).player.all_cards().insert(card)
                &&& final(self).player.widget_deck@.len() == old(self).player.widget_deck@.len()
                    + old(self).player.discard_pile@.len() + 1
                &&& final(self).player.discard_pile@.len() == 0
            },
    {
        let price = resources.get_price_per_card(&card);
        if price > self.player.coins {
            return false;
        }
        self.player.coins = self.player.coins - price;
        match card {
            ShopCardType::OneMoreBallCard => {
                self.player.balls_left = self.player.balls_left + 1;
            },
            ShopCardType::MoreBallsCard => {
                self.player.balls_left = self.player.balls_left + resources.balls_per_level;
            },
            _ => {
                self.player.discard(card);
                self.player.reshuffle_deck(rng);
            },
        }
        true
    }

    /// Leaving the shop: the level advances, its threshold is recomputed
    /// from the new level, a fresh coin placement is requested, and the
    /// next round's widget selection begins.
    pub fn on_exit_shop(&mut self) -> (coins_requested: u64)
        requires
            old(self).phase == LevelState::Shop,
            old(self).wf(),
            old(self).player.current_level < MAX_LEVEL,
        ensures
            final(self).wf(),
            final(self).phase == LevelState::WidgetSelection,
            final(self).player.current_level == old(self).player.current_level + 1,
            final(self).player.point_for_next_level == points_threshold_spec(
                (old(self).player.current_level + 1) as nat,
            ),
            final(self).player.points == old(self).player.points,
            final(self).player.points_this_round == old(self).player.points_this_round,
            final(self).player.points_last_round == old(self).player.points_last_round,
            final(self).player.coins == old(self).player.coins,
            final(self).player.balls_left == old(self).player.balls_left,
            final(self).player.current_widget == old(self).player.current_widget,
            Player::same_piles(final(self).player, old(self).player),
            final(self).player.starter() == old(self).player.starter(),
            final(self).gadgets == old(self).gadgets,
            final(self).pending_gadget == old(self).pending_gadget,
            final(self).collectible_rounds == old(self).collectible_rounds,
            coins_requested == COINS_PER_PLACEMENT,
    {
        self.player.current_level = self.player.current_level + 1;
        self.player.point_for_next_level = Player::points_for_level(self.player.current_level);
        self.phase = LevelState::WidgetSelection;
        COINS_PER_PLACEMENT
    }

    /// The game-over screen's retry: back to a level start.
    pub fn retry(&mut self)
        requires
            old(self).phase == LevelState::GameOver,
        ensures
            final(self).phase == LevelState::LevelStart,
            GameSession::same_but_phase(*final(self), *old(self)),
            old(self).wf() ==> final(self).wf(),
    {
        self.phase = LevelState::LevelStart;
    }

    /// A collectible was placed on the field: it will survive the standard
    /// number of rounds.
    pub fn register_collectible(&mut self)
        ensures
            final(self).collectible_rounds@ == old(self).collectible_rounds@.push(
                COLLECTIBLE_ROUNDS,
            ),
            final(self).phase == old(self).phase,
            final(self).player == old(self).player,
            final(self).gadgets == old(self).gadgets,
            final(self).pending_gadget == old(self).pending_gadget,
            old(self).wf() ==> final(self).wf(),
    {
        self.collectible_rounds.push(COLLECTIBLE_ROUNDS);
    }
}

} // verus!
