//! The player's run state: points, coins, balls, level progression and the
//! deck-of-cards economy (draw pile, discard pile, hand).
//!
//! The deck follows the reshuffle-on-empty discipline: drawing from an empty
//! draw pile first moves the whole discard pile into the draw pile and
//! shuffles it. Cards only ever move between the three piles, so the cards
//! in circulation form a conserved multiset until a shop purchase adds one.

use vstd::prelude::*;

use vstd::arithmetic::div_mod::{
    lemma_div_is_ordered, lemma_div_multiples_vanish, lemma_fundamental_div_mod,
    lemma_mod_division_less_than_divisor,
};
use vstd::arithmetic::power::{
    lemma_pow_adds, lemma_pow_increases, lemma_pow_positive, lemma_pow1, pow,
};
use vstd::multiset::Multiset;
use vstd::seq_lib::group_to_multiset_ensures;
use vstd::seq_lib::lemma_multiset_commutative;

use crate::cards::ShopCardType;

verus! {

/// Number of cards the hand is filled to at widget selection.
pub const HAND_SIZE: usize = 3;

/// Highest level whose points threshold the 64-bit computation below can
/// represent without overflow.
pub const MAX_LEVEL: u64 = 17;

/// The points threshold that gates promotion out of level `level`:
/// `5 * 2.2^level`, rounded half-up. Written over integers as
/// `round(5 * (11/5)^level) = floor((10 * 11^level + 5^level) / (2 * 5^level))`.
pub open spec fn points_threshold_spec(level: nat) -> int {
    (10 * pow(11, level) + pow(5, level)) / (2 * pow(5, level))
}

/// Raising a larger base to the same power gives a larger result.
proof fn lemma_pow_base_increases(a: nat, b: nat, e: nat)
    requires
        1 <= a <= b,
    ensures
        pow(a as int, e) <= pow(b as int, e),
    decreases e,
{
    reveal(pow);
    if e > 0 {
        lemma_pow_base_increases(a, b, (e - 1) as nat);
        lemma_pow_positive(a as int, (e - 1) as nat);
        lemma_pow_positive(b as int, (e - 1) as nat);
        assert(a as int * pow(a as int, (e - 1) as nat) <= b as int * pow(
            b as int,
            (e - 1) as nat,
        )) by (nonlinear_arith)
            requires
                1 <= a <= b,
                0 < pow(a as int, (e - 1) as nat) <= pow(b as int, (e - 1) as nat),
        ;
    }
}

/// The promotion threshold grows strictly from each level to the next:
/// rounding `5 * 2.2^level` half-up never flattens the geometric growth.
pub proof fn lemma_points_threshold_increases(level: nat)
    ensures
        points_threshold_spec(level + 1) > points_threshold_spec(level),
{
    let n = pow(11, level);
    let d = pow(5, level);
    lemma_pow_positive(11, level);
    lemma_pow_positive(5, level);
    lemma_pow_base_increases(5, 11, level);
    assert(pow(11, level + 1) == 11 * n) by {
        lemma_pow_adds(11, level, 1);
        lemma_pow1(11);
    }
    assert(pow(5, level + 1) == 5 * d) by {
        lemma_pow_adds(5, level, 1);
        lemma_pow1(5);
    }
    let q = (10 * n + d) / (2 * d);
    // 2*d*q <= 10*n + d, from the division identity and the mod bound.
    lemma_fundamental_div_mod(10 * n + d, 2 * d);
    lemma_mod_division_less_than_divisor(10 * n + d, 2 * d);
    assert(2 * d * q <= 10 * n + d);
    // Hence (q + 1) * (10 * d) <= 110 * n + 5 * d, using n >= d.
    assert((q + 1) * (10 * d) <= 110 * n + 5 * d) by (nonlinear_arith)
        requires
            2 * d * q <= 10 * n + d,
            d <= n,
            0 < d,
    ;
    // A lower bound on a multiple of the divisor bounds the quotient.
    lemma_div_is_ordered((q + 1) * (10 * d), 110 * n + 5 * d, 10 * d);
    assert((10 * d) * (q + 1) / (10 * d) == q + 1) by {
        lemma_div_multiples_vanish(q + 1, 10 * d);
    }
    assert((q + 1) * (10 * d) == (10 * d) * (q + 1)) by (nonlinear_arith);
    assert(points_threshold_spec(level + 1) == (110 * n + 5 * d) / (10 * d));
    assert((110 * n + 5 * d) / (10 * d) >= q + 1);
}

/// Card conservation: the cards in circulation, counted as a multiset,
/// are exactly the cards sitting in the three piles, so any operation that
/// leaves `all_cards` unchanged leaves the total
/// `|widget_deck| + |discard_pile| + |current_hand|` unchanged too.
pub proof fn lemma_card_count(p: Player)
    ensures
        p.all_cards().len() == p.widget_deck@.len() + p.discard_pile@.len()
            + p.current_hand@.len(),
{
    broadcast use group_to_multiset_ensures;
    broadcast use vstd::multiset::group_multiset_axioms;

}

/// The four-card starter deck a fresh run begins with.
pub open spec fn starter_deck_spec() -> Seq<ShopCardType> {
    seq![
        ShopCardType::WideBlockCard,
        ShopCardType::WideBlockCard,
        ShopCardType::WideBlockCard,
        ShopCardType::GravityReverserCard,
    ]
}

/// The player's run state. The three card piles plus the immutable starter
/// template form the deck economy; the counters form the score economy.
pub struct Player {
    /// The gadget currently being placed, if any, by entity identifier.
    pub current_widget: Option<u64>,
    /// The drafted, not-yet-spent cards on offer (at most `HAND_SIZE`).
    pub current_hand: Vec<ShopCardType>,
    /// The draw pile; the top of the pile is the end of the vector.
    pub widget_deck: Vec<ShopCardType>,
    /// Cards spent since the last reshuffle.
    pub discard_pile: Vec<ShopCardType>,
    /// Immutable template the draw pile is rebuilt from on a new run;
    /// written only by `new` and read thereafter.
    pub starter_deck: Vec<ShopCardType>,
    pub points: u64,
    pub points_this_round: u64,
    pub points_last_round: u64,
    pub coins: u64,
    pub balls_left: u64,
    pub balls_per_level: u64,
    pub current_level: u64,
    pub point_for_next_level: u64,
}

impl Player {
    /// The multiset of all cards in circulation, wherever they sit.
    pub open spec fn all_cards(self) -> Multiset<ShopCardType> {
        self.widget_deck@.to_multiset().add(self.discard_pile@.to_multiset()).add(
            self.current_hand@.to_multiset(),
        )
    }

    /// The starter template, as a sequence.
    pub open spec fn starter(self) -> Seq<ShopCardType> {
        self.starter_deck@
    }

    /// Structural well-formedness: the hand never exceeds its capacity and
    /// the starter template is never empty.
    pub open spec fn wf(self) -> bool {
        self.current_hand@.len() <= HAND_SIZE && self.starter().len() > 0
    }

    /// All score-economy fields and the placement cursor agree.
    pub open spec fn same_counters(a: Player, b: Player) -> bool {
        &&& a.points == b.points
        &&& a.points_this_round == b.points_this_round
        &&& a.points_last_round == b.points_last_round
        &&& a.coins == b.coins
        &&& a.balls_left == b.balls_left
        &&& a.balls_per_level == b.balls_per_level
        &&& a.current_level == b.current_level
        &&& a.point_for_next_level == b.point_for_next_level
        &&& a.current_widget == b.current_widget
    }

    /// The three card piles agree, element for element.
    pub open spec fn same_piles(a: Player, b: Player) -> bool {
        &&& a.current_hand@ == b.current_hand@
        &&& a.widget_deck@ == b.widget_deck@
        &&& a.discard_pile@ == b.discard_pile@
    }

    /// The points threshold for a level, computed exactly over 64-bit
    /// integers; `MAX_LEVEL` bounds the intermediate powers.
    pub fn points_for_level(level: u64) -> (r: u64)
        requires
            level <= MAX_LEVEL,
        ensures
            r == points_threshold_spec(level as nat),
    {
        proof {
            reveal_with_fuel(pow, 18);
            assert(pow(11, 17) == 505447028499293771);
            assert(pow(5, 17) == 762939453125);
        }
        let mut n: u64 = 1;
        let mut d: u64 = 1;
        let mut i: u64 = 0;
        while i < level
            invariant
                i <= level <= MAX_LEVEL,
                n == pow(11, i as nat),
                d == pow(5, i as nat),
                pow(11, 17) == 505447028499293771,
                pow(5, 17) == 762939453125,
            decreases level - i,
        {
            proof {
                assert(pow(11, (i + 1) as nat) == 11 * pow(11, i as nat)) by {
                    lemma_pow_adds(11, i as nat, 1);
                    lemma_pow1(11);
                }
                assert(pow(5, (i + 1) as nat) == 5 * pow(5, i as nat)) by {
                    lemma_pow_adds(5, i as nat, 1);
                    lemma_pow1(5);
                }
                lemma_pow_increases(11, (i + 1) as nat, 17);
                lemma_pow_increases(5, (i + 1) as nat, 17);
                lemma_pow_positive(11, (i + 1) as nat);
                lemma_pow_positive(5, (i + 1) as nat);
            }
            n = n * 11;
            d = d * 5;
            i = i + 1;
        }
        proof {
            lemma_pow_increases(11, level as nat, 17);
            lemma_pow_increases(5, level as nat, 17);
            lemma_pow_positive(5, level as nat);
            lemma_pow_positive(11, level as nat);
        }
        (10 * n + d) / (2 * d)
    }

    /// A fresh run: the starter template, a shuffled copy of it as the draw
    /// pile, empty discard pile and hand, and zeroed counters.
    pub fn new(balls_per_level: u64, rng: &mut rand::rngs::StdRng) -> (p: Player)
        ensures
            p.wf(),
            p.starter() == starter_deck_spec(),
            p.widget_deck@.len() == starter_deck_spec().len(),
            p.widget_deck@.to_multiset() == starter_deck_spec().to_multiset(),
            p.discard_pile@.len() == 0,
            p.current_hand@.len() == 0,
            p.current_widget is None,
            p.points == 0 && p.points_this_round == 0 && p.points_last_round == 0,
            p.coins == 0,
            p.balls_left == balls_per_level,
            p.balls_per_level == balls_per_level,
            p.current_level == 0,
            p.point_for_next_level == points_threshold_spec(0),
    {
        let mut starter_deck: Vec<ShopCardType> = Vec::new();
        starter_deck.push(ShopCardType::WideBlockCard);
        starter_deck.push(ShopCardType::WideBlockCard);
        starter_deck.push(ShopCardType::WideBlockCard);
        starter_deck.push(ShopCardType::GravityReverserCard);
        proof {
            assert(starter_deck@ =~= starter_deck_spec());
        }
        let mut widget_deck = clone_cards(&starter_deck);
        crate::randomness::shuffle_cards(&mut widget_deck, rng);
        Player {
            current_widget: None,
            current_hand: Vec::new(),
            widget_deck,
            discard_pile: Vec::new(),
            starter_deck,
            points: 0,
            points_this_round: 0,
            points_last_round: 0,
            coins: 0,
            balls_left: balls_per_level,
            balls_per_level,
            current_level: 0,
            point_for_next_level: Player::points_for_level(0),
        }
    }

    /// Shuffles the draw pile in place; the cards in it stay the same.
    pub fn shuffle_deck(&mut self, rng: &mut rand::rngs::StdRng)
        ensures
            final(self).widget_deck@.len() == old(self).widget_deck@.len(),
            final(self).widget_deck@.to_multiset() == old(self).widget_deck@.to_multiset(),
            final(self).discard_pile@ == old(self).discard_pile@,
            final(self).current_hand@ == old(self).current_hand@,
            final(self).starter() == old(self).starter(),
            Player::same_counters(*final(self), *old(self)),
            final(self).all_cards() == old(self).all_cards(),
    {
        crate::randomness::shuffle_cards(&mut self.widget_deck, rng);
    }

    /// Moves every card of the discard pile onto the draw pile and shuffles
    /// the result: the new draw pile holds exactly the cards that were in
    /// either pile, and the discard pile is empty.
    pub fn reshuffle_deck(&mut self, rng: &mut rand::rngs::StdRng)
        ensures
            final(self).widget_deck@.len() == old(self).widget_deck@.len() + old(
                self,
            ).discard_pile@.len(),
            final(self).widget_deck@.to_multiset() == old(self).widget_deck@.to_multiset().add(
                old(self).discard_pile@.to_multiset(),
            ),
            final(self).discard_pile@.len() == 0,
            final(self).current_hand@ == old(self).current_hand@,
            final(self).starter() == old(self).starter(),
            Player::same_counters(*final(self), *old(self)),
            final(self).all_cards() == old(self).all_cards(),
    {
        proof {
            broadcast use group_to_multiset_ensures;
            broadcast use vstd::multiset::group_multiset_axioms;

        }
        let n = self.discard_pile.len();
        let mut i: usize = 0;
        while i < n
            invariant
                i <= n == old(self).discard_pile@.len(),
                self.discard_pile@ == old(self).discard_pile@,
                self.current_hand@ == old(self).current_hand@,
                self.starter() == old(self).starter(),
                Player::same_counters(*self, *old(self)),
                self.widget_deck@ == old(self).widget_deck@ + old(self).discard_pile@.subrange(
                    0,
                    i as int,
                ),
            decreases n - i,
        {
            let card = self.discard_pile[i];
            self.widget_deck.push(card);
            proof {
                assert(self.widget_deck@ =~= old(self).widget_deck@ + old(
                    self,
                ).discard_pile@.subrange(0, i + 1));
            }
            i = i + 1;
        }
        proof {
            assert(old(self).discard_pile@.subrange(0, n as int) =~= old(self).discard_pile@);
        }
        self.discard_pile.clear();
        self.shuffle_deck(rng);
        proof {
            broadcast use group_to_multiset_ensures;
            broadcast use vstd::multiset::group_multiset_axioms;

            lemma_multiset_commutative(old(self).widget_deck@, old(self).discard_pile@);
            assert(Seq::<ShopCardType>::empty().to_multiset() =~= Multiset::<
                ShopCardType,
            >::empty());
            assert(self.all_cards() =~= old(self).all_cards());
        }
    }

    /// Draws the next card. If the draw pile is empty, the discard pile is
    /// reshuffled into it first, so the draw fails only when both piles are
    /// empty, which the precondition rules out.
    pub fn next_card(&mut self, rng: &mut rand::rngs::StdRng) -> (c: ShopCardType)
        requires
            old(self).widget_deck@.len() + old(self).discard_pile@.len() > 0,
        ensures
            final(self).current_hand@ == old(self).current_hand@,
            final(self).starter() == old(self).starter(),
            Player::same_counters(*final(self), *old(self)),
            old(self).all_cards() == final(self).all_cards().insert(c),
            final(self).all_cards() == old(self).all_cards().remove(c),
            old(self).all_cards().contains(c),
            old(self).widget_deck@.len() > 0 ==> {
                &&& c == old(self).widget_deck@.last()
                &&& final(self).widget_deck@ == old(self).widget_deck@.drop_last()
                &&& final(self).discard_pile@ == old(self).discard_pile@
            },
            old(self).widget_deck@.len() == 0 ==> {
                &&& old(self).discard_pile@.to_multiset().contains(c)
                &&& final(self).widget_deck@.to_multiset() == old(
                    self,
                ).discard_pile@.to_multiset().remove(c)
                &&& final(self).widget_deck@.len() == old(self).discard_pile@.len() - 1
                &&& final(self).discard_pile@.len() == 0
            },
    {
        if self.widget_deck.is_empty() {
            self.reshuffle_deck(rng);
        }
        let ghost mid = *self;
        let c = self.widget_deck.pop().unwrap();
        proof {
            broadcast use group_to_multiset_ensures;
            broadcast use vstd::multiset::group_multiset_axioms;
            broadcast use vstd::multiset::group_multiset_properties;

            assert(mid.widget_deck@ =~= self.widget_deck@.push(c));
            assert(self.widget_deck@.push(c).to_multiset() == self.widget_deck@.to_multiset().insert(
                c,
            ));
            assert(old(self).all_cards() =~= self.all_cards().insert(c));
            assert(self.all_cards() =~= old(self).all_cards().remove(c));
            assert(old(self).all_cards().count(c) > 0);
            if old(self).widget_deck@.len() == 0 {
                assert(old(self).widget_deck@.to_multiset() =~= Multiset::<ShopCardType>::empty());
                assert(mid.widget_deck@.to_multiset() =~= old(self).discard_pile@.to_multiset());
                assert(self.widget_deck@.to_multiset() =~= old(
                    self,
                ).discard_pile@.to_multiset().remove(c));
                assert(old(self).discard_pile@.to_multiset().count(c) > 0);
            }
        }
        c
    }

    /// Restores a fresh run without giving the player a new identity: zeroed
    /// counters, full balls, level zero with its threshold, and a draw pile
    /// reshuffled from the starter template.
    pub fn reset(&mut self, rng: &mut rand::rngs::StdRng)
        ensures
            final(self).starter() == old(self).starter(),
            final(self).widget_deck@.len() == old(self).starter().len(),
            final(self).widget_deck@.to_multiset() == old(self).starter().to_multiset(),
            final(self).discard_pile@.len() == 0,
            final(self).current_hand@.len() == 0,
            final(self).current_widget is None,
            final(self).points == 0,
            final(self).points_this_round == 0,
            final(self).points_last_round == 0,
            final(self).coins == 0,
            final(self).balls_left == old(self).balls_per_level,
            final(self).balls_per_level == old(self).balls_per_level,
            final(self).current_level == 0,
            final(self).point_for_next_level == points_threshold_spec(0),
            old(self).wf() ==> final(self).wf(),
    {
        self.current_widget = None;
        self.points = 0;
        self.points_this_round = 0;
        self.coins = 0;
        self.balls_left = self.balls_per_level;
        self.current_level = 0;
        self.points_last_round = 0;
        self.point_for_next_level = Player::points_for_level(0);
        self.widget_deck = clone_cards(&self.starter_deck);
        crate::randomness::shuffle_cards(&mut self.widget_deck, rng);
        self.discard_pile.clear();
        self.current_hand.clear();
    }

    /// Draws until the hand holds `n` cards, so widget selection always
    /// offers the full choice. A hand already at or above `n` is untouched;
    /// drawn cards are appended, keeping the existing hand order.
    pub fn fill_hand_to(&mut self, n: usize, rng: &mut rand::rngs::StdRng)
        requires
            n <= HAND_SIZE,
            old(self).current_hand@.len() + old(self).widget_deck@.len() + old(
                self,
            ).discard_pile@.len() >= n,
        ensures
            final(self).current_hand@.len() == if old(self).current_hand@.len() >= n {
                old(self).current_hand@.len() as int
            } else {
                n as int
            },
            final(self).current_hand@.subrange(0, old(self).current_hand@.len() as int) == old(
                self,
            ).current_hand@,
            final(self).starter() == old(self).starter(),
            Player::same_counters(*final(self), *old(self)),
            final(self).all_cards() == old(self).all_cards(),
            old(self).wf() ==> final(self).wf(),
    {
        let old_len = self.current_hand.len();
        while self.current_hand.len() < n
            invariant
                n <= HAND_SIZE,
                old(self).current_hand@.len() + old(self).widget_deck@.len() + old(
                    self,
                ).discard_pile@.len() >= n,
                old_len == old(self).current_hand@.len(),
                self.current_hand@.len() >= old_len,
                old_len >= n ==> self.current_hand@.len() == old_len,
                old_len < n ==> self.current_hand@.len() <= n,
                self.current_hand@.subrange(0, old_len as int) == old(self).current_hand@,
                self.current_hand@.len() + self.widget_deck@.len() + self.discard_pile@.len() == old(
                    self,
                ).current_hand@.len() + old(self).widget_deck@.len() + old(
                    self,
                ).discard_pile@.len(),
                self.starter() == old(self).starter(),
                Player::same_counters(*self, *old(self)),
                self.all_cards() == old(self).all_cards(),
            decreases n - self.current_hand@.len(),
        {
            proof {
                assert(self.widget_deck@.len() + self.discard_pile@.len() > 0);
            }
            let ghost pre = *self;
            let c = self.next_card(rng);
            let ghost mid = *self;
            self.current_hand.push(c);
            proof {
                broadcast use group_to_multiset_ensures;
                broadcast use vstd::multiset::group_multiset_axioms;
                broadcast use vstd::multiset::group_multiset_properties;

                assert(self.current_hand@.subrange(0, old_len as int) =~= old(
                    self,
                ).current_hand@);
                assert(self.all_cards() =~= mid.all_cards().insert(c));
                assert(mid.all_cards().insert(c) =~= pre.all_cards());
            }
        }
    }

    /// Removes the first occurrence of `card` from the hand and hands it
    /// back. Callers must have confirmed the card is present: removing an
    /// absent card is a programmer error, ruled out by the precondition.
    pub fn remove_from_hand(&mut self, card: ShopCardType) -> (r: ShopCardType)
        requires
            old(self).current_hand@.contains(card),
        ensures
            r == card,
            final(self).widget_deck@ == old(self).widget_deck@,
            final(self).discard_pile@ == old(self).discard_pile@,
            final(self).starter() == old(self).starter(),
            Player::same_counters(*final(self), *old(self)),
            final(self).current_hand@.len() == old(self).current_hand@.len() - 1,
            exists|i: int|
                {
                    &&& 0 <= i < old(self).current_hand@.len()
                    &&& old(self).current_hand@[i] == card
                    &&& (forall|j: int| 0 <= j < i ==> old(self).current_hand@[j] != card)
                    &&& final(self).current_hand@ == old(self).current_hand@.remove(i)
                },
            final(self).current_hand@.to_multiset() == old(self).current_hand@.to_multiset().remove(
                card,
            ),
            final(self).all_cards() == old(self).all_cards().remove(card),
            old(self).wf() ==> final(self).wf(),
    {
        let mut i: usize = 0;
        let hand_len = self.current_hand.len();
        proof {
            let k = choose|k: int|
                0 <= k < old(self).current_hand@.len() && old(self).current_hand@[k] == card;
            assert(old(self).current_hand@[k] == card);
        }
        while self.current_hand[i] != card
            invariant
                *self == *old(self),
                hand_len == self.current_hand@.len(),
                0 <= i < hand_len,
                forall|j: int| 0 <= j < i ==> self.current_hand@[j] != card,
                self.current_hand@.contains(card),
            decreases self.current_hand@.len() - i,
        {
            i = i + 1;
            proof {
                if i == self.current_hand@.len() {
                    let k = choose|k: int|
                        0 <= k < self.current_hand@.len() && self.current_hand@[k] == card;
                    assert(self.current_hand@[k] == card);
                    assert(false);
                }
            }
        }
        let r = self.current_hand.remove(i);
        proof {
            broadcast use group_to_multiset_ensures;
            broadcast use vstd::multiset::group_multiset_axioms;
            broadcast use vstd::multiset::group_multiset_properties;

            assert(self.current_hand@ == old(self).current_hand@.remove(i as int));
            assert(self.all_cards() =~= old(self).all_cards().remove(card));
        }
        r
    }

    /// Appends a spent card to the discard pile.
    pub fn discard(&mut self, card: ShopCardType)
        ensures
            final(self).discard_pile@ == old(self).discard_pile@.push(card),
            final(self).current_hand@ == old(self).current_hand@,
            final(self).widget_deck@ == old(self).widget_deck@,
            final(self).starter() == old(self).starter(),
            Player::same_counters(*final(self), *old(self)),
            final(self).all_cards() == old(self).all_cards().insert(card),
    {
        self.discard_pile.push(card);
        proof {
            broadcast use group_to_multiset_ensures;
            broadcast use vstd::multiset::group_multiset_axioms;

            assert(self.all_cards() =~= old(self).all_cards().insert(card));
        }
    }
}

/// Copies a card vector element for element.
fn clone_cards(v: &Vec<ShopCardType>) -> (r: Vec<ShopCardType>)
    ensures
        r@ == v@,
{
    let mut r: Vec<ShopCardType> = Vec::new();
    let mut i: usize = 0;
    while i < v.len()
        invariant
            i <= v@.len(),
            r@ == v@.subrange(0, i as int),
        decreases v@.len() - i,
    {
        r.push(v[i]);
        proof {
            assert(r@ =~= v@.subrange(0, i + 1));
        }
        i = i + 1;
    }
    proof {
        assert(r@ =~= v@);
    }
    r
}

} // verus!
