//! The immutable game catalog: prices, display texts, gadget data per card,
//! the per-level shop pools, and the shop offer selection.

use vstd::prelude::*;

use crate::cards::ShopCardType;
use crate::gadgets::{ActivationTime, Gadget, PointsOnHit};

verus! {

/// Price of a card, in coins; zero means free.
pub open spec fn price_spec(card: ShopCardType) -> u64 {
    match card {
        ShopCardType::OneMoreBallCard => 3,
        ShopCardType::MoreBallsCard => 0,
        ShopCardType::SquareBlockCard => 1,
        ShopCardType::WideBlockCard => 1,
        ShopCardType::BumperCard => 2,
        ShopCardType::CoinBumperCard => 5,
        ShopCardType::HighFrictionBlockCard => 4,
        ShopCardType::MagnetCard => 9,
        ShopCardType::ReactivateLaserBridgeCard => 25,
        ShopCardType::GravityReverserCard => 12,
        ShopCardType::MultiBallCard => 35,
        ShopCardType::RecycleGadgetCard => 15,
        ShopCardType::RearrangeGadgetCard => 8,
    }
}

/// The activation ledger each gadget card's gadget starts with.
pub open spec fn gadget_catalog_spec() -> Seq<(ShopCardType, Gadget)> {
    seq![
        (ShopCardType::SquareBlockCard, Gadget { activations_left: 5, activations_per_round: 5 }),
        (ShopCardType::WideBlockCard, Gadget { activations_left: 5, activations_per_round: 5 }),
        (ShopCardType::BumperCard, Gadget { activations_left: 3, activations_per_round: 3 }),
        (ShopCardType::CoinBumperCard, Gadget { activations_left: 1, activations_per_round: 1 }),
        (ShopCardType::MultiBallCard, Gadget { activations_left: 1, activations_per_round: 1 }),
    ]
}

/// The points each scoring card's gadget awards per activation.
pub open spec fn points_catalog_spec() -> Seq<(ShopCardType, PointsOnHit)> {
    seq![
        (ShopCardType::SquareBlockCard, PointsOnHit { amount: 1 }),
        (ShopCardType::WideBlockCard, PointsOnHit { amount: 1 }),
        (ShopCardType::BumperCard, PointsOnHit { amount: 3 }),
    ]
}

/// The duration of each timed-effect card.
pub open spec fn activation_time_catalog_spec() -> Seq<(ShopCardType, ActivationTime)> {
    seq![(ShopCardType::MagnetCard, ActivationTime { millis: 5000 })]
}

/// The shop pools, indexed by level; levels beyond the last pool clamp to it.
pub open spec fn shop_pools_spec() -> Seq<Seq<ShopCardType>> {
    seq![
        seq![
            ShopCardType::OneMoreBallCard,
            ShopCardType::BumperCard,
            ShopCardType::CoinBumperCard,
        ],
        seq![
            ShopCardType::OneMoreBallCard,
            ShopCardType::BumperCard,
            ShopCardType::CoinBumperCard,
            ShopCardType::WideBlockCard,
        ],
        seq![
            ShopCardType::OneMoreBallCard,
            ShopCardType::BumperCard,
            ShopCardType::CoinBumperCard,
            ShopCardType::WideBlockCard,
        ],
    ]
}

/// Display title of a card.
pub open spec fn card_title_spec(card: ShopCardType) -> Seq<char> {
    match card {
        ShopCardType::OneMoreBallCard => "+1 Ball"@,
        ShopCardType::MoreBallsCard => "+3 Ball"@,
        ShopCardType::SquareBlockCard => "Square Block"@,
        ShopCardType::WideBlockCard => "Wide Block"@,
        ShopCardType::BumperCard => "Bumper"@,
        ShopCardType::CoinBumperCard => "CoinBumper"@,
        ShopCardType::HighFrictionBlockCard => "High Friction Block"@,
        ShopCardType::MagnetCard => "Magnetise"@,
        ShopCardType::ReactivateLaserBridgeCard => "Reactivate"@,
        ShopCardType::GravityReverserCard => "Gravity Reverser"@,
        ShopCardType::MultiBallCard => "Multi Ball"@,
        ShopCardType::RecycleGadgetCard => "Recycle Gadget"@,
        ShopCardType::RearrangeGadgetCard => "Rearrange Gadget"@,
    }
}

/// Display description of a card, reflecting the standard catalog (points
/// times activations for the scoring gadgets, the magnet's duration).
pub open spec fn card_description_spec(card: ShopCardType) -> Seq<char> {
    match card {
        ShopCardType::OneMoreBallCard => "Adds 1 Ball"@,
        ShopCardType::MoreBallsCard => "Adds 3 Balls"@,
        ShopCardType::SquareBlockCard => "1x5 Points"@,
        ShopCardType::WideBlockCard => "1x5 Points"@,
        ShopCardType::BumperCard => "3x3 Points"@,
        ShopCardType::CoinBumperCard => "Spawn Coins"@,
        ShopCardType::HighFrictionBlockCard => "Slows down ball"@,
        ShopCardType::MagnetCard => "Attracts coins for 5.0s"@,
        ShopCardType::ReactivateLaserBridgeCard => "Reactivate Gadgets"@,
        ShopCardType::GravityReverserCard => "Reverse Gravity in field"@,
        ShopCardType::MultiBallCard => "Duplicate Ball"@,
        ShopCardType::RecycleGadgetCard => "Recycle a Gadget for Coins"@,
        ShopCardType::RearrangeGadgetCard => "Move an already placed Gadget"@,
    }
}

/// The immutable catalog, held once per session and filled by `setup`.
pub struct GameResources {
    /// Balls granted at each level start (and by the free shop card).
    pub balls_per_level: u64,
    /// Gadget card to starting activation ledger.
    pub gadgets: Vec<(ShopCardType, Gadget)>,
    /// Scoring card to points per activation.
    pub gadget_points: Vec<(ShopCardType, PointsOnHit)>,
    /// Timed-effect card to effect duration.
    pub activation_time: Vec<(ShopCardType, ActivationTime)>,
    /// Shop pools, indexed by level.
    pub shop_items_per_level: Vec<Vec<ShopCardType>>,
}

impl GameResources {
    /// The catalog holds exactly the standard game data.
    pub open spec fn is_standard(self) -> bool {
        &&& self.balls_per_level == 3
        &&& self.gadgets@ == gadget_catalog_spec()
        &&& self.gadget_points@ == points_catalog_spec()
        &&& self.activation_time@ == activation_time_catalog_spec()
        &&& self.shop_items_per_level@.len() == shop_pools_spec().len()
        &&& forall|i: int|
            0 <= i < shop_pools_spec().len() ==> self.shop_items_per_level@[i]@
                == shop_pools_spec()[i]
    }

    /// The pool offered at a level: pools beyond the last defined one clamp
    /// to the last (content starvation is a fallback, not a failure).
    pub open spec fn shop_pool_at(self, level: int) -> Seq<ShopCardType> {
        if level < self.shop_items_per_level@.len() - 1 {
            self.shop_items_per_level@[level]@
        } else {
            self.shop_items_per_level@[self.shop_items_per_level@.len() - 1]@
        }
    }

    /// An empty catalog, to be filled by `setup`.
    pub fn new() -> (r: GameResources)
        ensures
            r.balls_per_level == 0,
            r.gadgets@.len() == 0,
            r.gadget_points@.len() == 0,
            r.activation_time@.len() == 0,
            r.shop_items_per_level@.len() == 0,
    {
        GameResources {
            balls_per_level: 0,
            gadgets: Vec::new(),
            gadget_points: Vec::new(),
            activation_time: Vec::new(),
            shop_items_per_level: Vec::new(),
        }
    }

    /// Fills every table with the standard game data.
    pub fn setup(&mut self)
        ensures
            final(self).is_standard(),
    {
        self.fill_gadgets();
        self.fill_points_for_card();
        self.fill_activation_time_for_card();
        self.fill_shop_items();
        self.balls_per_level = 3;
    }

    /// Sets the gadget table: how many activations each gadget card's
    /// gadget starts a round with.
    pub fn fill_gadgets(&mut self)
        ensures
            final(self).gadgets@ == gadget_catalog_spec(),
            final(self).gadget_points@ == old(self).gadget_points@,
            final(self).activation_time@ == old(self).activation_time@,
            final(self).shop_items_per_level@ == old(self).shop_items_per_level@,
            final(self).balls_per_level == old(self).balls_per_level,
    {
        let mut table: Vec<(ShopCardType, Gadget)> = Vec::new();
        table.push((ShopCardType::SquareBlockCard, Gadget::new(5)));
        table.push((ShopCardType::WideBlockCard, Gadget::new(5)));
        table.push((ShopCardType::BumperCard, Gadget::new(3)));
        table.push((ShopCardType::CoinBumperCard, Gadget::new(1)));
        table.push((ShopCardType::MultiBallCard, Gadget::new(1)));
        proof {
            assert(table@ =~= gadget_catalog_spec());
        }
        self.gadgets = table;
    }

    /// Sets the points table: what each scoring card's gadget awards.
    pub fn fill_points_for_card(&mut self)
        ensures
            final(self).gadget_points@ == points_catalog_spec(),
            final(self).gadgets@ == old(self).gadgets@,
            final(self).activation_time@ == old(self).activation_time@,
            final(self).shop_items_per_level@ == old(self).shop_items_per_level@,
            final(self).balls_per_level == old(self).balls_per_level,
    {
        let mut table: Vec<(ShopCardType, PointsOnHit)> = Vec::new();
        table.push((ShopCardType::SquareBlockCard, PointsOnHit::new(1)));
        table.push((ShopCardType::WideBlockCard, PointsOnHit::new(1)));
        table.push((ShopCardType::BumperCard, PointsOnHit::new(3)));
        proof {
            assert(table@ =~= points_catalog_spec());
        }
        self.gadget_points = table;
    }

    /// Sets the timed-effect table.
    pub fn fill_activation_time_for_card(&mut self)
        ensures
            final(self).activation_time@ == activation_time_catalog_spec(),
            final(self).gadgets@ == old(self).gadgets@,
            final(self).gadget_points@ == old(self).gadget_points@,
            final(self).shop_items_per_level@ == old(self).shop_items_per_level@,
            final(self).balls_per_level == old(self).balls_per_level,
    {
        let mut table: Vec<(ShopCardType, ActivationTime)> = Vec::new();
        table.push((ShopCardType::MagnetCard, ActivationTime::new(5000)));
        proof {
            assert(table@ =~= activation_time_catalog_spec());
        }
        self.activation_time = table;
    }

    /// Sets the per-level shop pools.
    pub fn fill_shop_items(&mut self)
        ensures
            final(self).shop_items_per_level@.len() == shop_pools_spec().len(),
            forall|i: int|
                0 <= i < shop_pools_spec().len() ==> final(self).shop_items_per_level@[i]@
                    == shop_pools_spec()[i],
            final(self).gadgets@ == old(self).gadgets@,
            final(self).gadget_points@ == old(self).gadget_points@,
            final(self).activation_time@ == old(self).activation_time@,
            final(self).balls_per_level == old(self).balls_per_level,
    {
        let mut pools: Vec<Vec<ShopCardType>> = Vec::new();
        let mut pool0: Vec<ShopCardType> = Vec::new();
        pool0.push(ShopCardType::OneMoreBallCard);
        pool0.push(ShopCardType::BumperCard);
        pool0.push(ShopCardType::CoinBumperCard);
        let mut pool1: Vec<ShopCardType> = Vec::new();
        pool1.push(ShopCardType::OneMoreBallCard);
        pool1.push(ShopCardType::BumperCard);
        pool1.push(ShopCardType::CoinBumperCard);
        pool1.push(ShopCardType::WideBlockCard);
        let mut pool2: Vec<ShopCardType> = Vec::new();
        pool2.push(ShopCardType::OneMoreBallCard);
        pool2.push(ShopCardType::BumperCard);
        pool2.push(ShopCardType::CoinBumperCard);
        pool2.push(ShopCardType::WideBlockCard);
        proof {
            assert(pool0@ =~= shop_pools_spec()[0]);
            assert(pool1@ =~= shop_pools_spec()[1]);
            assert(pool2@ =~= shop_pools_spec()[2]);
        }
        pools.push(pool0);
        pools.push(pool1);
        pools.push(pool2);
        self.shop_items_per_level = pools;
    }

    /// Price gating for the shop display and purchases.
    pub fn can_afford(&self, coins: u64, shop_card_type: &ShopCardType) -> (r: bool)
        ensures
            r == (price_spec(*shop_card_type) <= coins),
    {
        self.get_price_per_card(shop_card_type) <= coins
    }

    /// Static price lookup.
    pub fn get_price_per_card(&self, shop_card_type: &ShopCardType) -> (r: u64)
        ensures
            r == price_spec(*shop_card_type),
    {
        match shop_card_type {
            ShopCardType::OneMoreBallCard => 3,
            ShopCardType::MoreBallsCard => 0,
            ShopCardType::SquareBlockCard => 1,
            ShopCardType::WideBlockCard => 1,
            ShopCardType::BumperCard => 2,
            ShopCardType::CoinBumperCard => 5,
            ShopCardType::HighFrictionBlockCard => 4,
            ShopCardType::MagnetCard => 9,
            ShopCardType::ReactivateLaserBridgeCard => 25,
            ShopCardType::GravityReverserCard => 12,
            ShopCardType::MultiBallCard => 35,
            ShopCardType::RecycleGadgetCard => 15,
            ShopCardType::RearrangeGadgetCard => 8,
        }
    }

    /// Display title lookup.
    pub fn card_title(&self, shop_card_type: &ShopCardType) -> (r: &'static str)
        ensures
            r@ == card_title_spec(*shop_card_type),
    {
        match shop_card_type {
            ShopCardType::OneMoreBallCard => "+1 Ball",
            ShopCardType::MoreBallsCard => "+3 Ball",
            ShopCardType::SquareBlockCard => "Square Block",
            ShopCardType::WideBlockCard => "Wide Block",
            ShopCardType::BumperCard => "Bumper",
            ShopCardType::CoinBumperCard => "CoinBumper",
            ShopCardType::HighFrictionBlockCard => "High Friction Block",
            ShopCardType::MagnetCard => "Magnetise",
            ShopCardType::ReactivateLaserBridgeCard => "Reactivate",
            ShopCardType::GravityReverserCard => "Gravity Reverser",
            ShopCardType::MultiBallCard => "Multi Ball",
            ShopCardType::RecycleGadgetCard => "Recycle Gadget",
            ShopCardType::RearrangeGadgetCard => "Rearrange Gadget",
        }
    }

    /// Display description lookup.
    pub fn card_description(&self, shop_card_type: &ShopCardType) -> (r: &'static str)
        ensures
            r@ == card_description_spec(*shop_card_type),
    {
        match shop_card_type {
            ShopCardType::OneMoreBallCard => "Adds 1 Ball",
            ShopCardType::MoreBallsCard => "Adds 3 Balls",
            ShopCardType::SquareBlockCard => "1x5 Points",
            ShopCardType::WideBlockCard => "1x5 Points",
            ShopCardType::BumperCard => "3x3 Points",
            ShopCardType::CoinBumperCard => "Spawn Coins",
            ShopCardType::HighFrictionBlockCard => "Slows down ball",
            ShopCardType::MagnetCard => "Attracts coins for 5.0s",
            ShopCardType::ReactivateLaserBridgeCard => "Reactivate Gadgets",
            ShopCardType::GravityReverserCard => "Reverse Gravity in field",
            ShopCardType::MultiBallCard => "Duplicate Ball",
            ShopCardType::RecycleGadgetCard => "Recycle a Gadget for Coins",
            ShopCardType::RearrangeGadgetCard => "Move an already placed Gadget",
        }
    }

    /// The shop offer for a level: the fixed free balls card, followed by
    /// up to three cards sampled without replacement from the level's pool.
    pub fn get_shop_cards_for_level(
        &self,
        level: u64,
        rng: &mut rand::rngs::StdRng,
    ) -> (r: Vec<ShopCardType>)
        requires
            self.shop_items_per_level@.len() > 0,
        ensures
            r@.len() == 1 + if self.shop_pool_at(level as int).len() < 3 {
                self.shop_pool_at(level as int).len() as int
            } else {
                3
            },
            r@[0] == ShopCardType::MoreBallsCard,
            r@.skip(1).to_multiset().subset_of(self.shop_pool_at(level as int).to_multiset()),
    {
        let mut cards: Vec<ShopCardType> = Vec::new();
        cards.push(ShopCardType::MoreBallsCard);

        let last = self.shop_items_per_level.len() - 1;
        let safe_level: usize = if level < last as u64 {
            level as usize
        } else {
            last
        };
        proof {
            assert(self.shop_items_per_level@[safe_level as int]@ == self.shop_pool_at(
                level as int,
            ));
        }
        let picked = crate::randomness::sample_cards(&self.shop_items_per_level[safe_level], 3, rng);
        let mut i: usize = 0;
        while i < picked.len()
            invariant
                i <= picked@.len(),
                cards@ == seq![ShopCardType::MoreBallsCard] + picked@.subrange(0, i as int),
            decreases picked@.len() - i,
        {
            cards.push(picked[i]);
            proof {
                assert(cards@ =~= seq![ShopCardType::MoreBallsCard] + picked@.subrange(
                    0,
                    i + 1,
                ));
            }
            i = i + 1;
        }
        proof {
            assert(picked@.subrange(0, picked@.len() as int) =~= picked@);
            assert(cards@.skip(1) =~= picked@);
        }
        cards
    }
}

} // verus!
