//! Placed gadgets and their activation ledger.
//!
//! A gadget is a placed, collidable, limited-use scoring or effect object.
//! Each carries a count of activations left this round, bounded by the
//! per-round allowance; a gadget with no activations left is deactivated
//! until the next round boundary resets the ledger.

use vstd::prelude::*;

verus! {

/// Archetype of a placeable gadget.
#[derive(Clone, Copy, Debug, PartialEq, Eq, Structural)]
pub enum GadgetType {
    SquareBlockType,
    WideBlockType,
    BumperType,
    CoinBumperType,
    BallCannonType,
    GravityReverseType,
}

/// Per-gadget activation ledger.
#[derive(Clone, Copy, Debug, PartialEq, Eq, Structural)]
pub struct Gadget {
    pub activations_left: u64,
    pub activations_per_round: u64,
}

impl Gadget {
    /// The activations left never exceed the per-round allowance.
    pub open spec fn wf(self) -> bool {
        self.activations_left <= self.activations_per_round
    }

    /// A gadget is deactivated exactly when it has no activations left.
    pub open spec fn is_deactivated_spec(self) -> bool {
        self.activations_left == 0
    }

    pub fn new(activations: u64) -> (g: Gadget)
        ensures
            g.activations_per_round == activations,
            g.activations_left == activations,
            g.wf(),
    {
        Self { activations_per_round: activations, activations_left: activations }
    }

    pub fn is_deactivated(&self) -> (r: bool)
        ensures
            r == self.is_deactivated_spec(),
    {
        self.activations_left == 0
    }
}

/// Points awarded each time the owning gadget is activated by a ball.
#[derive(Clone, Copy, Debug, PartialEq, Eq, Structural)]
pub struct PointsOnHit {
    pub amount: u64,
}

impl PointsOnHit {
    pub fn new(amount: u64) -> (p: PointsOnHit)
        ensures
            p.amount == amount,
    {
        Self { amount }
    }
}

/// A bumper that requests coin placement when a ball activates it.
#[derive(Clone, Copy, Debug, PartialEq, Eq, Structural)]
pub struct CoinBumperGadget {
    pub coins_to_spawn: u64,
}

impl Default for CoinBumperGadget {
    fn default() -> (r: CoinBumperGadget)
        ensures
            r.coins_to_spawn == 3,
    {
        Self { coins_to_spawn: 3 }
    }
}

/// A sensor zone that reverses a ball's gravity while the ball is inside.
/// It consumes no activations; entry and exit events apply and revert the
/// effect. The emission clock drives a purely visual particle stream.
#[derive(Clone, Copy, Debug, PartialEq, Eq, Structural)]
pub struct GravityReverseField {
    pub time_since_last_emission_millis: u64,
}

impl GravityReverseField {
    pub fn new() -> (r: GravityReverseField)
        ensures
            r.time_since_last_emission_millis == 0,
    {
        Self { time_since_last_emission_millis: 0 }
    }
}

/// Kinds of collectible placed on the field.
#[derive(Clone, Copy, Debug, PartialEq, Eq, Structural)]
pub enum CollectibleType {
    CoinType,
}

/// A collectible coin; picked up when a ball touches it.
#[derive(Clone, Copy, Debug, PartialEq, Eq, Structural)]
pub struct Coin {
    pub value: u64,
}

impl Coin {
    pub fn new(value: u64) -> (c: Coin)
        ensures
            c.value == value,
    {
        Self { value }
    }
}

/// Rounds a collectible survives before it is removed at a round boundary.
#[derive(Clone, Copy, Debug, PartialEq, Eq, Structural)]
pub struct RemainingRounds(pub u64);

/// How long a timed effect (such as the coin magnet) stays active.
#[derive(Clone, Copy, Debug, PartialEq, Eq, Structural)]
pub struct ActivationTime {
    pub millis: u64,
}

impl ActivationTime {
    pub fn new(millis: u64) -> (t: ActivationTime)
        ensures
            t.millis == millis,
    {
        Self { millis }
    }
}

/// A placed gadget: its archetype together with the component data the
/// collision router reads. Archetypes without a ledger (the cannon, the
/// gravity field) carry `None` there and never consume activations.
#[derive(Clone, Copy, Debug, PartialEq, Eq, Structural)]
pub struct PlacedGadget {
    pub kind: GadgetType,
    pub gadget: Option<Gadget>,
    pub points_on_hit: Option<PointsOnHit>,
    pub coin_bumper: Option<CoinBumperGadget>,
}

impl PlacedGadget {
    /// The archetypes that award points when a ball activates them.
    pub open spec fn is_scoring_kind(self) -> bool {
        self.kind == GadgetType::SquareBlockType || self.kind == GadgetType::WideBlockType
            || self.kind == GadgetType::BumperType
    }

    /// The ledger, if any, is refilled to its per-round allowance.
    pub open spec fn fully_active(self) -> bool {
        self.gadget is Some ==> self.gadget->Some_0.activations_left
            == self.gadget->Some_0.activations_per_round
    }

    /// Component data is consistent with the archetype and the ledger is
    /// within bounds.
    pub open spec fn wf(self) -> bool {
        &&& (self.kind == GadgetType::SquareBlockType || self.kind == GadgetType::WideBlockType
            || self.kind == GadgetType::BumperType) ==> self.gadget is Some
            && self.points_on_hit is Some
        &&& self.kind == GadgetType::CoinBumperType ==> self.gadget is Some
            && self.coin_bumper is Some
        &&& self.gadget is Some ==> self.gadget->Some_0.wf()
    }
}

impl GadgetType {
    /// The component data a freshly placed gadget of this archetype carries.
    pub open spec fn archetype_spec(self) -> PlacedGadget {
        match self {
            GadgetType::SquareBlockType => PlacedGadget {
                kind: self,
                gadget: Some(Gadget { activations_left: 5, activations_per_round: 5 }),
                points_on_hit: Some(PointsOnHit { amount: 1 }),
                coin_bumper: None,
            },
            GadgetType::WideBlockType => PlacedGadget {
                kind: self,
                gadget: Some(Gadget { activations_left: 5, activations_per_round: 5 }),
                points_on_hit: Some(PointsOnHit { amount: 1 }),
                coin_bumper: None,
            },
            GadgetType::BumperType => PlacedGadget {
                kind: self,
                gadget: Some(Gadget { activations_left: 3, activations_per_round: 3 }),
                points_on_hit: Some(PointsOnHit { amount: 3 }),
                coin_bumper: None,
            },
            GadgetType::CoinBumperType => PlacedGadget {
                kind: self,
                gadget: Some(Gadget { activations_left: 1, activations_per_round: 1 }),
                points_on_hit: None,
                coin_bumper: Some(CoinBumperGadget { coins_to_spawn: 3 }),
            },
            GadgetType::BallCannonType => PlacedGadget {
                kind: self,
                gadget: None,
                points_on_hit: None,
                coin_bumper: None,
            },
            GadgetType::GravityReverseType => PlacedGadget {
                kind: self,
                gadget: None,
                points_on_hit: None,
                coin_bumper: None,
            },
        }
    }

    /// Builds the spawn request for a widget of this archetype; the caller
    /// (outside the core) instantiates the matching entity.
    pub fn spawn_widget(&self) -> (r: PlacedGadget)
        ensures
            r == self.archetype_spec(),
            r.wf(),
    {
        match self {
            GadgetType::SquareBlockType => PlacedGadget {
                kind: *self,
                gadget: Some(Gadget::new(5)),
                points_on_hit: Some(PointsOnHit::new(1)),
                coin_bumper: None,
            },
            GadgetType::WideBlockType => PlacedGadget {
                kind: *self,
                gadget: Some(Gadget::new(5)),
                points_on_hit: Some(PointsOnHit::new(1)),
                coin_bumper: None,
            },
            GadgetType::BumperType => PlacedGadget {
                kind: *self,
                gadget: Some(Gadget::new(3)),
                points_on_hit: Some(PointsOnHit::new(3)),
                coin_bumper: None,
            },
            GadgetType::CoinBumperType => PlacedGadget {
                kind: *self,
                gadget: Some(Gadget::new(1)),
                points_on_hit: None,
                coin_bumper: Some(CoinBumperGadget::default()),
            },
            GadgetType::BallCannonType => PlacedGadget {
                kind: *self,
                gadget: None,
                points_on_hit: None,
                coin_bumper: None,
            },
            GadgetType::GravityReverseType => PlacedGadget {
                kind: *self,
                gadget: None,
                points_on_hit: None,
                coin_bumper: None,
            },
        }
    }
}

} // verus!
