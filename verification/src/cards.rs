//! Card identifiers: the draftable / purchasable effects of the game.
//!
//! Cards are plain values; an immutable catalog (see `resources`) maps each
//! card to its price, display text and, for gadget cards, the gadget
//! archetype it places.

use vstd::prelude::*;

use crate::gadgets::GadgetType;

verus! {

/// Identifier of a draftable or purchasable card.
#[derive(Clone, Copy, Debug, PartialEq, Eq, Structural)]
pub enum ShopCardType {
    OneMoreBallCard,
    MoreBallsCard,
    SquareBlockCard,
    WideBlockCard,
    BumperCard,
    CoinBumperCard,
    HighFrictionBlockCard,
    MagnetCard,
    ReactivateLaserBridgeCard,
    GravityReverserCard,
    MultiBallCard,
    RecycleGadgetCard,
    RearrangeGadgetCard,
}

impl ShopCardType {
    /// The gadget archetype a card places, if it places one.
    pub open spec fn gadget_type_spec(self) -> Option<GadgetType> {
        match self {
            ShopCardType::SquareBlockCard => Some(GadgetType::SquareBlockType),
            ShopCardType::WideBlockCard => Some(GadgetType::WideBlockType),
            ShopCardType::BumperCard => Some(GadgetType::BumperType),
            ShopCardType::CoinBumperCard => Some(GadgetType::CoinBumperType),
            _ => None,
        }
    }

    pub fn get_gadget_type(&self) -> (r: Option<GadgetType>)
        ensures
            r == self.gadget_type_spec(),
    {
        match self {
            ShopCardType::SquareBlockCard => Some(GadgetType::SquareBlockType),
            ShopCardType::WideBlockCard => Some(GadgetType::WideBlockType),
            ShopCardType::BumperCard => Some(GadgetType::BumperType),
            ShopCardType::CoinBumperCard => Some(GadgetType::CoinBumperType),
            _ => None,
        }
    }
}

/// A card as it sits in the shop or in the hand display.
#[derive(Clone, Copy, Debug, PartialEq, Eq, Structural)]
pub struct ShopCard {
    pub card_type: ShopCardType,
}

impl ShopCard {
    pub fn new(card_type: ShopCardType) -> (r: ShopCard)
        ensures
            r.card_type == card_type,
    {
        Self { card_type }
    }
}

} // verus!
