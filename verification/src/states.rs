//! The application and level phase enumerations.

use vstd::prelude::*;

verus! {

/// Top-level application phase. Only `InGame` hosts the level state machine.
#[derive(Clone, Copy, Debug, PartialEq, Eq, Structural)]
pub enum AppState {
    Loading,
    Startup,
    Menu,
    InGame,
    Experiments,
}

/// Phase of one level, advanced only through explicit transition requests.
///
/// The intended flow is
/// `LevelStart -> WidgetSelection -> PlaceWidget -> ShootBall -> BallBouncing
/// -> EndOfRound -> (WidgetSelection | Shop | GameOver)`, with `Shop` looping
/// back to `WidgetSelection` and `GameOver` offering a retry to `LevelStart`.
#[derive(Clone, Copy, Debug, PartialEq, Eq, Structural)]
pub enum LevelState {
    LevelStart,
    WidgetSelection,
    PlaceWidget,
    ShootBall,
    BallBouncing,
    EndOfRound,
    Shop,
    GameOver,
}

} // verus!
