//! Core logic of a physics-driven arcade game: a cannon launches a ball into
//! a playfield of limited-use scoring gadgets; between rounds the player
//! drafts cards from a deck to place new gadgets and spends coins in a shop.
//!
//! The crate covers the round/level state machine, the deck-of-cards economy
//! (draw, discard, reshuffle-on-empty, hand management, price gating) and the
//! gadget activation/deactivation lifecycle driven by collision events.
//! Rendering, physics and input belong to outside collaborators; randomness
//! enters only through an explicit generator handle.

pub mod cards;
pub mod collision;
pub mod gadgets;
pub mod player;
pub mod randomness;
pub mod resources;
pub mod session;
pub mod states;
