//! Core data model of a small creature-collecting game: the catalog of
//! species and creatures (the "Dex"), the attack catalog with its
//! compatibility filter, element-dependent stat derivation, the player's
//! team, and the fight state machine.

pub mod text;
pub mod element;
pub mod attribute;
pub mod target;
pub mod stats;
pub mod species;
pub mod attack;
pub mod json;
pub mod dex;
pub mod team;
pub mod fight;
