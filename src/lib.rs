//! Rules engine for a territory and economy board game: factions, the hex map,
//! the initial building placement, and the three-bowl power economy.

pub mod error;
pub mod common;
pub mod resources;
pub mod power;
pub mod race;
pub mod bonustile;
pub mod building;
pub mod faction;
pub mod map;
pub mod gamephase;
pub mod game;
pub mod pregame;
pub mod scoringtile;
pub mod helpers;
pub mod bookaction;
pub mod random;
