//! The production core of a solitaire hex-tile resource game.
//!
//! A board is a row of tiles, each with a resource and a production number.
//! The player claims tiles; when a dice roll equals the number of a claimed
//! tile that bears a resource, one unit of that resource is credited to the
//! player's ledger.

pub mod board;
pub mod chance;
pub mod dice;
pub mod generator;
pub mod laws;
pub mod ledger;
pub mod production;
pub mod resource;
