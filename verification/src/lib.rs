//! A turn-based forest game: trees on a square grid live through the four
//! seasons, the player spends a small budget of actions each season, and
//! felled trees are turned into points.

pub mod entropy;
pub mod game;
pub mod season;
pub mod spawn;
pub mod timer;
pub mod ui;
