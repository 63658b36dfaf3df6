//! Behaviour core of a top-down stealth game: the guards that walk their
//! rounds, look for the player, run after it and shoot at it, and the player
//! that punches them and swallows pills.
//!
//! Everything is counted in whole numbers: places in grid steps of a
//! thousandth of a unit (`geometry`), time in microseconds (`timer`), health
//! in thousandths of a point (`unit`). Each function takes what the game's
//! engine knows in one tick and decides what the tick changes; finding ways
//! over the walkable ground and casting rays through the physics world are
//! left to the caller, who hands in what they gave.

pub mod actions;
mod chance;
pub mod enemy;
pub mod geometry;
pub mod level;
pub mod pill;
pub mod player;
pub mod timer;
pub mod unit;
