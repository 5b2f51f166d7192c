//! Gameplay rules for a small top-down arcade game: a player-controlled
//! circle dodges bouncing enemy circles while collecting star pickups.
//!
//! All coordinates are fixed-point integers measured in milli-units
//! (one thousandth of a screen unit), so the movement, confinement,
//! bounce and collision rules can be stated and proved exactly.

pub mod bounce;
pub mod bounds;
pub mod collision;
pub mod entities;
pub mod geometry;
pub mod hits;
pub mod motion;
pub mod score;
pub mod spawn;
pub mod state;
pub mod timers;
