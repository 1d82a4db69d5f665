//! The map that the player walks on.

pub mod map;
pub mod positions;
