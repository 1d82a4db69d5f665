//! Panels that the player picks from.

pub mod target;
