//! Interface pieces: what is on screen besides the sprites.

pub mod basic_button;
pub mod battle;
pub mod panels;
