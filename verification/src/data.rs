//! Plain records of the game's data files.

pub mod font;
pub mod npc;
pub mod pokedex;
