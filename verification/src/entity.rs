//! The things that walk the map: the player, and the textures that show
//! them.

pub mod player;
pub mod texture;
