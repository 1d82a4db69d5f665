//! The interface of the battle screen.

pub mod battle_gui;
pub mod health_bar;
pub mod player_panel;
pub mod pokemon_gui;
