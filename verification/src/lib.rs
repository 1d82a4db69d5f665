//! Presentation layer of a monster-battling game: the phase machines that
//! sequence an encounter, and the small world, audio and interface pieces
//! around them. Time is counted in whole milliseconds and every animated
//! quantity in fixed-point units, so that each step is an exact function of
//! its inputs.

pub mod units;
pub mod lifecycle;
pub mod strings;
pub mod text;
pub mod gui;
pub mod battle;
pub mod world;
pub mod entity;
pub mod audio;
pub mod scene;
pub mod args;
pub mod data;
