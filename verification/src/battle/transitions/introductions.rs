//! The sequences that open an encounter.

use vstd::prelude::*;

pub mod basic;
pub mod trainer;

verus! {

/// The opening sequences there are.
#[derive(Debug, Clone, Copy, PartialEq, Eq, Structural)]
pub enum Introductions {
    Basic,
    Trainer,
}

impl Default for Introductions {
    fn default() -> (introduction: Self)
        ensures
            introduction == Introductions::Basic,
    {
        Introductions::Basic
    }
}

/// The sounds that a frame of an opening sequence asks for.
#[derive(Debug, Clone, Copy, PartialEq, Eq, Structural)]
pub struct IntroCues {
    /// The opponent's combatant has just appeared: play its cry.
    pub opponent_cry: bool,
    /// The player's combatant has just appeared: play its cry.
    pub player_cry: bool,
}

} // verus!
