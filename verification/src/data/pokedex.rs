//! What the encyclopedia says of a species.

use vstd::prelude::*;

verus! {

/// Identifier of a move.
pub type MoveId = u128;

/// A level, from 1 to 100.
pub type Level = u8;

/// The sex of a combatant.
#[derive(Debug, Clone, Copy, PartialEq, Eq, Structural)]
pub enum Gender {
    Genderless,
    Male,
    Female,
}

/// The encyclopedia's entry of a species.
#[derive(Clone, Debug)]
pub struct PokedexData {
    /// What kind of creature it is said to be.
    pub species: String,
    /// Its height, in tenths of a metre.
    pub height: u8,
    /// Its weight, in tenths of a kilogram.
    pub weight: u16,
}

/// A move and the level at which a species learns it.
#[derive(Debug, Clone, Copy, PartialEq, Eq, Structural)]
pub struct LearnableMove {
    pub move_id: MoveId,
    pub level: Level,
}

/// The moves among the first `end` of `moves` that are learnt at `level`,
/// in order.
pub open spec fn learnt_at(moves: Seq<LearnableMove>, level: Level, end: int) -> Seq<MoveId>
    decreases end,
{
    if end <= 0 {
        Seq::empty()
    } else if moves[end - 1].level == level {
        learnt_at(moves, level, end - 1).push(moves[end - 1].move_id)
    } else {
        learnt_at(moves, level, end - 1)
    }
}

/// The moves that a species learns on reaching `level`.
pub fn moves_at_level(moves: &Vec<LearnableMove>, level: Level) -> (learnt: Vec<MoveId>)
    ensures
        learnt@ == learnt_at(moves@, level, moves@.len() as int),
{
    let mut learnt: Vec<MoveId> = Vec::new();
    let mut i: usize = 0;
    while i < moves.len()
        invariant
            i <= moves@.len(),
            learnt@ == learnt_at(moves@, level, i as int),
        decreases moves@.len() - i,
    {
        if moves[i].level == level {
            learnt.push(moves[i].move_id);
        }
        i += 1;
    }
    learnt
}

} // verus!
