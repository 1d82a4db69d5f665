//! The managers: each holds the variants of one kind of sequence and runs
//! the one that the encounter calls for.

pub mod closer;
pub mod introduction;
pub mod transition;
