//! The animated sequences of an encounter and the managers that run them.

use vstd::prelude::*;

pub mod closers;
pub mod introductions;
pub mod managers;
pub mod screen;

verus! {

/// Where a sequencer stands: about to begin, running, or done and waiting
/// to be put back.
#[derive(Debug, Clone, Copy, PartialEq, Eq, Structural)]
pub enum TransitionState {
    Begin,
    Run,
    End,
}

impl Default for TransitionState {
    fn default() -> (state: Self)
        ensures
            state == TransitionState::Begin,
    {
        TransitionState::Begin
    }
}

} // verus!
