//! The sequences that end an encounter.

use vstd::prelude::*;

pub mod trainer;
pub mod wild;

verus! {

/// The closing sequences there are.
#[derive(Debug, Clone, Copy, PartialEq, Eq, Structural)]
pub enum Closers {
    Wild,
    Trainer,
}

impl Default for Closers {
    fn default() -> (closer: Self)
        ensures
            closer == Closers::Wild,
    {
        Closers::Wild
    }
}

} // verus!
