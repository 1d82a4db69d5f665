//! Fixed-point units shared by every animated component. Time is counted
//! in milliseconds and a moving length in sub-pixel steps, a thousand to
//! the pixel, so that a speed of `n` pixels per second moves `n` steps per
//! millisecond.

use vstd::prelude::*;

verus! {

/// Width of the game screen, in pixels.
pub const WIDTH: u64 = 240;

/// Height of the game screen, in pixels.
pub const HEIGHT: u64 = 160;

/// The smaller of two naturals.
pub open spec fn least(a: nat, b: nat) -> nat {
    if a <= b { a } else { b }
}

/// The larger of two naturals.
pub open spec fn greatest(a: nat, b: nat) -> nat {
    if a >= b { a } else { b }
}

/// `a - b`, or zero where `b` exceeds `a`.
pub open spec fn monus(a: nat, b: nat) -> nat {
    if a >= b { (a - b) as nat } else { 0 }
}

} // verus!
