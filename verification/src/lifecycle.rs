//! The lifecycle that every animated piece shares: it can be put on and off
//! screen, be put back to its start, and say whether it has run its course.

use vstd::prelude::*;

verus! {

/// Something that reaches an end.
pub trait Completable {
    /// Whether the end has been reached.
    spec fn completed(&self) -> bool;

    /// Whether the end has been reached. Asking changes nothing.
    fn finished(&self) -> (finished: bool)
        ensures
            finished == self.completed(),
    ;
}

/// Something that can be put back to its start, from any state.
pub trait Reset {
    /// Whether the value is as `reset` leaves it.
    spec fn is_reset(&self) -> bool;

    /// Puts the value back to its start.
    fn reset(&mut self)
        ensures
            final(self).is_reset(),
    ;
}

/// Something that is on screen or off.
pub trait Entity {
    /// Whether the value is on screen.
    spec fn living(&self) -> bool;

    /// Puts the value on screen.
    fn spawn(&mut self)
        ensures
            final(self).living(),
    ;

    /// Takes the value off screen.
    fn despawn(&mut self)
        ensures
            !final(self).living(),
    ;

    /// Whether the value is on screen.
    fn alive(&self) -> (alive: bool)
        ensures
            alive == self.living(),
    ;
}

/// A sequence that can be run again: once put back to its start it has not
/// run its course.
pub trait Sequence: Completable + Reset {
    /// A value as `reset` leaves it is never finished.
    proof fn reset_is_unfinished(&self)
        requires
            self.is_reset(),
        ensures
            !self.completed(),
    ;
}

} // verus!
