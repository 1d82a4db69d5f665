//! The wipe that closes the screen before a battle: two black bars grow
//! from the top and the bottom until they meet.

use vstd::prelude::*;
use crate::lifecycle::{Completable, Entity, Reset, Sequence};
use crate::units::least;

verus! {

/// Where the bars meet: half the height of the screen, in sub-pixel steps.
pub const HALF_HEIGHT: u64 = 80000;

/// From where on the bars speed up, in sub-pixel steps.
pub const HASTE_FROM: u64 = 24000;

/// Speed of the bars at the start, in pixels per second.
pub const START_SPEED: u16 = 120;

/// The closing wipe.
pub struct VerticalCloseBattleScreenTransition {
    active: bool,
    finished: bool,
    offset: u64,
    speed: u16,
}

/// The state of the wipe.
pub struct WipeView {
    /// Whether the wipe is on screen.
    pub active: bool,
    /// Whether the bars have met.
    pub finished: bool,
    /// Height of each bar, in sub-pixel steps.
    pub offset: nat,
    /// Speed of the bars, in pixels per second.
    pub speed: u16,
}

/// A black bar: all measures in sub-pixel steps.
#[derive(Debug, Clone, Copy, PartialEq, Eq, Structural)]
pub struct WipeBar {
    pub x: u64,
    pub y: u64,
    pub width: u64,
    pub height: u64,
}

impl WipeView {
    /// The speed for the next frame: doubled once the bars are past the
    /// point of haste, as far as the speed can go.
    pub open spec fn hastened(self) -> u16 {
        if self.offset >= HASTE_FROM {
            if self.speed as nat * 2 > u16::MAX {
                u16::MAX
            } else {
                (self.speed * 2) as u16
            }
        } else {
            self.speed
        }
    }

    /// The wipe after `delta` more milliseconds. The bars stop where they
    /// meet.
    pub open spec fn wiped(self, delta: nat) -> WipeView {
        let speed = self.hastened();
        let offset = least(self.offset + speed as nat * delta, HALF_HEIGHT as nat);
        WipeView { speed, offset, finished: self.finished || offset >= HALF_HEIGHT, ..self }
    }

    /// The wipe put back to its start.
    pub open spec fn cleared(self) -> WipeView {
        WipeView { offset: 0, speed: START_SPEED, finished: false, ..self }
    }

    /// The upper and the lower bar. The lower one is drawn to a whole pixel.
    pub open spec fn bars(self) -> (WipeBar, WipeBar) {
        (
            WipeBar { x: 0, y: 0, width: 240000, height: self.offset as u64 },
            WipeBar {
                x: 0,
                y: (160000 - self.offset) as u64,
                width: 240000,
                height: ((self.offset + 999) / 1000 * 1000) as u64,
            },
        )
    }
}

impl View for VerticalCloseBattleScreenTransition {
    type V = WipeView;

    closed spec fn view(&self) -> WipeView {
        WipeView {
            active: self.active,
            finished: self.finished,
            offset: self.offset as nat,
            speed: self.speed,
        }
    }
}

impl VerticalCloseBattleScreenTransition {
    #[verifier::type_invariant]
    spec fn inv(self) -> bool {
        self.offset <= HALF_HEIGHT
    }

    /// A wipe that has not started.
    pub fn new() -> (wipe: Self)
        ensures
            wipe@ == (WipeView { active: false, finished: false, offset: 0, speed: START_SPEED }),
    {
        VerticalCloseBattleScreenTransition { active: false, finished: false, offset: 0, speed: START_SPEED }
    }

    /// Advances the wipe by one frame.
    pub fn update(&mut self, delta: u32)
        ensures
            final(self)@ == old(self)@.wiped(delta as nat),
    {
        proof {
            use_type_invariant(&*self);
        }
        let speed: u16 = if self.offset >= HASTE_FROM {
            if self.speed > u16::MAX / 2 {
                u16::MAX
            } else {
                self.speed * 2
            }
        } else {
            self.speed
        };
        assert((speed as u64) * (delta as u64) <= 0xffff * 0xffff_ffff) by (nonlinear_arith)
            requires
                speed <= 0xffff,
                delta <= 0xffff_ffff,
        ;
        let step: u64 = (speed as u64) * (delta as u64);
        let offset: u64 = if HALF_HEIGHT - self.offset > step {
            self.offset + step
        } else {
            HALF_HEIGHT
        };
        let finished = self.finished || offset >= HALF_HEIGHT;
        *self = VerticalCloseBattleScreenTransition { active: self.active, finished, offset, speed };
    }

    /// The two bars to draw.
    pub fn render(&self) -> (bars: (WipeBar, WipeBar))
        ensures
            bars == self@.bars(),
    {
        proof {
            use_type_invariant(self);
        }
        (
            WipeBar { x: 0, y: 0, width: 240000, height: self.offset },
            WipeBar {
                x: 0,
                y: 160000 - self.offset,
                width: 240000,
                height: (self.offset + 999) / 1000 * 1000,
            },
        )
    }
}

impl Completable for VerticalCloseBattleScreenTransition {
    open spec fn completed(&self) -> bool {
        self@.finished
    }

    /// Whether the bars have met.
    fn finished(&self) -> (finished: bool) {
        self.finished
    }
}

impl Reset for VerticalCloseBattleScreenTransition {
    open spec fn is_reset(&self) -> bool {
        self@ == self@.cleared()
    }

    /// Puts the wipe back to its start.
    fn reset(&mut self)
        ensures
            final(self)@ == old(self)@.cleared(),
    {
        proof {
            use_type_invariant(&*self);
        }
        *self = VerticalCloseBattleScreenTransition {
            active: self.active,
            finished: false,
            offset: 0,
            speed: START_SPEED,
        };
    }
}

impl Sequence for VerticalCloseBattleScreenTransition {
    proof fn reset_is_unfinished(&self) {
    }
}

impl Entity for VerticalCloseBattleScreenTransition {
    open spec fn living(&self) -> bool {
        self@.active
    }

    /// Puts the wipe on screen, at its start.
    fn spawn(&mut self)
        ensures
            final(self)@ == (WipeView { active: true, ..old(self)@.cleared() }),
    {
        proof {
            use_type_invariant(&*self);
        }
        *self = VerticalCloseBattleScreenTransition {
            active: true,
            finished: false,
            offset: 0,
            speed: START_SPEED,
        };
    }

    /// Takes the wipe off screen.
    fn despawn(&mut self)
        ensures
            final(self)@ == (WipeView { active: false, finished: false, ..old(self)@ }),
    {
        proof {
            use_type_invariant(&*self);
        }
        self.active = false;
        self.finished = false;
    }

    /// Whether the wipe is on screen.
    fn alive(&self) -> (alive: bool) {
        self.active
    }
}

} // verus!
