//! The plain closing sequence: the screen fades to black, then the black
//! fades away over the map.

use vstd::prelude::*;
use crate::battle::glue::{BattleId, BattleTrainerEntry};
use crate::lifecycle::{Completable, Entity, Reset, Sequence};
use crate::text::TextDisplay;
use crate::units::{monus, WIDTH, HEIGHT};

verus! {

/// The opacity of a fully black screen.
pub const OPAQUE: u64 = 2000;

/// How far the opacity moves in one millisecond: four and a half times
/// `OPAQUE` in a second.
pub const FADE_RATE: u64 = 9;

/// The closing sequence of a wild encounter.
pub struct WildBattleCloser {
    alpha: u64,
    world: bool,
}

/// The state of the fade.
pub struct FadeView {
    /// Opacity of the black overlay, `OPAQUE` being solid black.
    pub alpha: nat,
    /// Whether the map is what lies under the overlay.
    pub world: bool,
}

impl FadeView {
    /// The fade before its first frame after a reset.
    pub open spec fn cleared() -> FadeView {
        FadeView { alpha: 0, world: false }
    }

    /// The fade after `delta` more milliseconds: the overlay darkens until it
    /// is solid, which brings the map in, and lightens from then on.
    pub open spec fn faded(self, delta: nat) -> FadeView {
        let alpha = if self.world {
            monus(self.alpha, FADE_RATE as nat * delta)
        } else {
            self.alpha + FADE_RATE as nat * delta
        };
        FadeView { alpha, world: self.world || alpha >= OPAQUE }
    }

    /// Whether the overlay is gone again with the map under it.
    pub open spec fn finished(self) -> bool {
        self.alpha == 0 && self.world
    }
}

/// A rectangle of black laid over the screen.
#[derive(Debug, Clone, Copy, PartialEq, Eq, Structural)]
pub struct Overlay {
    pub x: u64,
    pub y: u64,
    pub width: u64,
    pub height: u64,
    /// Opacity, `OPAQUE` or more being solid.
    pub alpha: u64,
}

impl View for WildBattleCloser {
    type V = FadeView;

    closed spec fn view(&self) -> FadeView {
        FadeView { alpha: self.alpha as nat, world: self.world }
    }
}

impl Default for WildBattleCloser {
    fn default() -> (closer: Self)
        ensures
            closer@ == WildBattleCloser::default_view(),
    {
        WildBattleCloser { alpha: OPAQUE, world: false }
    }
}

impl WildBattleCloser {
    #[verifier::type_invariant]
    spec fn inv(self) -> bool {
        &&& self.alpha <= OPAQUE + FADE_RATE * u32::MAX
        &&& !self.world ==> self.alpha <= OPAQUE
    }

    /// The fade of a closer that was never reset: solid black, waiting for
    /// the map.
    pub open spec fn default_view() -> FadeView {
        FadeView { alpha: OPAQUE as nat, world: false }
    }

    /// The overlay that shows the fade `fade`.
    pub open spec fn overlay(fade: FadeView) -> Overlay {
        Overlay { x: 0, y: 0, width: WIDTH, height: HEIGHT, alpha: fade.alpha as u64 }
    }

    /// Starts the sequence. A wild encounter ends without a word: the
    /// dialogue is taken off screen, whoever won.
    pub fn spawn(
        &mut self,
        player: &BattleId,
        player_name: &str,
        winner: Option<&BattleId>,
        trainer_entry: Option<&BattleTrainerEntry>,
        text: &mut TextDisplay,
    )
        ensures
            final(self)@ == old(self)@,
            final(text)@ == old(text)@.despawned(),
    {
        text.despawn();
    }

    /// Advances the fade by one frame.
    pub fn update(&mut self, delta: u32)
        ensures
            final(self)@ == old(self)@.faded(delta as nat),
    {
        proof {
            use_type_invariant(&*self);
        }
        let step: u64 = FADE_RATE * (delta as u64);
        let alpha: u64 = if self.world {
            if self.alpha >= step {
                self.alpha - step
            } else {
                0
            }
        } else {
            self.alpha + step
        };
        let world = self.world || alpha >= OPAQUE;
        *self = WildBattleCloser { alpha, world };
    }

    /// Whether the map is to be drawn under the overlay.
    pub fn world_active(&self) -> (active: bool)
        ensures
            active == self@.world,
    {
        self.world
    }

    /// The overlay to draw over the whole screen.
    pub fn draw(&self) -> (overlay: Overlay)
        ensures
            overlay == Self::overlay(self@),
            overlay.alpha == self@.alpha,
    {
        Overlay { x: 0, y: 0, width: WIDTH, height: HEIGHT, alpha: self.alpha }
    }
}

impl Completable for WildBattleCloser {
    open spec fn completed(&self) -> bool {
        self@.finished()
    }

    /// Whether the sequence is over: the overlay is gone and the map is in.
    fn finished(&self) -> (finished: bool) {
        self.alpha == 0 && self.world
    }
}

impl Reset for WildBattleCloser {
    open spec fn is_reset(&self) -> bool {
        self@ == FadeView::cleared()
    }

    /// Puts the sequence back to its start.
    fn reset(&mut self) {
        *self = WildBattleCloser { alpha: 0, world: false };
    }
}

impl Sequence for WildBattleCloser {
    proof fn reset_is_unfinished(&self) {
    }
}

} // verus!
