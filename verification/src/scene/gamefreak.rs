//! The opening credits: a band opens across the screen, a star flies over
//! it, and the logo and the name fade in.

use vstd::prelude::*;
use crate::audio::music::Music;
use crate::units::{least, monus};

verus! {

/// Whether a loading scene goes on or is over.
#[derive(Debug, Clone, Copy, PartialEq, Eq, Structural)]
pub enum LoadingState {
    Continue,
    End,
}

/// Height of the open band, in sub-pixel steps.
pub const BAND_HEIGHT: u64 = 96000;

/// Speed at which the band opens, in pixels per second.
pub const BAND_RATE: u64 = 480;

/// How long the credits run, in milliseconds.
pub const RUN_TIME: u64 = 8500;

/// Where the clock of the credits stops, long after their end.
pub const CLOCK_LIMIT: u64 = 0xffff_ffff_ffff;

/// For how long the star is in sight, in milliseconds.
pub const STAR_TIME: u64 = 2000;

/// The opening credits.
pub struct GamefreakLoadingScene {
    state: LoadingState,
    accumulator: u64,
    rect_size: u64,
}

/// The state of the credits.
pub struct CreditsView {
    /// Whether the credits go on.
    pub state: LoadingState,
    /// Milliseconds since the start.
    pub accumulator: nat,
    /// Height of the band, in sub-pixel steps.
    pub rect_size: nat,
}

/// What to draw for the credits. Lengths are in sub-pixel steps and times
/// in milliseconds.
#[derive(Debug, Clone, Copy)]
pub struct CreditsDraw {
    /// Top edge and height of the band, which spans the screen.
    pub band_y: u64,
    pub band_height: u64,
    /// The star, while in sight: left and top edge, and the time that its
    /// turning is taken from.
    pub star: Option<(i64, u64, u64)>,
    /// How long the logo has been fading in, if it has started.
    pub logo_fade: Option<u64>,
    /// How long the name has been fading in, if it has started.
    pub text_fade: Option<u64>,
}

impl CreditsView {
    /// The credits at their start.
    pub open spec fn started() -> CreditsView {
        CreditsView { state: LoadingState::Continue, accumulator: 0, rect_size: 0 }
    }

    /// The credits after `delta` more milliseconds: the band opens up to
    /// its full height, and the credits are over once their time is up. The
    /// clock stops at its limit.
    pub open spec fn advanced(self, delta: nat) -> CreditsView {
        CreditsView {
            state: if self.accumulator + delta > RUN_TIME {
                LoadingState::End
            } else {
                self.state
            },
            accumulator: least(self.accumulator + delta, CLOCK_LIMIT as nat),
            rect_size: if self.rect_size < BAND_HEIGHT {
                least(self.rect_size + BAND_RATE as nat * delta, BAND_HEIGHT as nat)
            } else {
                self.rect_size
            },
        }
    }

    /// What to draw: the band in the middle of the screen; the star flying
    /// left at 240 pixels per second and sinking at 5, for its first two
    /// seconds; the name from the fourth second and the logo from the sixth.
    pub open spec fn drawn(self) -> CreditsDraw {
        CreditsDraw {
            band_y: (monus(160000, self.rect_size) / 2) as u64,
            band_height: self.rect_size as u64,
            star: if self.accumulator < STAR_TIME {
                Some(
                    (
                        (240000 - self.accumulator * 240) as i64,
                        (64000 + self.accumulator * 5) as u64,
                        self.accumulator as u64,
                    ),
                )
            } else {
                None
            },
            logo_fade: if self.accumulator >= 6000 {
                Some((self.accumulator - 6000) as u64)
            } else {
                None
            },
            text_fade: if self.accumulator >= 4000 {
                Some((self.accumulator - 4000) as u64)
            } else {
                None
            },
        }
    }
}

impl View for GamefreakLoadingScene {
    type V = CreditsView;

    closed spec fn view(&self) -> CreditsView {
        CreditsView {
            state: self.state,
            accumulator: self.accumulator as nat,
            rect_size: self.rect_size as nat,
        }
    }
}

impl GamefreakLoadingScene {
    #[verifier::type_invariant]
    spec fn inv(self) -> bool {
        &&& self.rect_size <= BAND_HEIGHT
        &&& self.accumulator <= CLOCK_LIMIT
    }

    /// The credits at their start.
    pub fn new() -> (scene: Self)
        ensures
            scene@ == CreditsView::started(),
    {
        GamefreakLoadingScene { state: LoadingState::Continue, accumulator: 0, rect_size: 0 }
    }

    /// Starts the credits over. Returns the track to play.
    pub fn on_start(&mut self) -> (music: Music)
        ensures
            final(self)@ == CreditsView::started(),
            music == Music::IntroGamefreak,
    {
        *self = GamefreakLoadingScene { state: LoadingState::Continue, accumulator: 0, rect_size: 0 };
        Music::IntroGamefreak
    }

    /// Advances the credits by one frame.
    pub fn update(&mut self, delta: u32)
        ensures
            final(self)@ == old(self)@.advanced(delta as nat),
    {
        proof {
            use_type_invariant(&*self);
        }
        let accumulator: u64 = if self.accumulator > CLOCK_LIMIT - (delta as u64) {
            CLOCK_LIMIT
        } else {
            self.accumulator + (delta as u64)
        };
        let rect_size: u64 = if self.rect_size < BAND_HEIGHT {
            let step: u64 = BAND_RATE * (delta as u64);
            if BAND_HEIGHT - self.rect_size > step {
                self.rect_size + step
            } else {
                BAND_HEIGHT
            }
        } else {
            self.rect_size
        };
        let state = if accumulator > RUN_TIME {
            LoadingState::End
        } else {
            self.state
        };
        *self = GamefreakLoadingScene { state, accumulator, rect_size };
    }

    /// What to draw.
    pub fn render(&self) -> (draw: CreditsDraw)
        ensures
            draw == self@.drawn(),
    {
        proof {
            use_type_invariant(self);
        }
        CreditsDraw {
            band_y: (160000 - self.rect_size) / 2,
            band_height: self.rect_size,
            star: if self.accumulator < STAR_TIME {
                Some(
                    (
                        240000 - (self.accumulator as i64) * 240,
                        64000 + self.accumulator * 5,
                        self.accumulator,
                    ),
                )
            } else {
                None
            },
            logo_fade: if self.accumulator >= 6000 {
                Some(self.accumulator - 6000)
            } else {
                None
            },
            text_fade: if self.accumulator >= 4000 {
                Some(self.accumulator - 4000)
            } else {
                None
            },
        }
    }

    /// Whether the credits go on.
    pub fn state(&self) -> (state: LoadingState)
        ensures
            state == self@.state,
    {
        self.state
    }
}

} // verus!
