//! The status panel of one combatant: name, level and health, sliding in
//! from the side when the combatant enters.

use vstd::prelude::*;
use crate::battle::glue::PartyMember;
use crate::gui::battle::health_bar::{bar_width, Bar, HealthBar, HealthBarView};
use crate::lifecycle::{Entity, Reset};
use crate::units::monus;

verus! {

/// How far a panel slides in, in sub-pixel steps.
pub const PANEL_TRAVEL: u64 = 128000;

/// Speed of the slide, in pixels per second.
pub const PANEL_RATE: u64 = 240;

/// Where the health bar sits inside a panel.
pub const BAR_X: isize = 39;

/// Where the health bar sits inside a panel.
pub const BAR_Y: isize = 17;

/// The status panel of one combatant.
pub struct PokemonGui {
    alive: bool,
    x: isize,
    y: isize,
    slide: u64,
    name: String,
    level: u8,
    health: HealthBar,
}

/// The state of a status panel.
pub struct PokemonGuiView {
    /// Whether the panel is on screen.
    pub alive: bool,
    /// Where the panel rests.
    pub origin: (isize, isize),
    /// How far the panel still is from its resting place, in sub-pixel steps.
    pub slide: nat,
    /// The combatant's name.
    pub name: Seq<char>,
    /// The combatant's level.
    pub level: u8,
    /// The filled part of the health bar, in pixels.
    pub health: u8,
    /// Whether the health bar is shown inside the panel.
    pub health_shown: bool,
}

impl PokemonGuiView {
    /// A panel that rests at `(x, y)`, off screen, with no name and a full
    /// health bar.
    pub open spec fn fresh(x: isize, y: isize) -> PokemonGuiView {
        PokemonGuiView {
            alive: false,
            origin: (x, y),
            slide: PANEL_TRAVEL as nat,
            name: Seq::empty(),
            level: 0,
            health: 48,
            health_shown: true,
        }
    }

    /// The panel after a frame of sliding, and whether it was at rest
    /// before the frame. A panel off screen neither moves nor rests.
    pub open spec fn slid(self, delta: nat) -> (PokemonGuiView, bool) {
        if !self.alive {
            (self, false)
        } else if self.slide == 0 {
            (self, true)
        } else {
            (PokemonGuiView { slide: monus(self.slide, PANEL_RATE as nat * delta), ..self }, false)
        }
    }

    /// What is drawn for the panel while it is on screen: the panel as far
    /// to the right of its resting place as it has still to slide, with the
    /// health bar at its fixed place inside.
    pub open spec fn drawn(self) -> PanelDrawView {
        PanelDrawView {
            x: (self.origin.0 * 1000 + self.slide) as i128,
            y: self.origin.1 as i128,
            name: self.name,
            level: self.level,
            health: (HealthBarView {
                active: self.health_shown,
                width: self.health,
                place: (BAR_X, BAR_Y),
                panel: self.origin,
            }).bars(),
        }
    }

    /// Whether `draw` is what is drawn for the panel: nothing off screen.
    pub open spec fn shows(self, draw: Option<PanelDraw>) -> bool {
        match draw {
            Some(d) => self.alive && d@ == self.drawn(),
            None => !self.alive,
        }
    }

    /// The panel put back: off screen, at the far end of its slide.
    pub open spec fn cleared(self) -> PokemonGuiView {
        PokemonGuiView { alive: false, slide: PANEL_TRAVEL as nat, ..self }
    }

    /// The panel put on screen, at the far end of its slide.
    pub open spec fn spawned(self) -> PokemonGuiView {
        PokemonGuiView { alive: true, slide: PANEL_TRAVEL as nat, ..self }
    }

    /// The panel showing `member`.
    pub open spec fn showing(self, member: PartyMember) -> PokemonGuiView {
        PokemonGuiView {
            name: member.name@,
            level: member.level,
            health: bar_width(member.hp as nat, member.max_hp as nat) as u8,
            ..self
        }
    }
}

/// What is drawn for a status panel, as contracts see it.
pub struct PanelDrawView {
    pub x: i128,
    pub y: i128,
    pub name: Seq<char>,
    pub level: u8,
    pub health: (Bar, Bar),
}

impl View for PanelDraw {
    type V = PanelDrawView;

    open spec fn view(&self) -> PanelDrawView {
        PanelDrawView { x: self.x, y: self.y, name: self.name@, level: self.level, health: self.health }
    }
}

/// What to draw for a status panel.
pub struct PanelDraw {
    /// Left edge of the panel, in sub-pixel steps; the slide is added to the
    /// resting place.
    pub x: i128,
    /// Top edge of the panel, in pixels.
    pub y: i128,
    /// The combatant's name.
    pub name: String,
    /// The combatant's level.
    pub level: u8,
    /// The health bar.
    pub health: (Bar, Bar),
}

impl View for PokemonGui {
    type V = PokemonGuiView;

    closed spec fn view(&self) -> PokemonGuiView {
        PokemonGuiView {
            alive: self.alive,
            origin: (self.x, self.y),
            slide: self.slide as nat,
            name: self.name@,
            level: self.level,
            health: self.health@.width,
            health_shown: self.health@.active,
        }
    }
}

impl PokemonGui {
    #[verifier::type_invariant]
    spec fn inv(self) -> bool {
        &&& self.slide <= PANEL_TRAVEL
        &&& self.health@.place == (BAR_X, BAR_Y)
        &&& self.health@.panel == (self.x, self.y)
        &&& self.health@.active
    }

    /// A panel that rests at `(x, y)`, off screen and empty.
    pub fn new(x: isize, y: isize) -> (gui: Self)
        ensures
            gui@ == PokemonGuiView::fresh(x, y),
    {
        PokemonGui {
            alive: false,
            x,
            y,
            slide: PANEL_TRAVEL,
            name: String::new(),
            level: 0,
            health: HealthBar::new(BAR_X, BAR_Y, x, y),
        }
    }

    /// Fills the panel in from the combatant `member`.
    pub fn update_gui(&mut self, member: &PartyMember)
        ensures
            final(self)@ == old(self)@.showing(*member),
    {
        proof {
            use_type_invariant(&*self);
        }
        let mut health = HealthBar::new(BAR_X, BAR_Y, self.x, self.y);
        health.update_bar(member.hp as usize, member.max_hp as usize);
        *self = PokemonGui {
            alive: self.alive,
            x: self.x,
            y: self.y,
            slide: self.slide,
            name: member.name.clone(),
            level: member.level,
            health,
        };
    }

    /// Slides the panel towards its resting place. Returns whether the
    /// panel was on screen and at rest already.
    pub fn offset(&mut self, delta: u32) -> (resting: bool)
        ensures
            (final(self)@, resting) == old(self)@.slid(delta as nat),
    {
        proof {
            use_type_invariant(&*self);
        }
        if !self.alive {
            false
        } else if self.slide == 0 {
            true
        } else {
            let step: u64 = PANEL_RATE * (delta as u64);
            self.slide = if self.slide >= step {
                self.slide - step
            } else {
                0
            };
            false
        }
    }

    /// What to draw for the panel, if it is on screen.
    pub fn render(&self) -> (draw: Option<PanelDraw>)
        ensures
            self@.shows(draw),
    {
        proof {
            use_type_invariant(self);
        }
        if self.alive {
            Some(
                PanelDraw {
                    x: (self.x as i128) * 1000 + (self.slide as i128),
                    y: self.y as i128,
                    name: self.name.clone(),
                    level: self.level,
                    health: self.health.render(),
                },
            )
        } else {
            None
        }
    }
}

impl Entity for PokemonGui {
    open spec fn living(&self) -> bool {
        self@.alive
    }

    /// Puts the panel on screen, at the far end of its slide.
    fn spawn(&mut self)
        ensures
            final(self)@ == old(self)@.spawned(),
    {
        proof {
            use_type_invariant(&*self);
        }
        self.alive = true;
        self.slide = PANEL_TRAVEL;
    }

    /// Takes the panel off screen.
    fn despawn(&mut self)
        ensures
            final(self)@ == (PokemonGuiView { alive: false, ..old(self)@ }),
    {
        proof {
            use_type_invariant(&*self);
        }
        self.alive = false;
    }

    /// Whether the panel is on screen.
    fn alive(&self) -> (alive: bool) {
        self.alive
    }
}

impl Reset for PokemonGui {
    open spec fn is_reset(&self) -> bool {
        !self@.alive && self@.slide == PANEL_TRAVEL
    }

    /// Puts the panel back where it was made: off screen, at the far end of
    /// its slide.
    fn reset(&mut self)
        ensures
            final(self)@ == old(self)@.cleared(),
    {
        proof {
            use_type_invariant(&*self);
        }
        self.alive = false;
        self.slide = PANEL_TRAVEL;
    }
}

} // verus!
