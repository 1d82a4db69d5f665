//! The bar that shows how much health a combatant has left.

use vstd::prelude::*;

verus! {

/// Width of a full bar, in pixels.
pub const FULL_WIDTH: u8 = 48;

/// The two greens of the bar.
#[derive(Debug, Clone, Copy, PartialEq, Eq, Structural)]
pub enum Shade {
    Upper,
    Lower,
}

impl Shade {
    /// Red, green, blue and opacity of the shade, out of 255.
    pub open spec fn spec_rgba(self) -> (u8, u8, u8, u8) {
        match self {
            Shade::Upper => (88, 208, 128, 255),
            Shade::Lower => (112, 248, 168, 255),
        }
    }

    /// Red, green, blue and opacity of the shade, out of 255.
    #[verifier::when_used_as_spec(spec_rgba)]
    pub fn rgba(self) -> (color: (u8, u8, u8, u8))
        ensures
            color == self.spec_rgba(),
    {
        match self {
            Shade::Upper => (88, 208, 128, 255),
            Shade::Lower => (112, 248, 168, 255),
        }
    }
}

/// A filled rectangle.
#[derive(Debug, Clone, Copy, PartialEq, Eq, Structural)]
pub struct Bar {
    pub shade: Shade,
    pub x: i128,
    pub y: i128,
    pub width: u8,
    pub height: u8,
}

/// The width of the bar for `current` out of `max` health: the share of
/// the full width, rounded down and held to what a byte can carry. With no
/// maximum the bar is empty for no health and as wide as can be otherwise.
pub open spec fn bar_width(current: nat, max: nat) -> nat {
    if max == 0 {
        if current == 0 {
            0
        } else {
            255
        }
    } else if current * 48 / max > 255 {
        255
    } else {
        current * 48 / max
    }
}

/// A health bar inside a panel.
pub struct HealthBar {
    alive: bool,
    /// The filled part of the bar, in pixels.
    pub width: u8,
    x: isize,
    y: isize,
    panel_x: isize,
    panel_y: isize,
}

/// The state of a health bar.
pub struct HealthBarView {
    /// Whether the bar is shown.
    pub active: bool,
    /// The filled part of the bar, in pixels.
    pub width: u8,
    /// Where the bar sits inside its panel.
    pub place: (isize, isize),
    /// Where the panel sits on screen.
    pub panel: (isize, isize),
}

impl HealthBarView {
    /// The two rectangles that make up the bar: a thin upper shade and a
    /// lower one under it.
    pub open spec fn bars(self) -> (Bar, Bar) {
        (
            Bar {
                shade: Shade::Upper,
                x: (self.place.0 + self.panel.0) as i128,
                y: (self.place.1 + self.panel.1) as i128,
                width: self.width,
                height: 1,
            },
            Bar {
                shade: Shade::Lower,
                x: (self.place.0 + self.panel.0) as i128,
                y: (self.place.1 + self.panel.1 + 1) as i128,
                width: self.width,
                height: 2,
            },
        )
    }
}

impl View for HealthBar {
    type V = HealthBarView;

    closed spec fn view(&self) -> HealthBarView {
        HealthBarView {
            active: self.alive,
            width: self.width,
            place: (self.x, self.y),
            panel: (self.panel_x, self.panel_y),
        }
    }
}

impl HealthBar {
    /// A full bar at `(x, y)` inside a panel at `(panel_x, panel_y)`.
    pub fn new(x: isize, y: isize, panel_x: isize, panel_y: isize) -> (bar: Self)
        ensures
            bar@ == (HealthBarView {
                active: true,
                width: FULL_WIDTH,
                place: (x, y),
                panel: (panel_x, panel_y),
            }),
    {
        HealthBar { alive: true, width: FULL_WIDTH, x, y, panel_x, panel_y }
    }

    /// Sets the filled part for `current_health` out of `max_health`.
    pub fn update_bar(&mut self, current_health: usize, max_health: usize)
        ensures
            final(self)@ == (HealthBarView {
                width: bar_width(current_health as nat, max_health as nat) as u8,
                ..old(self)@
            }),
    {
        self.width = if max_health == 0 {
            if current_health == 0 {
                0
            } else {
                255
            }
        } else {
            let share: u128 = (current_health as u128) * 48 / (max_health as u128);
            if share > 255 {
                255
            } else {
                share as u8
            }
        };
    }

    /// The filled part of the bar, in pixels.
    pub fn width(&self) -> (width: u8)
        ensures
            width == self@.width,
    {
        self.width
    }

    /// Shows the bar.
    pub fn enable(&mut self)
        ensures
            final(self)@ == (HealthBarView { active: true, ..old(self)@ }),
    {
        self.alive = true;
    }

    /// A health bar is never hidden by itself: it goes with its panel, and
    /// disabling it leaves it shown.
    pub fn disable(&mut self)
        ensures
            final(self)@ == (HealthBarView { active: true, ..old(self)@ }),
    {
        self.alive = true;
    }

    /// Whether the bar is shown.
    pub fn is_active(&self) -> (active: bool)
        ensures
            active == self@.active,
    {
        self.alive
    }

    /// Moves the panel that the bar sits in.
    pub fn update_position(&mut self, x: isize, y: isize)
        ensures
            final(self)@ == (HealthBarView { panel: (x, y), ..old(self)@ }),
    {
        self.panel_x = x;
        self.panel_y = y;
    }

    /// The two rectangles to draw.
    pub fn render(&self) -> (bars: (Bar, Bar))
        ensures
            bars == self@.bars(),
    {
        let x: i128 = self.x as i128 + self.panel_x as i128;
        let y: i128 = self.y as i128 + self.panel_y as i128;
        (
            Bar { shade: Shade::Upper, x, y, width: self.width, height: 1 },
            Bar { shade: Shade::Lower, x, y: y + 1, width: self.width, height: 2 },
        )
    }
}

} // verus!
