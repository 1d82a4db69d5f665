//! The smaller pieces of the battle screen: the backdrop, the player's
//! command panel, and the bounce of the player's status panel.

use vstd::prelude::*;
use crate::battle::glue::PartyMember;
use crate::lifecycle::{Entity, Reset};

verus! {

/// The scenery behind the combatants.
pub struct BattleBackground {}

/// Where to draw the scenery: its left edge, in sub-pixel steps.
#[derive(Debug, Clone, Copy, PartialEq, Eq, Structural)]
pub struct Backdrop {
    pub x: i64,
}

impl BattleBackground {
    /// The scenery.
    pub fn new() -> Self {
        BattleBackground {  }
    }

    /// Where to draw the scenery when the scene is shifted by `offset`
    /// sub-pixel steps.
    pub fn render(&self, offset: i64) -> (backdrop: Backdrop)
        ensures
            backdrop == (Backdrop { x: offset }),
    {
        Backdrop { x: offset }
    }
}

/// The panel under the scene from which the player picks what to do.
pub struct PlayerPanel {
    alive: bool,
    x: isize,
    y: isize,
    name: String,
}

/// The state of the command panel.
pub struct PlayerPanelView {
    /// Whether the panel is on screen.
    pub alive: bool,
    /// Where the panel sits.
    pub origin: (isize, isize),
    /// The combatant that the panel asks about.
    pub name: Seq<char>,
}

/// What to draw for the command panel.
pub struct PlayerPanelDraw {
    pub x: isize,
    pub y: isize,
    /// The combatant that the panel asks about.
    pub name: String,
}

impl PlayerPanelView {
    /// A panel at `(x, y)`, off screen, asking about nobody.
    pub open spec fn fresh(x: isize, y: isize) -> PlayerPanelView {
        PlayerPanelView { alive: false, origin: (x, y), name: Seq::empty() }
    }
}

impl View for PlayerPanel {
    type V = PlayerPanelView;

    closed spec fn view(&self) -> PlayerPanelView {
        PlayerPanelView { alive: self.alive, origin: (self.x, self.y), name: self.name@ }
    }
}

impl PlayerPanel {
    /// A panel at `(x, y)`, off screen.
    pub fn new(x: isize, y: isize) -> (panel: Self)
        ensures
            panel@ == PlayerPanelView::fresh(x, y),
    {
        PlayerPanel { alive: false, x, y, name: String::new() }
    }

    /// Names the combatant that the panel asks about.
    pub fn update_text(&mut self, member: &PartyMember)
        ensures
            final(self)@ == (PlayerPanelView { name: member.name@, ..old(self)@ }),
    {
        self.name = member.name.clone();
    }

    /// What to draw for the panel, if it is on screen.
    pub fn render(&self) -> (draw: Option<PlayerPanelDraw>)
        ensures
            draw is Some == self@.alive,
            draw matches Some(d) ==> (d.x, d.y) == self@.origin && d.name@ == self@.name,
    {
        if self.alive {
            Some(PlayerPanelDraw { x: self.x, y: self.y, name: self.name.clone() })
        } else {
            None
        }
    }
}

impl Entity for PlayerPanel {
    open spec fn living(&self) -> bool {
        self@.alive
    }

    /// Puts the panel on screen.
    fn spawn(&mut self)
        ensures
            final(self)@ == (PlayerPanelView { alive: true, ..old(self)@ }),
    {
        self.alive = true;
    }

    /// Takes the panel off screen.
    fn despawn(&mut self)
        ensures
            final(self)@ == (PlayerPanelView { alive: false, ..old(self)@ }),
    {
        self.alive = false;
    }

    /// Whether the panel is on screen.
    fn alive(&self) -> (alive: bool) {
        self.alive
    }
}

/// Half the period of the bounce, in milliseconds.
pub const BOUNCE_HALF: u32 = 250;

/// The slow bounce of the player's status panel while a choice is awaited.
pub struct PlayerBounce {
    elapsed: u32,
}

impl PlayerBounce {
    /// Milliseconds into the current period.
    pub closed spec fn phase(&self) -> nat {
        self.elapsed as nat
    }

    /// Whether the panel is drawn one pixel up.
    pub open spec fn raised(&self) -> bool {
        self.phase() >= BOUNCE_HALF
    }

    #[verifier::type_invariant]
    spec fn inv(self) -> bool {
        self.elapsed < 2 * BOUNCE_HALF
    }

    /// A bounce at the start of its period.
    pub fn new() -> (bounce: Self)
        ensures
            bounce.phase() == 0,
    {
        PlayerBounce { elapsed: 0 }
    }

    /// Advances the bounce by `delta` milliseconds.
    pub fn update(&mut self, delta: u32)
        ensures
            final(self).phase() == (old(self).phase() + delta) % 500,
    {
        proof {
            use_type_invariant(&*self);
        }
        let total: u64 = self.elapsed as u64 + delta as u64;
        self.elapsed = (total % (2 * BOUNCE_HALF as u64)) as u32;
    }

    /// How many pixels up the panel is drawn.
    pub fn lift(&self) -> (lift: u8)
        ensures
            lift == (if self.raised() { 1u8 } else { 0u8 }),
    {
        if self.elapsed >= BOUNCE_HALF {
            1
        } else {
            0
        }
    }
}

impl Reset for PlayerBounce {
    open spec fn is_reset(&self) -> bool {
        self.phase() == 0
    }

    /// Puts the bounce back to the start of its period.
    fn reset(&mut self) {
        self.elapsed = 0;
    }
}

} // verus!
