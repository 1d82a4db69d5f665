//! The battle screen as a whole: the backdrop, the two status panels, the
//! command panel and the dialogue.

use vstd::prelude::*;
use crate::battle::glue::PartyMember;
use crate::gui::battle::player_panel::{
    Backdrop, BattleBackground, PlayerBounce, PlayerPanel, PlayerPanelDraw, PlayerPanelView,
};
use crate::gui::battle::pokemon_gui::{PanelDraw, PokemonGui, PokemonGuiView};
use crate::lifecycle::{Entity, Reset};
use crate::text::{TextDisplay, TextView};

verus! {

/// The battle screen.
pub struct BattleGui {
    /// Whether the screen is shown.
    pub alive: bool,
    pub battle_background: BattleBackground,
    pub player_pokemon_gui: PokemonGui,
    pub opponent_pokemon_gui: PokemonGui,
    pub player_panel: PlayerPanel,
    pub battle_text: TextDisplay,
    pub player_bounce: PlayerBounce,
}

/// The state of the battle screen.
pub struct BattleGuiView {
    /// Whether the screen is shown.
    pub alive: bool,
    /// The player's status panel.
    pub player: PokemonGuiView,
    /// The opponent's status panel.
    pub opponent: PokemonGuiView,
    /// The command panel.
    pub panel: PlayerPanelView,
    /// The dialogue.
    pub text: TextView,
    /// Milliseconds into the bounce of the player's status panel.
    pub bounce: nat,
}

/// What to draw for the lower part of the screen.
pub struct PanelLayer {
    /// The command panel, if it is on screen.
    pub panel: Option<PlayerPanelDraw>,
    /// The lines of the dialogue's current page, if it is on screen.
    pub text: Option<Vec<String>>,
}

impl View for BattleGui {
    type V = BattleGuiView;

    open spec fn view(&self) -> BattleGuiView {
        BattleGuiView {
            alive: self.alive,
            player: self.player_pokemon_gui@,
            opponent: self.opponent_pokemon_gui@,
            panel: self.player_panel@,
            text: self.battle_text@,
            bounce: self.player_bounce.phase(),
        }
    }
}

impl BattleGuiView {
    /// The screen with every piece in its place and nothing shown: the
    /// player's status panel to the lower right, the opponent's to the
    /// upper left, the command panel along the bottom, and no dialogue.
    pub open spec fn fresh() -> BattleGuiView {
        BattleGuiView {
            alive: false,
            player: PokemonGuiView::fresh(127, 75),
            opponent: PokemonGuiView::fresh(14, 18),
            panel: PlayerPanelView::fresh(0, 113),
            text: TextView::blank(),
            bounce: 0,
        }
    }

    /// The screen filled in from the two combatants that lead.
    pub open spec fn showing(self, player: PartyMember, opponent: PartyMember) -> BattleGuiView {
        BattleGuiView {
            panel: PlayerPanelView { name: player.name@, ..self.panel },
            opponent: self.opponent.showing(opponent),
            player: self.player.showing(player),
            ..self
        }
    }

    /// The screen put back: both status panels off screen at the far end of
    /// their slide, the bounce at its start.
    pub open spec fn cleared(self) -> BattleGuiView {
        BattleGuiView {
            player: self.player.cleared(),
            opponent: self.opponent.cleared(),
            bounce: 0,
            ..self
        }
    }
}

impl BattleGui {
    /// The screen with every piece in its place and nothing shown.
    pub fn new() -> (gui: Self)
        ensures
            gui@ == BattleGuiView::fresh(),
    {
        BattleGui {
            alive: false,
            battle_background: BattleBackground::new(),
            player_panel: PlayerPanel::new(0, 113),
            player_pokemon_gui: PokemonGui::new(127, 75),
            opponent_pokemon_gui: PokemonGui::new(14, 18),
            battle_text: TextDisplay::new(),
            player_bounce: PlayerBounce::new(),
        }
    }

    /// Fills the screen in at the start of a battle.
    pub fn on_battle_start(&mut self, player: &PartyMember, opponent: &PartyMember)
        ensures
            final(self)@ == old(self)@.showing(*player, *opponent),
    {
        self.update_gui(player, opponent);
    }

    /// Fills the screen in from the two combatants that lead.
    pub fn update_gui(&mut self, player: &PartyMember, opponent: &PartyMember)
        ensures
            final(self)@ == old(self)@.showing(*player, *opponent),
    {
        self.player_panel.update_text(player);
        self.opponent_pokemon_gui.update_gui(opponent);
        self.player_pokemon_gui.update_gui(player);
    }

    /// Advances the bounce and the dialogue by one frame.
    pub fn update(&mut self, delta: u32, confirm: bool)
        ensures
            final(self)@ == (BattleGuiView {
                bounce: ((old(self)@.bounce + delta) % 500) as nat,
                text: old(self)@.text.advanced(delta as nat, confirm),
                ..old(self)@
            }),
    {
        self.player_bounce.update(delta);
        self.battle_text.update(delta, confirm);
    }

    /// Where to draw the scenery when the scene is shifted by `offset`
    /// sub-pixel steps.
    pub fn render_background(&self, offset: i64) -> (backdrop: Backdrop)
        ensures
            backdrop == (Backdrop { x: offset }),
    {
        self.battle_background.render(offset)
    }

    /// What to draw for the lower part of the screen: the command panel
    /// and, over it, the dialogue.
    pub fn render_panel(&self) -> (layer: PanelLayer)
        ensures
            layer.panel is Some == self@.panel.alive,
            layer.text is Some == (self@.text.alive && self@.text.current < self@.text.pages.len()),
            layer.text matches Some(lines) ==> crate::strings::texts(lines@)
                == self@.text.pages[self@.text.current as int].lines,
    {
        let text = if self.battle_text.alive() {
            self.battle_text.page_lines(self.battle_text.current())
        } else {
            None
        };
        PanelLayer { panel: self.player_panel.render(), text }
    }

    /// What to draw for the two status panels: the opponent's, then the
    /// player's.
    pub fn render(&self) -> (draw: (Option<PanelDraw>, Option<PanelDraw>))
        ensures
            self@.opponent.shows(draw.0),
            self@.player.shows(draw.1),
    {
        (self.opponent_pokemon_gui.render(), self.player_pokemon_gui.render())
    }
}

impl Reset for BattleGui {
    open spec fn is_reset(&self) -> bool {
        self@ == self@.cleared()
    }

    /// Puts the status panels and the bounce back to their start.
    fn reset(&mut self)
        ensures
            final(self)@ == old(self)@.cleared(),
    {
        self.player_pokemon_gui.reset();
        self.opponent_pokemon_gui.reset();
        self.player_bounce.reset();
    }
}

impl Entity for BattleGui {
    open spec fn living(&self) -> bool {
        self@.alive
    }

    /// Shows the screen, with the command panel.
    fn spawn(&mut self)
        ensures
            final(self)@ == (BattleGuiView {
                alive: true,
                panel: PlayerPanelView { alive: true, ..old(self)@.panel },
                ..old(self)@
            }),
    {
        self.alive = true;
        self.player_panel.spawn();
    }

    /// Takes the screen and every piece of it off.
    fn despawn(&mut self)
        ensures
            final(self)@ == (BattleGuiView {
                alive: false,
                panel: PlayerPanelView { alive: false, ..old(self)@.panel },
                player: PokemonGuiView { alive: false, ..old(self)@.player },
                opponent: PokemonGuiView { alive: false, ..old(self)@.opponent },
                text: old(self)@.text.despawned(),
                ..old(self)@
            }),
    {
        self.alive = false;
        self.player_panel.despawn();
        self.player_pokemon_gui.despawn();
        self.opponent_pokemon_gui.despawn();
        self.battle_text.despawn();
    }

    /// Whether the screen is shown.
    fn alive(&self) -> (alive: bool) {
        self.alive
    }
}

} // verus!
