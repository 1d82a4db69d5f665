//! The transition manager: the three-state sequencer that takes an
//! encounter from the map into the battle.

use vstd::prelude::*;
use crate::battle::glue::{BattleTrainerEntry, BattleType, trainer_ref_view};
use crate::battle::transitions::TransitionState;
use crate::battle::transitions::introductions::{IntroCues, Introductions};
use crate::battle::transitions::introductions::basic::IntroScene;
use crate::battle::transitions::managers::introduction::{
    BattleIntroductionManager, IntroDraw, IntroManagerView,
};
use crate::gui::battle::pokemon_gui::{PokemonGui, PokemonGuiView};
use crate::lifecycle::{Completable, Reset, Sequence};
use crate::text::{TextDisplay, TextView};

verus! {

/// Runs the opening of an encounter.
pub struct BattleScreenTransitionManager {
    state: TransitionState,
    introduction: BattleIntroductionManager,
}

/// The state of the transition manager.
pub struct TransitionManagerView {
    /// Where the manager stands.
    pub state: TransitionState,
    /// The introduction manager underneath.
    pub introduction: IntroManagerView,
}

/// No sound.
pub open spec fn silence() -> IntroCues {
    IntroCues { opponent_cry: false, player_cry: false }
}

impl TransitionManagerView {
    /// Whether the manager is running.
    pub open spec fn running(self) -> bool {
        self.state == TransitionState::Run
    }

    /// The scene that a frame works on.
    pub open spec fn scene(self, player: PokemonGuiView, opponent: PokemonGuiView, text: TextView) -> IntroScene {
        self.introduction.scene(player, opponent, text)
    }

    /// The scene after one frame, with the sounds it asks for: while the
    /// manager runs the opening advances; otherwise nothing moves.
    pub open spec fn step(
        self,
        player: PokemonGuiView,
        opponent: PokemonGuiView,
        text: TextView,
        delta: nat,
        confirm: bool,
    ) -> (IntroScene, IntroCues) {
        if self.running() {
            self.scene(player, opponent, text).stepped(delta, confirm)
        } else {
            (self.scene(player, opponent, text), silence())
        }
    }

    /// The manager after a frame that took the scene to `after`: done as
    /// soon as the opening is over, and doing nothing more until it is put
    /// back.
    pub open spec fn updated(self, after: IntroScene, delta: nat) -> TransitionManagerView {
        if self.running() {
            TransitionManagerView {
                state: if after.intro.completed() {
                    TransitionState::End
                } else {
                    TransitionState::Run
                },
                introduction: self.introduction.updated(after, delta),
            }
        } else {
            self
        }
    }
}

impl View for BattleScreenTransitionManager {
    type V = TransitionManagerView;

    closed spec fn view(&self) -> TransitionManagerView {
        TransitionManagerView { state: self.state, introduction: self.introduction@ }
    }
}

impl BattleScreenTransitionManager {
    /// A manager about to begin.
    pub fn new() -> (manager: Self)
        ensures
            manager@ == (TransitionManagerView {
                state: TransitionState::Begin,
                introduction: IntroManagerView::fresh(),
            }),
    {
        BattleScreenTransitionManager {
            state: TransitionState::Begin,
            introduction: BattleIntroductionManager::new(),
        }
    }

    /// Where the manager stands.
    pub fn state(&self) -> (state: TransitionState)
        ensures
            state == self@.state,
    {
        self.state
    }

    /// The opening sequence in use.
    pub fn current(&self) -> (current: Introductions)
        ensures
            current == self@.introduction.current,
    {
        self.introduction.current()
    }

    /// Starts the opening that the kind of encounter calls for.
    pub fn begin(
        &mut self,
        battle_type: BattleType,
        trainer: Option<&BattleTrainerEntry>,
        active: &str,
        opponent: &str,
        text: &mut TextDisplay,
    )
        ensures
            final(self)@ == (TransitionManagerView {
                state: TransitionState::Run,
                introduction: old(self)@.introduction.begun(battle_type, trainer_ref_view(trainer)),
            }),
            final(text)@ == IntroManagerView::begun_text(
                battle_type,
                active@,
                opponent@,
                trainer_ref_view(trainer),
            ),
    {
        let mut state = self.state;
        self.introduction.begin(&mut state, battle_type, active, opponent, trainer, text);
        self.state = state;
    }

    /// Advances the opening by one frame while the manager runs.
    pub fn update(
        &mut self,
        delta: u32,
        confirm: bool,
        player: &mut PokemonGui,
        opponent: &mut PokemonGui,
        text: &mut TextDisplay,
    ) -> (cues: IntroCues)
        ensures
            ({
                let step = old(self)@.step(old(player)@, old(opponent)@, old(text)@, delta as nat, confirm);
                &&& final(self)@ == old(self)@.updated(step.0, delta as nat)
                &&& final(player)@ == step.0.player
                &&& final(opponent)@ == step.0.opponent
                &&& final(text)@ == step.0.text
                &&& cues == step.1
            }),
    {
        match self.state {
            TransitionState::Run => {
                let mut state = self.state;
                let cues = self.introduction.update(&mut state, delta, confirm, player, opponent, text);
                self.state = state;
                cues
            },
            _ => IntroCues { opponent_cry: false, player_cry: false },
        }
    }

    /// Puts the manager back, ready for the next encounter. The opening
    /// itself is put back when it is next begun.
    pub fn end(&mut self)
        ensures
            final(self)@ == (TransitionManagerView { state: TransitionState::Begin, ..old(self)@ }),
    {
        self.state = TransitionState::Begin;
    }

    /// What to draw for the opening when the scene is shifted by `offset`
    /// sub-pixel steps.
    pub fn draw(&self, offset: i64) -> (draw: IntroDraw)
        ensures
            draw == self@.introduction.drawn(offset as int),
    {
        self.introduction.draw(offset)
    }
}

impl Completable for BattleScreenTransitionManager {
    open spec fn completed(&self) -> bool {
        self@.state == TransitionState::End
    }

    /// Whether the opening has run its course.
    fn finished(&self) -> (finished: bool) {
        match self.state {
            TransitionState::End => true,
            _ => false,
        }
    }
}

impl Reset for BattleScreenTransitionManager {
    open spec fn is_reset(&self) -> bool {
        self@.state == TransitionState::Begin
    }

    /// Puts the manager back, as `end` does.
    fn reset(&mut self)
        ensures
            final(self)@ == (TransitionManagerView { state: TransitionState::Begin, ..old(self)@ }),
    {
        self.state = TransitionState::Begin;
    }
}

impl Sequence for BattleScreenTransitionManager {
    proof fn reset_is_unfinished(&self) {
    }
}

} // verus!
