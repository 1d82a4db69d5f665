//! The introduction manager: picks the opening sequence by the kind of
//! encounter and runs it until it is over.

use vstd::prelude::*;
use crate::battle::glue::{BattleTrainerEntry, BattleType, TrainerView, trainer_ref_view};
use crate::battle::transitions::TransitionState;
use crate::battle::transitions::introductions::{IntroCues, Introductions};
use crate::battle::transitions::introductions::basic::{
    player_draw, wild_script, BasicBattleIntroduction, IntroScene, IntroductionView, PlayerDraw,
};
use crate::battle::transitions::introductions::trainer::{
    sprite_of, trainer_script, TrainerBattleIntroduction, TrainerIntroDraw, TrainerIntroView,
};
use crate::gui::battle::pokemon_gui::{PokemonGui, PokemonGuiView};
use crate::lifecycle::{Completable, Reset};
use crate::text::{TextDisplay, TextView};

verus! {

/// The opening sequence that an encounter of kind `battle_type` starts
/// with: the basic one for a wild encounter, the trainer's for any other.
pub open spec fn introduction_for(battle_type: BattleType) -> Introductions {
    match battle_type {
        BattleType::Wild => Introductions::Basic,
        _ => Introductions::Trainer,
    }
}

/// Runs the opening sequence of an encounter.
pub struct BattleIntroductionManager {
    current: Introductions,
    basic: BasicBattleIntroduction,
    trainer: TrainerBattleIntroduction,
}

/// The state of the introduction manager.
pub struct IntroManagerView {
    /// The sequence in use.
    pub current: Introductions,
    /// The basic sequence.
    pub basic: IntroductionView,
    /// The trainer's sequence.
    pub trainer: TrainerIntroView,
}

/// What to draw for the opening sequence in use.
pub enum IntroDraw {
    /// The opponent's combatant, by its left edge in sub-pixel steps and its
    /// bottom edge in pixels, and the player's side.
    Basic { opponent: (i128, i128), player: PlayerDraw },
    /// The scene of a trainer battle.
    Trainer(TrainerIntroDraw),
}

impl IntroManagerView {
    /// A manager that never ran.
    pub open spec fn fresh() -> IntroManagerView {
        IntroManagerView {
            current: Introductions::Basic,
            basic: IntroductionView::fresh(),
            trainer: TrainerIntroView {
                introduction: IntroductionView::fresh(),
                trainer: None,
                offset: 0,
                leaving: false,
            },
        }
    }

    /// The usual opening of the sequence in use.
    pub open spec fn introduction(self) -> IntroductionView {
        match self.current {
            Introductions::Basic => self.basic,
            Introductions::Trainer => self.trainer.introduction,
        }
    }

    /// Whether the sequence in use is over.
    pub open spec fn completed(self) -> bool {
        self.introduction().completed()
    }

    /// The manager after `begin`: the sequence chosen by the kind of
    /// encounter, put back to its start and on screen.
    pub open spec fn begun(self, battle_type: BattleType, trainer: Option<TrainerView>) -> IntroManagerView {
        match introduction_for(battle_type) {
            Introductions::Basic => IntroManagerView {
                current: Introductions::Basic,
                basic: IntroductionView { alive: true, finished: false, ..self.basic.cleared() },
                trainer: self.trainer,
            },
            Introductions::Trainer => IntroManagerView {
                current: Introductions::Trainer,
                basic: self.basic,
                trainer: TrainerIntroView {
                    introduction: IntroductionView {
                        alive: true,
                        finished: false,
                        ..self.trainer.introduction.cleared()
                    },
                    trainer: sprite_of(trainer),
                    offset: 0,
                    leaving: false,
                },
            },
        }
    }

    /// The dialogue after `begin`: the script of the chosen sequence, on
    /// screen at its first page.
    pub open spec fn begun_text(
        battle_type: BattleType,
        active: Seq<char>,
        opponent: Seq<char>,
        trainer: Option<TrainerView>,
    ) -> TextView {
        TextView {
            alive: true,
            pages: match introduction_for(battle_type) {
                Introductions::Basic => wild_script(opponent, active),
                Introductions::Trainer => trainer_script(trainer, opponent, active),
            },
            current: 0,
            timer: 0,
            finished: false,
        }
    }

    /// What is drawn for the sequence in use when the scene is shifted by
    /// `offset` sub-pixel steps.
    pub open spec fn drawn(self, offset: int) -> IntroDraw {
        match self.current {
            Introductions::Basic => IntroDraw::Basic {
                opponent: ((144000 - offset) as i128, 74i128),
                player: player_draw(self.basic.counter, offset),
            },
            Introductions::Trainer => IntroDraw::Trainer(self.trainer.drawn(offset)),
        }
    }

    /// The scene that a frame of the sequence in use works on.
    pub open spec fn scene(self, player: PokemonGuiView, opponent: PokemonGuiView, text: TextView) -> IntroScene {
        IntroScene { intro: self.introduction(), player, opponent, text }
    }

    /// The manager after a frame that took the scene to `after`.
    pub open spec fn updated(self, after: IntroScene, delta: nat) -> IntroManagerView {
        match self.current {
            Introductions::Basic => IntroManagerView { basic: after.intro, ..self },
            Introductions::Trainer => IntroManagerView { trainer: self.trainer.stepped(after, delta), ..self },
        }
    }
}

impl View for BattleIntroductionManager {
    type V = IntroManagerView;

    closed spec fn view(&self) -> IntroManagerView {
        IntroManagerView { current: self.current, basic: self.basic@, trainer: self.trainer@ }
    }
}

impl BattleIntroductionManager {
    /// A manager that never ran.
    pub fn new() -> (manager: Self)
        ensures
            manager@ == IntroManagerView::fresh(),
    {
        BattleIntroductionManager {
            current: Introductions::Basic,
            basic: BasicBattleIntroduction::new(),
            trainer: TrainerBattleIntroduction::new(),
        }
    }

    /// The sequence in use.
    pub fn current(&self) -> (current: Introductions)
        ensures
            current == self@.current,
    {
        self.current
    }

    /// Starts the opening sequence that the kind of encounter calls for and
    /// sets the sequencer `state` running. `active` and `opponent` name the
    /// combatants that each side leads with.
    pub fn begin(
        &mut self,
        state: &mut TransitionState,
        battle_type: BattleType,
        active: &str,
        opponent: &str,
        trainer: Option<&BattleTrainerEntry>,
        text: &mut TextDisplay,
    )
        ensures
            *final(state) == TransitionState::Run,
            final(self)@ == old(self)@.begun(battle_type, trainer_ref_view(trainer)),
            final(text)@ == IntroManagerView::begun_text(
                battle_type,
                active@,
                opponent@,
                trainer_ref_view(trainer),
            ),
    {
        *state = TransitionState::Run;
        match battle_type {
            BattleType::Wild => {
                self.current = Introductions::Basic;
                self.basic.reset();
                self.basic.spawn(active, opponent, text);
            },
            _ => {
                self.current = Introductions::Trainer;
                self.trainer.reset();
                self.trainer.spawn(active, opponent, trainer, text);
            },
        }
    }

    /// Advances the sequence in use by one frame, and sets the sequencer
    /// `state` to its end once the sequence is over.
    pub fn update(
        &mut self,
        state: &mut TransitionState,
        delta: u32,
        confirm: bool,
        player: &mut PokemonGui,
        opponent: &mut PokemonGui,
        text: &mut TextDisplay,
    ) -> (cues: IntroCues)
        ensures
            ({
                let step = old(self)@.scene(old(player)@, old(opponent)@, old(text)@).stepped(
                    delta as nat,
                    confirm,
                );
                &&& final(self)@ == old(self)@.updated(step.0, delta as nat)
                &&& final(player)@ == step.0.player
                &&& final(opponent)@ == step.0.opponent
                &&& final(text)@ == step.0.text
                &&& cues == step.1
                &&& *final(state) == if step.0.intro.completed() {
                    TransitionState::End
                } else {
                    *old(state)
                }
            }),
    {
        let (cues, finished) = match self.current {
            Introductions::Basic => {
                let cues = self.basic.update(delta, confirm, player, opponent, text);
                (cues, self.basic.finished())
            },
            Introductions::Trainer => {
                let cues = self.trainer.update(delta, confirm, player, opponent, text);
                (cues, self.trainer.finished())
            },
        };
        if finished {
            *state = TransitionState::End;
        }
        cues
    }

    /// What to draw for the sequence in use when the scene is shifted by
    /// `offset` sub-pixel steps.
    pub fn draw(&self, offset: i64) -> (draw: IntroDraw)
        ensures
            draw == self@.drawn(offset as int),
    {
        match self.current {
            Introductions::Basic => {
                let scene = self.basic.render_offset(offset);
                IntroDraw::Basic { opponent: scene.0, player: scene.1 }
            },
            Introductions::Trainer => IntroDraw::Trainer(self.trainer.draw(offset)),
        }
    }
}

} // verus!
