//! The opening of a trainer battle: the trainer challenges and sends a
//! combatant out, leaving the field while the usual opening goes on.

use vstd::prelude::*;
use vstd::string::StringExecFns;
use crate::battle::glue::{BattleTrainerEntry, NpcGroupId, TrainerView, trainer_ref_view};
use crate::battle::transitions::introductions::IntroCues;
use crate::battle::transitions::introductions::basic::{
    go_page, BasicBattleIntroduction, IntroScene, IntroductionView, PlayerDraw, player_draw,
};
use crate::gui::battle::pokemon_gui::{PokemonGui, PokemonGuiView};
use crate::lifecycle::{Completable, Entity, Reset, Sequence};
use crate::text::{MessagePage, PageView, TextDisplay, TextView};
use crate::units::least;

verus! {

/// How far the trainer walks off, in sub-pixel steps.
pub const TRAINER_TRAVEL: u64 = 126000;

/// Speed of the trainer's sprite, in pixels per second.
pub const TRAINER_RATE: u64 = 300;

/// How long the page that names the trainer's combatant stays, in
/// milliseconds.
pub const SENT_WAIT: u32 = 500;

/// The opening sequence of a trainer battle.
pub struct TrainerBattleIntroduction {
    introduction: BasicBattleIntroduction,
    trainer: Option<NpcGroupId>,
    offset: u64,
    leaving: bool,
}

/// The state of a trainer battle's opening.
pub struct TrainerIntroView {
    /// The usual opening that runs underneath.
    pub introduction: IntroductionView,
    /// The sprite group of the trainer, once there is one to show.
    pub trainer: Option<NpcGroupId>,
    /// How far the trainer has walked off, in sub-pixel steps.
    pub offset: nat,
    /// Whether the trainer has started to walk off.
    pub leaving: bool,
}

/// The page on which the trainer challenges.
pub open spec fn challenge_page(trainer: Seq<char>) -> PageView {
    PageView { lines: seq![trainer, "would like to battle!"@], wait: None }
}

/// The page on which the trainer sends a combatant out.
pub open spec fn sent_page(trainer: Seq<char>, opponent: Seq<char>) -> PageView {
    PageView { lines: seq![trainer + " sent"@, "out "@ + opponent + "!"@], wait: Some(SENT_WAIT) }
}

/// The page shown where a trainer battle comes without a trainer.
pub open spec fn missing_page() -> PageView {
    PageView { lines: seq!["No trainer data found!"@], wait: None }
}

/// The dialogue of a trainer battle's opening.
pub open spec fn trainer_script(
    trainer: Option<TrainerView>,
    opponent: Seq<char>,
    active: Seq<char>,
) -> Seq<PageView> {
    match trainer {
        Some(t) => seq![challenge_page(t.name), sent_page(t.name, opponent), go_page(active)],
        None => seq![missing_page(), go_page(active)],
    }
}

/// The sprite group of an optional trainer.
pub open spec fn sprite_of(trainer: Option<TrainerView>) -> Option<NpcGroupId> {
    match trainer {
        Some(t) => Some(t.sprite),
        None => None,
    }
}

impl TrainerIntroView {
    /// The usual opening together with the panels and the dialogue it
    /// works on.
    pub open spec fn scene(self, player: PokemonGuiView, opponent: PokemonGuiView, text: TextView) -> IntroScene {
        IntroScene { intro: self.introduction, player, opponent, text }
    }

    /// Whether the trainer starts to leave in a frame that leaves the
    /// dialogue as `text`: the page before the last is up.
    pub open spec fn leaves(text: TextView) -> bool {
        text.can_continue() && text.current + 2 == text.pages.len()
    }

    /// The sequence after one frame in which the usual opening underneath
    /// went from `before` to `after`.
    pub open spec fn stepped(self, after: IntroScene, delta: nat) -> TrainerIntroView {
        let leaving = self.leaving || Self::leaves(after.text);
        TrainerIntroView {
            introduction: after.intro,
            trainer: self.trainer,
            offset: if leaving && self.offset < TRAINER_TRAVEL {
                least(self.offset + TRAINER_RATE as nat * delta, TRAINER_TRAVEL as nat)
            } else {
                self.offset
            },
            leaving,
        }
    }

    /// What is drawn when the scene is shifted by `offset` sub-pixel
    /// steps: the trainer, walking off to the right, while in sight, and the
    /// opponent's combatant in the trainer's place after that.
    pub open spec fn drawn(self, offset: int) -> TrainerIntroDraw {
        TrainerIntroDraw {
            trainer: if self.offset < TRAINER_TRAVEL && self.trainer is Some {
                Some((self.trainer->0, (144000 - offset + self.offset) as i128, 74i128))
            } else {
                None
            },
            opponent: if self.offset < TRAINER_TRAVEL {
                None
            } else {
                Some(((144000 - offset) as i128, 74i128))
            },
            player: player_draw(self.introduction.counter, offset),
        }
    }

    /// The sequence put back to its start.
    pub open spec fn cleared(self) -> TrainerIntroView {
        TrainerIntroView { introduction: self.introduction.cleared(), trainer: self.trainer, offset: 0, leaving: false }
    }
}

/// What to draw for a trainer battle's opening.
pub struct TrainerIntroDraw {
    /// The trainer's sprite group with its left edge in sub-pixel steps and
    /// its bottom edge in pixels, while the trainer is in sight.
    pub trainer: Option<(NpcGroupId, i128, i128)>,
    /// The opponent's combatant, once the trainer is out of the way.
    pub opponent: Option<(i128, i128)>,
    /// The player's side.
    pub player: PlayerDraw,
}

impl View for TrainerBattleIntroduction {
    type V = TrainerIntroView;

    closed spec fn view(&self) -> TrainerIntroView {
        TrainerIntroView {
            introduction: self.introduction@,
            trainer: self.trainer,
            offset: self.offset as nat,
            leaving: self.leaving,
        }
    }
}

impl TrainerBattleIntroduction {
    /// A sequence that was never started.
    pub fn new() -> (introduction: Self)
        ensures
            introduction@ == (TrainerIntroView {
                introduction: IntroductionView::fresh(),
                trainer: None,
                offset: 0,
                leaving: false,
            }),
    {
        TrainerBattleIntroduction {
            introduction: BasicBattleIntroduction::new(),
            trainer: None,
            offset: 0,
            leaving: false,
        }
    }

    /// Starts the sequence: the dialogue gets the script of a trainer
    /// battle and is put on screen, and the trainer's sprite is taken up.
    pub fn spawn(
        &mut self,
        active: &str,
        opponent: &str,
        trainer: Option<&BattleTrainerEntry>,
        text: &mut TextDisplay,
    )
        ensures
            final(self)@ == (TrainerIntroView {
                introduction: IntroductionView { alive: true, finished: false, ..old(self)@.introduction },
                trainer: sprite_of(trainer_ref_view(trainer)),
                ..old(self)@
            }),
            final(text)@ == (TextView {
                alive: true,
                pages: trainer_script(trainer_ref_view(trainer), opponent@, active@),
                current: 0,
                timer: 0,
                finished: false,
            }),
    {
        text.clear();
        match trainer {
            Some(entry) => {
                self.trainer = Some(entry.sprite);
                let challenge = MessagePage::new(
                    vec![entry.name.clone(), String::from_str("would like to battle!")],
                    None,
                );
                assert(challenge@.lines =~= challenge_page(entry@.name).lines);
                text.push(challenge);
                let mut first = entry.name.clone();
                first.append(" sent");
                let mut second = String::from_str("out ");
                second.append(opponent);
                second.append("!");
                let sent = MessagePage::new(vec![first, second], Some(SENT_WAIT));
                assert(sent@.lines =~= sent_page(entry@.name, opponent@).lines);
                text.push(sent);
            },
            None => {
                self.trainer = None;
                let missing = MessagePage::new(vec![String::from_str("No trainer data found!")], None);
                assert(missing@.lines =~= missing_page().lines);
                text.push(missing);
            },
        }
        self.introduction.common_setup(active, text);
        assert(text@.pages =~= trainer_script(trainer_ref_view(trainer), opponent@, active@));
        text.spawn();
        self.introduction.begin_showing();
    }

    /// Advances the sequence by one frame.
    pub fn update(
        &mut self,
        delta: u32,
        confirm: bool,
        player: &mut PokemonGui,
        opponent: &mut PokemonGui,
        text: &mut TextDisplay,
    ) -> (cues: IntroCues)
        ensures
            ({
                let step = old(self)@.scene(old(player)@, old(opponent)@, old(text)@).stepped(
                    delta as nat,
                    confirm,
                );
                &&& final(self)@ == old(self)@.stepped(step.0, delta as nat)
                &&& final(player)@ == step.0.player
                &&& final(opponent)@ == step.0.opponent
                &&& final(text)@ == step.0.text
                &&& cues == step.1
            }),
    {
        let cues = self.introduction.update(delta, confirm, player, opponent, text);
        let leaving = self.leaving || (text.can_continue() && text.len() - text.current() == 2);
        let offset: u64 = if leaving && self.offset < TRAINER_TRAVEL {
            let step: u64 = TRAINER_RATE * (delta as u64);
            if TRAINER_TRAVEL - self.offset > step {
                self.offset + step
            } else {
                TRAINER_TRAVEL
            }
        } else {
            self.offset
        };
        self.leaving = leaving;
        self.offset = offset;
        cues
    }

    /// What to draw when the scene is shifted by `offset` sub-pixel steps:
    /// the trainer while in sight, the opponent's combatant after that.
    pub fn draw(&self, offset: i64) -> (draw: TrainerIntroDraw)
        ensures
            draw == self@.drawn(offset as int),
    {
        let scene = self.introduction.render_offset(offset);
        if self.offset < TRAINER_TRAVEL {
            let trainer = match self.trainer {
                Some(group) => Some((group, 144000 - (offset as i128) + (self.offset as i128), 74i128)),
                None => None,
            };
            TrainerIntroDraw { trainer, opponent: None, player: scene.1 }
        } else {
            TrainerIntroDraw { trainer: None, opponent: Some(scene.0), player: scene.1 }
        }
    }
}

impl Completable for TrainerBattleIntroduction {
    open spec fn completed(&self) -> bool {
        self@.introduction.completed()
    }

    /// Whether the sequence is over: the usual opening underneath is.
    fn finished(&self) -> (finished: bool) {
        self.introduction.finished()
    }
}

impl Reset for TrainerBattleIntroduction {
    open spec fn is_reset(&self) -> bool {
        &&& self@.introduction.counter == 0
        &&& !self@.introduction.finished_panel
        &&& self@.offset == 0
        &&& !self@.leaving
    }

    /// Puts the sequence back to its start.
    fn reset(&mut self)
        ensures
            final(self)@ == old(self)@.cleared(),
    {
        self.introduction.reset();
        self.offset = 0;
        self.leaving = false;
    }
}

impl Sequence for TrainerBattleIntroduction {
    proof fn reset_is_unfinished(&self) {
    }
}

} // verus!
