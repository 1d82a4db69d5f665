//! The closer manager: picks the closing sequence by the kind of encounter
//! and runs it until it is over.

use vstd::prelude::*;
use crate::battle::glue::{BattleId, BattleTrainerEntry, BattleType, TrainerView, trainer_ref_view};
use crate::battle::transitions::TransitionState;
use crate::battle::transitions::closers::Closers;
use crate::battle::transitions::closers::trainer::{
    closing_dialogue, closing_text, named, TrainerBattleCloser, TrainerCloserView, TrainerSprite,
    START_X,
};
use crate::battle::transitions::closers::wild::{FadeView, Overlay, WildBattleCloser};
use crate::lifecycle::{Completable, Reset, Sequence};
use crate::text::{TextDisplay, TextView};

verus! {

/// The closing sequence that an encounter of kind `battle_type` ends with:
/// the plain one for a wild encounter, the trainer's for any other.
pub open spec fn closer_for(battle_type: BattleType) -> Closers {
    match battle_type {
        BattleType::Wild => Closers::Wild,
        _ => Closers::Trainer,
    }
}

/// Runs the closing sequence of an encounter.
pub struct BattleCloserManager {
    state: TransitionState,
    current: Closers,
    wild: WildBattleCloser,
    trainer: TrainerBattleCloser,
}

/// The state of the closer manager.
pub struct CloserManagerView {
    /// Where the manager stands.
    pub state: TransitionState,
    /// The sequence in use.
    pub current: Closers,
    /// The plain sequence.
    pub wild: FadeView,
    /// The trainer's sequence.
    pub trainer: TrainerCloserView,
}

impl CloserManagerView {
    /// A manager that never ran.
    pub open spec fn fresh() -> CloserManagerView {
        CloserManagerView {
            state: TransitionState::Begin,
            current: Closers::Wild,
            wild: WildBattleCloser::default_view(),
            trainer: TrainerCloserView {
                fade: WildBattleCloser::default_view(),
                trainer: None,
                offset: START_X as nat,
            },
        }
    }

    /// The fade of the sequence in use.
    pub open spec fn fade(self) -> FadeView {
        match self.current {
            Closers::Wild => self.wild,
            Closers::Trainer => self.trainer.fade,
        }
    }

    /// Whether the sequence in use is over.
    pub open spec fn current_finished(self) -> bool {
        self.fade().finished()
    }

    /// Whether the map is to be drawn: what the sequence in use says,
    /// wherever the manager itself stands.
    pub open spec fn world_active(self) -> bool {
        self.fade().world
    }

    /// The manager after `begin`: running the sequence chosen by the kind of
    /// encounter, which starts from scratch.
    pub open spec fn begun(
        self,
        battle_type: BattleType,
        player: BattleId,
        winner: Option<BattleId>,
        trainer: Option<TrainerView>,
    ) -> CloserManagerView {
        match closer_for(battle_type) {
            Closers::Wild => CloserManagerView {
                state: TransitionState::Run,
                current: Closers::Wild,
                wild: FadeView::cleared(),
                trainer: self.trainer,
            },
            Closers::Trainer => CloserManagerView {
                state: TransitionState::Run,
                current: Closers::Trainer,
                wild: self.wild,
                trainer: TrainerCloserView::cleared().spawned(player, winner, trainer),
            },
        }
    }

    /// The sequences after one frame, the manager's own state left as it was.
    pub open spec fn advanced(self, text: TextView, delta: nat, confirm: bool) -> CloserManagerView {
        match self.current {
            Closers::Wild => CloserManagerView { wild: self.wild.faded(delta), ..self },
            Closers::Trainer => CloserManagerView {
                trainer: self.trainer.stepped(text, delta, confirm),
                ..self
            },
        }
    }

    /// The manager after one frame: the sequence in use advances, and the
    /// manager is done as soon as the sequence is over.
    pub open spec fn updated(self, text: TextView, delta: nat, confirm: bool) -> CloserManagerView {
        let next = self.advanced(text, delta, confirm);
        if next.current_finished() {
            CloserManagerView { state: TransitionState::End, ..next }
        } else {
            next
        }
    }
}

/// The dialogue after the closer manager has begun.
pub open spec fn begun_text(
    text: TextView,
    battle_type: BattleType,
    player: BattleId,
    player_name: Seq<char>,
    winner: Option<BattleId>,
    trainer: Option<TrainerView>,
) -> TextView {
    match closer_for(battle_type) {
        Closers::Wild => text.despawned(),
        Closers::Trainer => closing_text(text, player, player_name, winner, trainer),
    }
}

/// The dialogue after one frame of the closer manager.
pub open spec fn updated_text(current: Closers, text: TextView, delta: nat, confirm: bool) -> TextView {
    match current {
        Closers::Wild => text,
        Closers::Trainer => closing_dialogue(text, delta, confirm),
    }
}

impl View for BattleCloserManager {
    type V = CloserManagerView;

    closed spec fn view(&self) -> CloserManagerView {
        CloserManagerView {
            state: self.state,
            current: self.current,
            wild: self.wild@,
            trainer: self.trainer@,
        }
    }
}

impl Default for BattleCloserManager {
    fn default() -> (manager: Self)
        ensures
            manager@ == CloserManagerView::fresh(),
    {
        BattleCloserManager {
            state: TransitionState::Begin,
            current: Closers::Wild,
            wild: WildBattleCloser::default(),
            trainer: TrainerBattleCloser::default(),
        }
    }
}

impl BattleCloserManager {
    /// A manager about to begin.
    pub fn new() -> (manager: Self)
        ensures
            manager@ == CloserManagerView::fresh(),
    {
        BattleCloserManager {
            state: TransitionState::Begin,
            current: Closers::Wild,
            wild: WildBattleCloser::default(),
            trainer: TrainerBattleCloser::default(),
        }
    }

    /// Where the manager stands.
    pub fn state(&self) -> (state: TransitionState)
        ensures
            state == self@.state,
    {
        self.state
    }

    /// The sequence in use.
    pub fn current(&self) -> (current: Closers)
        ensures
            current == self@.current,
    {
        self.current
    }

    /// Starts the closing sequence that the kind of encounter calls for.
    pub fn begin(
        &mut self,
        battle_type: BattleType,
        player: &BattleId,
        player_name: &str,
        winner: Option<&BattleId>,
        trainer_entry: Option<&BattleTrainerEntry>,
        text: &mut TextDisplay,
    )
        ensures
            final(self)@ == old(self)@.begun(
                battle_type,
                *player,
                named(winner),
                trainer_ref_view(trainer_entry),
            ),
            final(text)@ == begun_text(
                old(text)@,
                battle_type,
                *player,
                player_name@,
                named(winner),
                trainer_ref_view(trainer_entry),
            ),
    {
        self.state = TransitionState::Run;
        match battle_type {
            BattleType::Wild => {
                self.current = Closers::Wild;
                self.wild.reset();
                self.wild.spawn(player, player_name, winner, trainer_entry, text);
            },
            _ => {
                self.current = Closers::Trainer;
                self.trainer.reset();
                self.trainer.spawn(player, player_name, winner, trainer_entry, text);
            },
        }
    }

    /// Puts the manager back, ready for the next encounter.
    pub fn end(&mut self)
        ensures
            final(self)@ == (CloserManagerView { state: TransitionState::Begin, ..old(self)@ }),
    {
        self.state = TransitionState::Begin;
    }

    /// Advances the sequence in use by one frame.
    pub fn update(&mut self, delta: u32, confirm: bool, text: &mut TextDisplay)
        ensures
            final(self)@ == old(self)@.updated(old(text)@, delta as nat, confirm),
            final(text)@ == updated_text(old(self)@.current, old(text)@, delta as nat, confirm),
    {
        let finished = match self.current {
            Closers::Wild => {
                self.wild.update(delta);
                self.wild.finished()
            },
            Closers::Trainer => {
                self.trainer.update(delta, confirm, text);
                self.trainer.finished()
            },
        };
        if finished {
            self.state = TransitionState::End;
        }
    }

    /// The overlay to draw over the whole screen.
    pub fn draw(&self) -> (overlay: Overlay)
        ensures
            overlay == WildBattleCloser::overlay(self@.fade()),
    {
        match self.current {
            Closers::Wild => self.wild.draw(),
            Closers::Trainer => self.trainer.draw(),
        }
    }

    /// What the sequence in use draws over the battle scene.
    pub fn draw_battle(&self) -> (sprite: Option<TrainerSprite>)
        ensures
            sprite == match self@.current {
                Closers::Wild => None,
                Closers::Trainer => TrainerBattleCloser::sprite(self@.trainer),
            },
    {
        match self.current {
            Closers::Wild => None,
            Closers::Trainer => self.trainer.draw_battle(),
        }
    }

    /// Whether the map is to be drawn under the battle screen: the answer
    /// of the sequence in use, handed on as it is.
    pub fn world_active(&self) -> (active: bool)
        ensures
            active == self@.world_active(),
    {
        match self.current {
            Closers::Wild => self.wild.world_active(),
            Closers::Trainer => self.trainer.world_active(),
        }
    }
}

impl Completable for BattleCloserManager {
    open spec fn completed(&self) -> bool {
        self@.state == TransitionState::End
    }

    /// Whether the closing sequence has run its course.
    fn finished(&self) -> (finished: bool) {
        match self.state {
            TransitionState::End => true,
            _ => false,
        }
    }
}

impl Reset for BattleCloserManager {
    open spec fn is_reset(&self) -> bool {
        self@.state == TransitionState::Begin
    }

    /// Puts the manager back, as `end` does.
    fn reset(&mut self)
        ensures
            final(self)@ == (CloserManagerView { state: TransitionState::Begin, ..old(self)@ }),
    {
        self.state = TransitionState::Begin;
    }
}

impl Sequence for BattleCloserManager {
    proof fn reset_is_unfinished(&self) {
    }
}

} // verus!
