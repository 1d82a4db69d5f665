//! The closing sequence of a trainer battle: the beaten trainer slides in,
//! concedes and pays, and then the screen fades as after a wild encounter.

use vstd::prelude::*;
use vstd::string::StringExecFns;
use crate::battle::glue::{BattleId, BattleTrainerEntry, NpcGroupId, TrainerView, trainer_ref_view};
use crate::battle::transitions::closers::wild::{FadeView, Overlay, WildBattleCloser};
use crate::lifecycle::{Completable, Entity, Reset, Sequence};
use crate::strings::{copy_lines, decimal, decimal_string};
use crate::text::{MessagePage, PageView, TextDisplay, TextView};
use crate::units::{greatest, monus};

verus! {

/// Where the trainer's sprite comes to rest, in sub-pixel steps from the
/// left edge.
pub const RESTING_X: u64 = 172000;

/// Where the trainer's sprite starts: just off the right edge.
pub const START_X: u64 = 240000;

/// Speed of the sprite, in pixels per second.
pub const SLIDE_RATE: u64 = 300;

/// Height at which the sprite's feet are drawn, in pixels.
pub const TRAINER_Y: u64 = 74;

/// The closing sequence of a trainer battle.
pub struct TrainerBattleCloser {
    wild: WildBattleCloser,
    trainer: Option<NpcGroupId>,
    offset: u64,
}

/// The state of a trainer battle's closing sequence.
pub struct TrainerCloserView {
    /// The fade that follows the dialogue.
    pub fade: FadeView,
    /// The sprite group of the beaten trainer, once there is one to show.
    pub trainer: Option<NpcGroupId>,
    /// Position of the sprite, in sub-pixel steps from the left edge.
    pub offset: nat,
}

/// The participant that `id` points at, if any.
pub open spec fn named(id: Option<&BattleId>) -> Option<BattleId> {
    match id {
        Some(id) => Some(*id),
        None => None,
    }
}

/// Whether the encounter ends with the reward sequence: the local player
/// won and a trainer stood behind the other side.
pub open spec fn rewarded(player: BattleId, winner: Option<BattleId>, trainer: Option<TrainerView>) -> bool {
    winner == Some(player) && trainer is Some
}

/// A page that waits for the player.
pub open spec fn plain_page(lines: Seq<Seq<char>>) -> PageView {
    PageView { lines, wait: None }
}

/// The line that announces the trainer's defeat.
pub open spec fn defeat_line(trainer_name: Seq<char>) -> Seq<char> {
    "Player defeated "@ + trainer_name + "!"@
}

/// The two lines that announce the prize.
pub open spec fn reward_lines(player_name: Seq<char>, worth: nat) -> Seq<Seq<char>> {
    seq![player_name + " got $"@ + decimal(worth), "for winning!"@]
}

/// The trainer's own words, one page for each message.
pub open spec fn victory_pages(messages: Seq<Seq<Seq<char>>>) -> Seq<PageView> {
    Seq::new(messages.len(), |i: int| plain_page(messages[i]))
}

/// The whole closing dialogue: the defeat, the trainer's words as given,
/// the prize.
pub open spec fn closing_script(trainer: TrainerView, player_name: Seq<char>) -> Seq<PageView> {
    seq![plain_page(seq![defeat_line(trainer.name)])]
        + victory_pages(trainer.victory_message)
        + seq![plain_page(reward_lines(player_name, trainer.worth as nat))]
}

/// The dialogue after the closing sequence has started: the reward script
/// from its first page where it is due, the box off screen otherwise.
pub open spec fn closing_text(
    text: TextView,
    player: BattleId,
    player_name: Seq<char>,
    winner: Option<BattleId>,
    trainer: Option<TrainerView>,
) -> TextView {
    if rewarded(player, winner, trainer) {
        TextView {
            alive: true,
            pages: closing_script(trainer->0, player_name),
            current: 0,
            timer: 0,
            finished: false,
        }
    } else {
        text.despawned()
    }
}

/// The dialogue after one frame of the closing sequence: it advances while
/// it is on screen and leaves the screen once its last page is left.
pub open spec fn closing_dialogue(text: TextView, delta: nat, confirm: bool) -> TextView {
    if text.alive {
        let next = text.advanced(delta, confirm);
        if next.finished {
            next.despawned()
        } else {
            next
        }
    } else {
        text
    }
}

impl TrainerCloserView {
    /// The sequence before its first frame after a reset.
    pub open spec fn cleared() -> TrainerCloserView {
        TrainerCloserView { fade: FadeView::cleared(), trainer: None, offset: START_X as nat }
    }

    /// The sequence after it has started.
    pub open spec fn spawned(
        self,
        player: BattleId,
        winner: Option<BattleId>,
        trainer: Option<TrainerView>,
    ) -> TrainerCloserView {
        if rewarded(player, winner, trainer) {
            TrainerCloserView { trainer: Some(trainer->0.sprite), ..self }
        } else {
            self
        }
    }

    /// The sequence after one frame. While the dialogue `text` is on screen
    /// the sprite slides to its resting place once the first page is left;
    /// after that the fade runs.
    pub open spec fn stepped(self, text: TextView, delta: nat, confirm: bool) -> TrainerCloserView {
        if text.alive {
            if text.advanced(delta, confirm).current >= 1 && self.offset > RESTING_X {
                TrainerCloserView {
                    offset: greatest(monus(self.offset, SLIDE_RATE as nat * delta), RESTING_X as nat),
                    ..self
                }
            } else {
                self
            }
        } else {
            TrainerCloserView { fade: self.fade.faded(delta), ..self }
        }
    }
}

/// The trainer's sprite and where its bottom edge is to be drawn.
#[derive(Debug, Clone, Copy, PartialEq, Eq, Structural)]
pub struct TrainerSprite {
    /// The sprite group to draw from.
    pub sprite: NpcGroupId,
    /// Sub-pixel steps from the left edge.
    pub x: u64,
    /// Pixels from the top.
    pub y: u64,
}

impl View for TrainerBattleCloser {
    type V = TrainerCloserView;

    closed spec fn view(&self) -> TrainerCloserView {
        TrainerCloserView { fade: self.wild@, trainer: self.trainer, offset: self.offset as nat }
    }
}

impl Default for TrainerBattleCloser {
    fn default() -> (closer: Self)
        ensures
            closer@ == (TrainerCloserView {
                fade: WildBattleCloser::default_view(),
                trainer: None,
                offset: START_X as nat,
            }),
    {
        TrainerBattleCloser { wild: WildBattleCloser::default(), trainer: None, offset: START_X }
    }
}

impl TrainerBattleCloser {
    /// The sprite that the sequence `closer` shows over the battle scene.
    pub open spec fn sprite(closer: TrainerCloserView) -> Option<TrainerSprite> {
        match closer.trainer {
            Some(group) => Some(TrainerSprite { sprite: group, x: closer.offset as u64, y: TRAINER_Y }),
            None => None,
        }
    }

    /// Starts the sequence. Where the local player has beaten a trainer the
    /// dialogue is given the reward script and put on screen, and the
    /// trainer's sprite is taken up; in every other case the dialogue is
    /// taken off screen.
    pub fn spawn(
        &mut self,
        player: &BattleId,
        player_name: &str,
        winner: Option<&BattleId>,
        trainer_entry: Option<&BattleTrainerEntry>,
        text: &mut TextDisplay,
    )
        ensures
            final(self)@ == old(self)@.spawned(*player, named(winner), trainer_ref_view(trainer_entry)),
            final(text)@ == closing_text(
                old(text)@,
                *player,
                player_name@,
                named(winner),
                trainer_ref_view(trainer_entry),
            ),
    {
        let won = match winner {
            Some(winner) => *winner == *player,
            None => false,
        };
        if !won {
            text.despawn();
            return;
        }
        let trainer = match trainer_entry {
            Some(trainer) => trainer,
            None => {
                text.despawn();
                return;
            },
        };
        self.trainer = Some(trainer.sprite);

        text.reset();
        text.clear();

        let mut defeat = String::from_str("Player defeated ");
        defeat.append(trainer.name.as_str());
        defeat.append("!");
        let first = MessagePage::new(vec![defeat], None);
        assert(first@.lines =~= seq![defeat_line(trainer@.name)]);
        text.push(first);

        let ghost head = seq![plain_page(seq![defeat_line(trainer@.name)])];
        let ghost words = victory_pages(trainer@.victory_message);
        assert(text@.pages =~= head + words.take(0));
        let mut i: usize = 0;
        while i < trainer.victory_message.len()
            invariant
                i <= trainer.victory_message@.len(),
                words == victory_pages(trainer@.victory_message),
                text@ == (TextView { pages: head + words.take(i as int), ..old(text)@.cleared() }),
            decreases trainer.victory_message@.len() - i,
        {
            let page = MessagePage::new(copy_lines(&trainer.victory_message[i]), None);
            assert(page@ == words[i as int]);
            text.push(page);
            assert((head + words.take(i as int)).push(words[i as int]) =~= head + words.take(i + 1));
            i += 1;
        }
        assert(words.take(i as int) =~= words);

        let mut prize = String::from_str(player_name);
        prize.append(" got $");
        prize.append(decimal_string(trainer.worth as u64).as_str());
        let last = MessagePage::new(vec![prize, String::from_str("for winning!")], None);
        assert(last@.lines =~= reward_lines(player_name@, trainer.worth as nat));
        text.push(last);
        assert(text@.pages =~= closing_script(trainer@, player_name@));

        text.spawn();
    }

    /// Advances the sequence by one frame.
    pub fn update(&mut self, delta: u32, confirm: bool, text: &mut TextDisplay)
        ensures
            final(self)@ == old(self)@.stepped(old(text)@, delta as nat, confirm),
            final(text)@ == closing_dialogue(old(text)@, delta as nat, confirm),
    {
        if text.alive() {
            text.update(delta, confirm);
            if text.current() >= 1 && self.offset > RESTING_X {
                let step: u64 = SLIDE_RATE * (delta as u64);
                self.offset = if self.offset - RESTING_X > step {
                    self.offset - step
                } else {
                    RESTING_X
                };
            }
            if text.finished() {
                text.despawn();
            }
        } else {
            self.wild.update(delta);
        }
    }

    /// Whether the map is to be drawn under the overlay.
    pub fn world_active(&self) -> (active: bool)
        ensures
            active == self@.fade.world,
    {
        self.wild.world_active()
    }

    /// The overlay to draw over the whole screen.
    pub fn draw(&self) -> (overlay: Overlay)
        ensures
            overlay == WildBattleCloser::overlay(self@.fade),
    {
        self.wild.draw()
    }

    /// The trainer's sprite to draw over the battle scene, if one was
    /// taken up.
    pub fn draw_battle(&self) -> (sprite: Option<TrainerSprite>)
        ensures
            sprite == Self::sprite(self@),
    {
        match self.trainer {
            Some(group) => Some(TrainerSprite { sprite: group, x: self.offset, y: TRAINER_Y }),
            None => None,
        }
    }
}

impl Completable for TrainerBattleCloser {
    open spec fn completed(&self) -> bool {
        self@.fade.finished()
    }

    /// Whether the sequence is over: the fade has run its course.
    fn finished(&self) -> (finished: bool) {
        self.wild.finished()
    }
}

impl Reset for TrainerBattleCloser {
    open spec fn is_reset(&self) -> bool {
        self@ == TrainerCloserView::cleared()
    }

    /// Puts the sequence back to its start.
    fn reset(&mut self) {
        self.trainer = None;
        self.wild.reset();
        self.offset = START_X;
    }
}

impl Sequence for TrainerBattleCloser {
    proof fn reset_is_unfinished(&self) {
    }
}

} // verus!
