//! The opening of a wild encounter: the opponent is announced and appears,
//! then the player steps back and sends a combatant in.

use vstd::prelude::*;
use vstd::string::StringExecFns;
use crate::battle::transitions::introductions::IntroCues;
use crate::gui::battle::pokemon_gui::{PokemonGui, PokemonGuiView};
use crate::lifecycle::{Completable, Entity, Reset, Sequence};
use crate::strings::{to_upper, upper};
use crate::text::{MessagePage, PageView, TextDisplay, TextView};
use crate::units::least;

verus! {

/// How far the player's sprite moves out before the combatant takes its
/// place, in sub-pixel steps.
pub const PLAYER_TRAVEL: u64 = 104000;

/// Speed of the player's sprite, in pixels per second.
pub const PLAYER_RATE: u64 = 180;

/// How long the page that sends the combatant in stays, in milliseconds.
pub const GO_WAIT: u32 = 500;

/// The opening sequence of a wild encounter.
pub struct BasicBattleIntroduction {
    alive: bool,
    finished: bool,
    counter: u64,
    finished_panel: bool,
}

/// The state of an opening sequence.
#[derive(PartialEq, Eq, Structural)]
pub struct IntroductionView {
    /// Whether the sequence is on screen.
    pub alive: bool,
    /// Whether the dialogue has been read to its end.
    pub finished: bool,
    /// How far the player's sprite has moved out, in sub-pixel steps.
    pub counter: nat,
    /// Whether the player's status panel has come to rest.
    pub finished_panel: bool,
}

/// The page that announces a wild opponent.
pub open spec fn appeared_page(opponent: Seq<char>) -> PageView {
    PageView { lines: seq!["Wild "@ + upper(opponent) + " appeared!"@], wait: None }
}

/// The page that sends the player's combatant in.
pub open spec fn go_page(active: Seq<char>) -> PageView {
    PageView { lines: seq!["Go! "@ + active + "!"@], wait: Some(GO_WAIT) }
}

/// The dialogue of a wild encounter's opening.
pub open spec fn wild_script(opponent: Seq<char>, active: Seq<char>) -> Seq<PageView> {
    seq![appeared_page(opponent), go_page(active)]
}

/// Everything that a frame of an opening sequence reads and writes.
pub struct IntroScene {
    /// The sequence itself.
    pub intro: IntroductionView,
    /// The player's status panel.
    pub player: PokemonGuiView,
    /// The opponent's status panel.
    pub opponent: PokemonGuiView,
    /// The dialogue.
    pub text: TextView,
}

impl IntroductionView {
    /// A sequence that was never started.
    pub open spec fn fresh() -> IntroductionView {
        IntroductionView { alive: false, finished: false, counter: 0, finished_panel: false }
    }

    /// Whether the sequence is over: the dialogue is read, the player's
    /// sprite has moved out all the way, and the status panel is at rest.
    /// All three are needed.
    pub open spec fn completed(self) -> bool {
        self.finished && self.counter >= PLAYER_TRAVEL && self.finished_panel
    }

    /// The sequence and the dialogue `text` after the first half of a
    /// frame: the dialogue advances; on its last page the player's sprite
    /// moves out, and once the sprite is out and the page is left the
    /// dialogue goes off screen and counts as read.
    pub open spec fn read(self, text: TextView, delta: nat, confirm: bool) -> (IntroductionView, TextView) {
        let read = text.advanced(delta, confirm);
        let last = read.current + 1 == read.pages.len();
        let moving = last && self.counter < PLAYER_TRAVEL;
        let closing = last && !moving && read.finished;
        (
            IntroductionView {
                finished: self.finished || closing,
                counter: if moving {
                    least(self.counter + PLAYER_RATE as nat * delta, PLAYER_TRAVEL as nat)
                } else {
                    self.counter
                },
                ..self
            },
            if closing {
                read.despawned()
            } else {
                read
            },
        )
    }

    /// The sequence put back: the sprite at its start, the panel not at rest.
    pub open spec fn cleared(self) -> IntroductionView {
        IntroductionView { counter: 0, finished_panel: false, ..self }
    }
}

impl IntroScene {
    /// Whether the opponent appears in a frame that leaves the dialogue as
    /// `text`: a page is up, it is the last or the one before, and the
    /// opponent's panel is not on screen yet.
    pub open spec fn opponent_enters(text: TextView, opponent: PokemonGuiView) -> bool {
        text.can_continue() && text.current + 2 >= text.pages.len() && !opponent.alive
    }

    /// The scene after the first half of a frame: the sequence reads the
    /// dialogue on, and the panels stay as they are.
    pub open spec fn read(self, delta: nat, confirm: bool) -> IntroScene {
        let read = self.intro.read(self.text, delta, confirm);
        IntroScene { intro: read.0, text: read.1, ..self }
    }

    /// The scene after the second half of a frame, and the sounds it asks
    /// for. The opponent's panel comes on screen, with the cry, when the
    /// dialogue has reached its last page but one and the panel is not on
    /// screen yet; the player's, with its cry, when the sprite has moved out
    /// and the panel is not on screen yet. Both panels slide, and the
    /// sequence notes when the player's is at rest. The dialogue stays as
    /// it is.
    pub open spec fn shown(self, delta: nat) -> (IntroScene, IntroCues) {
        let opponent_cry = Self::opponent_enters(self.text, self.opponent);
        let player_cry = self.intro.counter >= PLAYER_TRAVEL && !self.player.alive;
        let opponent = if opponent_cry {
            self.opponent.spawned()
        } else {
            self.opponent
        };
        let player = if player_cry {
            self.player.spawned()
        } else {
            self.player
        };
        let rested = player.slid(delta);
        (
            IntroScene {
                intro: IntroductionView {
                    finished_panel: self.intro.finished_panel || rested.1,
                    ..self.intro
                },
                player: rested.0,
                opponent: opponent.slid(delta).0,
                text: self.text,
            },
            IntroCues { opponent_cry, player_cry },
        )
    }

    /// The scene after one frame, and the sounds the frame asks for: the
    /// first half, then the second.
    pub open spec fn stepped(self, delta: nat, confirm: bool) -> (IntroScene, IntroCues) {
        self.read(delta, confirm).shown(delta)
    }
}

/// What to draw for the player's side during the opening.
#[derive(Debug, Clone, Copy, PartialEq, Eq, Structural)]
pub enum PlayerDraw {
    /// The player's own sprite, throwing: left edge in sub-pixel steps, top
    /// edge in pixels, and the top of the frame to cut from the sheet.
    Thrower { x: i128, y: i128, frame_y: u16 },
    /// The combatant, standing: left edge in sub-pixel steps and bottom edge
    /// in pixels.
    Combatant { x: i128, y: i128 },
}

/// The frame of the throwing animation once the sprite has moved `counter`
/// sub-pixel steps: the top of the frame in the sheet, in pixels.
pub open spec fn throw_frame(counter: nat) -> u16 {
    if counter >= 78000 {
        256
    } else if counter >= 60000 {
        192
    } else if counter >= 42000 {
        128
    } else if counter > 0 {
        64
    } else {
        0
    }
}

/// What is drawn for the player's side when the whole scene is shifted by
/// `offset` sub-pixel steps: the thrower moving out to the left while the
/// sprite is on its way, the combatant after that.
pub open spec fn player_draw(counter: nat, offset: int) -> PlayerDraw {
    if counter < PLAYER_TRAVEL {
        PlayerDraw::Thrower { x: (41000 + offset - counter) as i128, y: 49, frame_y: throw_frame(counter) }
    } else {
        PlayerDraw::Combatant { x: (40000 + offset) as i128, y: 113 }
    }
}

impl View for BasicBattleIntroduction {
    type V = IntroductionView;

    closed spec fn view(&self) -> IntroductionView {
        IntroductionView {
            alive: self.alive,
            finished: self.finished,
            counter: self.counter as nat,
            finished_panel: self.finished_panel,
        }
    }
}

impl BasicBattleIntroduction {
    #[verifier::type_invariant]
    spec fn inv(self) -> bool {
        self.counter <= PLAYER_TRAVEL
    }

    /// A sequence that was never started.
    pub fn new() -> (introduction: Self)
        ensures
            introduction@ == IntroductionView::fresh(),
    {
        BasicBattleIntroduction { alive: false, finished: false, counter: 0, finished_panel: false }
    }

    /// Adds the page that sends the player's combatant `active` in.
    pub fn common_setup(&mut self, active: &str, text: &mut TextDisplay)
        ensures
            final(self)@ == old(self)@,
            final(text)@ == old(text)@.pushed(go_page(active@)),
    {
        let mut line = String::from_str("Go! ");
        line.append(active);
        line.append("!");
        let page = MessagePage::new(vec![line], Some(GO_WAIT));
        assert(page@.lines =~= go_page(active@).lines);
        text.push(page);
    }

    /// Starts the sequence: the dialogue gets the script of a wild
    /// encounter, naming the opponent's combatant in capitals and then the
    /// player's, and is put on screen.
    pub fn spawn(&mut self, active: &str, opponent: &str, text: &mut TextDisplay)
        ensures
            final(self)@ == (IntroductionView { alive: true, finished: false, ..old(self)@ }),
            final(text)@ == (TextView {
                alive: true,
                pages: wild_script(opponent@, active@),
                current: 0,
                timer: 0,
                finished: false,
            }),
    {
        proof {
            use_type_invariant(&*self);
        }
        self.alive = true;
        self.finished = false;
        text.clear();
        let mut line = String::from_str("Wild ");
        line.append(to_upper(opponent).as_str());
        line.append(" appeared!");
        let page = MessagePage::new(vec![line], None);
        assert(page@.lines =~= appeared_page(opponent@).lines);
        text.push(page);
        self.common_setup(active, text);
        assert(text@.pages =~= wild_script(opponent@, active@));
        text.spawn();
    }

    /// Marks the sequence as on screen, with its dialogue still to be read.
    pub fn begin_showing(&mut self)
        ensures
            final(self)@ == (IntroductionView { alive: true, finished: false, ..old(self)@ }),
    {
        proof {
            use_type_invariant(&*self);
        }
        self.alive = true;
        self.finished = false;
    }

    /// Takes the sequence and the dialogue off screen.
    pub fn despawn(&mut self, text: &mut TextDisplay)
        ensures
            final(self)@ == (IntroductionView { alive: false, finished: false, ..old(self)@ }),
            final(text)@ == old(text)@.despawned(),
    {
        proof {
            use_type_invariant(&*self);
        }
        self.alive = false;
        self.finished = false;
        text.despawn();
    }

    /// Whether the sequence is on screen.
    pub fn alive(&self) -> (alive: bool)
        ensures
            alive == self@.alive,
    {
        self.alive
    }

    /// The first half of a frame: advances the dialogue and, on its last
    /// page, the player's sprite.
    pub fn advance(&mut self, delta: u32, confirm: bool, text: &mut TextDisplay)
        ensures
            (final(self)@, final(text)@) == old(self)@.read(old(text)@, delta as nat, confirm),
    {
        proof {
            use_type_invariant(&*self);
        }
        text.update(delta, confirm);
        if text.current() < text.len() && text.current() + 1 == text.len() {
            if self.counter < PLAYER_TRAVEL {
                let step: u64 = PLAYER_RATE * (delta as u64);
                self.counter = if PLAYER_TRAVEL - self.counter > step {
                    self.counter + step
                } else {
                    PLAYER_TRAVEL
                };
            } else if text.finished() {
                text.despawn();
                self.finished = true;
            }
        }
    }

    /// The second half of a frame: brings the panels on screen when their
    /// time has come, slides them, and returns the cries to play. A panel
    /// that is on screen is never brought on again, so each cry is asked
    /// for once.
    pub fn update_gui(
        &mut self,
        delta: u32,
        player: &mut PokemonGui,
        opponent: &mut PokemonGui,
        text: &TextDisplay,
    ) -> (cues: IntroCues)
        ensures
            (
                IntroScene {
                    intro: final(self)@,
                    player: final(player)@,
                    opponent: final(opponent)@,
                    text: text@,
                },
                cues,
            ) == (IntroScene {
                intro: old(self)@,
                player: old(player)@,
                opponent: old(opponent)@,
                text: text@,
            }).shown(delta as nat),
    {
        proof {
            use_type_invariant(&*self);
        }
        let mut cues = IntroCues { opponent_cry: false, player_cry: false };
        if text.can_continue() && text.len() - text.current() <= 2 && !opponent.alive() {
            opponent.spawn();
            cues.opponent_cry = true;
        }
        if self.counter >= PLAYER_TRAVEL && !player.alive() {
            player.spawn();
            cues.player_cry = true;
        }
        opponent.offset(delta);
        if player.offset(delta) {
            self.finished_panel = true;
        }
        cues
    }

    /// Advances the sequence by one frame: the dialogue and the sprite
    /// first, then the panels.
    pub fn update(
        &mut self,
        delta: u32,
        confirm: bool,
        player: &mut PokemonGui,
        opponent: &mut PokemonGui,
        text: &mut TextDisplay,
    ) -> (cues: IntroCues)
        ensures
            (
                IntroScene {
                    intro: final(self)@,
                    player: final(player)@,
                    opponent: final(opponent)@,
                    text: final(text)@,
                },
                cues,
            ) == (IntroScene {
                intro: old(self)@,
                player: old(player)@,
                opponent: old(opponent)@,
                text: old(text)@,
            }).stepped(delta as nat, confirm),
    {
        self.advance(delta, confirm, text);
        self.update_gui(delta, player, opponent, text)
    }

    /// What to draw for the player's side when the scene is shifted by
    /// `offset` sub-pixel steps.
    pub fn render_player(&self, offset: i64) -> (draw: PlayerDraw)
        ensures
            draw == player_draw(self@.counter, offset as int),
    {
        proof {
            use_type_invariant(self);
        }
        if self.counter < PLAYER_TRAVEL {
            let frame_y: u16 = if self.counter >= 78000 {
                256
            } else if self.counter >= 60000 {
                192
            } else if self.counter >= 42000 {
                128
            } else if self.counter > 0 {
                64
            } else {
                0
            };
            PlayerDraw::Thrower { x: 41000 + (offset as i128) - (self.counter as i128), y: 49, frame_y }
        } else {
            PlayerDraw::Combatant { x: 40000 + (offset as i128), y: 113 }
        }
    }

    /// What to draw for both sides when the scene is shifted by `offset`
    /// sub-pixel steps: the opponent's combatant, by its left edge in
    /// sub-pixel steps and its bottom edge in pixels, and the player's side.
    pub fn render_offset(&self, offset: i64) -> (draw: ((i128, i128), PlayerDraw))
        ensures
            draw == (((144000 - offset) as i128, 74i128), player_draw(self@.counter, offset as int)),
    {
        ((144000 - (offset as i128), 74), self.render_player(offset))
    }
}

impl Completable for BasicBattleIntroduction {
    open spec fn completed(&self) -> bool {
        self@.completed()
    }

    /// Whether the sequence is over.
    fn finished(&self) -> (finished: bool) {
        self.finished && self.counter >= PLAYER_TRAVEL && self.finished_panel
    }
}

impl Reset for BasicBattleIntroduction {
    open spec fn is_reset(&self) -> bool {
        self@.counter == 0 && !self@.finished_panel
    }

    /// Puts the sequence back to its start.
    fn reset(&mut self)
        ensures
            final(self)@ == old(self)@.cleared(),
    {
        proof {
            use_type_invariant(&*self);
        }
        self.counter = 0;
        self.finished_panel = false;
    }
}

impl Sequence for BasicBattleIntroduction {
    proof fn reset_is_unfinished(&self) {
    }
}

} // verus!
