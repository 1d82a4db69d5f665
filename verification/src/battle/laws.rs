//! What holds of the battle presentation as a whole.

use vstd::prelude::*;
use crate::battle::glue::{any_ready, BattleEntry, BattleType, PartyMember, TrainerView};
use crate::battle::manager::{can_start, BattleManagerState, Frame, ManagerView};
use crate::battle::transitions::TransitionState;
use crate::battle::transitions::closers::Closers;
use crate::battle::transitions::closers::trainer::{
    closing_script, defeat_line, plain_page, reward_lines, TrainerCloserView,
};
use crate::battle::transitions::closers::wild::OPAQUE;
use crate::battle::transitions::introductions::Introductions;
use crate::battle::transitions::introductions::basic::IntroScene;
use crate::battle::transitions::managers::closer::{closer_for, CloserManagerView};
use crate::battle::transitions::managers::introduction::{introduction_for, IntroManagerView};
use crate::battle::transitions::managers::transition::TransitionManagerView;
use crate::lifecycle::Sequence;
use crate::text::TextView;

verus! {

/// An encounter in which each side has a member that can fight starts, in
/// the first phase; and the first frame after the start, unless it asks for
/// the way out, takes the encounter into the opening and leaves it there.
pub proof fn lemma_start_enters_transition(
    manager: ManagerView,
    party: Seq<PartyMember>,
    player_name: Seq<char>,
    entry: BattleEntry,
    frame: Frame,
)
    requires
        any_ready(party),
        any_ready(entry.party@),
        !frame.escape,
    ensures
        can_start(party, entry.party@),
        manager.started(party, player_name, entry).state == BattleManagerState::Begin,
        manager.started(party, player_name, entry).updated(frame).0.state
            == BattleManagerState::Transition,
        manager.started(party, player_name, entry).updated(frame).0.transition.state
            == TransitionState::Run,
{
    reveal_with_fuel(ManagerView::run, 4);
}

/// With an empty player's party, or one in which nobody can fight, no
/// encounter can start.
pub proof fn lemma_no_start_without_fighter(party: Seq<PartyMember>, opponents: Seq<PartyMember>)
    requires
        party.len() == 0 || !any_ready(party),
    ensures
        !can_start(party, opponents),
{
}

/// The sequences are chosen by the kind of encounter alone: a wild one gets
/// the basic opening and the plain closing, every other kind the trainer's.
pub proof fn lemma_variant_by_battle_type(battle_type: BattleType)
    ensures
        battle_type == BattleType::Wild ==> introduction_for(battle_type) == Introductions::Basic
            && closer_for(battle_type) == Closers::Wild,
        battle_type != BattleType::Wild ==> introduction_for(battle_type) == Introductions::Trainer
            && closer_for(battle_type) == Closers::Trainer,
{
}

/// Whatever can be run again is unfinished right after it was put back.
pub proof fn lemma_reset_is_unfinished<S: Sequence>(sequence: &S)
    requires
        sequence.is_reset(),
    ensures
        !sequence.completed(),
{
    sequence.reset_is_unfinished();
}

/// How often the opponent's cry is asked for while the opening runs through
/// `frames`, each a time in milliseconds and whether the player confirmed.
pub open spec fn opponent_cries(scene: IntroScene, frames: Seq<(nat, bool)>) -> nat
    decreases frames.len(),
{
    if frames.len() == 0 {
        0
    } else {
        let step = scene.stepped(frames[0].0, frames[0].1);
        (if step.1.opponent_cry {
            1nat
        } else {
            0nat
        }) + opponent_cries(step.0, frames.drop_first())
    }
}

/// Once the opponent's panel is on screen, the cry is never asked for.
pub proof fn lemma_no_cry_once_entered(scene: IntroScene, frames: Seq<(nat, bool)>)
    requires
        scene.opponent.alive,
    ensures
        opponent_cries(scene, frames) == 0,
    decreases frames.len(),
{
    if frames.len() > 0 {
        let step = scene.stepped(frames[0].0, frames[0].1);
        lemma_no_cry_once_entered(step.0, frames.drop_first());
    }
}

/// However many frames the opening takes and however long each is, the
/// opponent's cry is asked for once at most.
pub proof fn lemma_cry_at_most_once(scene: IntroScene, frames: Seq<(nat, bool)>)
    ensures
        opponent_cries(scene, frames) <= 1,
    decreases frames.len(),
{
    if frames.len() > 0 {
        let step = scene.stepped(frames[0].0, frames[0].1);
        if step.1.opponent_cry || scene.opponent.alive {
            lemma_no_cry_once_entered(step.0, frames.drop_first());
        } else {
            lemma_cry_at_most_once(step.0, frames.drop_first());
        }
    }
}

/// How often the opponent's cry is asked for over a run of panel updates
/// of the opening, each given the dialogue as it stands at the time and a
/// time in milliseconds.
pub open spec fn panel_cries(scene: IntroScene, frames: Seq<(TextView, nat)>) -> nat
    decreases frames.len(),
{
    if frames.len() == 0 {
        0
    } else {
        let step = (IntroScene { text: frames[0].0, ..scene }).shown(frames[0].1);
        (if step.1.opponent_cry {
            1nat
        } else {
            0nat
        }) + panel_cries(step.0, frames.drop_first())
    }
}

/// A panel update that asks for the opponent's cry leaves the opponent's
/// panel on screen, and a panel on screen stays there and keeps the cry
/// from being asked for.
pub proof fn lemma_cry_brings_panel(scene: IntroScene, delta: nat)
    ensures
        scene.shown(delta).1.opponent_cry ==> !scene.opponent.alive && scene.shown(delta).0.opponent.alive,
        scene.opponent.alive ==> !scene.shown(delta).1.opponent_cry && scene.shown(delta).0.opponent.alive,
        scene.shown(delta).1.player_cry ==> !scene.player.alive && scene.shown(delta).0.player.alive,
        scene.player.alive ==> !scene.shown(delta).1.player_cry && scene.shown(delta).0.player.alive,
{
}

/// Once the opponent's panel is on screen, no run of panel updates asks
/// for the cry.
pub proof fn lemma_no_panel_cry_once_entered(scene: IntroScene, frames: Seq<(TextView, nat)>)
    requires
        scene.opponent.alive,
    ensures
        panel_cries(scene, frames) == 0,
    decreases frames.len(),
{
    if frames.len() > 0 {
        let step = (IntroScene { text: frames[0].0, ..scene }).shown(frames[0].1);
        lemma_no_panel_cry_once_entered(step.0, frames.drop_first());
    }
}

/// However many panel updates there are, however long each is and on
/// whatever page the dialogue stands, the opponent's cry is asked for once
/// at most.
pub proof fn lemma_panel_cry_at_most_once(scene: IntroScene, frames: Seq<(TextView, nat)>)
    ensures
        panel_cries(scene, frames) <= 1,
    decreases frames.len(),
{
    if frames.len() > 0 {
        let step = (IntroScene { text: frames[0].0, ..scene }).shown(frames[0].1);
        if step.1.opponent_cry || scene.opponent.alive {
            lemma_no_panel_cry_once_entered(step.0, frames.drop_first());
        } else {
            lemma_panel_cry_at_most_once(step.0, frames.drop_first());
        }
    }
}

/// The closing dialogue is the defeat line, then the trainer's own pages as
/// they were given and in their order, then the prize with its amount.
pub proof fn lemma_closing_script_shape(trainer: TrainerView, player_name: Seq<char>)
    ensures
        closing_script(trainer, player_name).len() == trainer.victory_message.len() + 2,
        closing_script(trainer, player_name)[0] == plain_page(seq![defeat_line(trainer.name)]),
        forall|i: int|
            0 <= i < trainer.victory_message.len() ==> #[trigger] closing_script(
                trainer,
                player_name,
            )[i + 1] == plain_page(trainer.victory_message[i]),
        closing_script(trainer, player_name).last() == plain_page(
            reward_lines(player_name, trainer.worth as nat),
        ),
{
}

/// The map does not come in while the closing dialogue is on screen: a
/// frame of the trainer's closing sequence leaves the fade alone as long as
/// the dialogue is up, and the fade brings the map in only once the screen
/// is solid black.
pub proof fn lemma_world_waits_for_dialogue(
    closer: TrainerCloserView,
    text: TextView,
    delta: nat,
    confirm: bool,
)
    ensures
        text.alive ==> closer.stepped(text, delta, confirm).fade == closer.fade,
        !closer.fade.world && closer.stepped(text, delta, confirm).fade.world ==> !text.alive
            && closer.stepped(text, delta, confirm).fade.alpha >= OPAQUE,
{
}

/// During the closing phase the orchestrator lets the map through only in
/// a step of the running closer that takes the screen to solid black; and
/// where the trainer's sequence is in use, only in a step that found the
/// dialogue off screen.
pub proof fn lemma_world_only_after_dialogue(manager: ManagerView, frame: Frame)
    requires
        manager.state is Closer,
        !manager.world_active(),
        manager.step(frame).next.world_active(),
    ensures
        manager.closer.state == TransitionState::Run,
        manager.step(frame).next.closer.fade().alpha >= OPAQUE,
        manager.closer.current == Closers::Trainer ==> !manager.gui.text.alive,
{
}

/// Cutting an encounter short during combat ends it at once: it is over,
/// the phase is the first again, and the engine is let go.
pub proof fn lemma_end_in_battle(manager: ManagerView)
    requires
        manager.state == BattleManagerState::Battle,
    ensures
        manager.ended().finished,
        manager.ended().state == BattleManagerState::Begin,
        !manager.ended().engaged,
{
}

/// A frame never runs into the limit on its steps: it takes three at most,
/// so that a fourth changes nothing.
pub proof fn lemma_frame_settles(manager: ManagerView, frame: Frame)
    ensures
        manager.run(frame, 4).steps <= 3,
        manager.run(frame, 4) == manager.run(frame, 3),
{
    reveal_with_fuel(ManagerView::run, 5);
}

/// Whether the phase `next` is the one that comes after `phase`.
pub open spec fn follows(phase: BattleManagerState, next: BattleManagerState) -> bool {
    match phase {
        BattleManagerState::Begin => next is Transition,
        BattleManagerState::Transition => next is Battle,
        BattleManagerState::Battle => next is Closer,
        BattleManagerState::Closer(_) => next is Begin,
    }
}

/// The phases come one after the other and none is left before it is done:
/// a step keeps the phase or moves to the one that follows; the opening is
/// left only once its manager has reached its end, combat only for the
/// winner that the engine reports, and the closing phase only once its
/// manager has reached its end, which is when the encounter is over.
pub proof fn lemma_phases_in_order(manager: ManagerView, frame: Frame)
    ensures
        ({
            let next = manager.step(frame).next;
            &&& next.state == manager.state || follows(manager.state, next.state)
            &&& manager.state is Transition && next.state is Battle ==> manager.transition.state
                == TransitionState::End
            &&& manager.state is Battle && next.state is Closer ==> frame.winner == Some(
                next.state->Closer_0,
            )
            &&& manager.state is Closer && next.state is Begin ==> manager.closer.state
                == TransitionState::End && next.finished
            &&& next.finished && !manager.finished ==> manager.state is Closer
        }),
{
}

/// The managers reach their end only when the sequence in use is over: the
/// opening with its dialogue read, the sprite moved out and the panel at
/// rest; the closing with the overlay gone and the map in.
pub proof fn lemma_managers_end_when_complete(
    transition: TransitionManagerView,
    closer: CloserManagerView,
    after: IntroScene,
    text: TextView,
    delta: nat,
    confirm: bool,
)
    requires
        transition.state == TransitionState::Run,
        closer.state == TransitionState::Run,
    ensures
        transition.updated(after, delta).state == TransitionState::End <==> after.intro.completed(),
        closer.updated(text, delta, confirm).state == TransitionState::End <==> closer.updated(
            text,
            delta,
            confirm,
        ).fade().finished(),
{
}

/// The sequence in use is chosen when a manager begins and stays the same
/// for as long as the manager runs.
pub proof fn lemma_variant_fixed_while_running(
    introduction: IntroManagerView,
    closer: CloserManagerView,
    after: IntroScene,
    text: TextView,
    delta: nat,
    confirm: bool,
)
    ensures
        introduction.updated(after, delta).current == introduction.current,
        closer.updated(text, delta, confirm).current == closer.current,
{
}

} // verus!
