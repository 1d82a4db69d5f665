//! The orchestrator: the top-level machine that takes an encounter through
//! its four phases. The combat engine, the sound and the input stay with the
//! caller: each frame the caller reports what it saw of them and is told, in
//! order, what to do with them.

use vstd::prelude::*;
use rand::rngs::SmallRng;
use rand::SeedableRng;
use crate::battle::glue::{
    any_ready, find_lead, has_ready_member, lead_index, trainer_view, BattleEntry, BattleId,
    BattleTrainerEntry, BattleType, PartyMember, PokemonId, TrainerView,
};
use crate::battle::transitions::TransitionState;
use crate::battle::transitions::introductions::IntroCues;
use crate::battle::transitions::managers::closer::{
    begun_text, updated_text, BattleCloserManager, CloserManagerView,
};
use crate::battle::transitions::managers::introduction::IntroManagerView;
use crate::battle::transitions::managers::transition::{
    BattleScreenTransitionManager, TransitionManagerView,
};
use crate::gui::battle::battle_gui::{BattleGui, BattleGuiView};
use crate::lifecycle::Reset;

verus! {

/// `SmallRng` of rand: a random generator, carried along as it is.
#[verifier::external_type_specification]
#[verifier::external_body]
pub struct ExSmallRng(SmallRng);

/// `SmallRng::seed_from_u64` of rand: a generator made from the seed. The
/// algorithm behind it differs between platforms and releases, so nothing
/// is said of what the generator will give.
#[verifier::external_body]
fn seeded(seed: u64) -> SmallRng {
    SmallRng::seed_from_u64(seed)
}

/// The phase of an encounter.
#[derive(Debug, Clone, Copy, PartialEq, Eq, Structural)]
pub enum BattleManagerState {
    /// Nothing shown yet.
    Begin,
    /// The opening runs.
    Transition,
    /// The combat engine runs.
    Battle,
    /// The closing sequence runs for the given winner.
    Closer(BattleId),
}

impl Default for BattleManagerState {
    fn default() -> (state: Self)
        ensures
            state == BattleManagerState::Begin,
    {
        BattleManagerState::Begin
    }
}

/// What the caller saw since the last frame.
#[derive(Debug, Clone, Copy, PartialEq, Eq, Structural)]
pub struct Frame {
    /// Milliseconds since the last frame.
    pub delta: u32,
    /// Whether the player confirmed the dialogue.
    pub confirm: bool,
    /// Whether the way out for debugging was asked for.
    pub escape: bool,
    /// Whether the combat engine says that the battle is over.
    pub engine_finished: bool,
    /// The winner that the combat engine reports, if it has one.
    pub winner: Option<BattleId>,
}

/// What the caller is to do, in the order given.
#[derive(Debug, Clone, Copy, PartialEq, Eq, Structural)]
pub enum BattleAction {
    /// Let the player's client take in what the engine sent.
    Process,
    /// Tell the combat engine to start.
    BeginEngine,
    /// Let the player start choosing.
    StartInput,
    /// Advance the combat engine by the frame.
    UpdateEngine,
    /// Advance the player's menus by the frame.
    UpdatePlayer,
    /// Play the cry of the opponent's combatant.
    OpponentCry(PokemonId),
    /// Play the cry of the player's combatant.
    PlayerCry(PokemonId),
    /// Let the computer opponent think.
    UpdateAi,
}

/// What is drawn, from the back to the front.
#[derive(Debug, Clone, Copy, PartialEq, Eq, Structural)]
pub enum Layer {
    /// The opening sequence.
    Transition,
    /// The battle as the player's client shows it.
    Player,
    /// The scenery.
    Background,
    /// The command panel.
    Panel,
    /// The combatants of the player's side.
    Combatants,
    /// What the closing sequence puts over the scene.
    CloserBattle,
    /// The dialogue.
    Text,
    /// The closing sequence's overlay.
    Closer,
}

/// Most steps that one frame takes: a frame goes through the phases that
/// take no time and stops at the first that does.
pub const MAX_STEPS: usize = 4;

/// The orchestrator.
pub struct BattleManager {
    state: BattleManagerState,
    engaged: bool,
    battle_type: BattleType,
    trainer: Option<BattleTrainerEntry>,
    local: BattleId,
    local_name: String,
    active: String,
    active_species: PokemonId,
    opponent: String,
    opponent_species: PokemonId,
    transition: BattleScreenTransitionManager,
    closer: BattleCloserManager,
    gui: BattleGui,
    winner: Option<BattleId>,
    seed: u64,
    /// The generator that the combat engine draws from.
    pub random: SmallRng,
    /// Whether the encounter is over. The caller polls this.
    pub finished: bool,
}

/// The state of the orchestrator.
pub struct ManagerView {
    /// The phase.
    pub state: BattleManagerState,
    /// Whether a combat engine is attached.
    pub engaged: bool,
    /// The kind of encounter.
    pub battle_type: BattleType,
    /// The trainer behind the encounter, if any.
    pub trainer: Option<TrainerView>,
    /// The local player.
    pub local: BattleId,
    /// The local player's name.
    pub local_name: Seq<char>,
    /// The combatant that the player leads with, and its species.
    pub active: Seq<char>,
    pub active_species: PokemonId,
    /// The combatant that the other side leads with, and its species.
    pub opponent: Seq<char>,
    pub opponent_species: PokemonId,
    /// The transition manager.
    pub transition: TransitionManagerView,
    /// The closer manager.
    pub closer: CloserManagerView,
    /// The battle screen.
    pub gui: BattleGuiView,
    /// The winner, once the engine has reported one.
    pub winner: Option<BattleId>,
    /// The seed that the generator was last made from.
    pub seed: u64,
    /// The generator that the combat engine draws from.
    pub random: SmallRng,
    /// Whether the encounter is over.
    pub finished: bool,
}

/// One step of a frame.
pub struct Step {
    /// The orchestrator after the step.
    pub next: ManagerView,
    /// What the step asks of the caller.
    pub actions: Seq<BattleAction>,
    /// Whether the step took no time, so that the frame goes on.
    pub again: bool,
}

/// The outcome of a frame.
pub struct Outcome {
    /// The orchestrator after the frame.
    pub next: ManagerView,
    /// What the frame asks of the caller.
    pub actions: Seq<BattleAction>,
    /// How many steps the frame took.
    pub steps: nat,
}

/// The sounds of a frame as requests to the caller: the opponent's cry
/// before the player's.
pub open spec fn cue_actions(cues: IntroCues, opponent: PokemonId, active: PokemonId) -> Seq<BattleAction> {
    (if cues.opponent_cry {
        seq![BattleAction::OpponentCry(opponent)]
    } else {
        Seq::<BattleAction>::empty()
    }) + (if cues.player_cry {
        seq![BattleAction::PlayerCry(active)]
    } else {
        Seq::<BattleAction>::empty()
    })
}

/// Whether an encounter between `party` and `opponents` can start: neither
/// side is empty and the player has a member that can fight.
pub open spec fn can_start(party: Seq<PartyMember>, opponents: Seq<PartyMember>) -> bool {
    party.len() > 0 && opponents.len() > 0 && any_ready(party)
}

impl ManagerView {
    /// An orchestrator with no encounter, around the generator `random`:
    /// in its first phase, without an engine, with both managers and the
    /// screen as they are made.
    pub open spec fn fresh(random: SmallRng) -> ManagerView {
        ManagerView {
            state: BattleManagerState::Begin,
            engaged: false,
            battle_type: BattleType::Wild,
            trainer: None,
            local: BattleId::Player,
            local_name: Seq::empty(),
            active: Seq::empty(),
            active_species: 0,
            opponent: Seq::empty(),
            opponent_species: 0,
            transition: TransitionManagerView {
                state: TransitionState::Begin,
                introduction: IntroManagerView::fresh(),
            },
            closer: CloserManagerView::fresh(),
            gui: BattleGuiView::fresh(),
            winner: None,
            seed: 0,
            random,
            finished: false,
        }
    }

    /// The orchestrator after an encounter has started: in its first phase,
    /// with an engine attached and the screen filled in from the two
    /// combatants that lead.
    pub open spec fn started(
        self,
        party: Seq<PartyMember>,
        player_name: Seq<char>,
        entry: BattleEntry,
    ) -> ManagerView {
        let lead = party[lead_index(party)];
        let foe = entry.party@[lead_index(entry.party@)];
        ManagerView {
            state: BattleManagerState::Begin,
            engaged: true,
            battle_type: entry.spec_battle_type(),
            trainer: trainer_view(entry.trainer),
            local: BattleId::Player,
            local_name: player_name,
            active: lead.name@,
            active_species: lead.species,
            opponent: foe.name@,
            opponent_species: foe.species,
            gui: self.gui.showing(lead, foe),
            winner: None,
            finished: false,
            ..self
        }
    }

    /// The transition manager put back.
    pub open spec fn transition_rewound(self) -> TransitionManagerView {
        TransitionManagerView { state: TransitionState::Begin, ..self.transition }
    }

    /// The closer manager put back.
    pub open spec fn closer_rewound(self) -> CloserManagerView {
        CloserManagerView { state: TransitionState::Begin, ..self.closer }
    }

    /// The step out of the first phase: the screen is put back and the
    /// engine told to start. It takes no time.
    pub open spec fn step_begin(self) -> Step {
        Step {
            next: ManagerView {
                state: BattleManagerState::Transition,
                transition: self.transition_rewound(),
                gui: self.gui.cleared(),
                ..self
            },
            actions: seq![BattleAction::BeginEngine],
            again: true,
        }
    }

    /// A step of the opening phase.
    pub open spec fn step_transition(self, frame: Frame) -> Step {
        match self.transition.state {
            TransitionState::Begin => Step {
                next: ManagerView {
                    transition: TransitionManagerView {
                        state: TransitionState::Run,
                        introduction: self.transition.introduction.begun(self.battle_type, self.trainer),
                    },
                    gui: BattleGuiView {
                        text: IntroManagerView::begun_text(
                            self.battle_type,
                            self.active,
                            self.opponent,
                            self.trainer,
                        ),
                        ..self.gui
                    },
                    ..self
                },
                actions: Seq::empty(),
                again: true,
            },
            TransitionState::Run => {
                let scene = self.transition.step(
                    self.gui.player,
                    self.gui.opponent,
                    self.gui.text,
                    frame.delta as nat,
                    frame.confirm,
                );
                Step {
                    next: ManagerView {
                        transition: self.transition.updated(scene.0, frame.delta as nat),
                        gui: BattleGuiView {
                            player: scene.0.player,
                            opponent: scene.0.opponent,
                            text: scene.0.text,
                            ..self.gui
                        },
                        ..self
                    },
                    actions: cue_actions(scene.1, self.opponent_species, self.active_species),
                    again: false,
                }
            },
            TransitionState::End => Step {
                next: ManagerView {
                    state: BattleManagerState::Battle,
                    transition: self.transition_rewound(),
                    ..self
                },
                actions: seq![BattleAction::StartInput],
                again: true,
            },
        }
    }

    /// A step of the combat phase: the engine advances unless it is done,
    /// the player's menus advance, and a winner ends the phase.
    pub open spec fn step_battle(self, frame: Frame) -> Step {
        Step {
            next: match frame.winner {
                Some(winner) => ManagerView {
                    state: BattleManagerState::Closer(winner),
                    winner: Some(winner),
                    ..self
                },
                None => self,
            },
            actions: (if frame.engine_finished {
                Seq::<BattleAction>::empty()
            } else {
                seq![BattleAction::UpdateEngine]
            }) + seq![BattleAction::UpdatePlayer],
            again: false,
        }
    }

    /// A step of the closing phase for the winner `winner`.
    pub open spec fn step_closer(self, winner: BattleId, frame: Frame) -> Step {
        match self.closer.state {
            TransitionState::Begin => Step {
                next: ManagerView {
                    closer: self.closer.begun(self.battle_type, self.local, Some(winner), self.trainer),
                    gui: BattleGuiView {
                        text: begun_text(
                            self.gui.text,
                            self.battle_type,
                            self.local,
                            self.local_name,
                            Some(winner),
                            self.trainer,
                        ),
                        ..self.gui
                    },
                    ..self
                },
                actions: Seq::empty(),
                again: true,
            },
            TransitionState::Run => Step {
                next: ManagerView {
                    closer: self.closer.updated(self.gui.text, frame.delta as nat, frame.confirm),
                    gui: BattleGuiView {
                        text: updated_text(
                            self.closer.current,
                            self.gui.text,
                            frame.delta as nat,
                            frame.confirm,
                        ),
                        ..self.gui
                    },
                    ..self
                },
                actions: Seq::empty(),
                again: false,
            },
            TransitionState::End => Step {
                next: ManagerView {
                    state: BattleManagerState::Begin,
                    closer: self.closer_rewound(),
                    finished: true,
                    ..self
                },
                actions: Seq::empty(),
                again: false,
            },
        }
    }

    /// One step of a frame, by the phase.
    pub open spec fn step(self, frame: Frame) -> Step {
        match self.state {
            BattleManagerState::Begin => self.step_begin(),
            BattleManagerState::Transition => self.step_transition(frame),
            BattleManagerState::Battle => self.step_battle(frame),
            BattleManagerState::Closer(winner) => self.step_closer(winner, frame),
        }
    }

    /// Up to `fuel` steps of a frame: each starts with the player's client
    /// taking in what the engine sent, and the frame stops at the first step
    /// that takes time.
    pub open spec fn run(self, frame: Frame, fuel: nat) -> Outcome
        decreases fuel,
    {
        if fuel == 0 {
            Outcome { next: self, actions: Seq::empty(), steps: 0 }
        } else {
            let step = self.step(frame);
            let head = seq![BattleAction::Process] + step.actions;
            if step.again {
                let rest = step.next.run(frame, (fuel - 1) as nat);
                Outcome { next: rest.next, actions: head + rest.actions, steps: rest.steps + 1 }
            } else {
                Outcome { next: step.next, actions: head, steps: 1 }
            }
        }
    }

    /// The orchestrator after the encounter was cut short: over, with the
    /// engine let go if combat was on, or else with the manager of the
    /// running phase put back.
    pub open spec fn ended(self) -> ManagerView {
        match self.state {
            BattleManagerState::Begin => ManagerView { finished: true, ..self },
            BattleManagerState::Transition => ManagerView {
                finished: true,
                transition: self.transition_rewound(),
                ..self
            },
            BattleManagerState::Battle => ManagerView {
                finished: true,
                engaged: false,
                state: BattleManagerState::Begin,
                ..self
            },
            BattleManagerState::Closer(_) => ManagerView {
                finished: true,
                closer: self.closer_rewound(),
                ..self
            },
        }
    }

    /// `n` requests to let the computer opponent think.
    pub open spec fn thinking(n: nat) -> Seq<BattleAction> {
        Seq::new(n, |i: int| BattleAction::UpdateAi)
    }

    /// A whole frame. The way out, if asked for, cuts the encounter short
    /// and nothing else happens. Without an engine nothing moves. Otherwise
    /// the frame takes its steps, and the computer opponent thinks once for
    /// each.
    pub open spec fn updated(self, frame: Frame) -> (ManagerView, Seq<BattleAction>) {
        if frame.escape {
            (self.ended(), Seq::empty())
        } else if !self.engaged {
            (self, seq![BattleAction::UpdateAi])
        } else {
            let outcome = self.run(frame, MAX_STEPS as nat);
            (outcome.next, outcome.actions + Self::thinking(outcome.steps))
        }
    }

    /// Whether the map is to be drawn behind the battle: during the opening,
    /// and while the closing sequence lets it through.
    pub open spec fn world_active(self) -> bool {
        self.state == BattleManagerState::Transition || self.closer.world_active()
    }

    /// The winner as the caller may ask for it: what the engine reported,
    /// while an engine is attached.
    pub open spec fn reported_winner(self) -> Option<BattleId> {
        if self.engaged {
            self.winner
        } else {
            None
        }
    }

    /// What is drawn, from the back to the front.
    pub open spec fn layers(self) -> Seq<Layer> {
        if !self.engaged {
            Seq::empty()
        } else {
            match self.state {
                BattleManagerState::Begin => Seq::empty(),
                BattleManagerState::Transition => seq![Layer::Transition],
                BattleManagerState::Battle => seq![Layer::Player],
                BattleManagerState::Closer(_) => if self.closer.state == TransitionState::End {
                    Seq::empty()
                } else if self.world_active() {
                    seq![Layer::Closer]
                } else {
                    seq![
                        Layer::Background,
                        Layer::Panel,
                        Layer::Player,
                        Layer::Combatants,
                        Layer::CloserBattle,
                        Layer::Text,
                        Layer::Closer,
                    ]
                },
            }
        }
    }
}

impl View for BattleManager {
    type V = ManagerView;

    closed spec fn view(&self) -> ManagerView {
        ManagerView {
            state: self.state,
            engaged: self.engaged,
            battle_type: self.battle_type,
            trainer: trainer_view(self.trainer),
            local: self.local,
            local_name: self.local_name@,
            active: self.active@,
            active_species: self.active_species,
            opponent: self.opponent@,
            opponent_species: self.opponent_species,
            transition: self.transition@,
            closer: self.closer@,
            gui: self.gui@,
            winner: self.winner,
            seed: self.seed,
            random: self.random,
            finished: self.finished,
        }
    }
}

impl BattleManager {
    /// An orchestrator with no encounter, around a generator made from the
    /// seed 0.
    pub fn new() -> (manager: Self)
        ensures
            manager@ == ManagerView::fresh(manager@.random),
    {
        BattleManager {
            state: BattleManagerState::Begin,
            engaged: false,
            battle_type: BattleType::Wild,
            trainer: None,
            local: BattleId::Player,
            local_name: String::new(),
            active: String::new(),
            active_species: 0,
            opponent: String::new(),
            opponent_species: 0,
            transition: BattleScreenTransitionManager::new(),
            closer: BattleCloserManager::new(),
            gui: BattleGui::new(),
            winner: None,
            seed: 0,
            random: seeded(0),
            finished: false,
        }
    }

    /// Starts an encounter between the player's `party` and the side that
    /// `entry` describes. Returns whether it started; where it did not,
    /// nothing has changed. The generator is left alone either way. The
    /// caller attaches the combat engine on success.
    pub fn battle(&mut self, party: &Vec<PartyMember>, player_name: &str, entry: BattleEntry) -> (started: bool)
        ensures
            started == can_start(party@, entry.party@),
            started ==> final(self)@ == old(self)@.started(party@, player_name@, entry),
            !started ==> final(self)@ == old(self)@,
            final(self)@.random == old(self)@.random,
    {
        if party.len() == 0 || entry.party.len() == 0 || !has_ready_member(party) {
            return false;
        }
        let lead = &party[find_lead(party)];
        let foe = &entry.party[find_lead(&entry.party)];
        self.finished = false;
        self.state = BattleManagerState::Begin;
        self.engaged = true;
        self.battle_type = entry.battle_type();
        self.local = BattleId::Player;
        self.local_name = player_name.to_owned();
        self.active = lead.name.clone();
        self.active_species = lead.species;
        self.opponent = foe.name.clone();
        self.opponent_species = foe.species;
        self.winner = None;
        self.gui.on_battle_start(lead, foe);
        self.trainer = entry.trainer;
        true
    }

    fn step_once(&mut self, frame: &Frame, actions: &mut Vec<BattleAction>) -> (again: bool)
        ensures
            final(self)@ == old(self)@.step(*frame).next,
            final(actions)@ == old(actions)@ + (seq![BattleAction::Process] + old(self)@.step(*frame).actions),
            again == old(self)@.step(*frame).again,
    {
        let ghost before = actions@;
        let ghost step = self@.step(*frame);
        actions.push(BattleAction::Process);
        let again = match self.state {
            BattleManagerState::Begin => {
                self.gui.reset();
                self.state = BattleManagerState::Transition;
                self.transition.end();
                actions.push(BattleAction::BeginEngine);
                true
            },
            BattleManagerState::Transition => match self.transition.state() {
                TransitionState::Begin => {
                    let trainer = match &self.trainer {
                        Some(t) => Some(t),
                        None => None,
                    };
                    self.transition.begin(
                        self.battle_type,
                        trainer,
                        self.active.as_str(),
                        self.opponent.as_str(),
                        &mut self.gui.battle_text,
                    );
                    true
                },
                TransitionState::Run => {
                    let cues = self.transition.update(
                        frame.delta,
                        frame.confirm,
                        &mut self.gui.player_pokemon_gui,
                        &mut self.gui.opponent_pokemon_gui,
                        &mut self.gui.battle_text,
                    );
                    if cues.opponent_cry {
                        actions.push(BattleAction::OpponentCry(self.opponent_species));
                    }
                    if cues.player_cry {
                        actions.push(BattleAction::PlayerCry(self.active_species));
                    }
                    false
                },
                TransitionState::End => {
                    self.transition.end();
                    self.state = BattleManagerState::Battle;
                    actions.push(BattleAction::StartInput);
                    true
                },
            },
            BattleManagerState::Battle => {
                if !frame.engine_finished {
                    actions.push(BattleAction::UpdateEngine);
                }
                actions.push(BattleAction::UpdatePlayer);
                match frame.winner {
                    Some(winner) => {
                        self.state = BattleManagerState::Closer(winner);
                        self.winner = Some(winner);
                    },
                    None => {},
                }
                false
            },
            BattleManagerState::Closer(winner) => match self.closer.state() {
                TransitionState::Begin => {
                    let trainer = match &self.trainer {
                        Some(t) => Some(t),
                        None => None,
                    };
                    self.closer.begin(
                        self.battle_type,
                        &self.local,
                        self.local_name.as_str(),
                        Some(&winner),
                        trainer,
                        &mut self.gui.battle_text,
                    );
                    true
                },
                TransitionState::Run => {
                    self.closer.update(frame.delta, frame.confirm, &mut self.gui.battle_text);
                    false
                },
                TransitionState::End => {
                    self.closer.end();
                    self.state = BattleManagerState::Begin;
                    self.finished = true;
                    false
                },
            },
        };
        assert(actions@ =~= before + (seq![BattleAction::Process] + step.actions));
        again
    }

    /// Runs one frame and returns what the caller is to do, in order.
    pub fn update(&mut self, frame: &Frame) -> (actions: Vec<BattleAction>)
        ensures
            (final(self)@, actions@) == old(self)@.updated(*frame),
    {
        let mut actions: Vec<BattleAction> = Vec::new();
        if frame.escape {
            self.end();
            return actions;
        }
        if !self.engaged {
            actions.push(BattleAction::UpdateAi);
            assert(actions@ =~= seq![BattleAction::UpdateAi]);
            return actions;
        }
        let ghost whole = self@.run(*frame, MAX_STEPS as nat);
        let mut steps: usize = 0;
        let mut again = true;
        assert(actions@ + whole.actions =~= whole.actions);
        while again && steps < MAX_STEPS
            invariant
                steps <= MAX_STEPS,
                whole == old(self)@.run(*frame, MAX_STEPS as nat),
                again ==> ({
                    let rest = self@.run(*frame, (MAX_STEPS - steps) as nat);
                    &&& whole.next == rest.next
                    &&& whole.actions == actions@ + rest.actions
                    &&& whole.steps == steps + rest.steps
                }),
                !again ==> whole == (Outcome { next: self@, actions: actions@, steps: steps as nat }),
            decreases MAX_STEPS - steps,
        {
            let ghost here = self@;
            let ghost so_far = actions@;
            let ghost step = here.step(*frame);
            let ghost head = seq![BattleAction::Process] + step.actions;
            again = self.step_once(frame, &mut actions);
            proof {
                if step.again {
                    let rest = step.next.run(*frame, (MAX_STEPS - steps - 1) as nat);
                    assert(so_far + (head + rest.actions) =~= (so_far + head) + rest.actions);
                }
            }
            steps += 1;
        }
        proof {
            if again {
                assert(actions@ + Seq::<BattleAction>::empty() =~= actions@);
            }
        }
        let mut i: usize = 0;
        let ghost asked = actions@;
        while i < steps
            invariant
                i <= steps,
                actions@ == asked + ManagerView::thinking(i as nat),
            decreases steps - i,
        {
            actions.push(BattleAction::UpdateAi);
            assert(actions@ =~= asked + ManagerView::thinking((i + 1) as nat));
            i += 1;
        }
        actions
    }

    /// The winner that the engine reported, while an engine is attached.
    pub fn winner(&self) -> (winner: Option<BattleId>)
        ensures
            winner == self@.reported_winner(),
    {
        if self.engaged {
            self.winner
        } else {
            None
        }
    }

    /// The phase.
    pub fn state(&self) -> (state: BattleManagerState)
        ensures
            state == self@.state,
    {
        self.state
    }

    /// Whether a combat engine is attached.
    pub fn engaged(&self) -> (engaged: bool)
        ensures
            engaged == self@.engaged,
    {
        self.engaged
    }

    /// The battle screen.
    pub fn gui(&self) -> (gui: &BattleGui)
        ensures
            gui@ == self@.gui,
    {
        &self.gui
    }

    /// The closer manager.
    pub fn closer(&self) -> (closer: &BattleCloserManager)
        ensures
            closer@ == self@.closer,
    {
        &self.closer
    }

    /// The transition manager.
    pub fn transition(&self) -> (transition: &BattleScreenTransitionManager)
        ensures
            transition@ == self@.transition,
    {
        &self.transition
    }

    /// Whether the encounter is over.
    pub fn is_finished(&self) -> (finished: bool)
        ensures
            finished == self@.finished,
    {
        self.finished
    }

    /// Whether the map is to be drawn behind the battle.
    pub fn world_active(&self) -> (active: bool)
        ensures
            active == self@.world_active(),
    {
        let opening = match self.state {
            BattleManagerState::Transition => true,
            _ => false,
        };
        opening || self.closer.world_active()
    }

    /// Makes the generator anew from `seed`. Nothing else changes.
    pub fn seed(&mut self, seed: u64)
        ensures
            final(self)@ == (ManagerView { seed, random: final(self)@.random, ..old(self)@ }),
    {
        self.seed = seed;
        self.random = seeded(seed);
    }

    /// Cuts the encounter short.
    pub fn end(&mut self)
        ensures
            final(self)@ == old(self)@.ended(),
    {
        self.finished = true;
        match self.state {
            BattleManagerState::Begin => {},
            BattleManagerState::Transition => {
                self.transition.end();
            },
            BattleManagerState::Battle => {
                self.engaged = false;
                self.state = BattleManagerState::Begin;
            },
            BattleManagerState::Closer(_) => {
                self.closer.end();
            },
        }
    }

    /// What is to be drawn, from the back to the front.
    pub fn draw(&self) -> (layers: Vec<Layer>)
        ensures
            layers@ == self@.layers(),
    {
        let mut layers: Vec<Layer> = Vec::new();
        if self.engaged {
            match self.state {
                BattleManagerState::Begin => {},
                BattleManagerState::Transition => {
                    layers.push(Layer::Transition);
                },
                BattleManagerState::Battle => {
                    layers.push(Layer::Player);
                },
                BattleManagerState::Closer(_) => {
                    let over = match self.closer.state() {
                        TransitionState::End => true,
                        _ => false,
                    };
                    if !over {
                        if !self.world_active() {
                            layers.push(Layer::Background);
                            layers.push(Layer::Panel);
                            layers.push(Layer::Player);
                            layers.push(Layer::Combatants);
                            layers.push(Layer::CloserBattle);
                            layers.push(Layer::Text);
                        }
                        layers.push(Layer::Closer);
                    }
                },
            }
        }
        assert(layers@ =~= self@.layers());
        layers
    }
}

} // verus!
