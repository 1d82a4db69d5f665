//! The characters of the map as the data files describe them, and the
//! trainer records made from them.

use vstd::prelude::*;
use vstd::string::StringExecFns;
use std::collections::HashMap;
use crate::world::map::MapNpc;
use crate::battle::glue::{BadgeId, BattleTrainerEntry, NpcGroupId, NpcId, TransitionId, Worth};
use crate::strings::{copy_groups, text_groups};

verus! {

/// Identifier of a kind of character.
pub type NPCTypeId = u128;

/// Identifier of a track by its name.
pub type MusicName = u128;

/// The colour that a character's words are written in.
#[derive(Debug, Clone, Copy, PartialEq, Eq, Structural)]
pub enum TextColor {
    White,
    Gray,
    Black,
    Red,
    Blue,
}

/// Which frames of the sprite sheet a character uses: for each way it can
/// face, the frame when standing and the two when walking.
#[derive(Debug, Clone, Copy)]
pub struct SpriteIndexes {
    pub up: [u8; 3],
    pub down: [u8; 3],
    pub side: [u8; 3],
}

/// What makes a kind of character a trainer.
#[derive(Debug, Clone)]
pub struct TrainerType {
    /// The title that goes before a trainer's name.
    pub name: String,
    /// The badge that a win gives.
    pub badge: Option<BadgeId>,
    /// The track that plays during the battle.
    pub music: Option<MusicName>,
}

/// A kind of character.
#[derive(Debug)]
pub struct NPCType {
    pub text_color: TextColor,
    pub sprite: SpriteIndexes,
    pub trainer: Option<TrainerType>,
}

/// What makes a character a trainer.
#[derive(Debug)]
pub struct Trainer {
    /// Whether talking to the trainer starts the battle.
    pub battle_on_interact: bool,
    /// How many tiles ahead the trainer watches.
    pub tracking: Option<u8>,
    /// What the trainer says before the battle, page by page.
    pub encounter_message: Vec<Vec<String>>,
    /// The screen wipe that opens the battle.
    pub battle_transition: TransitionId,
    /// What the trainer says after losing, page by page.
    pub victory_message: Vec<Vec<String>>,
    /// The characters that stop challenging once this one is beaten.
    pub disable: Vec<NpcId>,
    /// The prize for winning.
    pub worth: Worth,
}

/// The screen wipe of a trainer whose data names none: the word `default`
/// in eight bytes, the first letter lowest.
pub const DEFAULT_BATTLE_TRANSITION: TransitionId = 0x746c7561666564;

/// The screen wipe of a trainer whose data names none.
pub fn default_battle_transition() -> (transition: TransitionId)
    ensures
        transition == DEFAULT_BATTLE_TRANSITION,
{
    DEFAULT_BATTLE_TRANSITION
}

/// A trainer's name as it is announced: the title of its kind, a space,
/// and its own name.
pub open spec fn announced(title: Seq<char>, name: Seq<char>) -> Seq<char> {
    title + " "@ + name
}

/// Makes the record of the trainer behind an encounter from the kind of
/// character, the character's own name and sprite, and its trainer data.
pub fn trainer_entry(kind: &TrainerType, name: &str, sprite: NpcGroupId, trainer: &Trainer) -> (entry:
    BattleTrainerEntry)
    ensures
        entry@.name == announced(kind.name@, name@),
        entry@.badge == kind.badge,
        entry@.sprite == sprite,
        entry@.transition == trainer.battle_transition,
        entry@.victory_message == text_groups(trainer.victory_message@),
        entry@.worth == trainer.worth,
{
    let mut full = kind.name.clone();
    full.append(" ");
    full.append(name);
    BattleTrainerEntry {
        name: full,
        badge: kind.badge,
        sprite,
        transition: trainer.battle_transition,
        victory_message: copy_groups(&trainer.victory_message),
        worth: trainer.worth,
    }
}

/// The characters of a map by their identifiers.
pub struct NPCManager {
    pub npcs: HashMap<NpcId, MapNpc>,
}

/// The characters among the first `end` of `entries` by their identifiers;
/// where two have the same, the later one stays.
pub open spec fn collected(entries: Seq<(NpcId, MapNpc)>, end: int) -> Map<NpcId, MapNpc>
    decreases end,
{
    if end <= 0 {
        Map::empty()
    } else {
        collected(entries, end - 1).insert(entries[end - 1].0, entries[end - 1].1)
    }
}

/// Gathers the characters that were read from the data files, each with
/// the identifier it was filed under.
pub fn load_npc_entries(entries: &Vec<(NpcId, MapNpc)>) -> (manager: NPCManager)
    ensures
        manager.npcs@ == collected(entries@, entries@.len() as int),
{
    broadcast use vstd::std_specs::hash::group_hash_axioms;

    let mut npcs: HashMap<NpcId, MapNpc> = HashMap::new();
    let mut i: usize = 0;
    while i < entries.len()
        invariant
            i <= entries@.len(),
            npcs@ == collected(entries@, i as int),
        decreases entries@.len() - i,
    {
        npcs.insert(entries[i].0, entries[i].1);
        i += 1;
    }
    NPCManager { npcs }
}

impl NPCManager {
    /// The character filed under `id`, if there is one.
    pub fn get(&self, id: NpcId) -> (npc: Option<MapNpc>)
        ensures
            npc == (if self.npcs@.contains_key(id) {
                Some(self.npcs@[id])
            } else {
                None
            }),
    {
        broadcast use vstd::std_specs::hash::group_hash_axioms;

        match self.npcs.get(&id) {
            Some(npc) => Some(*npc),
            None => None,
        }
    }

    /// How many characters there are.
    pub fn len(&self) -> (len: usize)
        ensures
            len == self.npcs@.len(),
    {
        broadcast use vstd::std_specs::hash::group_hash_axioms;

        self.npcs.len()
    }
}

} // verus!
