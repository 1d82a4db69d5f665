//! What the world hands over when an encounter starts.

use vstd::prelude::*;
use vstd::string::StringExecFns;
use crate::strings::{decimal, decimal_string, text_groups};

verus! {

/// Identifier of a character of the map.
pub type NpcId = u64;

/// Identifier of a badge.
pub type BadgeId = u128;

/// Identifier of the sprite group that a character is drawn from.
pub type NpcGroupId = u128;

/// Identifier of the screen wipe that opens a battle.
pub type TransitionId = u64;

/// Prize money.
pub type Worth = u16;

/// Identifier of a species.
pub type PokemonId = u16;

/// Who takes part in a battle.
#[derive(Debug, Clone, Copy, PartialEq, Eq, Hash, PartialOrd, Ord, Structural)]
pub enum BattleId {
    Default,
    Player,
    Wild,
    Trainer(NpcId),
}

impl Default for BattleId {
    fn default() -> (id: Self)
        ensures
            id == BattleId::Default,
    {
        BattleId::Default
    }
}

impl BattleId {
    /// The participant's name as it is written in messages.
    pub open spec fn spec_name(self) -> Seq<char> {
        match self {
            BattleId::Default => "Default"@,
            BattleId::Player => "Player"@,
            BattleId::Wild => "Wild"@,
            BattleId::Trainer(id) => "Trainer("@ + decimal(id as nat) + ")"@,
        }
    }

    /// The participant's name as it is written in messages.
    pub fn name(&self) -> (s: String)
        ensures
            s@ == self.spec_name(),
    {
        match self {
            BattleId::Default => String::from_str("Default"),
            BattleId::Player => String::from_str("Player"),
            BattleId::Wild => String::from_str("Wild"),
            BattleId::Trainer(id) => {
                let mut s = String::from_str("Trainer(");
                s.append(decimal_string(*id).as_str());
                s.append(")");
                s
            },
        }
    }
}

/// The kind of an encounter.
#[derive(Debug, Clone, Copy, PartialEq, Eq, Hash, Structural)]
pub enum BattleType {
    Wild,
    Trainer,
    GymLeader,
}

/// One member of a party, as far as the presentation needs it.
pub struct PartyMember {
    /// Its species.
    pub species: PokemonId,
    /// The name it is announced by.
    pub name: String,
    /// Its level.
    pub level: u8,
    /// Its remaining health.
    pub hp: u16,
    /// Its health when unhurt.
    pub max_hp: u16,
}

impl PartyMember {
    /// Whether the member can no longer fight.
    pub open spec fn spec_fainted(&self) -> bool {
        self.hp == 0
    }

    /// Whether the member can no longer fight.
    #[verifier::when_used_as_spec(spec_fainted)]
    pub fn fainted(&self) -> (fainted: bool)
        ensures
            fainted == self.spec_fainted(),
    {
        self.hp == 0
    }
}

/// Whether some member of `party` can still fight.
pub open spec fn any_ready(party: Seq<PartyMember>) -> bool {
    exists|i: int| 0 <= i < party.len() && !(#[trigger] party[i]).spec_fainted()
}

/// Whether some member of `party` can still fight.
pub fn has_ready_member(party: &Vec<PartyMember>) -> (ready: bool)
    ensures
        ready == any_ready(party@),
{
    let mut i: usize = 0;
    while i < party.len()
        invariant
            i <= party@.len(),
            forall|j: int| 0 <= j < i ==> (#[trigger] party@[j]).spec_fainted(),
        decreases party@.len() - i,
    {
        if !party[i].fainted() {
            return true;
        }
        i += 1;
    }
    false
}

/// Whether member `i` of `party` leads: it can fight and nobody before it
/// can.
pub open spec fn is_lead(party: Seq<PartyMember>, i: int) -> bool {
    &&& 0 <= i < party.len()
    &&& !party[i].spec_fainted()
    &&& forall|j: int| 0 <= j < i ==> (#[trigger] party[j]).spec_fainted()
}

/// The index of the member that leads `party`: the first that can fight,
/// or the first of all where none can.
pub open spec fn lead_index(party: Seq<PartyMember>) -> int {
    if any_ready(party) {
        choose|i: int| is_lead(party, i)
    } else {
        0
    }
}

/// A party has one leader at most.
pub proof fn lemma_lead_unique(party: Seq<PartyMember>, i: int, j: int)
    requires
        is_lead(party, i),
        is_lead(party, j),
    ensures
        i == j,
{
    if i < j {
        assert(party[i].spec_fainted());
    } else if j < i {
        assert(party[j].spec_fainted());
    }
}

/// Finds the member that leads `party`.
pub fn find_lead(party: &Vec<PartyMember>) -> (lead: usize)
    ensures
        lead == lead_index(party@),
        any_ready(party@) ==> is_lead(party@, lead as int),
{
    let mut i: usize = 0;
    while i < party.len()
        invariant
            i <= party@.len(),
            forall|j: int| 0 <= j < i ==> (#[trigger] party@[j]).spec_fainted(),
        decreases party@.len() - i,
    {
        if !party[i].fainted() {
            proof {
                assert(is_lead(party@, i as int));
                assert(any_ready(party@));
                lemma_lead_unique(party@, i as int, lead_index(party@));
            }
            return i;
        }
        i += 1;
    }
    0
}

/// The trainer behind an encounter.
#[derive(Debug)]
pub struct BattleTrainerEntry {
    /// The trainer's name, title included.
    pub name: String,
    /// The badge that a win gives, for a gym leader.
    pub badge: Option<BadgeId>,
    /// The sprite group the trainer is drawn from.
    pub sprite: NpcGroupId,
    /// The screen wipe that opens the battle.
    pub transition: TransitionId,
    /// What the trainer says after losing, page by page.
    pub victory_message: Vec<Vec<String>>,
    /// The prize for winning.
    pub worth: Worth,
}

/// A trainer record as contracts see it.
pub struct TrainerView {
    pub name: Seq<char>,
    pub badge: Option<BadgeId>,
    pub sprite: NpcGroupId,
    pub transition: TransitionId,
    pub victory_message: Seq<Seq<Seq<char>>>,
    pub worth: Worth,
}

impl View for BattleTrainerEntry {
    type V = TrainerView;

    open spec fn view(&self) -> TrainerView {
        TrainerView {
            name: self.name@,
            badge: self.badge,
            sprite: self.sprite,
            transition: self.transition,
            victory_message: text_groups(self.victory_message@),
            worth: self.worth,
        }
    }
}

/// The view of an optional trainer record.
pub open spec fn trainer_view(trainer: Option<BattleTrainerEntry>) -> Option<TrainerView> {
    match trainer {
        Some(t) => Some(t@),
        None => None,
    }
}

/// The view of an optional borrowed trainer record.
pub open spec fn trainer_ref_view(trainer: Option<&BattleTrainerEntry>) -> Option<TrainerView> {
    match trainer {
        Some(t) => Some(t@),
        None => None,
    }
}

/// An encounter about to start.
pub struct BattleEntry {
    /// The opposing side.
    pub id: BattleId,
    /// The opposing party.
    pub party: Vec<PartyMember>,
    /// The trainer, unless the encounter is a wild one.
    pub trainer: Option<BattleTrainerEntry>,
    /// How many of each side fight at once.
    pub active: usize,
}

impl BattleEntry {
    /// The kind of encounter: wild without a trainer, a gym battle where the
    /// trainer gives a badge, an ordinary trainer battle otherwise.
    pub open spec fn spec_battle_type(&self) -> BattleType {
        match self.trainer {
            None => BattleType::Wild,
            Some(t) => if t.badge is Some {
                BattleType::GymLeader
            } else {
                BattleType::Trainer
            },
        }
    }

    /// The kind of encounter.
    #[verifier::when_used_as_spec(spec_battle_type)]
    pub fn battle_type(&self) -> (kind: BattleType)
        ensures
            kind == self.spec_battle_type(),
    {
        match &self.trainer {
            None => BattleType::Wild,
            Some(t) => if t.badge.is_some() {
                BattleType::GymLeader
            } else {
                BattleType::Trainer
            },
        }
    }
}

} // verus!
