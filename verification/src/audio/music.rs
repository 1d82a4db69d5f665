//! The tracks of the game.

use vstd::prelude::*;

verus! {

/// A track.
#[derive(Debug, Copy, Clone, Hash, PartialEq, Eq, Structural)]
pub enum Music {
    IntroGamefreak,
    Title,
    Pallet,
    Pewter,
    Fuchsia,
    Lavender,
    Celadon,
    Cinnabar,
    Vermilion,
    Route1,
    Route2,
    Route3,
    Route4,
    ViridianForest,
    MountMoon,
    Gym,
    EncounterBoy,
    BattleWild,
    BattleTrainer,
    BattleGym,
}

impl Default for Music {
    fn default() -> (music: Self)
        ensures
            music == Music::Pallet,
    {
        Music::Pallet
    }
}

/// The track that a map's music number stands for. A number that stands for
/// none gives the default track.
pub open spec fn music_of(id: u8) -> Music {
    if id == 0x1F {
        Music::ViridianForest
    } else if id == 0x13 {
        Music::Gym
    } else if id == 0x20 {
        Music::MountMoon
    } else if id == 0x23 {
        Music::Route1
    } else if id == 0x24 {
        Music::Route2
    } else if id == 0x25 {
        Music::Route3
    } else if id == 0x26 {
        Music::Route4
    } else if id == 0x34 {
        Music::Fuchsia
    } else if id == 0x3A {
        Music::Pewter
    } else if id == 0x18 {
        Music::Lavender
    } else if id == 0x35 {
        Music::Celadon
    } else if id == 0x17 {
        Music::Cinnabar
    } else if id == 0x39 {
        Music::Vermilion
    } else {
        Music::Pallet
    }
}

impl From<u8> for Music {
    fn from(id: u8) -> (music: Self) {
        match id {
            0x1F => Music::ViridianForest,
            0x13 => Music::Gym,
            0x20 => Music::MountMoon,
            0x23 => Music::Route1,
            0x24 => Music::Route2,
            0x25 => Music::Route3,
            0x26 => Music::Route4,
            0x34 => Music::Fuchsia,
            0x3A => Music::Pewter,
            0x18 => Music::Lavender,
            0x35 => Music::Celadon,
            0x17 => Music::Cinnabar,
            0x39 => Music::Vermilion,
            _ => Music::Pallet,
        }
    }
}

impl vstd::std_specs::convert::FromSpecImpl<u8> for Music {
    open spec fn obeys_from_spec() -> bool {
        true
    }

    open spec fn from_spec(id: u8) -> Self {
        music_of(id)
    }
}

/// Every track, in the order of the declaration.
pub open spec fn all_music() -> Seq<Music> {
    seq![
        Music::IntroGamefreak,
        Music::Title,
        Music::Pallet,
        Music::Pewter,
        Music::Fuchsia,
        Music::Lavender,
        Music::Celadon,
        Music::Cinnabar,
        Music::Vermilion,
        Music::Route1,
        Music::Route2,
        Music::Route3,
        Music::Route4,
        Music::ViridianForest,
        Music::MountMoon,
        Music::Gym,
        Music::EncounterBoy,
        Music::BattleWild,
        Music::BattleTrainer,
        Music::BattleGym,
    ]
}

impl Music {
    /// Whether a map's music number stands for a track of its own.
    pub open spec fn known(id: u8) -> bool {
        id == 0x1F || id == 0x13 || id == 0x20 || id == 0x23 || id == 0x24 || id == 0x25 || id == 0x26
            || id == 0x34 || id == 0x3A || id == 0x18 || id == 0x35 || id == 0x17 || id == 0x39
            || id == 0x2C
    }

    /// Whether a map's music number stands for a track of its own; the
    /// caller may want to warn where it does not.
    pub fn is_known(id: u8) -> (known: bool)
        ensures
            known == Self::known(id),
    {
        id == 0x1F || id == 0x13 || id == 0x20 || id == 0x23 || id == 0x24 || id == 0x25 || id == 0x26
            || id == 0x34 || id == 0x3A || id == 0x18 || id == 0x35 || id == 0x17 || id == 0x39
            || id == 0x2C
    }

    /// Every track, in the order of the declaration.
    pub fn all() -> (tracks: Vec<Music>)
        ensures
            tracks@ == all_music(),
    {
        let tracks = vec![
            Music::IntroGamefreak,
            Music::Title,
            Music::Pallet,
            Music::Pewter,
            Music::Fuchsia,
            Music::Lavender,
            Music::Celadon,
            Music::Cinnabar,
            Music::Vermilion,
            Music::Route1,
            Music::Route2,
            Music::Route3,
            Music::Route4,
            Music::ViridianForest,
            Music::MountMoon,
            Music::Gym,
            Music::EncounterBoy,
            Music::BattleWild,
            Music::BattleTrainer,
            Music::BattleGym,
        ];
        assert(tracks@ =~= all_music());
        tracks
    }

    /// The name of the track's file, without its ending.
    pub open spec fn spec_name(self) -> Seq<char> {
        match self {
            Music::IntroGamefreak => "gamefreak"@,
            Music::Title => "title"@,
            Music::Pallet => "pallet"@,
            Music::Pewter => "pewter"@,
            Music::Fuchsia => "fuchsia"@,
            Music::Lavender => "lavender"@,
            Music::Celadon => "celadon"@,
            Music::Cinnabar => "cinnabar"@,
            Music::Vermilion => "vermilion"@,
            Music::Route1 => "route1"@,
            Music::Route2 => "route2"@,
            Music::Route3 => "route3"@,
            Music::Route4 => "route4"@,
            Music::Gym => "gym"@,
            Music::ViridianForest => "viridian_forest"@,
            Music::MountMoon => "mt_moon"@,
            Music::EncounterBoy => "encounter_boy"@,
            Music::BattleWild => "vs_wild"@,
            Music::BattleTrainer => "vs_trainer"@,
            Music::BattleGym => "vs_gym"@,
        }
    }

    /// The name of the track's file, without its ending.
    pub fn name(self) -> (name: &'static str)
        ensures
            name@ == self.spec_name(),
    {
        match self {
            Music::IntroGamefreak => "gamefreak",
            Music::Title => "title",
            Music::Pallet => "pallet",
            Music::Pewter => "pewter",
            Music::Fuchsia => "fuchsia",
            Music::Lavender => "lavender",
            Music::Celadon => "celadon",
            Music::Cinnabar => "cinnabar",
            Music::Vermilion => "vermilion",
            Music::Route1 => "route1",
            Music::Route2 => "route2",
            Music::Route3 => "route3",
            Music::Route4 => "route4",
            Music::Gym => "gym",
            Music::ViridianForest => "viridian_forest",
            Music::MountMoon => "mt_moon",
            Music::EncounterBoy => "encounter_boy",
            Music::BattleWild => "vs_wild",
            Music::BattleTrainer => "vs_trainer",
            Music::BattleGym => "vs_gym",
        }
    }

    /// Whether the track's bytes ship inside the program.
    pub open spec fn included(self) -> bool {
        match self {
            Music::IntroGamefreak
            | Music::Title
            | Music::Pallet
            | Music::EncounterBoy
            | Music::BattleWild
            | Music::BattleTrainer
            | Music::BattleGym => true,
            _ => false,
        }
    }

    /// For a track whose bytes ship inside the program, the name of the
    /// asset that holds them; the caller keeps the bytes under that name.
    pub fn included_bytes(&self) -> (asset: Option<&'static str>)
        ensures
            asset is Some == self.included(),
            asset matches Some(name) ==> name@ == self.spec_name(),
    {
        match self {
            Music::IntroGamefreak
            | Music::Title
            | Music::Pallet
            | Music::EncounterBoy
            | Music::BattleWild
            | Music::BattleTrainer
            | Music::BattleGym => Some(self.name()),
            _ => None,
        }
    }
}

} // verus!
