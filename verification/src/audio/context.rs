//! Binding tracks to sound: which track is loaded from where. The loading
//! itself is the caller's.

use vstd::prelude::*;
use vstd::string::StringExecFns;
use crate::audio::music::{all_music, Music};

verus! {

/// Where a track's sound comes from.
#[derive(Debug)]
pub enum MusicSource {
    /// The bytes that ship inside the program under this asset name.
    Included(&'static str),
    /// The file at this path.
    File(String),
}

/// Where a track's sound comes from, as contracts see it.
pub enum SourceView {
    Included(Seq<char>),
    File(Seq<char>),
}

impl View for MusicSource {
    type V = SourceView;

    open spec fn view(&self) -> SourceView {
        match self {
            MusicSource::Included(name) => SourceView::Included(name@),
            MusicSource::File(path) => SourceView::File(path@),
        }
    }
}

/// A track to load and where from.
#[derive(Debug)]
pub struct Binding {
    pub music: Music,
    pub source: MusicSource,
}

/// The path of a track's file.
pub open spec fn music_path(music: Music) -> Seq<char> {
    "music/"@ + music.spec_name() + ".ogg"@
}

/// Where `music` is to be loaded from: its included bytes if it has any,
/// else its file, provided files are read at all.
pub open spec fn source_of(music: Music, from_files: bool) -> Option<SourceView> {
    if music.included() {
        Some(SourceView::Included(music.spec_name()))
    } else if from_files {
        Some(SourceView::File(music_path(music)))
    } else {
        None
    }
}

/// What is to be loaded among the first `end` of `tracks`: every track that
/// is not bound yet and has a source, in order.
pub open spec fn to_bind(tracks: Seq<Music>, bound: Seq<Music>, from_files: bool, end: int) -> Seq<(Music, SourceView)>
    decreases end,
{
    if end <= 0 {
        Seq::empty()
    } else {
        let music = tracks[end - 1];
        let earlier = to_bind(tracks, bound, from_files, end - 1);
        if !bound.contains(music) && source_of(music, from_files) is Some {
            earlier.push((music, source_of(music, from_files)->0))
        } else {
            earlier
        }
    }
}

/// The bindings that `plan` holds.
pub open spec fn bindings(plan: Seq<Binding>) -> Seq<(Music, SourceView)> {
    Seq::new(plan.len(), |i: int| (plan[i].music, plan[i].source@))
}

/// The state of the sound: whether there is a device to play on, and which
/// tracks are bound.
pub struct AudioContext {
    manager: bool,
    bound: Vec<Music>,
}

/// The state of the sound.
pub struct AudioView {
    /// Whether there is a device to play on.
    pub manager: bool,
    /// The tracks that are bound, in the order of their binding.
    pub bound: Seq<Music>,
}

impl View for AudioContext {
    type V = AudioView;

    closed spec fn view(&self) -> AudioView {
        AudioView { manager: self.manager, bound: self.bound@ }
    }
}

fn is_bound(bound: &Vec<Music>, music: Music) -> (found: bool)
    ensures
        found == bound@.contains(music),
{
    let mut i: usize = 0;
    while i < bound.len()
        invariant
            i <= bound@.len(),
            forall|j: int| 0 <= j < i ==> bound@[j] != music,
        decreases bound@.len() - i,
    {
        if bound[i] == music {
            return true;
        }
        i += 1;
    }
    false
}

impl AudioContext {
    /// The sound with nothing bound. `manager` says whether a device to
    /// play on could be opened.
    pub fn new(manager: bool) -> (context: Self)
        ensures
            context@ == (AudioView { manager, bound: Seq::empty() }),
    {
        AudioContext { manager, bound: Vec::new() }
    }

    /// Whether there is a device to play on.
    pub fn has_manager(&self) -> (manager: bool)
        ensures
            manager == self@.manager,
    {
        self.manager
    }

    /// Whether `music` is bound.
    pub fn contains(&self, music: Music) -> (found: bool)
        ensures
            found == self@.bound.contains(music),
    {
        is_bound(&self.bound, music)
    }

    /// Records that `music` was loaded.
    pub fn insert(&mut self, music: Music)
        ensures
            final(self)@ == (AudioView {
                bound: if old(self)@.bound.contains(music) {
                    old(self)@.bound
                } else {
                    old(self)@.bound.push(music)
                },
                ..old(self)@
            }),
    {
        if !is_bound(&self.bound, music) {
            self.bound.push(music);
        }
    }

    /// What to load so that every track is bound: with a device to play
    /// on, each track that is not bound yet, from its included bytes or,
    /// if `from_files` allows it, from its file. Without a device, nothing.
    pub fn bind_music(&self, from_files: bool) -> (plan: Vec<Binding>)
        ensures
            bindings(plan@) == (if self@.manager {
                to_bind(all_music(), self@.bound, from_files, all_music().len() as int)
            } else {
                Seq::empty()
            }),
    {
        let mut plan: Vec<Binding> = Vec::new();
        if !self.manager {
            assert(bindings(plan@) =~= Seq::empty());
            return plan;
        }
        let tracks = Music::all();
        let mut i: usize = 0;
        assert(bindings(plan@) =~= to_bind(tracks@, self.bound@, from_files, 0));
        while i < tracks.len()
            invariant
                i <= tracks@.len(),
                tracks@ == all_music(),
                bindings(plan@) == to_bind(tracks@, self.bound@, from_files, i as int),
            decreases tracks@.len() - i,
        {
            let music = tracks[i];
            let ghost earlier = bindings(plan@);
            if !is_bound(&self.bound, music) {
                match music.included_bytes() {
                    Some(asset) => {
                        plan.push(Binding { music, source: MusicSource::Included(asset) });
                        assert(bindings(plan@) =~= earlier.push((music, source_of(music, from_files)->0)));
                    },
                    None => {
                        if from_files {
                            let mut path = String::from_str("music/");
                            path.append(music.name());
                            path.append(".ogg");
                            plan.push(Binding { music, source: MusicSource::File(path) });
                            assert(bindings(plan@) =~= earlier.push(
                                (music, source_of(music, from_files)->0),
                            ));
                        }
                    },
                }
            }
            i += 1;
        }
        plan
    }

    /// What to load for the track of the opening credits: its file, if
    /// there is a device to play on.
    pub fn bind_gamefreak(&self) -> (binding: Option<Binding>)
        ensures
            binding is Some == self@.manager,
            binding matches Some(b) ==> b.music == Music::IntroGamefreak && b.source@
                == SourceView::File("music/gamefreak.ogg"@),
    {
        if self.manager {
            Some(
                Binding {
                    music: Music::IntroGamefreak,
                    source: MusicSource::File(String::from_str("music/gamefreak.ogg")),
                },
            )
        } else {
            None
        }
    }
}

} // verus!
