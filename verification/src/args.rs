//! The switches that the program is started with.

use vstd::prelude::*;

verus! {

/// A switch.
#[derive(Debug, Clone, Copy, PartialEq, Eq, Structural)]
pub enum Args {
    /// Start without sound.
    DisableAudio,
    /// Start with the tools for debugging.
    Debug,
    /// Leave the random generator unseeded.
    NoSeed,
}

/// The switches that are set, in the order audio, debug, seed.
pub open spec fn listed(disable_audio: bool, debug: bool, no_seed: bool) -> Seq<Args> {
    (if disable_audio {
        seq![Args::DisableAudio]
    } else {
        Seq::<Args>::empty()
    }) + (if debug {
        seq![Args::Debug]
    } else {
        Seq::<Args>::empty()
    }) + (if no_seed {
        seq![Args::NoSeed]
    } else {
        Seq::<Args>::empty()
    })
}

/// Lists the switches that were found on the command line: `-a`, `-d` and
/// `-s`, each given as found or not.
pub fn args(disable_audio: bool, debug: bool, no_seed: bool) -> (list: Vec<Args>)
    ensures
        list@ == listed(disable_audio, debug, no_seed),
{
    let mut list: Vec<Args> = Vec::new();
    if disable_audio {
        list.push(Args::DisableAudio);
    }
    if debug {
        list.push(Args::Debug);
    }
    if no_seed {
        list.push(Args::NoSeed);
    }
    assert(list@ =~= listed(disable_audio, debug, no_seed));
    list
}

/// Whether `list` holds the switch `arg`.
pub fn contains(list: &Vec<Args>, arg: Args) -> (found: bool)
    ensures
        found == list@.contains(arg),
{
    let mut i: usize = 0;
    while i < list.len()
        invariant
            i <= list@.len(),
            forall|j: int| 0 <= j < i ==> list@[j] != arg,
        decreases list@.len() - i,
    {
        if list[i] == arg {
            return true;
        }
        i += 1;
    }
    false
}

} // verus!
