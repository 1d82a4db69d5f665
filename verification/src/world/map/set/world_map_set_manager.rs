//! The manager of the map sets: it holds them by name and knows which one
//! the player is in.

use vstd::prelude::*;
use crate::lifecycle::Entity;
use crate::world::map::TileId;
use crate::world::map::set::WorldMapSet;

verus! {

/// Holds the map sets by name.
pub struct WorldMapSetManager {
    alive: bool,
    names: Vec<String>,
    map_sets: Vec<WorldMapSet>,
    current_map_set: String,
}

/// The place of the name `name` among the first `end` of `names`, if it is
/// there.
pub open spec fn place_of(names: Seq<String>, name: Seq<char>, end: int) -> Option<int>
    decreases end,
{
    if end <= 0 {
        None
    } else if names[end - 1]@ == name {
        Some(end - 1)
    } else {
        place_of(names, name, end - 1)
    }
}

/// Where a name is found, it is found at a place that holds it.
pub proof fn lemma_place_of(names: Seq<String>, name: Seq<char>, end: int)
    requires
        0 <= end <= names.len(),
    ensures
        place_of(names, name, end) matches Some(i) ==> 0 <= i < end && names[i]@ == name,
        place_of(names, name, end) is None ==> forall|i: int| 0 <= i < end ==> names[i]@ != name,
    decreases end,
{
    if end > 0 {
        lemma_place_of(names, name, end - 1);
    }
}

/// Among names that are all different, a name is found where it stands.
pub proof fn lemma_place_of_distinct(names: Seq<String>, i: int, end: int)
    requires
        0 <= i < end <= names.len(),
        forall|a: int, b: int| 0 <= a < b < names.len() ==> names[a]@ != names[b]@,
    ensures
        place_of(names, names[i]@, end) == Some(i),
    decreases end,
{
    if end - 1 > i {
        lemma_place_of_distinct(names, i, end - 1);
    }
}

impl WorldMapSetManager {
    /// Whether the manager is in use.
    pub closed spec fn living_spec(&self) -> bool {
        self.alive
    }

    /// The names of the sets, in the order in which they came.
    pub closed spec fn names(&self) -> Seq<String> {
        self.names@
    }

    /// The sets, in the order in which they came.
    pub closed spec fn sets(&self) -> Seq<WorldMapSet> {
        self.map_sets@
    }

    /// The name of the set that the player is in.
    pub closed spec fn current(&self) -> Seq<char> {
        self.current_map_set@
    }

    /// Whether each set has one name and no name is there twice.
    pub open spec fn wf(&self) -> bool {
        &&& self.names().len() == self.sets().len()
        &&& forall|a: int, b: int| 0 <= a < b < self.names().len() ==> self.names()[a]@ != self.names()[b]@
    }

    /// The place of the set named `name`, if there is one.
    pub open spec fn place(&self, name: Seq<char>) -> Option<int> {
        place_of(self.names(), name, self.names().len() as int)
    }

    /// Whether there is a set named `name`.
    pub open spec fn contains(&self, name: Seq<char>) -> bool {
        self.place(name) is Some
    }

    /// Whether there is a set by the name that the player is said to be in.
    pub open spec fn in_a_set(&self) -> bool {
        self.contains(self.current())
    }

    /// The set that the player is in.
    pub open spec fn current_set(&self) -> WorldMapSet {
        self.sets()[self.place(self.current())->0]
    }

    /// A manager without sets.
    pub fn new() -> (manager: Self)
        ensures
            manager.wf(),
            !manager.living_spec(),
            manager.names().len() == 0,
            manager.current() == Seq::<char>::empty(),
    {
        WorldMapSetManager {
            alive: false,
            names: Vec::new(),
            map_sets: Vec::new(),
            current_map_set: String::new(),
        }
    }

    fn find(&self, name: &String) -> (place: Option<usize>)
        requires
            self.wf(),
        ensures
            match place {
                Some(i) => self.place(name@) == Some(i as int) && i < self.names().len(),
                None => self.place(name@) is None,
            },
    {
        let mut i: usize = 0;
        while i < self.names.len()
            invariant
                self.wf(),
                i <= self.names@.len(),
                forall|j: int| 0 <= j < i ==> self.names@[j]@ != name@,
            decreases self.names@.len() - i,
        {
            if self.names[i] == *name {
                proof {
                    lemma_place_of_distinct(self.names@, i as int, self.names@.len() as int);
                }
                return Some(i);
            }
            i += 1;
        }
        proof {
            lemma_place_of(self.names@, name@, self.names@.len() as int);
        }
        None
    }

    /// Whether there is a set named `name`.
    pub fn contains_key(&self, name: &String) -> (found: bool)
        requires
            self.wf(),
        ensures
            found == self.contains(name@),
    {
        self.find(name).is_some()
    }

    /// Moves the player into the set named `set`, if there is one.
    pub fn set(&mut self, set: &String)
        requires
            old(self).wf(),
        ensures
            final(self).wf(),
            final(self).names() == old(self).names(),
            final(self).sets() == old(self).sets(),
            final(self).living_spec() == old(self).living_spec(),
            final(self).current() == (if old(self).contains(set@) {
                set@
            } else {
                old(self).current()
            }),
    {
        if self.find(set).is_some() {
            self.current_map_set = set.clone();
        }
    }

    /// Puts the player on the map at `index` of the set that the player is
    /// in.
    pub fn set_index(&mut self, index: usize)
        requires
            old(self).wf(),
            old(self).in_a_set(),
        ensures
            final(self).wf(),
            final(self).names() == old(self).names(),
            final(self).current() == old(self).current(),
            final(self).living_spec() == old(self).living_spec(),
            final(self).sets().len() == old(self).sets().len(),
            final(self).current_set().current_map_index == index,
            final(self).current_set().maps == old(self).current_set().maps,
            forall|i: int|
                0 <= i < old(self).sets().len() && Some(i) != old(self).place(old(self).current())
                    ==> final(self).sets()[i] == old(self).sets()[i],
    {
        let place = self.find(&self.current_map_set);
        match place {
            Some(i) => {
                self.map_sets[i].current_map_index = index;
            },
            None => {},
        }
    }

    /// The name of the set that the player is in.
    pub fn get(&self) -> (name: &String)
        ensures
            name@ == self.current(),
    {
        &self.current_map_set
    }

    /// The index of the map that the player is on.
    pub fn get_index(&self) -> (index: &usize)
        requires
            self.wf(),
            self.in_a_set(),
        ensures
            *index == self.current_set().current_map_index,
    {
        self.map_set().get()
    }

    /// Adds the set `map_set` under the name `id`, in place of the set that
    /// had the name before, if any.
    pub fn insert(&mut self, id: String, map_set: WorldMapSet)
        requires
            old(self).wf(),
        ensures
            final(self).wf(),
            final(self).current() == old(self).current(),
            final(self).living_spec() == old(self).living_spec(),
            final(self).contains(id@),
            final(self).sets()[final(self).place(id@)->0] == map_set,
            match old(self).place(id@) {
                Some(i) => final(self).names() == old(self).names() && final(self).sets() == old(
                    self,
                ).sets().update(i, map_set),
                None => final(self).names() == old(self).names().push(id) && final(self).sets() == old(
                    self,
                ).sets().push(map_set),
            },
    {
        let place = self.find(&id);
        match place {
            Some(i) => {
                self.map_sets[i] = map_set;
            },
            None => {
                proof {
                    lemma_place_of(self.names@, id@, self.names@.len() as int);
                }
                self.names.push(id);
                self.map_sets.push(map_set);
                proof {
                    lemma_place_of_distinct(self.names@, self.names@.len() - 1, self.names@.len() as int);
                }
            },
        }
    }

    /// The set that the player is in.
    pub fn map_set(&self) -> (set: &WorldMapSet)
        requires
            self.wf(),
            self.in_a_set(),
        ensures
            *set == self.current_set(),
    {
        let place = self.find(&self.current_map_set);
        &self.map_sets[place.unwrap()]
    }

    /// The set that the player is in, to change it.
    pub fn map_set_mut(&mut self) -> (set: &mut WorldMapSet)
        requires
            old(self).wf(),
            old(self).in_a_set(),
        ensures
            *set == old(self).current_set(),
            final(self).names() == old(self).names(),
            final(self).current() == old(self).current(),
            final(self).living_spec() == old(self).living_spec(),
            final(self).sets() == old(self).sets().update(
                old(self).place(old(self).current())->0,
                *final(set),
            ),
    {
        let place = self.find(&self.current_map_set);
        &mut self.map_sets[place.unwrap()]
    }

    /// The sets, each once, in the order in which their names came.
    pub fn values(&self) -> (sets: &Vec<WorldMapSet>)
        ensures
            sets@ == self.sets(),
    {
        &self.map_sets
    }

    /// Whether `(x, y)` is a place of the map that the player is on.
    pub fn in_bounds(&self, x: isize, y: isize) -> (inside: bool)
        requires
            self.wf(),
            self.in_a_set(),
        ensures
            inside == self.current_set().spec_in_bounds(x, y),
    {
        self.map_set().in_bounds(x, y)
    }

    /// The tile at `(x, y)` of the map that the player is on.
    pub fn tile(&self, x: isize, y: isize) -> (tile: TileId)
        requires
            self.wf(),
            self.in_a_set(),
            self.current_set().spec_in_bounds(x, y),
            self.current_set().map().wf(),
        ensures
            tile == self.current_set().map().tiles@[self.current_set().map().tile_index(x as int, y as int)],
    {
        self.map_set().tile(x, y)
    }
}

impl Entity for WorldMapSetManager {
    open spec fn living(&self) -> bool {
        self.living_spec()
    }

    /// Takes the manager into use.
    fn spawn(&mut self)
        ensures
            final(self).names() == old(self).names(),
            final(self).sets() == old(self).sets(),
            final(self).current() == old(self).current(),
    {
        self.alive = true;
    }

    /// Takes the manager out of use.
    fn despawn(&mut self)
        ensures
            final(self).names() == old(self).names(),
            final(self).sets() == old(self).sets(),
            final(self).current() == old(self).current(),
    {
        self.alive = false;
    }

    /// Whether the manager is in use.
    fn alive(&self) -> (alive: bool) {
        self.alive
    }
}

} // verus!
