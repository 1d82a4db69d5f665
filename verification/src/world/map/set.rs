//! Sets of maps that belong together, and the manager that holds the sets
//! by name.

use vstd::prelude::*;
use crate::world::map::{TileId, WorldMap};

pub mod world_map_set_manager;

verus! {

/// Maps that belong together, one of which the player is on.
pub struct WorldMapSet {
    /// The maps.
    pub maps: Vec<WorldMap>,
    /// The index of the map that the player is on.
    pub current_map_index: usize,
}

impl WorldMapSet {
    /// A set of the given maps, with the player on the first.
    pub fn new(maps: Vec<WorldMap>) -> (set: Self)
        ensures
            set.maps == maps,
            set.current_map_index == 0,
    {
        WorldMapSet { maps, current_map_index: 0 }
    }

    /// Puts the player on the map at `index`.
    pub fn set(&mut self, index: usize)
        ensures
            final(self).maps == old(self).maps,
            final(self).current_map_index == index,
    {
        self.current_map_index = index;
    }

    /// The index of the map that the player is on.
    pub fn get(&self) -> (index: &usize)
        ensures
            *index == self.current_map_index,
    {
        &self.current_map_index
    }

    /// Whether the set has the map that the player is said to be on.
    pub open spec fn on_a_map(&self) -> bool {
        self.current_map_index < self.maps@.len()
    }

    /// The map that the player is on.
    pub open spec fn map(&self) -> WorldMap {
        self.maps@[self.current_map_index as int]
    }

    /// Whether `(x, y)` is a place of the map that the player is on.
    pub open spec fn spec_in_bounds(&self, x: isize, y: isize) -> bool {
        self.on_a_map() && 0 <= x < self.map().width && 0 <= y < self.map().height
    }

    /// Whether `(x, y)` is a place of the map that the player is on.
    pub fn in_bounds(&self, x: isize, y: isize) -> (inside: bool)
        ensures
            inside == self.spec_in_bounds(x, y),
    {
        if self.current_map_index >= self.maps.len() {
            return false;
        }
        let map = &self.maps[self.current_map_index];
        0 <= x && (x as i128) < (map.width as i128) && 0 <= y && (y as i128) < (map.height as i128)
    }

    /// The tile at `(x, y)` of the map that the player is on.
    pub fn tile(&self, x: isize, y: isize) -> (tile: TileId)
        requires
            self.spec_in_bounds(x, y),
            self.map().wf(),
        ensures
            tile == self.map().tiles@[self.map().tile_index(x as int, y as int)],
    {
        self.maps[self.current_map_index].tile(x as i64, y as i64)
    }
}

} // verus!
