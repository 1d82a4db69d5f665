//! Drawing the map: which tile goes where on screen.

use vstd::prelude::*;

pub mod input;
pub mod set;

verus! {

/// Identifier of a tile.
pub type TileId = u16;

/// Identifier of a map.
pub type MapId = u64;

/// Side of a tile, in pixels.
pub const TILE_SIZE: i64 = 16;

/// A character that stands on a map.
#[derive(Debug, Clone, Copy, PartialEq, Eq, Structural)]
pub struct MapNpc {
    /// Its identifier.
    pub id: u64,
    /// Whether it is kept out of sight.
    pub hidden: bool,
}

/// A map.
pub struct WorldMap {
    /// Its identifier.
    pub id: MapId,
    /// Its width, in tiles.
    pub width: i32,
    /// Its height, in tiles.
    pub height: i32,
    /// Its tiles, row by row.
    pub tiles: Vec<TileId>,
    /// The four tiles that repeat around the map.
    pub border: [TileId; 4],
    /// The characters that stand on it.
    pub npcs: Vec<MapNpc>,
}

/// The part of the world that is on screen.
#[derive(Debug, Clone, Copy, PartialEq, Eq, Structural)]
pub struct RenderCoords {
    /// First column on screen, in tiles of the world.
    pub left: i32,
    /// The column after the last one on screen.
    pub right: i32,
    /// First row on screen.
    pub top: i32,
    /// The row after the last one on screen.
    pub bottom: i32,
    /// Where the map lies in the world, in tiles.
    pub offset_x: i32,
    pub offset_y: i32,
    /// The pixel of the world at the top left of the screen.
    pub focus_x: i32,
    pub focus_y: i32,
}

/// The two sheets that a map's tiles are cut from.
#[derive(Debug, Clone, Copy, PartialEq, Eq, Structural)]
pub enum Palette {
    Primary,
    Secondary,
}

/// One tile to draw.
#[derive(Debug, Clone, Copy, PartialEq, Eq, Structural)]
pub struct TileDraw {
    /// The sheet to cut from.
    pub palette: Palette,
    /// The tile's number within that sheet.
    pub tile: TileId,
    /// Where to draw it on screen, in pixels.
    pub x: i64,
    pub y: i64,
}

/// Where the rows of a map start in its tiles cannot be told beyond this
/// many tiles: a row that would start later starts here.
pub const LAST_ROW_START: i64 = 0x7fff_ffff;

impl WorldMap {
    /// The place among the tiles of the tile at `(x, y)`: the rows lie one
    /// after the other.
    pub open spec fn tile_index(&self, x: int, y: int) -> int {
        if y * self.width > LAST_ROW_START {
            x + LAST_ROW_START
        } else {
            x + y * self.width
        }
    }

    /// Whether the map has a tile for each of its places: it has one for
    /// the last, unless it has no places at all.
    pub open spec fn wf(&self) -> bool {
        self.width > 0 && self.height > 0 ==> self.tile_index(self.width - 1, self.height - 1)
            < self.tiles@.len()
    }

    /// A map with a tile for its last place has one for each.
    pub proof fn lemma_tiles_in_reach(&self, x: int, y: int)
        requires
            self.wf(),
            0 <= x < self.width,
            0 <= y < self.height,
        ensures
            0 <= self.tile_index(x, y) < self.tiles@.len(),
    {
        assert(0 <= y * self.width <= (self.height - 1) * self.width) by (nonlinear_arith)
            requires
                0 <= y <= self.height - 1,
                0 < self.width,
        ;
    }

    fn index_of(&self, x: i64, y: i64) -> (index: u64)
        requires
            0 <= x < self.width,
            0 <= y < self.height,
        ensures
            index == self.tile_index(x as int, y as int),
    {
        assert(0 <= y * self.width <= 0x7fff_ffff * 0x7fff_ffff) by (nonlinear_arith)
            requires
                0 <= y <= 0x7fff_ffff,
                0 <= self.width <= 0x7fff_ffff,
        ;
        let row: i64 = y * (self.width as i64);
        if row > LAST_ROW_START {
            (x + LAST_ROW_START) as u64
        } else {
            (x + row) as u64
        }
    }

    /// Whether the map has a tile for each of its places.
    pub fn is_valid(&self) -> (valid: bool)
        ensures
            valid == self.wf(),
    {
        if self.width <= 0 || self.height <= 0 {
            return true;
        }
        let last = self.index_of((self.width as i64) - 1, (self.height as i64) - 1);
        last < self.tiles.len() as u64
    }

    /// The tile at `(x, y)`.
    pub fn tile(&self, x: i64, y: i64) -> (tile: TileId)
        requires
            self.wf(),
            0 <= x < self.width,
            0 <= y < self.height,
        ensures
            tile == self.tiles@[self.tile_index(x as int, y as int)],
    {
        proof {
            self.lemma_tiles_in_reach(x as int, y as int);
        }
        let area: usize = self.tiles.len();
        let index = self.index_of(x, y);
        self.tiles[index as usize]
    }
}

/// Which of the four border tiles repeats at `(x, y)`, a place of the map's
/// own grid: the columns alternate between the first two and the rows
/// between those and the last two.
pub open spec fn border_index(x: int, y: int) -> int {
    if x % 2 == 0 {
        if y % 2 == 0 {
            0
        } else {
            2
        }
    } else if y % 2 == 0 {
        1
    } else {
        3
    }
}

/// The tile `tile` drawn at the world's place `(xx, yy)`: from the primary
/// sheet while its number is within the `primary` tiles of that sheet, else
/// from the secondary sheet, counted from there.
pub open spec fn tile_draw(primary: TileId, tile: TileId, screen: RenderCoords, xx: int, yy: int) -> TileDraw {
    TileDraw {
        palette: if primary > tile {
            Palette::Primary
        } else {
            Palette::Secondary
        },
        tile: if primary > tile {
            tile
        } else {
            (tile - primary) as TileId
        },
        x: (xx * 16 - screen.focus_x) as i64,
        y: (yy * 16 - screen.focus_y) as i64,
    }
}

/// What is drawn at the world's place `(xx, yy)`: the map's tile where the
/// place is on the map, a border tile elsewhere if the border is wanted,
/// else nothing.
pub open spec fn cell(
    map: &WorldMap,
    primary: TileId,
    screen: RenderCoords,
    border: bool,
    xx: int,
    yy: int,
) -> Option<TileDraw> {
    let x = xx - screen.offset_x;
    let y = yy - screen.offset_y;
    if 0 <= x < map.width && 0 <= y < map.height {
        Some(tile_draw(primary, map.tiles@[map.tile_index(x, y)], screen, xx, yy))
    } else if border {
        Some(tile_draw(primary, map.border@[border_index(x, y)], screen, xx, yy))
    } else {
        None
    }
}

/// The one thing or nothing as a sequence.
pub open spec fn listed(draw: Option<TileDraw>) -> Seq<TileDraw> {
    match draw {
        Some(d) => seq![d],
        None => Seq::empty(),
    }
}

/// The tiles of row `yy` from column `left` up to `right`, left to right.
pub open spec fn row(
    map: &WorldMap,
    primary: TileId,
    screen: RenderCoords,
    border: bool,
    yy: int,
    left: int,
    right: int,
) -> Seq<TileDraw>
    decreases right - left,
{
    if right <= left {
        Seq::empty()
    } else {
        row(map, primary, screen, border, yy, left, right - 1) + listed(
            cell(map, primary, screen, border, right - 1, yy),
        )
    }
}

/// The tiles of the rows from `top` up to `bottom`, top to bottom.
pub open spec fn rows(
    map: &WorldMap,
    primary: TileId,
    screen: RenderCoords,
    border: bool,
    top: int,
    bottom: int,
) -> Seq<TileDraw>
    decreases bottom - top,
{
    if bottom <= top {
        Seq::empty()
    } else {
        rows(map, primary, screen, border, top, bottom - 1) + row(
            map,
            primary,
            screen,
            border,
            bottom - 1,
            screen.left as int,
            screen.right as int,
        )
    }
}

/// The characters in sight among `npcs`, up to index `end`, by identifier.
pub open spec fn in_sight(npcs: Seq<MapNpc>, end: int) -> Seq<u64>
    decreases end,
{
    if end <= 0 {
        Seq::empty()
    } else if npcs[end - 1].hidden {
        in_sight(npcs, end - 1)
    } else {
        in_sight(npcs, end - 1).push(npcs[end - 1].id)
    }
}

/// The characters that scripts have placed on the map `id`, among
/// `placed` up to index `end`, by identifier.
pub open spec fn placed_here(placed: Seq<(MapId, MapNpc)>, id: MapId, end: int) -> Seq<u64>
    decreases end,
{
    if end <= 0 {
        Seq::empty()
    } else if placed[end - 1].0 == id {
        placed_here(placed, id, end - 1).push(placed[end - 1].1.id)
    } else {
        placed_here(placed, id, end - 1)
    }
}

fn draw_tile(primary: TileId, tile: TileId, screen: &RenderCoords, xx: i64, yy: i64) -> (draw: TileDraw)
    requires
        i32::MIN <= xx <= i32::MAX,
        i32::MIN <= yy <= i32::MAX,
    ensures
        draw == tile_draw(primary, tile, *screen, xx as int, yy as int),
{
    let x: i64 = xx * TILE_SIZE - (screen.focus_x as i64);
    let y: i64 = yy * TILE_SIZE - (screen.focus_y as i64);
    if primary > tile {
        TileDraw { palette: Palette::Primary, tile, x, y }
    } else {
        TileDraw { palette: Palette::Secondary, tile: tile - primary, x, y }
    }
}

fn is_even(n: i64) -> (even: bool)
    requires
        -0x1_0000_0000 <= n <= 0x1_0000_0000,
    ensures
        even == (n % 2 == 0),
{
    let shifted: u64 = (n + 0x1_0000_0000) as u64;
    shifted % 2 == 0
}

/// The tiles to draw for the part of the world that `screen` shows, row by
/// row from the top and left to right within a row. `primary` is the
/// number of tiles on the map's primary sheet.
pub fn draw(map: &WorldMap, primary: TileId, screen: &RenderCoords, border: bool) -> (tiles: Vec<TileDraw>)
    requires
        map.wf(),
    ensures
        tiles@ == rows(map, primary, *screen, border, screen.top as int, screen.bottom as int),
{
    let mut tiles: Vec<TileDraw> = Vec::new();
    let mut yy: i64 = screen.top as i64;
    while yy < screen.bottom as i64
        invariant
            map.wf(),
            screen.top <= yy,
            screen.top <= screen.bottom ==> yy <= screen.bottom,
            screen.bottom < screen.top ==> yy == screen.top,
            tiles@ == rows(map, primary, *screen, border, screen.top as int, yy as int),
        decreases screen.bottom - yy,
    {
        let y: i64 = yy - (screen.offset_y as i64);
        let mut xx: i64 = screen.left as i64;
        let ghost above = tiles@;
        while xx < screen.right as i64
            invariant
                map.wf(),
                screen.top <= yy < screen.bottom,
                screen.left <= xx,
                screen.left <= screen.right ==> xx <= screen.right,
                screen.right < screen.left ==> xx == screen.left,
                y == yy - screen.offset_y,
                tiles@ == above + row(map, primary, *screen, border, yy as int, screen.left as int, xx as int),
            decreases screen.right - xx,
        {
            let x: i64 = xx - (screen.offset_x as i64);
            let ghost before = tiles@;
            if !(x < 0 || y < 0 || y >= map.height as i64 || x >= map.width as i64) {
                tiles.push(draw_tile(primary, map.tile(x, y), screen, xx, yy));
            } else if border {
                let slot: usize = if is_even(x) {
                    if is_even(y) {
                        0
                    } else {
                        2
                    }
                } else if is_even(y) {
                    1
                } else {
                    3
                };
                tiles.push(draw_tile(primary, map.border[slot], screen, xx, yy));
            }
            proof {
                let here = listed(cell(map, primary, *screen, border, xx as int, yy as int));
                assert(tiles@ =~= before + here);
                assert(above + (row(
                    map,
                    primary,
                    *screen,
                    border,
                    yy as int,
                    screen.left as int,
                    xx as int,
                ) + here) =~= tiles@);
            }
            xx += 1;
        }
        yy += 1;
    }
    tiles
}

/// The characters to draw on `map`, by identifier: those of the map that
/// are not hidden, then those that scripts have placed on it.
pub fn draw_npcs(map: &WorldMap, placed: &Vec<(MapId, MapNpc)>) -> (npcs: Vec<u64>)
    ensures
        npcs@ == in_sight(map.npcs@, map.npcs@.len() as int) + placed_here(
            placed@,
            map.id,
            placed@.len() as int,
        ),
{
    let mut npcs: Vec<u64> = Vec::new();
    let mut i: usize = 0;
    while i < map.npcs.len()
        invariant
            i <= map.npcs@.len(),
            npcs@ == in_sight(map.npcs@, i as int),
        decreases map.npcs@.len() - i,
    {
        if !map.npcs[i].hidden {
            npcs.push(map.npcs[i].id);
        }
        i += 1;
    }
    let ghost own = npcs@;
    let mut j: usize = 0;
    assert(npcs@ =~= own + placed_here(placed@, map.id, 0));
    while j < placed.len()
        invariant
            j <= placed@.len(),
            npcs@ == own + placed_here(placed@, map.id, j as int),
        decreases placed@.len() - j,
    {
        if placed[j].0 == map.id {
            npcs.push(placed[j].1.id);
            assert(npcs@ =~= own + placed_here(placed@, map.id, j + 1));
        }
        j += 1;
    }
    npcs
}

} // verus!
