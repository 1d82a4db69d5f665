//! The player on the map.

use vstd::prelude::*;
use vstd::string::StringExecFns;
use crate::entity::texture::{MovementTexture, MovementTextureManager, MovementView, ThreeWayTexture, way};
use crate::lifecycle::Entity;
use crate::world::positions::Direction;

verus! {

/// How many ticks a walking frame is shown for; a running frame is shown
/// for half as many.
pub const TEX_TICK_LENGTH: u8 = 8;

/// How many times faster running is than walking.
pub const RUN_SPEED: u8 = 2;

/// Side of a tile and of a character's texture, in pixels.
pub const TEXTURE_SIZE: i64 = 16;

/// Width of the view, in pixels.
pub const VIEW_WIDTH: i64 = 240;

/// Height of the view, in pixels.
pub const VIEW_HEIGHT: i64 = 160;

/// Where a character is: the tile, and how many pixels into the step to
/// the next.
#[derive(Debug, Clone, Copy, PartialEq, Eq, Structural)]
pub struct MobCoordinates {
    pub x: i32,
    pub y: i32,
    pub x_offset: i8,
    pub y_offset: i8,
}

impl Default for MobCoordinates {
    fn default() -> (coords: Self)
        ensures
            coords == (MobCoordinates { x: 0, y: 0, x_offset: 0, y_offset: 0 }),
    {
        MobCoordinates { x: 0, y: 0, x_offset: 0, y_offset: 0 }
    }
}

impl MobCoordinates {
    /// The place at the tile `(x, y)`.
    pub fn new(x: i32, y: i32) -> (coords: Self)
        ensures
            coords == (MobCoordinates { x, y, x_offset: 0, y_offset: 0 }),
    {
        MobCoordinates { x, y, x_offset: 0, y_offset: 0 }
    }

    /// The place's distance from the left edge of the map, in pixels.
    pub open spec fn spec_pixel_x(self) -> i64 {
        (self.x * 16 + self.x_offset) as i64
    }

    /// The place's distance from the top edge of the map, in pixels.
    pub open spec fn spec_pixel_y(self) -> i64 {
        (self.y * 16 + self.y_offset) as i64
    }

    /// The place's distance from the left edge of the map, in pixels.
    #[verifier::when_used_as_spec(spec_pixel_x)]
    pub fn pixel_x(self) -> (px: i64)
        ensures
            px == self.spec_pixel_x(),
            px == self.x * 16 + self.x_offset,
    {
        (self.x as i64) * TEXTURE_SIZE + (self.x_offset as i64)
    }

    /// The place's distance from the top edge of the map, in pixels.
    #[verifier::when_used_as_spec(spec_pixel_y)]
    pub fn pixel_y(self) -> (py: i64)
        ensures
            py == self.spec_pixel_y(),
            py == self.y * 16 + self.y_offset,
    {
        (self.y as i64) * TEXTURE_SIZE + (self.y_offset as i64)
    }
}

/// Where a saved game left the player.
pub struct Location {
    pub x: i32,
    pub y: i32,
    /// The way the player faced, as a word.
    pub direction: String,
}

/// What a saved game holds of the player.
pub struct PlayerData {
    pub location: Location,
}

/// The player.
pub struct Player {
    /// Whether the player is on the map.
    pub alive: bool,
    /// Where the player is.
    pub coords: MobCoordinates,
    /// Whether a step is under way.
    pub moving: bool,
    /// The way the player faces.
    pub direction: Direction,
    /// The textures: first those for walking, then those for running.
    pub textures: Vec<ThreeWayTexture>,
    /// Whether the player runs.
    pub running: bool,
    /// How many pixels a tick moves the player.
    pub speed: u8,
    /// Whether the view follows the player.
    pub screen_attached: bool,
    /// The pixel of the map at the top left of the view.
    pub focus_x: i64,
    pub focus_y: i64,
    /// Whether the player walks through walls.
    pub noclip: bool,
}

/// What to draw for the player.
pub struct PlayerSprite {
    /// The file of the texture.
    pub file: String,
    /// Where to draw it in the view, in pixels.
    pub x: i128,
    pub y: i128,
    /// Whether it is drawn mirrored.
    pub flip: bool,
}

/// The directory that the player's textures are read from: the world's
/// own if it has one, else that of the first world.
pub open spec fn texture_dir(world_id: Seq<char>, own: bool) -> Seq<char> {
    if own {
        "worlds/"@ + world_id + "/textures/player"@
    } else {
        "worlds/firered/textures/player"@
    }
}

/// The file `name` in the directory `dir`.
pub open spec fn file_in(dir: Seq<char>, name: Seq<char>) -> Seq<char> {
    dir + "/"@ + name
}

/// The frames of a walk with one stepping texture: standing, stepping,
/// standing, stepping mirrored.
pub open spec fn pair_frames() -> Seq<(usize, bool)> {
    seq![(0usize, false), (1usize, false), (0usize, false), (1usize, true)]
}

/// The frames of a walk with two stepping textures: standing, left foot,
/// standing, right foot.
pub open spec fn triple_frames() -> Seq<(usize, bool)> {
    seq![(0usize, false), (1usize, false), (0usize, false), (2usize, false)]
}

/// Whether `manager` is a fresh manager of the given textures and frames.
pub open spec fn is_fresh(
    manager: MovementTextureManager,
    textures: Seq<Seq<char>>,
    frames: Seq<(usize, bool)>,
    tick_length: usize,
) -> bool {
    &&& manager.texture@ == (MovementView { textures, indexes: frames, default: (0usize, false) })
    &&& manager.tick_length == tick_length
    &&& manager.tick == 0
    &&& manager.frame == 0
    &&& manager.idle
}

/// Whether `texture` is the fresh set for one gait, from the files in
/// `dir` whose names start with `standing` for the frames to stand in and
/// with `stepping` for the others.
pub open spec fn is_gait(
    texture: ThreeWayTexture,
    dir: Seq<char>,
    standing: Seq<char>,
    stepping: Seq<char>,
    tick_length: usize,
) -> bool {
    &&& texture.direction == 0
    &&& texture.managers@.len() == 3
    &&& is_fresh(
        texture.managers@[0],
        seq![file_in(dir, standing + "_up.png"@), file_in(dir, stepping + "_up_l.png"@)],
        pair_frames(),
        tick_length,
    )
    &&& is_fresh(
        texture.managers@[1],
        seq![file_in(dir, standing + "_down.png"@), file_in(dir, stepping + "_down_l.png"@)],
        pair_frames(),
        tick_length,
    )
    &&& is_fresh(
        texture.managers@[2],
        seq![
            file_in(dir, standing + "_side.png"@),
            file_in(dir, stepping + "_side_l.png"@),
            file_in(dir, stepping + "_side_r.png"@),
        ],
        triple_frames(),
        tick_length,
    )
}

fn file(dir: &str, name: &str, ending: &str) -> (path: String)
    ensures
        path@ == file_in(dir@, name@ + ending@),
{
    let mut path = String::from_str(dir);
    path.append("/");
    path.append(name);
    path.append(ending);
    assert(path@ =~= file_in(dir@, name@ + ending@));
    path
}

fn pair(dir: &str, standing: &str, stepping: &str, way: &str, tick_length: usize) -> (manager:
    MovementTextureManager)
    ensures
        is_fresh(
            manager,
            seq![
                file_in(dir@, standing@ + ("_"@ + way@ + ".png"@)),
                file_in(dir@, stepping@ + ("_"@ + way@ + "_l.png"@)),
            ],
            pair_frames(),
            tick_length,
        ),
{
    let mut ending = String::from_str("_");
    ending.append(way);
    let mut still = ending.clone();
    still.append(".png");
    let mut left = ending;
    left.append("_l.png");
    let mut textures = MovementTexture::empty((0, false));
    textures.push_texture(file(dir, standing, still.as_str()));
    textures.push_texture(file(dir, stepping, left.as_str()));
    textures.map_to_index(0, false);
    textures.map_to_index(1, false);
    textures.map_to_index(0, false);
    textures.map_to_index(1, true);
    assert(textures@.indexes =~= pair_frames());
    assert(textures@.textures =~= seq![
        file_in(dir@, standing@ + ("_"@ + way@ + ".png"@)),
        file_in(dir@, stepping@ + ("_"@ + way@ + "_l.png"@)),
    ]);
    MovementTextureManager::new(textures, tick_length)
}

fn triple(dir: &str, standing: &str, stepping: &str, tick_length: usize) -> (manager: MovementTextureManager)
    ensures
        is_fresh(
            manager,
            seq![
                file_in(dir@, standing@ + "_side.png"@),
                file_in(dir@, stepping@ + "_side_l.png"@),
                file_in(dir@, stepping@ + "_side_r.png"@),
            ],
            triple_frames(),
            tick_length,
        ),
{
    let mut textures = MovementTexture::empty((0, false));
    textures.push_texture(file(dir, standing, "_side.png"));
    textures.push_texture(file(dir, stepping, "_side_l.png"));
    textures.push_texture(file(dir, stepping, "_side_r.png"));
    textures.map_to_index(0, false);
    textures.map_to_index(1, false);
    textures.map_to_index(0, false);
    textures.map_to_index(2, false);
    assert(textures@.indexes =~= triple_frames());
    assert(textures@.textures =~= seq![
        file_in(dir@, standing@ + "_side.png"@),
        file_in(dir@, stepping@ + "_side_l.png"@),
        file_in(dir@, stepping@ + "_side_r.png"@),
    ]);
    MovementTextureManager::new(textures, tick_length)
}

fn gait(dir: &str, standing: &str, stepping: &str, tick_length: usize) -> (texture: ThreeWayTexture)
    ensures
        is_gait(texture, dir@, standing@, stepping@, tick_length),
{
    let mut texture = ThreeWayTexture::new();
    let up = pair(dir, standing, stepping, "up", tick_length);
    let down = pair(dir, standing, stepping, "down", tick_length);
    let side = triple(dir, standing, stepping, tick_length);
    proof {
        reveal_strlit("_");
        reveal_strlit("up");
        reveal_strlit("down");
        reveal_strlit(".png");
        reveal_strlit("_l.png");
        reveal_strlit("_up.png");
        reveal_strlit("_up_l.png");
        reveal_strlit("_down.png");
        reveal_strlit("_down_l.png");
        assert("_"@ + "up"@ + ".png"@ =~= "_up.png"@);
        assert("_"@ + "up"@ + "_l.png"@ =~= "_up_l.png"@);
        assert("_"@ + "down"@ + ".png"@ =~= "_down.png"@);
        assert("_"@ + "down"@ + "_l.png"@ =~= "_down_l.png"@);
    }
    texture.add_texture_manager(up);
    texture.add_texture_manager(down);
    texture.add_texture_manager(side);
    texture
}

impl Default for Player {
    fn default() -> (player: Self)
        ensures
            !player.alive,
            player.coords == (MobCoordinates { x: 0, y: 0, x_offset: 0, y_offset: 0 }),
            !player.moving,
            player.direction == Direction::Down,
            player.textures@.len() == 0,
            !player.running,
            player.speed == 0,
            !player.screen_attached,
            player.focus_x == 0,
            player.focus_y == 0,
            !player.noclip,
    {
        Player {
            alive: false,
            coords: MobCoordinates::default(),
            moving: false,
            direction: Direction::Down,
            textures: Vec::new(),
            running: false,
            speed: 0,
            screen_attached: false,
            focus_x: 0,
            focus_y: 0,
            noclip: false,
        }
    }
}

impl Player {
    /// Whether both sets of textures are there and sound.
    pub open spec fn loaded(&self) -> bool {
        &&& self.textures@.len() >= 2
        &&& self.textures@[0].wf()
        &&& self.textures@[1].wf()
    }

    /// The textures in use: those for running while the player runs,
    /// those for walking otherwise.
    pub open spec fn gait(&self) -> ThreeWayTexture {
        if self.running {
            self.textures@[1]
        } else {
            self.textures@[0]
        }
    }

    /// The way that a saved word stands for; right where it stands for
    /// none.
    pub open spec fn facing(word: Seq<char>) -> Direction {
        match Direction::spec_from_string(word) {
            Some(direction) => direction,
            None => Direction::Right,
        }
    }

    /// The player as a saved game left it: on the map, walking, with the
    /// view attached.
    pub fn new(data: &PlayerData) -> (player: Self)
        ensures
            player.alive,
            player.coords == (MobCoordinates {
                x: data.location.x,
                y: data.location.y,
                x_offset: 0,
                y_offset: 0,
            }),
            player.direction == Self::facing(data.location.direction@),
            player.speed == 1,
            player.screen_attached,
            !player.moving,
            !player.running,
            !player.noclip,
            player.textures@.len() == 0,
            player.focus_x == 0,
            player.focus_y == 0,
    {
        let direction = match Direction::from_string(data.location.direction.as_str()) {
            Some(direction) => direction,
            None => Direction::Right,
        };
        Player {
            alive: true,
            coords: MobCoordinates::new(data.location.x, data.location.y),
            moving: false,
            direction,
            textures: Vec::new(),
            running: false,
            speed: 1,
            screen_attached: true,
            focus_x: 0,
            focus_y: 0,
            noclip: false,
        }
    }

    /// Writes the player's place and facing into a saved game.
    pub fn save_data(&self, data: &mut PlayerData)
        ensures
            final(data).location.x == self.coords.x,
            final(data).location.y == self.coords.y,
            final(data).location.direction@ == self.direction.spec_value(),
    {
        data.location.x = self.coords.x;
        data.location.y = self.coords.y;
        data.location.direction = String::from_str(self.direction.value());
    }

    /// Centres the view on the player, if it is attached.
    pub fn focus_update(&mut self)
        ensures
            *final(self) == (if old(self).screen_attached {
                Player {
                    focus_x: (old(self).coords.spec_pixel_x() + 8 - 120) as i64,
                    focus_y: (old(self).coords.spec_pixel_y() + 8 - 80) as i64,
                    ..*old(self)
                }
            } else {
                *old(self)
            }),
    {
        if self.screen_attached {
            self.focus_x = self.coords.pixel_x() + TEXTURE_SIZE / 2 - VIEW_WIDTH / 2;
            self.focus_y = self.coords.pixel_y() + TEXTURE_SIZE / 2 - VIEW_HEIGHT / 2;
        }
    }

    /// Lets a tick pass for both gaits, facing the way the player faces.
    pub fn move_update(&mut self)
        requires
            old(self).loaded(),
        ensures
            final(self).loaded(),
            final(self).textures@.len() == old(self).textures@.len(),
            forall|set: int|
                0 <= set < 2 ==> (#[trigger] final(self).textures@[set]).direction == old(
                    self,
                ).direction.spec_int_value() && final(self).textures@[set].managers@ == old(
                    self,
                ).textures@[set].managers@.update(
                    way(old(self).direction.spec_int_value()),
                    old(self).textures@[set].managers@[way(old(self).direction.spec_int_value())].ticked(),
                ),
            forall|set: int|
                2 <= set < old(self).textures@.len() ==> final(self).textures@[set] == old(
                    self,
                ).textures@[set],
            *final(self) == (Player { textures: final(self).textures, ..*old(self) }),
    {
        let direction = self.direction.int_value();
        self.textures[0].update_with_direction(direction);
        self.textures[1].update_with_direction(direction);
        proof {
            assert forall|i: int| 0 <= i < 3 implies (#[trigger] self.textures@[0].managers@[i]).texture@.wf() by {
                assert(old(self).textures@[0].managers@[i].texture@.wf());
            }
            assert forall|i: int| 0 <= i < 3 implies (#[trigger] self.textures@[1].managers@[i]).texture@.wf() by {
                assert(old(self).textures@[1].managers@[i].texture@.wf());
            }
        }
    }

    /// Goes back to walking.
    pub fn reset_speed(&mut self)
        ensures
            *final(self) == (Player { running: false, speed: 1, ..*old(self) }),
    {
        self.running = false;
        self.speed = 1;
    }

    /// Marks a step as under way.
    pub fn moving(&mut self)
        ensures
            *final(self) == (Player { moving: true, ..*old(self) }),
    {
        self.moving = true;
    }

    /// Turns the walking textures the way of a step that is tried, and
    /// starts their walk.
    pub fn on_try_move(&mut self, direction: Direction)
        requires
            old(self).textures@.len() >= 1,
            old(self).textures@[0].managers@.len() == 3,
        ensures
            final(self).textures@.len() == old(self).textures@.len(),
            final(self).textures@[0].direction == direction.spec_int_value(),
            final(self).textures@[0].managers@ == old(self).textures@[0].managers@.update(
                way(direction.spec_int_value()),
                MovementTextureManager {
                    idle: false,
                    ..old(self).textures@[0].managers@[way(direction.spec_int_value())]
                },
            ),
            forall|set: int|
                1 <= set < old(self).textures@.len() ==> final(self).textures@[set] == old(
                    self,
                ).textures@[set],
            *final(self) == (Player { textures: final(self).textures, ..*old(self) }),
    {
        self.textures[0].direction = direction.int_value();
        self.textures[0].unidle();
    }

    /// Lets the walking textures stand.
    pub fn on_stopped_moving(&mut self)
        requires
            old(self).textures@.len() >= 1,
            old(self).textures@[0].managers@.len() == 3,
        ensures
            final(self).textures@.len() == old(self).textures@.len(),
            final(self).textures@[0].direction == old(self).textures@[0].direction,
            final(self).textures@[0].managers@ == seq![
                old(self).textures@[0].managers@[0].stood(),
                old(self).textures@[0].managers@[1].stood(),
                old(self).textures@[0].managers@[2].stood(),
            ],
            forall|set: int|
                1 <= set < old(self).textures@.len() ==> final(self).textures@[set] == old(
                    self,
                ).textures@[set],
            *final(self) == (Player { textures: final(self).textures, ..*old(self) }),
    {
        self.textures[0].idle();
    }

    /// Whether both sets of textures are there and sound.
    pub fn is_loaded(&self) -> (loaded: bool)
        ensures
            loaded == self.loaded(),
    {
        if self.textures.len() < 2 {
            return false;
        }
        let mut set: usize = 0;
        while set < 2
            invariant
                set <= 2,
                self.textures@.len() >= 2,
                forall|s: int| 0 <= s < set ==> (#[trigger] self.textures@[s]).wf(),
            decreases 2 - set,
        {
            if self.textures[set].managers.len() != 3 {
                return false;
            }
            let mut i: usize = 0;
            while i < 3
                invariant
                    i <= 3,
                    set < 2,
                    self.textures@.len() >= 2,
                    self.textures@[set as int].managers@.len() == 3,
                    forall|j: int|
                        0 <= j < i ==> (#[trigger] self.textures@[set as int].managers@[j]).texture@.wf(),
                decreases 3 - i,
            {
                if !self.textures[set].managers[i].texture.is_valid() {
                    return false;
                }
                i += 1;
            }
            set += 1;
        }
        true
    }

    /// Adds the player's two sets of textures, the one for walking and the
    /// one for running, from the directory of the world `world_id`, or from
    /// that of the first world if this one has none of its own. The caller
    /// reads the files.
    pub fn load_textures(&mut self, world_id: &str, own: bool)
        ensures
            final(self).textures@.len() == old(self).textures@.len() + 2,
            forall|i: int|
                0 <= i < old(self).textures@.len() ==> #[trigger] final(self).textures@[i] == old(
                    self,
                ).textures@[i],
            is_gait(
                final(self).textures@[old(self).textures@.len() as int],
                texture_dir(world_id@, own),
                "idle"@,
                "walk"@,
                8,
            ),
            is_gait(
                final(self).textures@[old(self).textures@.len() as int + 1],
                texture_dir(world_id@, own),
                "run"@,
                "run"@,
                4,
            ),
            *final(self) == (Player { textures: final(self).textures, ..*old(self) }),
    {
        let mut path = String::from_str("worlds/");
        if own {
            path.append(world_id);
            path.append("/textures/player");
        } else {
            path.append("firered/textures/player");
            proof {
                reveal_strlit("worlds/");
                reveal_strlit("firered/textures/player");
                reveal_strlit("worlds/firered/textures/player");
                assert(path@ =~= "worlds/firered/textures/player"@);
            }
        }
        let walk_textures = gait(path.as_str(), "idle", "walk", 8);
        let run_textures = gait(path.as_str(), "run", "run", 4);
        self.textures.push(walk_textures);
        self.textures.push(run_textures);
    }

    /// What to draw for the player, if the player is on the map: the
    /// running or the walking texture, four pixels up so that the feet
    /// stand on the tile.
    pub fn render(&self) -> (sprite: Option<PlayerSprite>)
        requires
            self.loaded(),
        ensures
            sprite is Some == self.alive,
            sprite matches Some(s) ==> {
                &&& s.x == self.coords.spec_pixel_x() - self.focus_x
                &&& s.y == self.coords.spec_pixel_y() - self.focus_y - 4
                &&& s.file@ == self.gait().facing().shown_file()
                &&& s.flip == self.gait().shown_flip()
            },
    {
        if self.alive {
            let tex = if self.running {
                self.textures[1].texture()
            } else {
                self.textures[0].texture()
            };
            Some(
                PlayerSprite {
                    file: tex.0.clone(),
                    x: (self.coords.pixel_x() as i128) - (self.focus_x as i128),
                    y: (self.coords.pixel_y() as i128) - (self.focus_y as i128) - 4,
                    flip: tex.1,
                },
            )
        } else {
            None
        }
    }
}

impl Entity for Player {
    open spec fn living(&self) -> bool {
        self.alive
    }

    /// Puts the player on the map.
    fn spawn(&mut self)
        ensures
            *final(self) == (Player { alive: true, ..*old(self) }),
    {
        self.alive = true;
    }

    /// Takes the player off the map.
    fn despawn(&mut self)
        ensures
            *final(self) == (Player { alive: false, ..*old(self) }),
    {
        self.alive = false;
    }

    /// Whether the player is on the map.
    fn alive(&self) -> (alive: bool) {
        self.alive
    }
}

} // verus!
