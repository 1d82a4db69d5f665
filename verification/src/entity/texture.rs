//! Walking textures: a character has one set of frames for each way it
//! can face, and the frames of a set follow each other in time. A texture
//! is named by its file; the caller holds the pixels.

use vstd::prelude::*;
use crate::strings::texts;

verus! {

/// A texture that never changes.
pub struct StillTextureManager {
    /// The file of the texture.
    pub texture: String,
    /// Whether the texture is drawn mirrored.
    pub flip: bool,
}

impl StillTextureManager {
    /// A manager of the one texture.
    pub fn new(texture: String, flip: bool) -> (manager: Self)
        ensures
            manager.texture == texture,
            manager.flip == flip,
    {
        StillTextureManager { texture, flip }
    }

    /// Nothing to put back.
    pub fn reset(&mut self)
        ensures
            *final(self) == *old(self),
    {
    }

    /// Nothing moves.
    pub fn update(&mut self)
        ensures
            *final(self) == *old(self),
    {
    }

    /// Standing and walking look the same.
    pub fn idle(&mut self)
        ensures
            *final(self) == *old(self),
    {
    }

    /// Standing and walking look the same.
    pub fn unidle(&mut self)
        ensures
            *final(self) == *old(self),
    {
    }

    /// The texture and whether it is drawn mirrored.
    pub fn texture(&self) -> (shown: (&String, bool))
        ensures
            *shown.0 == self.texture,
            shown.1 == self.flip,
    {
        (&self.texture, self.flip)
    }
}

/// The frames of one way of walking.
pub struct MovementTexture {
    /// The files of the textures.
    pub textures: Vec<String>,
    /// The frames in the order of their showing: each is a texture, by its
    /// place among the files, and whether it is drawn mirrored.
    pub indexes: Vec<(usize, bool)>,
    /// The frame shown when standing.
    pub default: (usize, bool),
}

/// The frames of one way of walking, as contracts see them.
pub struct MovementView {
    pub textures: Seq<Seq<char>>,
    pub indexes: Seq<(usize, bool)>,
    pub default: (usize, bool),
}

impl View for MovementTexture {
    type V = MovementView;

    open spec fn view(&self) -> MovementView {
        MovementView { textures: texts(self.textures@), indexes: self.indexes@, default: self.default }
    }
}

impl MovementView {
    /// Whether every frame is a texture that is there.
    pub open spec fn wf(self) -> bool {
        &&& self.default.0 < self.textures.len()
        &&& forall|i: int| 0 <= i < self.indexes.len() ==> (#[trigger] self.indexes[i]).0 < self.textures.len()
    }
}

impl MovementTexture {
    /// No textures yet, and the frame to stand in.
    pub fn empty(default: (usize, bool)) -> (texture: Self)
        ensures
            texture@ == (MovementView { textures: Seq::empty(), indexes: Seq::empty(), default }),
    {
        let texture = MovementTexture { textures: Vec::new(), indexes: Vec::new(), default };
        assert(texture@.textures =~= Seq::empty());
        texture
    }

    /// Adds a texture by its file.
    pub fn push_texture(&mut self, file: String)
        ensures
            final(self)@ == (MovementView { textures: old(self)@.textures.push(file@), ..old(self)@ }),
    {
        self.textures.push(file);
        assert(self@.textures =~= old(self)@.textures.push(file@));
    }

    /// Adds a frame: the texture at `index`, mirrored or not.
    pub fn map_to_index(&mut self, index: usize, flip: bool)
        ensures
            final(self)@ == (MovementView { indexes: old(self)@.indexes.push((index, flip)), ..old(self)@ }),
    {
        self.indexes.push((index, flip));
    }

    /// Whether every frame is a texture that is there.
    pub fn is_valid(&self) -> (valid: bool)
        ensures
            valid == self@.wf(),
    {
        if self.default.0 >= self.textures.len() {
            return false;
        }
        let mut i: usize = 0;
        while i < self.indexes.len()
            invariant
                i <= self.indexes@.len(),
                self@.textures.len() == self.textures@.len(),
                forall|j: int| 0 <= j < i ==> (#[trigger] self.indexes@[j]).0 < self.textures@.len(),
            decreases self.indexes@.len() - i,
        {
            if self.indexes[i].0 >= self.textures.len() {
                assert(!(self@.indexes[i as int].0 < self@.textures.len()));
                return false;
            }
            i += 1;
        }
        true
    }
}

/// The frames of one way of walking, with the time.
pub struct MovementTextureManager {
    /// The frames.
    pub texture: MovementTexture,
    /// How many ticks a frame is shown for.
    pub tick_length: usize,
    /// Ticks since the frame was first shown.
    pub tick: usize,
    /// The frame that is shown.
    pub frame: usize,
    /// Whether the character stands.
    pub idle: bool,
}

/// The frame after `frame` among `frames`, going round.
pub open spec fn next_frame(frame: usize, frames: nat) -> usize {
    if frames == 0 {
        0
    } else if frame + 1 >= frames {
        0
    } else {
        (frame + 1) as usize
    }
}

impl MovementTextureManager {
    /// The manager after a tick: while walking, the next frame comes up
    /// once the present one has had its ticks.
    pub open spec fn ticked(self) -> MovementTextureManager {
        if self.idle {
            self
        } else if self.tick + 1 < self.tick_length {
            MovementTextureManager { tick: (self.tick + 1) as usize, ..self }
        } else {
            MovementTextureManager {
                tick: 0,
                frame: next_frame(self.frame, self.texture.indexes@.len()),
                ..self
            }
        }
    }

    /// The manager standing still, on its first frame.
    pub open spec fn stood(self) -> MovementTextureManager {
        MovementTextureManager { idle: true, tick: 0, frame: 0, ..self }
    }

    /// The file of the texture to show.
    pub open spec fn shown_file(&self) -> Seq<char> {
        self.texture@.textures[self.shown().0 as int]
    }

    /// A manager of the frames, standing.
    pub fn new(texture: MovementTexture, tick_length: usize) -> (manager: Self)
        ensures
            manager.texture == texture,
            manager.tick_length == tick_length,
            manager.tick == 0,
            manager.frame == 0,
            manager.idle,
    {
        MovementTextureManager { texture, tick_length, tick: 0, frame: 0, idle: true }
    }

    /// Goes back to the first frame.
    pub fn reset(&mut self)
        ensures
            *final(self) == (MovementTextureManager { tick: 0, frame: 0, ..*old(self) }),
    {
        self.tick = 0;
        self.frame = 0;
    }

    /// Lets a tick pass: while walking, the next frame comes up once the
    /// present one has had its ticks.
    pub fn update(&mut self)
        ensures
            *final(self) == old(self).ticked(),
    {
        if !self.idle {
            if self.tick_length == 0 || self.tick >= self.tick_length - 1 {
                self.tick = 0;
                let frames = self.texture.indexes.len();
                self.frame = if frames == 0 || self.frame >= frames - 1 {
                    0
                } else {
                    self.frame + 1
                };
            } else {
                self.tick = self.tick + 1;
            }
        }
    }

    /// Stands still, on the first frame.
    pub fn idle(&mut self)
        ensures
            *final(self) == old(self).stood(),
    {
        self.idle = true;
        self.tick = 0;
        self.frame = 0;
    }

    /// Starts walking.
    pub fn unidle(&mut self)
        ensures
            *final(self) == (MovementTextureManager { idle: false, ..*old(self) }),
    {
        self.idle = false;
    }

    /// The frame to show: the one to stand in, or the present one of the
    /// walk.
    pub open spec fn shown(&self) -> (usize, bool) {
        if self.idle || self.frame >= self.texture.indexes@.len() {
            self.texture.default
        } else {
            self.texture.indexes@[self.frame as int]
        }
    }

    /// The texture to show and whether it is drawn mirrored.
    pub fn texture(&self) -> (shown: (&String, bool))
        requires
            self.texture@.wf(),
        ensures
            shown.0@ == self.shown_file(),
            shown.1 == self.shown().1,
    {
        let frame = if self.idle || self.frame >= self.texture.indexes.len() {
            self.texture.default
        } else {
            assert(self.texture@.indexes[self.frame as int].0 < self.texture@.textures.len());
            self.texture.indexes[self.frame]
        };
        assert(self.texture@.textures.len() == self.texture.textures@.len());
        (&self.texture.textures[frame.0], frame.1)
    }
}

/// The frames of a character for the three ways of walking: up, down and
/// to the side.
pub struct ThreeWayTexture {
    /// The managers, in the order up, down, side.
    pub managers: Vec<MovementTextureManager>,
    /// The way the character faces, by its number.
    pub direction: u8,
}

/// The manager that shows a character facing `direction`: the first for
/// up, the second for down, the third for either side.
pub open spec fn way(direction: u8) -> int {
    if direction == 0 {
        0
    } else if direction == 1 {
        1
    } else {
        2
    }
}

impl ThreeWayTexture {
    /// Whether all three managers are there and sound.
    pub open spec fn wf(&self) -> bool {
        &&& self.managers@.len() == 3
        &&& forall|i: int| 0 <= i < 3 ==> (#[trigger] self.managers@[i]).texture@.wf()
    }

    /// The manager for the way the character faces.
    pub open spec fn facing(&self) -> MovementTextureManager {
        self.managers@[way(self.direction)]
    }

    /// Whether the texture shown is drawn mirrored: the side frames are
    /// turned over when the character faces right.
    pub open spec fn shown_flip(&self) -> bool {
        self.facing().shown().1 != (self.direction == 3)
    }

    /// No managers yet, facing up.
    pub fn new() -> (texture: Self)
        ensures
            texture.managers@.len() == 0,
            texture.direction == 0,
    {
        ThreeWayTexture { managers: Vec::new(), direction: 0 }
    }

    /// Adds the manager of the next way of walking.
    pub fn add_texture_manager(&mut self, manager: MovementTextureManager)
        ensures
            final(self).managers@ == old(self).managers@.push(manager),
            final(self).direction == old(self).direction,
    {
        self.managers.push(manager);
    }

    /// Turns the character and lets a tick pass for the way it now faces.
    pub fn update_with_direction(&mut self, direction: u8)
        requires
            old(self).managers@.len() == 3,
        ensures
            final(self).direction == direction,
            final(self).managers@ == old(self).managers@.update(
                way(direction),
                old(self).managers@[way(direction)].ticked(),
            ),
    {
        self.direction = direction;
        let index: usize = if direction == 0 {
            0
        } else if direction == 1 {
            1
        } else {
            2
        };
        self.managers[index].update();
    }

    /// Stands still.
    pub fn idle(&mut self)
        requires
            old(self).managers@.len() == 3,
        ensures
            final(self).direction == old(self).direction,
            final(self).managers@ == seq![
                old(self).managers@[0].stood(),
                old(self).managers@[1].stood(),
                old(self).managers@[2].stood(),
            ],
    {
        self.managers[0].idle();
        self.managers[1].idle();
        self.managers[2].idle();
        assert(self.managers@ =~= seq![
            old(self).managers@[0].stood(),
            old(self).managers@[1].stood(),
            old(self).managers@[2].stood(),
        ]);
    }

    /// Starts walking the way the character faces.
    pub fn unidle(&mut self)
        requires
            old(self).managers@.len() == 3,
        ensures
            final(self).direction == old(self).direction,
            final(self).managers@ == old(self).managers@.update(
                way(old(self).direction),
                MovementTextureManager { idle: false, ..old(self).managers@[way(old(self).direction)] },
            ),
    {
        let index: usize = if self.direction == 0 {
            0
        } else if self.direction == 1 {
            1
        } else {
            2
        };
        self.managers[index].unidle();
    }

    /// The texture to show and whether it is drawn mirrored: the side
    /// frames are turned over when the character faces right.
    pub fn texture(&self) -> (shown: (&String, bool))
        requires
            self.wf(),
        ensures
            shown.0@ == self.facing().shown_file(),
            shown.1 == self.shown_flip(),
    {
        let index: usize = if self.direction == 0 {
            0
        } else if self.direction == 1 {
            1
        } else {
            2
        };
        let shown = self.managers[index].texture();
        (shown.0, shown.1 != (self.direction == 3))
    }
}

} // verus!
