//! The panel from which the player picks the target of a move: up to four
//! names in two columns, with a cursor.

use vstd::prelude::*;
use vstd::string::StringExecFns;
use crate::lifecycle::Reset;

verus! {

/// A combatant of the other side, as far as it is known.
pub struct UnknownPokemon {
    pub name: String,
}

/// The other side's party, as far as it is known.
pub struct BattlePartyUnknown {
    /// The members, unknown ones left out.
    pub pokemon: Vec<Option<UnknownPokemon>>,
    /// For each place on the field, the index of the member that stands
    /// there, if any.
    pub active: Vec<Option<usize>>,
}

impl BattlePartyUnknown {
    /// Whether every place on the field points at a member.
    pub open spec fn wf(&self) -> bool {
        forall|i: int|
            0 <= i < self.active@.len() ==> ((#[trigger] self.active@[i]) matches Some(index)
                ==> index < self.pokemon@.len())
    }

    /// Whether every place on the field points at a member.
    pub fn is_valid(&self) -> (valid: bool)
        ensures
            valid == self.wf(),
    {
        let mut i: usize = 0;
        while i < self.active.len()
            invariant
                i <= self.active@.len(),
                forall|j: int|
                    0 <= j < i ==> ((#[trigger] self.active@[j]) matches Some(index) ==> index
                        < self.pokemon@.len()),
            decreases self.active@.len() - i,
        {
            match self.active[i] {
                Some(index) => {
                    if index >= self.pokemon.len() {
                        return false;
                    }
                },
                None => {},
            }
            i += 1;
        }
        true
    }

    /// The name shown for the place `i` on the field: none where nobody
    /// stands, the member's name where it is known, and `Unknown` else.
    pub open spec fn shown(&self, i: int) -> Option<Seq<char>> {
        match self.active@[i] {
            Some(index) => Some(
                match self.pokemon@[index as int] {
                    Some(pokemon) => pokemon.name@,
                    None => "Unknown"@,
                },
            ),
            None => None,
        }
    }
}

/// The background of a panel.
pub struct Panel {}

impl Panel {
    /// A background.
    pub fn new() -> Self {
        Panel {  }
    }
}

/// The names of `names`, each by its characters.
pub open spec fn name_views(names: Seq<Option<String>>) -> Seq<Option<Seq<char>>> {
    Seq::new(
        names.len(),
        |i: int|
            match names[i] {
                Some(name) => Some(name@),
                None => None,
            },
    )
}

/// The target panel.
pub struct TargetPanel {
    /// The background.
    pub panel: Panel,
    /// The name at each place on the field.
    pub names: Vec<Option<String>>,
    /// The place that the cursor is at.
    pub cursor: usize,
}

/// Which of the four direction buttons were pressed in a frame.
#[derive(Debug, Clone, Copy, PartialEq, Eq, Structural)]
pub struct Pressed {
    pub up: bool,
    pub down: bool,
    pub left: bool,
    pub right: bool,
}

/// Where the cursor goes on the buttons `pressed`: a row up or down, else a
/// place left or right, as far as the two rows of two reach.
pub open spec fn moved(cursor: usize, pressed: Pressed) -> int {
    if pressed.up && cursor >= 2 {
        cursor - 2
    } else if pressed.down && cursor <= 2 {
        cursor + 2
    } else if pressed.left && cursor > 0 {
        cursor - 1
    } else if pressed.right && cursor < 3 {
        cursor + 1
    } else {
        cursor as int
    }
}

/// The cursor held to the last of `len` names.
pub open spec fn held_in(cursor: int, len: int) -> int {
    if cursor >= len {
        len - 1
    } else {
        cursor
    }
}

/// One name to draw.
pub struct TargetLabel {
    /// The name, or `None` where nobody stands.
    pub text: String,
    /// Where the name starts, in pixels.
    pub x: u32,
    pub y: u32,
    /// Where the cursor is drawn, if it is at this name.
    pub cursor: Option<(u32, u32)>,
}

/// What a label says and where.
pub struct LabelView {
    pub text: Seq<char>,
    pub x: u32,
    pub y: u32,
    pub cursor: Option<(u32, u32)>,
}

impl View for TargetLabel {
    type V = LabelView;

    open spec fn view(&self) -> LabelView {
        LabelView { text: self.text@, x: self.x, y: self.y, cursor: self.cursor }
    }
}

/// How far right the place `index` is drawn: the odd places form the right
/// column.
pub open spec fn column_offset(index: int) -> u32 {
    if index % 2 == 1 {
        72
    } else {
        0
    }
}

/// How far down the place `index` is drawn: the third and fourth place
/// form the lower row.
pub open spec fn row_offset(index: int) -> u32 {
    if index / 2 == 1 {
        17
    } else {
        0
    }
}

/// The label for the place `index`.
pub open spec fn label(name: Option<Seq<char>>, index: int, cursor: int) -> LabelView {
    LabelView {
        text: match name {
            Some(name) => name,
            None => "None"@,
        },
        x: (16 + column_offset(index)) as u32,
        y: (121 + row_offset(index)) as u32,
        cursor: if index == cursor {
            Some(((10 + column_offset(index)) as u32, (123 + row_offset(index)) as u32))
        } else {
            None
        },
    }
}

/// The labels that `labels` holds.
pub open spec fn label_views(labels: Seq<TargetLabel>) -> Seq<LabelView> {
    Seq::new(labels.len(), |i: int| labels[i]@)
}

impl TargetPanel {
    /// Where the background is drawn: left, top, width and height in
    /// pixels.
    pub open spec fn frame() -> (u32, u32, u32, u32) {
        (0, 113, 160, 47)
    }

    /// An empty panel with the cursor at the first place.
    pub fn new() -> (panel: Self)
        ensures
            panel.names@.len() == 0,
            panel.cursor == 0,
    {
        TargetPanel { panel: Panel::new(), names: Vec::with_capacity(4), cursor: 0 }
    }

    /// Takes the names over from the places of `targets`.
    pub fn update_names(&mut self, targets: &BattlePartyUnknown)
        requires
            targets.wf(),
        ensures
            final(self).cursor == old(self).cursor,
            final(self).names@.len() == targets.active@.len(),
            forall|i: int|
                0 <= i < targets.active@.len() ==> #[trigger] name_views(final(self).names@)[i]
                    == targets.shown(i),
    {
        self.names.clear();
        let mut i: usize = 0;
        while i < targets.active.len()
            invariant
                targets.wf(),
                i <= targets.active@.len(),
                self.cursor == old(self).cursor,
                self.names@.len() == i,
                forall|j: int| 0 <= j < i ==> #[trigger] name_views(self.names@)[j] == targets.shown(j),
            decreases targets.active@.len() - i,
        {
            let name = match targets.active[i] {
                Some(index) => {
                    assert(targets.active@[i as int] matches Some(k) ==> k < targets.pokemon@.len());
                    Some(
                        match &targets.pokemon[index] {
                            Some(pokemon) => pokemon.name.clone(),
                            None => String::from_str("Unknown"),
                        },
                    )
                },
                None => None,
            };
            let ghost before = self.names@;
            self.names.push(name);
            assert forall|j: int| 0 <= j < i + 1 implies #[trigger] name_views(self.names@)[j]
                == targets.shown(j) by {
                if j < i {
                    assert(name_views(before)[j] == targets.shown(j));
                }
            }
            i += 1;
        }
    }

    /// Moves the cursor on the buttons `pressed` and holds it to the names
    /// there are.
    pub fn input(&mut self, pressed: Pressed)
        requires
            old(self).names@.len() > 0,
        ensures
            final(self).cursor == held_in(moved(old(self).cursor, pressed), old(self).names@.len() as int),
            final(self).names == old(self).names,
    {
        if pressed.up && self.cursor >= 2 {
            self.cursor -= 2;
        } else if pressed.down && self.cursor <= 2 {
            self.cursor += 2;
        } else if pressed.left && self.cursor > 0 {
            self.cursor -= 1;
        } else if pressed.right && self.cursor < 3 {
            self.cursor += 1;
        }
        if self.cursor >= self.names.len() {
            self.cursor = self.names.len() - 1;
        }
    }

    /// The names to draw over the background, each with its place and, at
    /// one of them, the cursor.
    pub fn draw(&self) -> (labels: Vec<TargetLabel>)
        ensures
            labels@.len() == self.names@.len(),
            forall|i: int|
                0 <= i < self.names@.len() ==> (#[trigger] labels@[i])@ == label(
                    name_views(self.names@)[i],
                    i,
                    self.cursor as int,
                ),
    {
        let mut labels: Vec<TargetLabel> = Vec::new();
        let mut index: usize = 0;
        while index < self.names.len()
            invariant
                index <= self.names@.len(),
                labels@.len() == index,
                forall|i: int|
                    0 <= i < index ==> (#[trigger] labels@[i])@ == label(
                        name_views(self.names@)[i],
                        i,
                        self.cursor as int,
                    ),
            decreases self.names@.len() - index,
        {
            let x_offset: u32 = if index % 2 == 1 {
                72
            } else {
                0
            };
            let y_offset: u32 = if index / 2 == 1 {
                17
            } else {
                0
            };
            let text = match &self.names[index] {
                Some(name) => name.clone(),
                None => String::from_str("None"),
            };
            let cursor = if index == self.cursor {
                Some((10 + x_offset, 123 + y_offset))
            } else {
                None
            };
            labels.push(TargetLabel { text, x: 16 + x_offset, y: 121 + y_offset, cursor });
            index += 1;
        }
        labels
    }

    /// Where the background is drawn.
    pub fn draw_panel(&self) -> (frame: (u32, u32, u32, u32))
        ensures
            frame == Self::frame(),
    {
        (0, 113, 160, 47)
    }
}

impl Reset for TargetPanel {
    open spec fn is_reset(&self) -> bool {
        self.cursor < self.names@.len() || self.cursor == 0
    }

    /// Puts the cursor back to the first place if it is past the names.
    fn reset(&mut self)
        ensures
            final(self).names == old(self).names,
            final(self).cursor == (if old(self).cursor >= old(self).names@.len() {
                0
            } else {
                old(self).cursor
            }),
    {
        let len = self.names.len();
        if self.cursor >= len {
            self.cursor = 0;
        }
    }
}

} // verus!
