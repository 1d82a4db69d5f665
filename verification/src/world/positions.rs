//! Directions and the buttons bound to them.

use vstd::prelude::*;
use vstd::string::StringExecFns;

verus! {

/// One of the four ways to face or to walk.
#[derive(Debug, Clone, Copy, PartialEq, Eq, Hash, Structural)]
pub enum Direction {
    Up,
    Down,
    Left,
    Right,
}

impl Default for Direction {
    fn default() -> (direction: Self)
        ensures
            direction == Direction::Down,
    {
        Direction::Down
    }
}

impl Direction {
    /// The opposite way.
    pub open spec fn spec_inverse(self) -> Direction {
        match self {
            Direction::Up => Direction::Down,
            Direction::Down => Direction::Up,
            Direction::Left => Direction::Right,
            Direction::Right => Direction::Left,
        }
    }

    /// The opposite way.
    #[verifier::when_used_as_spec(spec_inverse)]
    pub fn inverse(self) -> (inverse: Direction)
        ensures
            inverse == self.spec_inverse(),
    {
        match self {
            Direction::Up => Direction::Down,
            Direction::Down => Direction::Up,
            Direction::Left => Direction::Right,
            Direction::Right => Direction::Left,
        }
    }

    /// The number that stands for the direction in texture tables.
    pub open spec fn spec_int_value(self) -> u8 {
        match self {
            Direction::Up => 0,
            Direction::Down => 1,
            Direction::Left => 2,
            Direction::Right => 3,
        }
    }

    /// The number that stands for the direction in texture tables.
    #[verifier::when_used_as_spec(spec_int_value)]
    pub fn int_value(self) -> (value: u8)
        ensures
            value == self.spec_int_value(),
    {
        match self {
            Direction::Up => 0,
            Direction::Down => 1,
            Direction::Left => 2,
            Direction::Right => 3,
        }
    }

    /// The word that stands for the direction in saved games.
    pub open spec fn spec_value(self) -> Seq<char> {
        match self {
            Direction::Up => "up"@,
            Direction::Down => "down"@,
            Direction::Left => "left"@,
            Direction::Right => "right"@,
        }
    }

    /// The word that stands for the direction in saved games.
    pub fn value(self) -> (word: &'static str)
        ensures
            word@ == self.spec_value(),
    {
        match self {
            Direction::Up => "up",
            Direction::Down => "down",
            Direction::Left => "left",
            Direction::Right => "right",
        }
    }

    /// The direction that a word of a saved game stands for.
    pub open spec fn spec_from_string(word: Seq<char>) -> Option<Direction> {
        if word == "up"@ {
            Some(Direction::Up)
        } else if word == "down"@ {
            Some(Direction::Down)
        } else if word == "left"@ {
            Some(Direction::Left)
        } else if word == "right"@ {
            Some(Direction::Right)
        } else {
            None
        }
    }

    /// Reads a direction from a word of a saved game.
    pub fn from_string(word: &str) -> (direction: Option<Direction>)
        ensures
            direction == Self::spec_from_string(word@),
    {
        let word = String::from_str(word);
        if word == String::from_str("up") {
            Some(Direction::Up)
        } else if word == String::from_str("down") {
            Some(Direction::Down)
        } else if word == String::from_str("left") {
            Some(Direction::Left)
        } else if word == String::from_str("right") {
            Some(Direction::Right)
        } else {
            None
        }
    }
}

/// The four words are told apart: reading back the word of a direction
/// gives the direction.
pub proof fn lemma_direction_round_trip(direction: Direction)
    ensures
        Direction::spec_from_string(direction.spec_value()) == Some(direction),
{
    reveal_strlit("up");
    reveal_strlit("down");
    reveal_strlit("left");
    reveal_strlit("right");
    assert("up"@.len() == 2);
    assert("down"@.len() == 4);
    assert("left"@.len() == 4);
    assert("right"@.len() == 5);
    assert("down"@[0] == 'd');
    assert("left"@[0] == 'l');
}

/// The buttons of the game.
#[derive(Debug, Clone, Copy, PartialEq, Eq, Hash, Structural)]
pub enum Control {
    A,
    B,
    Up,
    Down,
    Left,
    Right,
    Start,
    Select,
}

/// Which buttons are held down.
#[derive(Debug, Clone, Copy, PartialEq, Eq, Structural)]
pub struct Held {
    pub a: bool,
    pub b: bool,
    pub up: bool,
    pub down: bool,
    pub left: bool,
    pub right: bool,
    pub start: bool,
    pub select: bool,
}

impl Held {
    /// Whether `control` is held down.
    pub open spec fn spec_is_down(self, control: Control) -> bool {
        match control {
            Control::A => self.a,
            Control::B => self.b,
            Control::Up => self.up,
            Control::Down => self.down,
            Control::Left => self.left,
            Control::Right => self.right,
            Control::Start => self.start,
            Control::Select => self.select,
        }
    }

    /// Whether `control` is held down.
    #[verifier::when_used_as_spec(spec_is_down)]
    pub fn is_down(self, control: Control) -> (down: bool)
        ensures
            down == self.spec_is_down(control),
    {
        match control {
            Control::A => self.a,
            Control::B => self.b,
            Control::Up => self.up,
            Control::Down => self.down,
            Control::Left => self.left,
            Control::Right => self.right,
            Control::Start => self.start,
            Control::Select => self.select,
        }
    }
}

} // verus!
