//! Turning held buttons into steps of the player.

use vstd::prelude::*;
use crate::world::positions::{Control, Direction, Held};

verus! {

/// How the player gets about.
#[derive(Debug, Clone, Copy, PartialEq, Eq, Structural)]
pub enum Movement {
    Walking,
    Running,
    Swimming,
}

/// The player on the map, as far as the input needs it.
pub struct PlayerCharacter {
    /// Whether a step is under way.
    pub moving: bool,
    /// Whether the player is held in place.
    pub frozen: bool,
    /// Whether the input is switched off.
    pub input_frozen: bool,
    /// How the player gets about.
    pub movement: Movement,
    /// The way the player faces.
    pub direction: Direction,
}

/// How long a direction must be held before the player walks rather than
/// turns, in milliseconds.
pub const MOVE_WAIT: u64 = 120;

/// Reads the direction buttons.
pub struct PlayerInput {
    wait: u64,
    first_direction: Direction,
}

/// The state of the input.
pub struct InputView {
    /// How long the first direction has been held, in milliseconds.
    pub wait: nat,
    /// The direction that was pressed first.
    pub first_direction: Direction,
}

/// What a frame of input leads to.
pub struct Polled {
    /// The input after the frame.
    pub input: InputView,
    /// How the player gets about after the frame.
    pub movement: Movement,
    /// The way the player faces after the frame.
    pub direction: Direction,
    /// The step to take, if any.
    pub step: Option<Direction>,
}

/// The button bound to a direction.
pub open spec fn spec_keybind(direction: Direction) -> Control {
    match direction {
        Direction::Up => Control::Up,
        Direction::Down => Control::Down,
        Direction::Left => Control::Left,
        Direction::Right => Control::Right,
    }
}

/// The choice among held directions after `direction` has been looked at:
/// a held direction replaces the choice so far, unless it is its opposite,
/// in which case the two cancel.
pub open spec fn merged(choice: Option<Direction>, direction: Direction, held: Held) -> Option<Direction> {
    if held.spec_is_down(spec_keybind(direction)) {
        match choice {
            Some(earlier) => if earlier.spec_inverse() == direction {
                None
            } else {
                Some(direction)
            },
            None => Some(direction),
        }
    } else {
        choice
    }
}

/// The direction chosen among those held, looked at in the order up, down,
/// left, right.
pub open spec fn chosen(held: Held) -> Option<Direction> {
    merged(
        merged(merged(merged(None, Direction::Up, held), Direction::Down, held), Direction::Left, held),
        Direction::Right,
        held,
    )
}

/// How the player gets about once the run button was looked at: held, a
/// walker runs; released, a runner walks.
pub open spec fn paced(movement: Movement, held: Held) -> Movement {
    if held.b {
        if movement == Movement::Walking {
            Movement::Running
        } else {
            movement
        }
    } else if movement == Movement::Running {
        Movement::Walking
    } else {
        movement
    }
}

impl InputView {
    /// One frame of input for a player who can move. While the first
    /// direction stays held the wait runs, and once it is over the player
    /// steps that way. Otherwise the player turns to the direction chosen
    /// among those held, which becomes the first; with none held the wait
    /// starts over.
    pub open spec fn polled(self, player: PlayerCharacter, held: Held, delta: nat) -> Polled {
        if player.moving || player.frozen || player.input_frozen {
            Polled { input: self, movement: player.movement, direction: player.direction, step: None }
        } else if held.spec_is_down(spec_keybind(self.first_direction)) {
            if self.wait > MOVE_WAIT {
                Polled {
                    input: self,
                    movement: paced(player.movement, held),
                    direction: player.direction,
                    step: Some(self.first_direction),
                }
            } else {
                Polled {
                    input: InputView { wait: self.wait + delta, ..self },
                    movement: paced(player.movement, held),
                    direction: player.direction,
                    step: None,
                }
            }
        } else {
            match chosen(held) {
                Some(direction) => Polled {
                    input: InputView { first_direction: direction, ..self },
                    movement: paced(player.movement, held),
                    direction,
                    step: None,
                },
                None => Polled {
                    input: InputView { wait: 0, ..self },
                    movement: paced(player.movement, held),
                    direction: player.direction,
                    step: None,
                },
            }
        }
    }
}

impl View for PlayerInput {
    type V = InputView;

    closed spec fn view(&self) -> InputView {
        InputView { wait: self.wait as nat, first_direction: self.first_direction }
    }
}

impl Default for PlayerInput {
    fn default() -> (input: Self)
        ensures
            input@ == (InputView { wait: 0, first_direction: Direction::Down }),
    {
        PlayerInput { wait: 0, first_direction: Direction::Down }
    }
}

fn merge(choice: Option<Direction>, direction: Direction, held: &Held) -> (next: Option<Direction>)
    ensures
        next == merged(choice, direction, *held),
{
    if held.is_down(PlayerInput::keybind(direction)) {
        match choice {
            Some(earlier) => if earlier.inverse() == direction {
                None
            } else {
                Some(direction)
            },
            None => Some(direction),
        }
    } else {
        choice
    }
}

impl PlayerInput {
    #[verifier::type_invariant]
    spec fn inv(self) -> bool {
        self.wait <= MOVE_WAIT + u32::MAX
    }

    /// Reads the buttons for one frame of `delta` milliseconds. Returns the
    /// step to take, if any.
    pub fn update(&mut self, player: &mut PlayerCharacter, held: &Held, delta: u32) -> (step: Option<Direction>)
        ensures
            ({
                let polled = old(self)@.polled(*old(player), *held, delta as nat);
                &&& final(self)@ == polled.input
                &&& *final(player) == (PlayerCharacter {
                    movement: polled.movement,
                    direction: polled.direction,
                    ..*old(player)
                })
                &&& step == polled.step
            }),
    {
        proof {
            use_type_invariant(&*self);
        }
        if !player.moving && !player.frozen && !player.input_frozen {
            if held.is_down(Control::B) {
                if player.movement == Movement::Walking {
                    player.movement = Movement::Running;
                }
            } else if player.movement == Movement::Running {
                player.movement = Movement::Walking;
            }
            if held.is_down(Self::keybind(self.first_direction)) {
                if self.wait > MOVE_WAIT {
                    return Some(self.first_direction);
                } else {
                    self.wait = self.wait + (delta as u64);
                }
            } else {
                let mut choice: Option<Direction> = None;
                choice = merge(choice, Direction::Up, held);
                choice = merge(choice, Direction::Down, held);
                choice = merge(choice, Direction::Left, held);
                choice = merge(choice, Direction::Right, held);
                match choice {
                    Some(direction) => {
                        player.direction = direction;
                        self.first_direction = direction;
                    },
                    None => {
                        self.wait = 0;
                    },
                }
            }
        }
        None
    }

    /// The button bound to a direction.
    pub fn keybind(direction: Direction) -> (control: Control)
        ensures
            control == spec_keybind(direction),
    {
        match direction {
            Direction::Up => Control::Up,
            Direction::Down => Control::Down,
            Direction::Left => Control::Left,
            Direction::Right => Control::Right,
        }
    }
}

} // verus!
