//! What the input collaborator reports for one frame.

use vstd::prelude::*;
use crate::geometry::Point;

verus! {

/// Where the four movement flags put the steering stick.
#[derive(Clone, Copy, Debug, PartialEq, Eq, Structural)]
pub enum Stick {
    Rest,
    Right,
    Left,
    Up,
    Down,
}

/// One frame's input: held keys and buttons, the pointer, and at most one click.
#[derive(Clone, Copy, Debug, PartialEq, Eq)]
pub struct InputSnapshot {
    /// The four movement flags. They are independent: any of them may be set together.
    pub right: bool,
    pub left: bool,
    pub up: bool,
    pub down: bool,
    /// The primary pointer button is held. No rule reads it: clicks arrive through `click`.
    pub select_held: bool,
    /// The fire button is held.
    pub fire_held: bool,
    /// Where the primary pointer button was released this frame, if it was.
    pub click: Option<Point>,
    /// Where the pointer is.
    pub pointer: Point,
}

impl InputSnapshot {
    /// Where the flags put the stick: each set flag overrides the ones
    /// before it, in the order right, left, up, down; with none set the
    /// stick rests.
    pub open spec fn spec_stick(&self) -> Stick {
        if self.down {
            Stick::Down
        } else if self.up {
            Stick::Up
        } else if self.left {
            Stick::Left
        } else if self.right {
            Stick::Right
        } else {
            Stick::Rest
        }
    }

    /// See [`InputSnapshot::spec_stick`].
    #[verifier::when_used_as_spec(spec_stick)]
    pub fn stick(&self) -> (stick: Stick)
        ensures
            stick == self.spec_stick(),
    {
        if self.down {
            Stick::Down
        } else if self.up {
            Stick::Up
        } else if self.left {
            Stick::Left
        } else if self.right {
            Stick::Right
        } else {
            Stick::Rest
        }
    }

    pub open spec fn spec_idle() -> InputSnapshot {
        InputSnapshot {
            right: false,
            left: false,
            up: false,
            down: false,
            select_held: false,
            fire_held: false,
            click: None,
            pointer: Point { x: 0, y: 0 },
        }
    }

    /// A frame in which nothing is held or clicked and the pointer rests at the origin.
    #[verifier::when_used_as_spec(spec_idle)]
    pub fn idle() -> (input: InputSnapshot)
        ensures
            input == InputSnapshot::spec_idle(),
    {
        InputSnapshot {
            right: false,
            left: false,
            up: false,
            down: false,
            select_held: false,
            fire_held: false,
            click: None,
            pointer: Point { x: 0, y: 0 },
        }
    }
}

} // verus!
