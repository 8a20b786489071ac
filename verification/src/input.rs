//! One frame of input, as the camera sees it.

use vstd::prelude::*;

verus! {

/// What a comparison of a scalar with zero told. A scalar that is neither
/// above nor below zero (zero itself, or one that does not compare) is `Zero`.
#[derive(Clone, Copy, Debug, PartialEq, Eq, Structural)]
pub enum Sign {
    Negative,
    Zero,
    Positive,
}

impl Sign {
    /// The sign of a whole number.
    pub open spec fn of(x: int) -> Sign {
        if x > 0 {
            Sign::Positive
        } else if x < 0 {
            Sign::Negative
        } else {
            Sign::Zero
        }
    }

    /// The direction of a mouse motion given in pixels.
    pub fn from_delta(x: i32) -> (r: Sign)
        ensures
            r == Sign::of(x as int),
    {
        if x > 0 {
            Sign::Positive
        } else if x < 0 {
            Sign::Negative
        } else {
            Sign::Zero
        }
    }
}

/// Snapshot of the input devices for one frame: the direction in which the
/// mouse moved on each axis, and which of the bound keys and buttons are held.
#[derive(Clone, Copy, Debug, PartialEq, Eq, Structural)]
pub struct FrameInput {
    /// Direction of the horizontal mouse motion since the last frame.
    pub mouse_x: Sign,
    /// Direction of the vertical mouse motion since the last frame.
    pub mouse_y: Sign,
    /// The pan modifier is held: the mouse translates instead of looking.
    pub pan: bool,
    pub pitch_down: bool,
    pub pitch_up: bool,
    pub yaw_right: bool,
    pub yaw_left: bool,
    pub forward: bool,
    pub back: bool,
    pub right: bool,
    pub left: bool,
    pub up: bool,
    pub down: bool,
}

impl FrameInput {
    /// The snapshot of a frame in which nothing is held and the mouse rests.
    pub open spec fn idle_spec() -> FrameInput {
        FrameInput {
            mouse_x: Sign::Zero,
            mouse_y: Sign::Zero,
            pan: false,
            pitch_down: false,
            pitch_up: false,
            yaw_right: false,
            yaw_left: false,
            forward: false,
            back: false,
            right: false,
            left: false,
            up: false,
            down: false,
        }
    }

    /// A frame in which nothing is held and the mouse rests.
    pub fn idle() -> (r: FrameInput)
        ensures
            r == Self::idle_spec(),
    {
        FrameInput {
            mouse_x: Sign::Zero,
            mouse_y: Sign::Zero,
            pan: false,
            pitch_down: false,
            pitch_up: false,
            yaw_right: false,
            yaw_left: false,
            forward: false,
            back: false,
            right: false,
            left: false,
            up: false,
            down: false,
        }
    }

    /// Some rotation key is held.
    pub open spec fn turns(self) -> bool {
        self.pitch_down || self.pitch_up || self.yaw_right || self.yaw_left
    }
}

} // verus!
