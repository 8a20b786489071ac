//! The camera operations that a frame can ask for.

use vstd::prelude::*;

verus! {

/// A per-frame magnitude. The caller owns the numbers; the plan only says
/// which of them an operation takes.
#[derive(Clone, Copy, Debug, PartialEq, Eq, Structural)]
pub enum Measure {
    /// Pan speed times the frame time.
    Pan,
    /// Keyboard rotation speed times the frame time.
    Turn,
    /// Move speed times the frame time.
    Travel,
    /// Horizontal mouse motion times the look sensitivity.
    MouseX,
    /// Vertical mouse motion times the look sensitivity.
    MouseY,
}

impl Measure {
    /// Whether the magnitude grows with the frame time. The mouse measures do
    /// not: a mouse delta is already an amount per frame.
    pub open spec fn frame_scaled(self) -> bool {
        match self {
            Measure::Pan | Measure::Turn | Measure::Travel => true,
            Measure::MouseX | Measure::MouseY => false,
        }
    }

    /// Whether the magnitude comes from the mouse.
    pub open spec fn from_mouse(self) -> bool {
        !self.frame_scaled()
    }

    /// Whether the magnitude is to be multiplied by the frame time.
    pub fn is_frame_scaled(self) -> (r: bool)
        ensures
            r == self.frame_scaled(),
    {
        match self {
            Measure::Pan | Measure::Turn | Measure::Travel => true,
            Measure::MouseX | Measure::MouseY => false,
        }
    }
}

/// A signed magnitude: a measure, taken as it is or negated.
#[derive(Clone, Copy, Debug, PartialEq, Eq, Structural)]
pub struct Amount {
    pub measure: Measure,
    pub negated: bool,
}

impl Amount {
    pub open spec fn plus_spec(measure: Measure) -> Amount {
        Amount { measure, negated: false }
    }

    pub open spec fn minus_spec(measure: Measure) -> Amount {
        Amount { measure, negated: true }
    }

    /// The measure as it is.
    pub fn plus(measure: Measure) -> (r: Amount)
        ensures
            r == Self::plus_spec(measure),
    {
        Amount { measure, negated: false }
    }

    /// The measure negated.
    pub fn minus(measure: Measure) -> (r: Amount)
        ensures
            r == Self::minus_spec(measure),
    {
        Amount { measure, negated: true }
    }
}

/// One camera operation.
#[derive(Clone, Copy, Debug, PartialEq, Eq, Structural)]
pub enum Step {
    /// Translate position and target along the forward axis.
    MoveForward(Amount),
    /// Translate position and target along the right axis.
    MoveRight(Amount),
    /// Translate position and target along the up axis.
    MoveUp(Amount),
    /// Rotate the view about the up axis, around the eye.
    Yaw(Amount),
    /// Rotate the view about the right axis, around the eye, within the
    /// pitch limits, and carry the up vector along.
    Pitch(Amount),
    /// Rebuild the forward, right and up vectors as an orthonormal basis.
    Orthonormalize,
}

impl Step {
    /// The operation turns the view.
    pub open spec fn rotates(self) -> bool {
        self is Yaw || self is Pitch
    }

    /// The operation moves position and target by one and the same vector.
    pub open spec fn translates(self) -> bool {
        self is MoveForward || self is MoveRight || self is MoveUp
    }

    /// The amount that the operation takes, if it takes one.
    pub open spec fn amount(self) -> Option<Amount> {
        match self {
            Step::MoveForward(a) => Some(a),
            Step::MoveRight(a) => Some(a),
            Step::MoveUp(a) => Some(a),
            Step::Yaw(a) => Some(a),
            Step::Pitch(a) => Some(a),
            Step::Orthonormalize => None,
        }
    }

    /// The operation takes its amount from the mouse.
    pub open spec fn mouse_driven(self) -> bool {
        match self.amount() {
            Some(a) => a.measure.from_mouse(),
            None => false,
        }
    }

    /// Whether the operation turns the view.
    pub fn is_rotation(self) -> (r: bool)
        ensures
            r == self.rotates(),
    {
        match self {
            Step::Yaw(_) | Step::Pitch(_) => true,
            _ => false,
        }
    }

    /// Whether the operation is a pure translation.
    pub fn is_translation(self) -> (r: bool)
        ensures
            r == self.translates(),
    {
        match self {
            Step::MoveForward(_) | Step::MoveRight(_) | Step::MoveUp(_) => true,
            _ => false,
        }
    }
}

} // verus!
