//! From a named amount to its value in a given frame.
//!
//! Lengths and angles are whole numbers of a millionth of a millionth of a
//! unit: of a world unit for translations, of a radian for rotations. Speeds
//! are millionths of a unit per second and the frame time is in
//! microseconds, so that their product is exact.

use vstd::prelude::*;
use crate::input::{FrameInput, Sign};
use crate::step::{Amount, Measure};

verus! {

/// How fast the camera moves, turns and pans, and how far a pixel of mouse
/// motion turns it.
#[derive(Clone, Copy, Debug, PartialEq, Eq, Structural)]
pub struct Speeds {
    /// Translation by keys, in millionths of a world unit per second.
    pub travel: u32,
    /// Rotation by keys, in microradians per second.
    pub turn: u32,
    /// Panning by mouse, in millionths of a world unit per second.
    pub pan: u32,
    /// Looking by mouse, in picoradians per pixel.
    pub look: u32,
}

/// The numbers of one frame: how long the last one took, and how far the
/// mouse moved since.
#[derive(Clone, Copy, Debug, PartialEq, Eq, Structural)]
pub struct Motion {
    /// Frame time in microseconds.
    pub frame_micros: u64,
    /// Horizontal mouse motion in pixels.
    pub mouse_dx: i32,
    /// Vertical mouse motion in pixels.
    pub mouse_dy: i32,
}

impl Speeds {
    /// The camera's usual speeds: 5.4 units per second of travel, 0.03
    /// radians per second of turn, 0.2 units per second of pan, and 0.0006
    /// radians of look per pixel.
    pub open spec fn standard() -> Speeds {
        Speeds { travel: 5_400_000, turn: 30_000, pan: 200_000, look: 600_000_000 }
    }
}

impl Default for Speeds {
    fn default() -> (r: Speeds)
        ensures
            r == Speeds::standard(),
    {
        Speeds { travel: 5_400_000, turn: 30_000, pan: 200_000, look: 600_000_000 }
    }
}

/// The size of a measure in a frame: a speed times the frame time, or, for
/// the mouse measures, the look sensitivity times the mouse motion, whatever
/// the frame time.
pub open spec fn magnitude(measure: Measure, speeds: Speeds, motion: Motion) -> int {
    match measure {
        Measure::Pan => speeds.pan as int * motion.frame_micros as int,
        Measure::Turn => speeds.turn as int * motion.frame_micros as int,
        Measure::Travel => speeds.travel as int * motion.frame_micros as int,
        Measure::MouseX => speeds.look as int * motion.mouse_dx as int,
        Measure::MouseY => speeds.look as int * motion.mouse_dy as int,
    }
}

/// The value of an amount in a frame: the size of its measure, negated
/// where the amount is.
pub open spec fn value_of(amount: Amount, speeds: Speeds, motion: Motion) -> int {
    if amount.negated {
        -magnitude(amount.measure, speeds, motion)
    } else {
        magnitude(amount.measure, speeds, motion)
    }
}

/// The input and the numbers belong to one frame: the mouse's directions
/// in the input are those of its motion in pixels.
pub open spec fn agrees(input: FrameInput, motion: Motion) -> bool {
    &&& input.mouse_x == Sign::of(motion.mouse_dx as int)
    &&& input.mouse_y == Sign::of(motion.mouse_dy as int)
}

/// The frame's input: the keys as they are held, and the mouse's directions
/// taken from its motion.
pub fn input_for(keys: &FrameInput, motion: &Motion) -> (input: FrameInput)
    ensures
        agrees(input, *motion),
        input.pan == keys.pan,
        input.pitch_down == keys.pitch_down,
        input.pitch_up == keys.pitch_up,
        input.yaw_right == keys.yaw_right,
        input.yaw_left == keys.yaw_left,
        input.forward == keys.forward,
        input.back == keys.back,
        input.right == keys.right,
        input.left == keys.left,
        input.up == keys.up,
        input.down == keys.down,
{
    FrameInput {
        mouse_x: Sign::from_delta(motion.mouse_dx),
        mouse_y: Sign::from_delta(motion.mouse_dy),
        pan: keys.pan,
        pitch_down: keys.pitch_down,
        pitch_up: keys.pitch_up,
        yaw_right: keys.yaw_right,
        yaw_left: keys.yaw_left,
        forward: keys.forward,
        back: keys.back,
        right: keys.right,
        left: keys.left,
        up: keys.up,
        down: keys.down,
    }
}

/// A rate times a count that fits in 65 bits.
fn scaled(rate: u32, count: i128) -> (r: i128)
    requires
        -0x1_0000_0000_0000_0000 <= count <= 0x1_0000_0000_0000_0000,
    ensures
        r == rate as int * count as int,
        -0x1_0000_0000_0000_0000_0000_0000 <= r <= 0x1_0000_0000_0000_0000_0000_0000,
{
    assert(-0x1_0000_0000 * 0x1_0000_0000_0000_0000 <= rate as int * count as int
        <= 0x1_0000_0000 * 0x1_0000_0000_0000_0000) by (nonlinear_arith)
        requires
            0 <= rate as int <= 0x1_0000_0000,
            -0x1_0000_0000_0000_0000 <= count as int <= 0x1_0000_0000_0000_0000,
    ;
    (rate as i128) * count
}

/// The value of an amount in the frame.
pub fn evaluate(amount: Amount, speeds: &Speeds, motion: &Motion) -> (value: i128)
    ensures
        value == value_of(amount, *speeds, *motion),
{
    let size: i128 = match amount.measure {
        Measure::Pan => scaled(speeds.pan, motion.frame_micros as i128),
        Measure::Turn => scaled(speeds.turn, motion.frame_micros as i128),
        Measure::Travel => scaled(speeds.travel, motion.frame_micros as i128),
        Measure::MouseX => scaled(speeds.look, motion.mouse_dx as i128),
        Measure::MouseY => scaled(speeds.look, motion.mouse_dy as i128),
    };
    if amount.negated {
        -size
    } else {
        size
    }
}

/// A speed-driven amount is proportional to the frame time, without limit:
/// in a frame that takes `k` times as long it is `k` times as large. A frame
/// of no time moves nothing.
pub proof fn lemma_frame_time_scales(
    amount: Amount,
    speeds: Speeds,
    short: Motion,
    long: Motion,
    k: nat,
)
    requires
        amount.measure.frame_scaled(),
        long.frame_micros == k * short.frame_micros,
    ensures
        value_of(amount, speeds, long) == k * value_of(amount, speeds, short),
        short.frame_micros == 0 ==> value_of(amount, speeds, short) == 0,
{
    let rate: int = match amount.measure {
        Measure::Pan => speeds.pan as int,
        Measure::Turn => speeds.turn as int,
        _ => speeds.travel as int,
    };
    let t = short.frame_micros as int;
    assert(rate * (k * t) == k * (rate * t)) by (nonlinear_arith);
    assert(-(k * (rate * t)) == k * (-(rate * t))) by (nonlinear_arith);
}

/// A mouse-driven amount does not depend on the frame time.
pub proof fn lemma_mouse_ignores_frame_time(
    amount: Amount,
    speeds: Speeds,
    one: Motion,
    other: Motion,
)
    requires
        amount.measure.from_mouse(),
        one.mouse_dx == other.mouse_dx,
        one.mouse_dy == other.mouse_dy,
    ensures
        value_of(amount, speeds, one) == value_of(amount, speeds, other),
{
}

/// An amount and its negation have opposite values.
pub proof fn lemma_negation_is_opposite(measure: Measure, speeds: Speeds, motion: Motion)
    ensures
        value_of(Amount::minus_spec(measure), speeds, motion) == -value_of(
            Amount::plus_spec(measure),
            speeds,
            motion,
        ),
{
}

/// A speed-driven measure is never negative: the sign of such an amount is
/// the one it was given.
pub proof fn lemma_speed_driven_sign(amount: Amount, speeds: Speeds, motion: Motion)
    requires
        amount.measure.frame_scaled(),
    ensures
        !amount.negated ==> value_of(amount, speeds, motion) >= 0,
        amount.negated ==> value_of(amount, speeds, motion) <= 0,
{
    let rate: int = match amount.measure {
        Measure::Pan => speeds.pan as int,
        Measure::Turn => speeds.turn as int,
        _ => speeds.travel as int,
    };
    let t = motion.frame_micros as int;
    assert(rate * t >= 0) by (nonlinear_arith)
        requires
            rate >= 0,
            t >= 0,
    ;
}

/// Looking turns against the mouse: where input and numbers belong to one
/// frame and the look sensitivity is not nothing, the amounts of the look's
/// yaw and pitch have the opposite directions of the mouse's motion.
pub proof fn lemma_look_turns_against_mouse(input: FrameInput, speeds: Speeds, motion: Motion)
    requires
        agrees(input, motion),
        speeds.look > 0,
    ensures
        Sign::of(value_of(Amount::plus_spec(Measure::MouseX), speeds, motion)) == input.mouse_x,
        Sign::of(value_of(Amount::plus_spec(Measure::MouseY), speeds, motion)) == input.mouse_y,
        Sign::of(-value_of(Amount::minus_spec(Measure::MouseX), speeds, motion)) == input.mouse_x,
        Sign::of(-value_of(Amount::minus_spec(Measure::MouseY), speeds, motion)) == input.mouse_y,
{
    let look = speeds.look as int;
    let dx = motion.mouse_dx as int;
    let dy = motion.mouse_dy as int;
    assert((dx > 0 ==> look * dx > 0) && (dx < 0 ==> look * dx < 0) && (dx == 0 ==> look * dx
        == 0)) by (nonlinear_arith)
        requires
            look > 0,
    ;
    assert((dy > 0 ==> look * dy > 0) && (dy < 0 ==> look * dy < 0) && (dy == 0 ==> look * dy
        == 0)) by (nonlinear_arith)
        requires
            look > 0,
    ;
}

} // verus!
