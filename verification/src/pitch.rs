//! The limits of a pitch.
//!
//! A pitch may bring the forward vector no closer than a fixed margin to the
//! up axis or to its opposite: past either the camera's basis degenerates.
//! Angles here are whole picoradians, millionths of a millionth of a
//! radian; a positive pitch turns forward towards up.

use vstd::prelude::*;

verus! {

/// The margin that a pitch keeps from the up axis and from its opposite:
/// a thousandth of a radian.
pub const EPSILON: i128 = 1_000_000_000;

/// The largest pitch allowed: the angle from up to forward, less the margin.
pub open spec fn ceiling(to_up: int) -> int {
    to_up - EPSILON
}

/// The smallest pitch allowed: the angle from the opposite of up to forward,
/// less the margin, downwards.
pub open spec fn floor(to_down: int) -> int {
    EPSILON - to_down
}

/// The pitch that is carried out for a request: the request held to the
/// ceiling, and what that gives held to the floor.
pub open spec fn limited(request: int, to_up: int, to_down: int) -> int {
    let capped = if request > ceiling(to_up) {
        ceiling(to_up)
    } else {
        request
    };
    if capped < floor(to_down) {
        floor(to_down)
    } else {
        capped
    }
}

/// The angles from up and from its opposite to forward after a run of pitch
/// requests, each limited against the angles that the one before it left.
/// A pitch of `a` brings forward closer to up by `a`.
pub open spec fn after_pitches(to_up: int, to_down: int, requests: Seq<int>) -> (int, int)
    decreases requests.len(),
{
    if requests.len() == 0 {
        (to_up, to_down)
    } else {
        let (u, d) = after_pitches(to_up, to_down, requests.drop_last());
        let a = limited(requests.last(), u, d);
        (u - a, d + a)
    }
}

/// Holds a pitch request within its limits. `to_up` is the angle between the
/// up axis and forward, `to_down` the angle between the opposite of up and
/// forward; as angles between vectors neither is negative.
pub fn limit_pitch(request: i128, to_up: i128, to_down: i128) -> (angle: i128)
    requires
        0 <= to_up,
        0 <= to_down,
    ensures
        angle == limited(request as int, to_up as int, to_down as int),
{
    let max_up: i128 = to_up - EPSILON;
    let max_down: i128 = EPSILON - to_down;
    let mut angle: i128 = request;
    if angle > max_up {
        angle = max_up;
    }
    if angle < max_down {
        angle = max_down;
    }
    angle
}

/// Where the two angles leave room for both margins, the limited pitch lies
/// between floor and ceiling, and is the request itself if that does.
pub proof fn lemma_limited_is_clamp(request: int, to_up: int, to_down: int)
    requires
        to_up + to_down >= 2 * EPSILON,
    ensures
        floor(to_down) <= limited(request, to_up, to_down) <= ceiling(to_up),
        floor(to_down) <= request <= ceiling(to_up) ==> limited(request, to_up, to_down)
            == request,
        request > ceiling(to_up) ==> limited(request, to_up, to_down) == ceiling(to_up),
        request < floor(to_down) ==> limited(request, to_up, to_down) == floor(to_down),
{
}

/// After a limited pitch forward is at least the margin away from up and
/// from its opposite.
pub proof fn lemma_pitch_keeps_clear(request: int, to_up: int, to_down: int)
    requires
        to_up + to_down >= 2 * EPSILON,
    ensures
        to_up - limited(request, to_up, to_down) >= EPSILON,
        to_down + limited(request, to_up, to_down) >= EPSILON,
{
}

/// Limiting a limited pitch again changes nothing.
pub proof fn lemma_limited_twice(request: int, to_up: int, to_down: int)
    ensures
        limited(limited(request, to_up, to_down), to_up, to_down) == limited(
            request,
            to_up,
            to_down,
        ),
{
}

/// After any run of one or more pitch requests forward is at least the
/// margin away from up and from its opposite, and the two angles still add
/// up to what they did.
pub proof fn lemma_pitches_keep_clear(to_up: int, to_down: int, requests: Seq<int>)
    requires
        to_up + to_down >= 2 * EPSILON,
        requests.len() >= 1,
    ensures
        after_pitches(to_up, to_down, requests).0 >= EPSILON,
        after_pitches(to_up, to_down, requests).1 >= EPSILON,
        after_pitches(to_up, to_down, requests).0 + after_pitches(to_up, to_down, requests).1
            == to_up + to_down,
    decreases requests.len(),
{
    lemma_pitches_keep_sum(to_up, to_down, requests.drop_last());
    let (u, d) = after_pitches(to_up, to_down, requests.drop_last());
    lemma_pitch_keeps_clear(requests.last(), u, d);
}

/// A run of pitches leaves the sum of the two angles as it was.
pub proof fn lemma_pitches_keep_sum(to_up: int, to_down: int, requests: Seq<int>)
    ensures
        after_pitches(to_up, to_down, requests).0 + after_pitches(to_up, to_down, requests).1
            == to_up + to_down,
    decreases requests.len(),
{
    if requests.len() > 0 {
        lemma_pitches_keep_sum(to_up, to_down, requests.drop_last());
    }
}

} // verus!
