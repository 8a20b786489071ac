//! Yaw and pitch: turning the camera's view about an axis and aiming the
//! camera along what comes out.

use vstd::prelude::*;
use crate::camera::Camera;
use crate::twist::{twist, twisted, UNIT, UNIT_CUBED};
use crate::vector::{Triple, Vector3, REACH, difference, sum, within};

verus! {

/// A coordinate of a turned vector brought back from the scale of `UNIT`
/// cubed, dropping what is left over, towards zero.
pub open spec fn rescaled(x: int) -> int {
    if x >= 0 {
        x / (UNIT_CUBED as int)
    } else {
        -((-x) / (UNIT_CUBED as int))
    }
}

/// The vector turned about the axis of `w`, on the vector's own scale.
pub open spec fn turned(v: Triple, w: Triple, a: int) -> Triple {
    let t = twisted(v, w, a);
    Triple { x: rescaled(t.x), y: rescaled(t.y), z: rescaled(t.z) }
}

fn rescale(x: i128) -> (r: i128)
    requires
        x > i128::MIN,
    ensures
        r == rescaled(x as int),
{
    if x >= 0 {
        x / UNIT_CUBED
    } else {
        -((-x) / UNIT_CUBED)
    }
}

/// Turns a vector about the axis of `w`, the unit axis times the sine of
/// half the angle, with `a` the cosine of half the angle.
pub fn turn(v: &Vector3, w: &Vector3, a: i128) -> (r: Vector3)
    requires
        within(v@, 2 * REACH),
        within(w@, UNIT as int),
        -UNIT <= a <= UNIT,
    ensures
        r@ == turned(v@, w@, a as int),
{
    let t = twist(v, w, a);
    Vector3 { x: rescale(t.x), y: rescale(t.y), z: rescale(t.z) }
}

/// What a camera looks along after a yaw or a pitch that was carried out.
pub open spec fn view_after(camera: Camera, w: Triple, a: int) -> Triple {
    turned(camera.forward(), w, a)
}

/// Whether a camera can be aimed along a view: whether the point that moves
/// stays within reach.
pub open spec fn can_aim(camera: Camera, view: Triple, rotate_around_target: bool) -> bool {
    if rotate_around_target {
        within(difference(camera.target@, view), REACH as int)
    } else {
        within(sum(camera.position@, view), REACH as int)
    }
}

/// Yaw: turns the view about the up axis, and aims the camera along it,
/// around the target or around the eye. `w` is the unit up axis times the
/// sine of half the angle, `a` the cosine of half the angle. Says whether
/// the camera was turned; it is not where that would take it out of reach.
pub fn yaw(camera: &mut Camera, w: &Vector3, a: i128, rotate_around_target: bool) -> (done: bool)
    requires
        old(camera).well_formed(),
        within(w@, UNIT as int),
        -UNIT <= a <= UNIT,
    ensures
        final(camera).well_formed(),
        done == can_aim(*old(camera), view_after(*old(camera), w@, a as int), rotate_around_target),
        done ==> final(camera).forward() == view_after(*old(camera), w@, a as int),
        done && rotate_around_target ==> final(camera).target == old(camera).target,
        done && !rotate_around_target ==> final(camera).position == old(camera).position,
        final(camera).fov == old(camera).fov,
        !done ==> *final(camera) == *old(camera),
{
    let forward = camera.get_forward();
    let view = turn(&forward, w, a);
    camera.aim(&view, rotate_around_target)
}

/// Pitch: turns the view about the right axis by the limited angle, and
/// aims the camera along it; then, where `rotate_up` holds, turns the kept
/// up vector by the same angle. `w` is the unit right axis times the sine of
/// half the limited angle, `a` the cosine of half of it. Says whether the
/// camera was turned; where it was not, the up vector is left as well.
pub fn pitch(
    camera: &mut Camera,
    up: &mut Vector3,
    w: &Vector3,
    a: i128,
    rotate_around_target: bool,
    rotate_up: bool,
) -> (done: bool)
    requires
        old(camera).well_formed(),
        within(old(up)@, 2 * REACH),
        within(w@, UNIT as int),
        -UNIT <= a <= UNIT,
    ensures
        final(camera).well_formed(),
        done == can_aim(*old(camera), view_after(*old(camera), w@, a as int), rotate_around_target),
        done ==> final(camera).forward() == view_after(*old(camera), w@, a as int),
        done && rotate_around_target ==> final(camera).target == old(camera).target,
        done && !rotate_around_target ==> final(camera).position == old(camera).position,
        final(camera).fov == old(camera).fov,
        !done ==> *final(camera) == *old(camera),
        done && rotate_up ==> final(up)@ == turned(old(up)@, w@, a as int),
        !(done && rotate_up) ==> *final(up) == *old(up),
{
    let forward = camera.get_forward();
    let view = turn(&forward, w, a);
    let done = camera.aim(&view, rotate_around_target);
    if done && rotate_up {
        let turned_up = turn(up, w, a);
        *up = turned_up;
    }
    done
}

} // verus!
