//! Rebuilding the camera's basis from its forward vector and the up vector
//! that it carried through the frame.
//!
//! Right is up crossed with forward, and the new up is forward crossed with
//! that right. Bringing the three to unit length, which is left to the
//! caller, turns none of them.

use vstd::prelude::*;
use crate::vector::{Triple, Vector3, cross, cross_within, dot, stretched, within};
use crate::vector::{lemma_cross_is_perpendicular, lemma_cross_of_stretched, lemma_cross_there_and_back};

verus! {

/// The largest coordinate, either way, of a direction handed in for
/// rebuilding: two to the fortieth.
pub const SPAN: i128 = 0x100_0000_0000;

/// Forward, right and up; perpendicular, not of unit length.
#[derive(Clone, Copy, Debug, PartialEq, Eq, Structural)]
pub struct Basis {
    pub forward: Vector3,
    pub right: Vector3,
    pub up: Vector3,
}

/// The right vector that goes with an up and a forward.
pub open spec fn rebuilt_right(up: Triple, forward: Triple) -> Triple {
    cross(up, forward)
}

/// The up vector that goes with forward and the rebuilt right.
pub open spec fn rebuilt_up(up: Triple, forward: Triple) -> Triple {
    cross(forward, rebuilt_right(up, forward))
}

/// Rebuilds right and up around forward.
pub fn orthogonalize(up: &Vector3, forward: &Vector3) -> (basis: Basis)
    requires
        within(up@, SPAN as int),
        within(forward@, SPAN as int),
    ensures
        basis.forward == *forward,
        basis.right@ == rebuilt_right(up@, forward@),
        basis.up@ == rebuilt_up(up@, forward@),
{
    let ghost span = SPAN as int;
    assert(span * span == 0x1_0000_0000_0000_0000_0000) by (nonlinear_arith)
        requires
            span == 0x100_0000_0000,
    ;
    let right = cross_within(up, forward, Ghost(span), Ghost(span));
    assert(span * (2 * (span * span)) == 0x200_0000_0000_0000_0000_0000_0000_0000)
        by (nonlinear_arith)
        requires
            span == 0x100_0000_0000,
            span * span == 0x1_0000_0000_0000_0000_0000,
    ;
    let new_up = cross_within(forward, &right, Ghost(span), Ghost(2 * (span * span)));
    Basis { forward: *forward, right, up: new_up }
}

/// A rebuilt basis is orthogonal: right, up and forward are perpendicular
/// to one another, whatever the up and the forward it was rebuilt from.
pub proof fn lemma_rebuilt_is_orthogonal(up: Triple, forward: Triple)
    ensures
        dot(rebuilt_right(up, forward), forward) == 0,
        dot(rebuilt_up(up, forward), forward) == 0,
        dot(rebuilt_up(up, forward), rebuilt_right(up, forward)) == 0,
{
    lemma_cross_is_perpendicular(up, forward);
    lemma_cross_is_perpendicular(forward, rebuilt_right(up, forward));
}

/// Rebuilding a rebuilt basis turns nothing: right and up come out as they
/// went in, each stretched by the square of forward's length, so that at
/// unit length the second basis is the first.
pub proof fn lemma_rebuild_twice(up: Triple, forward: Triple)
    ensures
        rebuilt_right(rebuilt_up(up, forward), forward) == stretched(
            rebuilt_right(up, forward),
            dot(forward, forward),
        ),
        rebuilt_up(rebuilt_up(up, forward), forward) == stretched(
            rebuilt_up(up, forward),
            dot(forward, forward),
        ),
        dot(forward, forward) >= 0,
{
    let right = rebuilt_right(up, forward);
    lemma_cross_is_perpendicular(up, forward);
    assert(dot(forward, right) == dot(right, forward)) by (nonlinear_arith)
        requires
            dot(forward, right) == forward.x * right.x + forward.y * right.y + forward.z
                * right.z,
            dot(right, forward) == right.x * forward.x + right.y * forward.y + right.z
                * forward.z,
    ;
    lemma_cross_there_and_back(forward, right);
    lemma_cross_of_stretched(forward, right, dot(forward, forward));
    assert(forward.x * forward.x >= 0 && forward.y * forward.y >= 0 && forward.z * forward.z
        >= 0) by (nonlinear_arith);
}

} // verus!
