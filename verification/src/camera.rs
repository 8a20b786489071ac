//! The camera's state: where it stands, what it looks at, and the basis
//! that follows from the two.

use vstd::prelude::*;
use crate::vector::{Triple, Vector3, REACH, cross, difference, dot, sum, within, world_up};
use crate::vector::{lemma_cross_is_perpendicular, lemma_shift_keeps_difference};

verus! {

/// A camera: the eye, the point it looks at, and the vertical field of
/// view in millionths of a degree.
#[derive(Clone, Copy, Debug, PartialEq, Eq, Structural)]
pub struct Camera {
    pub position: Vector3,
    pub target: Vector3,
    pub fov: u32,
}

impl Camera {
    /// Eye and target are within reach.
    pub open spec fn well_formed(self) -> bool {
        within(self.position@, REACH as int) && within(self.target@, REACH as int)
    }

    /// From the eye to the target; not of unit length.
    pub open spec fn forward(self) -> Triple {
        difference(self.target@, self.position@)
    }

    /// Forward crossed with the world's up; not of unit length.
    pub open spec fn right(self) -> Triple {
        cross(self.forward(), world_up())
    }

    /// Right crossed with forward; not of unit length.
    pub open spec fn up(self) -> Triple {
        cross(self.right(), self.forward())
    }

    /// Forward runs along the world's up axis, or is nothing at all: the
    /// camera has no right and no up.
    pub open spec fn degenerate(self) -> bool {
        self.forward().x == 0 && self.forward().z == 0
    }

    /// A camera at `position` that looks at `target`, both kept as they are.
    pub fn new(position: Vector3, target: Vector3, fov: u32) -> (camera: Camera)
        requires
            within(position@, REACH as int),
            within(target@, REACH as int),
        ensures
            camera.position == position,
            camera.target == target,
            camera.fov == fov,
            camera.well_formed(),
    {
        Camera { position, target, fov }
    }

    /// The vector from the eye to the target.
    pub fn get_forward(&self) -> (v: Vector3)
        requires
            self.well_formed(),
        ensures
            v@ == self.forward(),
            within(v@, 2 * REACH),
    {
        self.target.minus(&self.position)
    }

    /// The vector to the camera's right: level, and as long as forward's
    /// level part.
    pub fn get_right(&self) -> (v: Vector3)
        requires
            self.well_formed(),
        ensures
            v@ == self.right(),
            within(v@, 2 * REACH),
    {
        let forward = self.get_forward();
        let up = Vector3::new(0, 1, 0);
        assert(up@ == world_up());
        forward.cross(&up)
    }

    /// The vector that points up from the camera.
    pub fn get_up(&self) -> (v: Vector3)
        requires
            self.well_formed(),
        ensures
            v@ == self.up(),
    {
        let forward = self.get_forward();
        let right = self.get_right();
        right.cross(&forward)
    }

    /// Moves eye and target by one displacement, where both stay within
    /// reach, and says whether it did. The vector from eye to target is
    /// left as it was.
    pub fn translate(&mut self, by: &Vector3) -> (moved: bool)
        requires
            old(self).well_formed(),
        ensures
            final(self).well_formed(),
            final(self).forward() == old(self).forward(),
            final(self).fov == old(self).fov,
            moved == (within(sum(old(self).position@, by@), REACH as int) && within(
                sum(old(self).target@, by@),
                REACH as int,
            )),
            moved ==> final(self).position@ == sum(old(self).position@, by@),
            moved ==> final(self).target@ == sum(old(self).target@, by@),
            !moved ==> *final(self) == *old(self),
    {
        if !by.fits(2 * REACH) {
            return false;
        }
        let position = self.position.plus(by);
        let target = self.target.plus(by);
        if !position.in_reach() || !target.in_reach() {
            return false;
        }
        proof {
            lemma_shift_keeps_difference(self.target@, self.position@, by@);
        }
        self.position = position;
        self.target = target;
        true
    }

    /// Turns the camera so that `view` leads from the eye to the target:
    /// around the target, by moving the eye, or else around the eye, by
    /// moving the target. Does so where the moved point stays within reach,
    /// and says whether it did.
    pub fn aim(&mut self, view: &Vector3, rotate_around_target: bool) -> (aimed: bool)
        requires
            old(self).well_formed(),
        ensures
            final(self).well_formed(),
            final(self).fov == old(self).fov,
            aimed == if rotate_around_target {
                within(difference(old(self).target@, view@), REACH as int)
            } else {
                within(sum(old(self).position@, view@), REACH as int)
            },
            aimed ==> final(self).forward() == view@,
            aimed && rotate_around_target ==> final(self).target == old(self).target,
            aimed && !rotate_around_target ==> final(self).position == old(self).position,
            !aimed ==> *final(self) == *old(self),
    {
        if !view.fits(2 * REACH) {
            return false;
        }
        if rotate_around_target {
            let position = self.target.minus(view);
            if !position.in_reach() {
                return false;
            }
            self.position = position;
        } else {
            let target = self.position.plus(view);
            if !target.in_reach() {
                return false;
            }
            self.target = target;
        }
        true
    }

    /// Right, up and forward are perpendicular to one another, and right is
    /// perpendicular to the world's up.
    pub proof fn lemma_basis_is_orthogonal(self)
        ensures
            dot(self.right(), self.forward()) == 0,
            dot(self.up(), self.forward()) == 0,
            dot(self.up(), self.right()) == 0,
            dot(self.right(), world_up()) == 0,
    {
        lemma_cross_is_perpendicular(self.forward(), world_up());
        lemma_cross_is_perpendicular(self.right(), self.forward());
    }

    /// Right is level, and up never points below the horizon: its height is
    /// the square of the length of forward's level part.
    pub proof fn lemma_up_points_up(self)
        ensures
            self.right() == (Triple { x: -self.forward().z, y: 0, z: self.forward().x }),
            self.up().y == self.forward().x * self.forward().x + self.forward().z
                * self.forward().z,
            self.up().y >= 0,
    {
        let f = self.forward();
        assert(f.x * f.x >= 0 && f.z * f.z >= 0) by (nonlinear_arith);
        assert(f.x * f.x == (-f.x) * (-f.x)) by (nonlinear_arith);
        assert((-f.z) * f.z == -(f.z * f.z)) by (nonlinear_arith);
    }

    /// The camera has a right and an up unless forward runs along the
    /// world's up axis: there, and only there, both vanish.
    pub proof fn lemma_degenerate_iff_no_basis(self)
        ensures
            self.degenerate() <==> self.right() == (Triple { x: 0, y: 0, z: 0 }),
            self.degenerate() <==> self.up() == (Triple { x: 0, y: 0, z: 0 }),
    {
        self.lemma_up_points_up();
        let f = self.forward();
        assert(f.x * f.x + f.z * f.z == 0 ==> f.x == 0 && f.z == 0) by (nonlinear_arith);
        if self.degenerate() {
            assert(self.up() == (Triple { x: 0, y: 0, z: 0 })) by (nonlinear_arith)
                requires
                    self.up() == cross(self.right(), f),
                    self.right() == (Triple { x: 0, y: 0, z: 0 }),
            ;
        }
    }
}

} // verus!
