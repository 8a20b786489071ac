//! Which branch of the analytic ray-sphere test a ray takes.
//!
//! With `v` the vector from the sphere's center to the ray's origin and the
//! ray's direction of unit length, the test looks at four scalars:
//! `c = dot(v, v) - radius²`, `b = dot(v, direction)`, the discriminant
//! `d = b² - c`, and the nearest root `-b - sqrt(d)`. Only their signs
//! decide between a miss, a hit at the root, and a hit at the origin.

use vstd::prelude::*;
use crate::input::Sign;

verus! {

/// The signs of the four scalars of one ray-sphere test.
#[derive(Clone, Copy, Debug, PartialEq, Eq, Structural)]
pub struct RaySigns {
    /// Sign of `c`: positive where the origin lies outside the sphere.
    pub c: Sign,
    /// Sign of `b`: positive where the sphere's center lies behind the ray.
    pub b: Sign,
    /// Sign of the discriminant.
    pub discriminant: Sign,
    /// Sign of the nearest root.
    pub root: Sign,
}

/// How a ray-sphere test ends.
#[derive(Clone, Copy, Debug, PartialEq, Eq, Structural)]
pub enum Outcome {
    /// No hit.
    Miss,
    /// A hit at the nearest root, which is the ray parameter.
    AtRoot,
    /// A hit with the ray parameter held at zero: the nearest root lies
    /// behind the origin, which is inside the sphere.
    AtOrigin,
}

impl RaySigns {
    /// The origin is outside the sphere and the sphere is behind the ray.
    pub open spec fn behind(self) -> bool {
        self.c == Sign::Positive && self.b == Sign::Positive
    }

    /// The ray's line passes the sphere by.
    pub open spec fn passes_by(self) -> bool {
        self.discriminant == Sign::Negative
    }

    /// The outcome of the test: a miss where the sphere is behind or passed
    /// by; else a hit, at the origin where the root is negative, at the root
    /// otherwise.
    pub open spec fn outcome(self) -> Outcome {
        if self.behind() || self.passes_by() {
            Outcome::Miss
        } else if self.root == Sign::Negative {
            Outcome::AtOrigin
        } else {
            Outcome::AtRoot
        }
    }

    /// The sign of the ray parameter that a hit reports.
    pub open spec fn reported(self) -> Sign
        recommends
            self.outcome() != Outcome::Miss,
    {
        if self.outcome() == Outcome::AtRoot {
            self.root
        } else {
            Sign::Zero
        }
    }

    /// What holds of the signs of any test, since `d = b² - c`: where the
    /// origin is inside the sphere or on it the discriminant is not negative,
    /// and inside it is positive.
    pub open spec fn coherent(self) -> bool {
        &&& self.c == Sign::Negative ==> self.discriminant == Sign::Positive
        &&& self.c == Sign::Zero ==> self.discriminant != Sign::Negative
    }

    /// Decides the test.
    pub fn classify(&self) -> (r: Outcome)
        ensures
            r == self.outcome(),
    {
        if self.c == Sign::Positive && self.b == Sign::Positive {
            return Outcome::Miss;
        }
        if self.discriminant == Sign::Negative {
            return Outcome::Miss;
        }
        if self.root == Sign::Negative {
            Outcome::AtOrigin
        } else {
            Outcome::AtRoot
        }
    }

    /// A hit never reports a negative ray parameter.
    pub proof fn lemma_hit_not_behind_origin(self)
        requires
            self.outcome() != Outcome::Miss,
        ensures
            self.reported() != Sign::Negative,
    {
    }

    /// A ray that starts inside the sphere, or on it, hits.
    pub proof fn lemma_inside_always_hits(self)
        requires
            self.coherent(),
            self.c != Sign::Positive,
        ensures
            self.outcome() != Outcome::Miss,
    {
    }

    /// A ray misses only where the sphere is behind it or its line passes
    /// the sphere by.
    pub proof fn lemma_miss_reasons(self)
        ensures
            self.outcome() == Outcome::Miss <==> self.behind() || self.passes_by(),
    {
    }
}

} // verus!
