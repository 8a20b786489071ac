//! Exact vectors in three dimensions.
//!
//! Coordinates are whole numbers; a position or displacement counts
//! millionths of a millionth of a world unit.

use vstd::prelude::*;

verus! {

/// A vector as the contracts see it: three unbounded integers.
pub struct Triple {
    pub x: int,
    pub y: int,
    pub z: int,
}

/// A vector with machine coordinates.
#[derive(Clone, Copy, Debug, PartialEq, Eq, Structural)]
pub struct Vector3 {
    pub x: i128,
    pub y: i128,
    pub z: i128,
}

/// The largest coordinate, either way, of a position: two to the sixtieth.
pub const REACH: i128 = 0x1000_0000_0000_0000;

impl View for Vector3 {
    type V = Triple;

    open spec fn view(&self) -> Triple {
        Triple { x: self.x as int, y: self.y as int, z: self.z as int }
    }
}

/// The fixed direction that counts as up in the world.
pub open spec fn world_up() -> Triple {
    Triple { x: 0, y: 1, z: 0 }
}

pub open spec fn sum(a: Triple, b: Triple) -> Triple {
    Triple { x: a.x + b.x, y: a.y + b.y, z: a.z + b.z }
}

pub open spec fn difference(a: Triple, b: Triple) -> Triple {
    Triple { x: a.x - b.x, y: a.y - b.y, z: a.z - b.z }
}

pub open spec fn dot(a: Triple, b: Triple) -> int {
    a.x * b.x + a.y * b.y + a.z * b.z
}

pub open spec fn cross(a: Triple, b: Triple) -> Triple {
    Triple { x: a.y * b.z - a.z * b.y, y: a.z * b.x - a.x * b.z, z: a.x * b.y - a.y * b.x }
}

/// The vector stretched by a whole factor.
pub open spec fn stretched(a: Triple, factor: int) -> Triple {
    Triple { x: a.x * factor, y: a.y * factor, z: a.z * factor }
}

/// No coordinate is larger than the bound, either way.
pub open spec fn within(a: Triple, bound: int) -> bool {
    &&& -bound <= a.x <= bound
    &&& -bound <= a.y <= bound
    &&& -bound <= a.z <= bound
}

/// The product of two bounded integers is bounded by the product of the
/// bounds.
proof fn lemma_bounded_product(a: int, b: int, high_a: int, high_b: int)
    requires
        -high_a <= a <= high_a,
        -high_b <= b <= high_b,
    ensures
        -(high_a * high_b) <= a * b <= high_a * high_b,
{
    assert(-(high_a * high_b) <= a * b <= high_a * high_b) by (nonlinear_arith)
        requires
            -high_a <= a <= high_a,
            -high_b <= b <= high_b,
    ;
}

/// The cross product of vectors within two bounds, where twice the product
/// of the bounds fits the machine.
pub(crate) fn cross_within(
    a: &Vector3,
    b: &Vector3,
    Ghost(high_a): Ghost<int>,
    Ghost(high_b): Ghost<int>,
) -> (r: Vector3)
    requires
        within(a@, high_a),
        within(b@, high_b),
        2 * (high_a * high_b) <= i128::MAX,
    ensures
        r@ == cross(a@, b@),
        within(r@, 2 * (high_a * high_b)),
{
    proof {
        lemma_bounded_product(a.y as int, b.z as int, high_a, high_b);
        lemma_bounded_product(a.z as int, b.y as int, high_a, high_b);
        lemma_bounded_product(a.z as int, b.x as int, high_a, high_b);
        lemma_bounded_product(a.x as int, b.z as int, high_a, high_b);
        lemma_bounded_product(a.x as int, b.y as int, high_a, high_b);
        lemma_bounded_product(a.y as int, b.x as int, high_a, high_b);
    }
    Vector3 {
        x: a.y * b.z - a.z * b.y,
        y: a.z * b.x - a.x * b.z,
        z: a.x * b.y - a.y * b.x,
    }
}

/// The vector stretched by a factor, where the product of their bounds
/// fits the machine.
pub(crate) fn stretch_within(
    a: &Vector3,
    factor: i128,
    Ghost(high_a): Ghost<int>,
    Ghost(high_factor): Ghost<int>,
) -> (r: Vector3)
    requires
        within(a@, high_a),
        -high_factor <= factor <= high_factor,
        high_a * high_factor <= i128::MAX,
    ensures
        r@ == stretched(a@, factor as int),
        within(r@, high_a * high_factor),
{
    proof {
        lemma_bounded_product(a.x as int, factor as int, high_a, high_factor);
        lemma_bounded_product(a.y as int, factor as int, high_a, high_factor);
        lemma_bounded_product(a.z as int, factor as int, high_a, high_factor);
    }
    Vector3 { x: a.x * factor, y: a.y * factor, z: a.z * factor }
}

impl Vector3 {
    pub fn new(x: i128, y: i128, z: i128) -> (r: Vector3)
        ensures
            r.x == x,
            r.y == y,
            r.z == z,
    {
        Vector3 { x, y, z }
    }

    /// Whether no coordinate is larger than the bound, either way.
    pub fn fits(&self, bound: i128) -> (r: bool)
        requires
            bound >= 0,
        ensures
            r == within(self@, bound as int),
    {
        -bound <= self.x && self.x <= bound && -bound <= self.y && self.y <= bound && -bound
            <= self.z && self.z <= bound
    }

    /// Whether the vector can be a position: no coordinate beyond the reach.
    pub fn in_reach(&self) -> (r: bool)
        ensures
            r == within(self@, REACH as int),
    {
        self.fits(REACH)
    }

    /// The sum of two vectors.
    pub fn plus(&self, other: &Vector3) -> (r: Vector3)
        requires
            within(self@, 2 * REACH),
            within(other@, 2 * REACH),
        ensures
            r@ == sum(self@, other@),
    {
        Vector3 { x: self.x + other.x, y: self.y + other.y, z: self.z + other.z }
    }

    /// The difference of two vectors.
    pub fn minus(&self, other: &Vector3) -> (r: Vector3)
        requires
            within(self@, 2 * REACH),
            within(other@, 2 * REACH),
        ensures
            r@ == difference(self@, other@),
    {
        Vector3 { x: self.x - other.x, y: self.y - other.y, z: self.z - other.z }
    }

    /// The dot product of two vectors.
    pub fn dot(&self, other: &Vector3) -> (r: i128)
        requires
            within(self@, 2 * REACH),
            within(other@, 2 * REACH),
        ensures
            r == self::dot(self@, other@),
    {
        let ghost bound = 2 * REACH as int;
        proof {
            assert(bound * bound == 0x400_0000_0000_0000_0000_0000_0000_0000) by (nonlinear_arith)
                requires
                    bound == 0x2000_0000_0000_0000,
            ;
            lemma_bounded_product(self.x as int, other.x as int, bound, bound);
            lemma_bounded_product(self.y as int, other.y as int, bound, bound);
            lemma_bounded_product(self.z as int, other.z as int, bound, bound);
        }
        self.x * other.x + self.y * other.y + self.z * other.z
    }

    /// The cross product of two vectors.
    pub fn cross(&self, other: &Vector3) -> (r: Vector3)
        requires
            within(self@, 2 * REACH),
            within(other@, 2 * REACH),
        ensures
            r@ == self::cross(self@, other@),
    {
        let ghost bound = 2 * REACH as int;
        assert(bound * bound == 0x400_0000_0000_0000_0000_0000_0000_0000) by (nonlinear_arith)
            requires
                bound == 0x2000_0000_0000_0000,
        ;
        cross_within(self, other, Ghost(bound), Ghost(bound))
    }
}

/// The cross product of two vectors is perpendicular to both.
pub proof fn lemma_cross_is_perpendicular(a: Triple, b: Triple)
    ensures
        dot(cross(a, b), a) == 0,
        dot(cross(a, b), b) == 0,
{
    assert(dot(cross(a, b), a) == 0) by (nonlinear_arith)
        requires
            dot(cross(a, b), a) == (a.y * b.z - a.z * b.y) * a.x + (a.z * b.x - a.x * b.z) * a.y
                + (a.x * b.y - a.y * b.x) * a.z,
    ;
    assert(dot(cross(a, b), b) == 0) by (nonlinear_arith)
        requires
            dot(cross(a, b), b) == (a.y * b.z - a.z * b.y) * b.x + (a.z * b.x - a.x * b.z) * b.y
                + (a.x * b.y - a.y * b.x) * b.z,
    ;
}

/// A vector and a multiple of it span no area: their cross product
/// vanishes, and their dot product is the factor times the square of the
/// vector's length, which is positive unless the vector is nothing. So the
/// angle between a vector and itself is none, and between a vector and its
/// opposite a half turn.
pub proof fn lemma_multiple_is_parallel(a: Triple, factor: int)
    ensures
        cross(a, stretched(a, factor)) == (Triple { x: 0, y: 0, z: 0 }),
        dot(a, stretched(a, factor)) == factor * dot(a, a),
        dot(a, a) >= 0,
        dot(a, a) == 0 <==> a == (Triple { x: 0, y: 0, z: 0 }),
{
    assert(a.y * (a.z * factor) == a.z * (a.y * factor)) by (nonlinear_arith);
    assert(a.z * (a.x * factor) == a.x * (a.z * factor)) by (nonlinear_arith);
    assert(a.x * (a.y * factor) == a.y * (a.x * factor)) by (nonlinear_arith);
    assert(a.x * (a.x * factor) == factor * (a.x * a.x)) by (nonlinear_arith);
    assert(a.y * (a.y * factor) == factor * (a.y * a.y)) by (nonlinear_arith);
    assert(a.z * (a.z * factor) == factor * (a.z * a.z)) by (nonlinear_arith);
    assert(factor * (a.x * a.x + a.y * a.y + a.z * a.z) == factor * (a.x * a.x) + factor * (a.y
        * a.y) + factor * (a.z * a.z)) by (nonlinear_arith);
    assert(a.x * a.x >= 0 && (a.x * a.x == 0 ==> a.x == 0)) by (nonlinear_arith);
    assert(a.y * a.y >= 0 && (a.y * a.y == 0 ==> a.y == 0)) by (nonlinear_arith);
    assert(a.z * a.z >= 0 && (a.z * a.z == 0 ==> a.z == 0)) by (nonlinear_arith);
}

/// Swapping the factors of a cross product reverses it.
pub proof fn lemma_cross_swaps_sign(a: Triple, b: Triple)
    ensures
        cross(b, a) == difference(Triple { x: 0, y: 0, z: 0 }, cross(a, b)),
{
    assert(b.y * a.z == a.z * b.y && b.z * a.y == a.y * b.z) by (nonlinear_arith);
    assert(b.z * a.x == a.x * b.z && b.x * a.z == a.z * b.x) by (nonlinear_arith);
    assert(b.x * a.y == a.y * b.x && b.y * a.x == a.x * b.y) by (nonlinear_arith);
}

/// Moving two points by one displacement leaves the vector between them.
pub proof fn lemma_shift_keeps_difference(a: Triple, b: Triple, d: Triple)
    ensures
        difference(sum(a, d), sum(b, d)) == difference(a, b),
{
}

/// One coordinate of the double cross product of perpendicular vectors.
proof fn lemma_there_and_back_coordinate(
    a1: int,
    a2: int,
    a3: int,
    b1: int,
    b2: int,
    b3: int,
    n: int,
)
    requires
        a1 * b1 + a2 * b2 + a3 * b3 == 0,
        n == a1 * a1 + a2 * a2 + a3 * a3,
    ensures
        (a3 * b1 - a1 * b3) * a3 - (a1 * b2 - a2 * b1) * a2 == b1 * n,
{
    assert((a3 * b1 - a1 * b3) * a3 == (a3 * b1) * a3 - (a1 * b3) * a3) by (nonlinear_arith);
    assert((a1 * b2 - a2 * b1) * a2 == (a1 * b2) * a2 - (a2 * b1) * a2) by (nonlinear_arith);
    assert(b1 * (a1 * a1 + a2 * a2 + a3 * a3) == b1 * (a1 * a1) + b1 * (a2 * a2) + b1 * (a3
        * a3)) by (nonlinear_arith);
    assert(a1 * (a1 * b1 + a2 * b2 + a3 * b3) == a1 * (a1 * b1) + a1 * (a2 * b2) + a1 * (a3
        * b3)) by (nonlinear_arith);
    assert((a3 * b1) * a3 == b1 * (a3 * a3)) by (nonlinear_arith);
    assert((a2 * b1) * a2 == b1 * (a2 * a2)) by (nonlinear_arith);
    assert((a1 * b3) * a3 == a1 * (a3 * b3)) by (nonlinear_arith);
    assert((a1 * b2) * a2 == a1 * (a2 * b2)) by (nonlinear_arith);
    assert(a1 * (a1 * b1) == b1 * (a1 * a1)) by (nonlinear_arith);
}

/// Crossing forward with a vector perpendicular to it, and the result with
/// forward again, gives that vector stretched by the square of forward's
/// length.
pub proof fn lemma_cross_there_and_back(forward: Triple, side: Triple)
    requires
        dot(forward, side) == 0,
    ensures
        cross(cross(forward, side), forward) == stretched(side, dot(forward, forward)),
{
    let f = forward;
    let s = side;
    let n = dot(f, f);
    lemma_there_and_back_coordinate(f.x, f.y, f.z, s.x, s.y, s.z, n);
    lemma_there_and_back_coordinate(f.y, f.z, f.x, s.y, s.z, s.x, n);
    lemma_there_and_back_coordinate(f.z, f.x, f.y, s.z, s.x, s.y, n);
}

/// Crossing with a stretched vector stretches the cross product.
pub proof fn lemma_cross_of_stretched(a: Triple, b: Triple, factor: int)
    ensures
        cross(a, stretched(b, factor)) == stretched(cross(a, b), factor),
{
    assert(a.y * (b.z * factor) - a.z * (b.y * factor) == (a.y * b.z - a.z * b.y) * factor)
        by (nonlinear_arith);
    assert(a.z * (b.x * factor) - a.x * (b.z * factor) == (a.z * b.x - a.x * b.z) * factor)
        by (nonlinear_arith);
    assert(a.x * (b.y * factor) - a.y * (b.x * factor) == (a.x * b.y - a.y * b.x) * factor)
        by (nonlinear_arith);
}

/// The dot product does not mind the order of its factors.
pub proof fn lemma_dot_swaps(a: Triple, b: Triple)
    ensures
        dot(a, b) == dot(b, a),
{
    assert(a.x * b.x == b.x * a.x && a.y * b.y == b.y * a.y && a.z * b.z == b.z * a.z)
        by (nonlinear_arith);
}

/// The dot product with a sum is the sum of the dot products.
pub proof fn lemma_dot_of_sum(a: Triple, b: Triple, c: Triple)
    ensures
        dot(sum(a, b), c) == dot(a, c) + dot(b, c),
{
    assert((a.x + b.x) * c.x == a.x * c.x + b.x * c.x) by (nonlinear_arith);
    assert((a.y + b.y) * c.y == a.y * c.y + b.y * c.y) by (nonlinear_arith);
    assert((a.z + b.z) * c.z == a.z * c.z + b.z * c.z) by (nonlinear_arith);
}

/// The dot product with a stretched vector is the dot product, stretched.
pub proof fn lemma_dot_of_stretched(a: Triple, factor: int, b: Triple)
    ensures
        dot(stretched(a, factor), b) == factor * dot(a, b),
{
    assert((a.x * factor) * b.x == factor * (a.x * b.x)) by (nonlinear_arith);
    assert((a.y * factor) * b.y == factor * (a.y * b.y)) by (nonlinear_arith);
    assert((a.z * factor) * b.z == factor * (a.z * b.z)) by (nonlinear_arith);
    assert(factor * (a.x * b.x + a.y * b.y + a.z * b.z) == factor * (a.x * b.x) + factor * (a.y
        * b.y) + factor * (a.z * b.z)) by (nonlinear_arith);
}

/// Swapping the first two vectors of a triple product reverses its sign.
pub proof fn lemma_triple_product_swaps(a: Triple, b: Triple, c: Triple)
    ensures
        dot(a, cross(b, c)) == -dot(cross(b, a), c),
{
    assert(a.x * (b.y * c.z - b.z * c.y) == a.x * (b.y * c.z) - a.x * (b.z * c.y))
        by (nonlinear_arith);
    assert(a.y * (b.z * c.x - b.x * c.z) == a.y * (b.z * c.x) - a.y * (b.x * c.z))
        by (nonlinear_arith);
    assert(a.z * (b.x * c.y - b.y * c.x) == a.z * (b.x * c.y) - a.z * (b.y * c.x))
        by (nonlinear_arith);
    assert((b.y * a.z - b.z * a.y) * c.x == (b.y * a.z) * c.x - (b.z * a.y) * c.x)
        by (nonlinear_arith);
    assert((b.z * a.x - b.x * a.z) * c.y == (b.z * a.x) * c.y - (b.x * a.z) * c.y)
        by (nonlinear_arith);
    assert((b.x * a.y - b.y * a.x) * c.z == (b.x * a.y) * c.z - (b.y * a.x) * c.z)
        by (nonlinear_arith);
    assert(a.x * (b.y * c.z) == (b.y * a.x) * c.z) by (nonlinear_arith);
    assert(a.x * (b.z * c.y) == (b.z * a.x) * c.y) by (nonlinear_arith);
    assert(a.y * (b.z * c.x) == (b.z * a.y) * c.x) by (nonlinear_arith);
    assert(a.y * (b.x * c.z) == (b.x * a.y) * c.z) by (nonlinear_arith);
    assert(a.z * (b.x * c.y) == (b.x * a.z) * c.y) by (nonlinear_arith);
    assert(a.z * (b.y * c.x) == (b.y * a.z) * c.x) by (nonlinear_arith);
}

} // verus!
