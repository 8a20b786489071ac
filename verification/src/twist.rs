//! Turning a vector about an axis, given the sine and cosine of half the
//! angle.
//!
//! With `w` the unit axis times the sine of half the angle and `a` the
//! cosine of half the angle, the turned vector is `v + 2a wv + 2 wwv`, where
//! `wv` is `w` crossed with `v` and `wwv` is `w` crossed with `wv`: the
//! rotation that a unit quaternion of vector part `w` and scalar part `a`
//! carries out. Sine and cosine come as whole numbers of `UNIT` to the one,
//! and the result comes on their common scale, `UNIT` cubed to the one.

use vstd::prelude::*;
use crate::vector::{Triple, Vector3, REACH, cross, cross_within, dot, stretch_within, stretched, sum, within};
use crate::vector::{
    difference, lemma_cross_is_perpendicular, lemma_cross_swaps_sign, lemma_cross_there_and_back,
    lemma_dot_of_stretched, lemma_dot_of_sum, lemma_dot_swaps, lemma_triple_product_swaps,
};

verus! {

/// What stands for one in a sine or a cosine: two to the twentieth.
pub const UNIT: i128 = 0x10_0000;

/// The scale of a turned vector: `UNIT` cubed.
pub const UNIT_CUBED: i128 = 0x1000_0000_0000_0000;

/// The first cross term: `w` crossed with `v`, times `2a`.
pub open spec fn first_term(v: Triple, w: Triple, a: int) -> Triple {
    stretched(cross(w, v), 2 * a)
}

/// The second cross term: `w` crossed with `w` crossed with `v`, times two,
/// brought to the scale of the result.
pub open spec fn second_term(v: Triple, w: Triple) -> Triple {
    stretched(cross(w, cross(w, v)), 2 * UNIT)
}

/// The turned vector, on the scale of `UNIT` cubed.
pub open spec fn twisted(v: Triple, w: Triple, a: int) -> Triple {
    sum(
        sum(stretched(v, UNIT_CUBED as int), stretched(first_term(v, w, a), UNIT as int)),
        second_term(v, w),
    )
}

/// Turns `v` about the axis of `w`.
pub fn twist(v: &Vector3, w: &Vector3, a: i128) -> (r: Vector3)
    requires
        within(v@, 2 * REACH),
        within(w@, UNIT as int),
        -UNIT <= a <= UNIT,
    ensures
        r@ == twisted(v@, w@, a as int),
        within(r@, 0x2000_0000_0000_0000_0000_0000_0000_0000),
{
    let ghost unit = UNIT as int;
    let ghost reach = 2 * REACH as int;
    let ghost h1: int = 2 * (unit * reach);
    let ghost h2: int = h1 * (2 * unit);
    let ghost h3: int = 2 * (unit * h1);
    proof {
        assert(unit * reach == 0x2_0000_0000_0000_0000_0000) by (nonlinear_arith)
            requires
                unit == 0x10_0000,
                reach == 0x2000_0000_0000_0000,
        ;
        assert(h2 == 0x80_0000_0000_0000_0000_0000_0000) by (nonlinear_arith)
            requires
                h2 == h1 * (2 * unit),
                h1 == 0x4_0000_0000_0000_0000_0000,
                unit == 0x10_0000,
        ;
        assert(unit * h1 == 0x40_0000_0000_0000_0000_0000_0000) by (nonlinear_arith)
            requires
                h1 == 0x4_0000_0000_0000_0000_0000,
                unit == 0x10_0000,
        ;
        assert(h3 * (2 * unit) == 0x1000_0000_0000_0000_0000_0000_0000_0000)
            by (nonlinear_arith)
            requires
                h3 == 0x80_0000_0000_0000_0000_0000_0000,
                unit == 0x10_0000,
        ;
        assert(h2 * unit == 0x800_0000_0000_0000_0000_0000_0000_0000) by (nonlinear_arith)
            requires
                h2 == 0x80_0000_0000_0000_0000_0000_0000,
                unit == 0x10_0000,
        ;
        assert(reach * 0x1000_0000_0000_0000 == 0x200_0000_0000_0000_0000_0000_0000_0000)
            by (nonlinear_arith)
            requires
                reach == 0x2000_0000_0000_0000,
        ;
    }
    let wv = cross_within(w, v, Ghost(unit), Ghost(reach));
    let first = stretch_within(&wv, 2 * a, Ghost(h1), Ghost(2 * unit));
    let wwv = cross_within(w, &wv, Ghost(unit), Ghost(h1));
    let second = stretch_within(&wwv, 2 * UNIT, Ghost(h3), Ghost(2 * unit));
    let base = stretch_within(v, UNIT_CUBED, Ghost(reach), Ghost(UNIT_CUBED as int));
    let middle = stretch_within(&first, UNIT, Ghost(h2), Ghost(unit));
    Vector3 {
        x: base.x + middle.x + second.x,
        y: base.y + middle.y + second.y,
        z: base.z + middle.z + second.z,
    }
}

/// Where the sine of half the angle vanishes, as it does for no turn and for
/// a full turn, the vector comes out as it went in.
pub proof fn lemma_twist_without_sine(v: Triple, a: int)
    ensures
        twisted(v, Triple { x: 0, y: 0, z: 0 }, a) == stretched(v, UNIT_CUBED as int),
{
    let zero = Triple { x: 0, y: 0, z: 0 };
    assert(cross(zero, v) == zero) by (nonlinear_arith)
        requires
            zero == (Triple { x: 0, y: 0, z: 0 }),
    ;
    assert(first_term(v, zero, a) == zero) by (nonlinear_arith)
        requires
            first_term(v, zero, a) == stretched(zero, 2 * a),
            zero == (Triple { x: 0, y: 0, z: 0 }),
    ;
    assert(cross(zero, zero) == zero) by (nonlinear_arith)
        requires
            zero == (Triple { x: 0, y: 0, z: 0 }),
    ;
}

/// A turn leaves alone what the vector has along the axis: the turned
/// vector and the vector have the same dot product with `w`, on the scale of
/// the turned vector.
pub proof fn lemma_twist_keeps_axis_part(v: Triple, w: Triple, a: int)
    ensures
        dot(twisted(v, w, a), w) == UNIT_CUBED * dot(v, w),
{
    let c = cross(w, v);
    let d = cross(w, c);
    let first = first_term(v, w, a);
    let second = second_term(v, w);
    let base = stretched(v, UNIT_CUBED as int);
    let middle = stretched(first, UNIT as int);
    lemma_cross_is_perpendicular(w, v);
    lemma_cross_is_perpendicular(w, c);
    lemma_dot_of_stretched(c, 2 * a, w);
    assert(dot(first, w) == 0) by (nonlinear_arith)
        requires
            dot(first, w) == (2 * a) * dot(c, w),
            dot(c, w) == 0,
    ;
    lemma_dot_of_stretched(first, UNIT as int, w);
    lemma_dot_of_stretched(d, 2 * UNIT, w);
    lemma_dot_of_stretched(v, UNIT_CUBED as int, w);
    lemma_dot_of_sum(base, middle, w);
    lemma_dot_of_sum(sum(base, middle), second, w);
}

/// The dot product of two stretched vectors.
proof fn lemma_dot_of_two_stretched(p: Triple, kp: int, q: Triple, kq: int)
    ensures
        dot(stretched(p, kp), stretched(q, kq)) == kp * (kq * dot(p, q)),
{
    lemma_dot_of_stretched(p, kp, stretched(q, kq));
    lemma_dot_swaps(p, stretched(q, kq));
    lemma_dot_of_stretched(q, kq, p);
    lemma_dot_swaps(q, p);
}

/// The square of the length of a sum of three vectors.
proof fn lemma_square_of_three(b: Triple, m: Triple, s: Triple)
    ensures
        dot(sum(sum(b, m), s), sum(sum(b, m), s)) == dot(b, b) + dot(m, m) + dot(s, s) + 2 * dot(
            b,
            m,
        ) + 2 * dot(b, s) + 2 * dot(m, s),
{
    let r = sum(sum(b, m), s);
    lemma_dot_of_sum(sum(b, m), s, r);
    lemma_dot_of_sum(b, m, r);
    lemma_dot_swaps(b, r);
    lemma_dot_swaps(m, r);
    lemma_dot_swaps(s, r);
    lemma_dot_of_sum(sum(b, m), s, b);
    lemma_dot_of_sum(b, m, b);
    lemma_dot_of_sum(sum(b, m), s, m);
    lemma_dot_of_sum(b, m, m);
    lemma_dot_of_sum(sum(b, m), s, s);
    lemma_dot_of_sum(b, m, s);
    lemma_dot_swaps(m, b);
    lemma_dot_swaps(s, b);
    lemma_dot_swaps(s, m);
}

/// A turn keeps the length of the vector: where `w` and `a` are the sine
/// part and the cosine of one half angle, so that the squares of `w`'s
/// length and of `a` add up to the square of `UNIT`, the turned vector is as
/// long as the vector, on the scale of the turned vector.
pub proof fn lemma_twist_keeps_length(v: Triple, w: Triple, a: int)
    requires
        dot(w, w) + a * a == UNIT * UNIT,
    ensures
        dot(twisted(v, w, a), twisted(v, w, a)) == UNIT_CUBED * UNIT_CUBED * dot(v, v),
{
    let zero = Triple { x: 0, y: 0, z: 0 };
    let c = cross(w, v);
    let d = cross(w, c);
    let n = dot(w, w);
    let x = dot(c, c);
    let first = first_term(v, w, a);
    let base = stretched(v, UNIT_CUBED as int);
    let middle = stretched(first, UNIT as int);
    let second = second_term(v, w);
    // What is perpendicular to what.
    lemma_cross_is_perpendicular(w, v);
    lemma_cross_is_perpendicular(w, c);
    lemma_dot_swaps(c, w);
    lemma_dot_swaps(d, c);
    // The vector against the second cross product.
    lemma_triple_product_swaps(v, w, c);
    assert(dot(v, d) == -x);
    // The second cross product against itself.
    lemma_triple_product_swaps(d, w, c);
    lemma_cross_swaps_sign(d, w);
    lemma_cross_there_and_back(w, c);
    lemma_dot_of_stretched(c, n, c);
    let back = stretched(c, n);
    assert(cross(w, d) == difference(zero, back));
    assert(dot(difference(zero, back), c) == -dot(back, c)) by (nonlinear_arith)
        requires
            dot(difference(zero, back), c) == (0 - back.x) * c.x + (0 - back.y) * c.y + (0
                - back.z) * c.z,
            dot(back, c) == back.x * c.x + back.y * c.y + back.z * c.z,
    ;
    assert(dot(d, d) == n * x);
    // The first term against the others.
    lemma_dot_of_stretched(c, 2 * a, v);
    lemma_dot_of_stretched(c, 2 * a, d);
    lemma_dot_swaps(v, first);
    assert(dot(first, v) == 0 && dot(first, d) == 0) by (nonlinear_arith)
        requires
            dot(first, v) == (2 * a) * dot(c, v),
            dot(first, d) == (2 * a) * dot(c, d),
            dot(c, v) == 0,
            dot(c, d) == 0,
    ;
    lemma_dot_of_two_stretched(c, 2 * a, c, 2 * a);
    let y = (a * a) * x;
    assert((2 * a) * ((2 * a) * x) == 4 * y) by (nonlinear_arith)
        requires
            y == (a * a) * x,
    ;
    assert(n * x + y == (UNIT * UNIT) * x) by (nonlinear_arith)
        requires
            y == (a * a) * x,
            n + a * a == UNIT * UNIT,
    ;
    // The six pairs.
    lemma_dot_of_two_stretched(v, UNIT_CUBED as int, v, UNIT_CUBED as int);
    lemma_dot_of_two_stretched(first, UNIT as int, first, UNIT as int);
    lemma_dot_of_two_stretched(d, 2 * UNIT, d, 2 * UNIT);
    lemma_dot_of_two_stretched(v, UNIT_CUBED as int, first, UNIT as int);
    lemma_dot_of_two_stretched(v, UNIT_CUBED as int, d, 2 * UNIT);
    lemma_dot_of_two_stretched(first, UNIT as int, d, 2 * UNIT);
    lemma_square_of_three(base, middle, second);
    lemma_dot_swaps(v, first);
    let u = UNIT as int;
    let u3 = UNIT_CUBED as int;
    let vv = dot(v, v);
    let nx = n * x;
    let bb = dot(base, base);
    let mm = dot(middle, middle);
    let ss = dot(second, second);
    let bm = dot(base, middle);
    let bs = dot(base, second);
    let ms = dot(middle, second);
    assert(bb == u3 * (u3 * vv));
    assert(mm == u * (u * (4 * y)));
    assert(ss == (2 * u) * ((2 * u) * nx));
    assert(bm == u3 * (u * 0));
    assert(bs == u3 * ((2 * u) * (-x)));
    assert(ms == u * ((2 * u) * 0));
    assert(bb + mm + ss + 2 * bm + 2 * bs + 2 * ms == u3 * u3 * vv) by (nonlinear_arith)
        requires
            u == 0x10_0000,
            u3 == 0x1000_0000_0000_0000,
            bb == u3 * (u3 * vv),
            mm == u * (u * (4 * y)),
            ss == (2 * u) * ((2 * u) * nx),
            bm == u3 * (u * 0),
            bs == u3 * ((2 * u) * (-x)),
            ms == u * ((2 * u) * 0),
            nx + y == (u * u) * x,
    ;
}

} // verus!
