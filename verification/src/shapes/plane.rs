//! The plane: its record, when a ray runs alongside it, and when it lies
//! behind the ray.
//!
//! A ray from `Q` along `d` meets the plane through `O` with normal `N` at the
//! parameter `t = ((O - Q) . N) / (N . d)`, unless the denominator vanishes.

use vstd::prelude::*;
use vstd::arithmetic::power2::{lemma2_to64_rest, lemma_pow2_adds, lemma_pow2_pos, pow2};
use crate::color::Color;
use crate::scalar::{one, value, Scalar};
use crate::shapes::{Intersection, Shape, Vector};

verus! {

broadcast use crate::scalar::group_scalar_patterns;

/// A plane: the points `X` with `normal . (X - origin) = 0`. The normal is
/// the direction of length one that the plane faces.
#[derive(Clone, Copy, Debug, PartialEq, Eq, Structural)]
pub struct Plane {
    pub origin: Vector,
    pub normal: Vector,
    pub color: Color,
}

impl Plane {
    /// A plane is well formed where its normal has a direction: where it is
    /// not the zero vector.
    pub open spec fn wf(self) -> bool {
        !self.normal.is_zero()
    }

    /// A magenta plane through `origin`, given the direction of length one
    /// that it faces. The direction is kept as it is given: to make it of
    /// length one is arithmetic, and done before this is called.
    pub fn from_unit_normal(origin: Vector, unit_normal: Vector) -> (plane: Plane)
        requires
            !unit_normal.is_zero(),
        ensures
            plane == (Plane { origin, normal: unit_normal, color: Color::magenta() }),
            plane.wf(),
    {
        Plane { origin, normal: unit_normal, color: Color::magenta() }
    }

    /// A plane of the given colour through `origin`, given the direction of
    /// length one that it faces, which is kept as it is given.
    pub fn from_unit_normal_with_color(
        origin: Vector,
        unit_normal: Vector,
        color: Color,
    ) -> (plane: Plane)
        requires
            !unit_normal.is_zero(),
        ensures
            plane == (Plane { origin, normal: unit_normal, color }),
            plane.wf(),
    {
        let this = Plane::from_unit_normal(origin, unit_normal);
        Plane { color, ..this }
    }

    /// The direction that the plane faces at one of its points: the same at
    /// every point.
    pub fn normal(&self, point: Vector) -> (normal: Vector)
        ensures
            normal == self.normal,
    {
        self.normal
    }

    /// The colour of the plane.
    pub fn color(&self) -> (color: Color)
        ensures
            color == self.color,
    {
        self.color
    }

    /// Gives the plane another colour, and changes nothing else.
    pub fn set_color(&mut self, color: Color)
        ensures
            *final(self) == (Plane { color, ..*old(self) }),
            final(self).wf() == old(self).wf(),
    {
        self.color = color;
    }

    /// The plane as a surface of a scene.
    pub fn into_shape(self) -> (shape: Shape)
        ensures
            shape == Shape::Plane(self),
            shape.wf() == self.wf(),
    {
        Shape::Plane(self)
    }

    /// A point of the plane.
    pub fn pos(&self) -> (pos: &Vector)
        ensures
            *pos == self.origin,
    {
        &self.origin
    }

    /// Moves the plane to pass through another point, and changes nothing
    /// else.
    pub fn set_pos(&mut self, pos: Vector)
        ensures
            *final(self) == (Plane { origin: pos, ..*old(self) }),
            final(self).wf() == old(self).wf(),
    {
        self.origin = pos;
    }
}

/// The pattern of 2^-52, the gap between one and the next number above it.
/// Denominators and parameters below it are treated as zero.
pub const EPSILON: u64 = 0x3CB0_0000_0000_0000;

/// The threshold stands for 2^-52: that many times 2^52 is one.
pub proof fn epsilon_is_the_gap_above_one()
    ensures
        value(EPSILON) * pow2(52) == one(),
{
    lemma2_to64_rest();
    lemma_pow2_adds(52, 970);
    lemma_pow2_adds(1022, 52);
}

/// Whether a number, in units of 2^-1074, is below 2^-52.
pub open spec fn negligible(x: int) -> bool {
    x * pow2(52) < one()
}

/// A number is below 2^-52 where it is below the number that the threshold's
/// pattern stands for.
proof fn threshold(x: int)
    ensures
        negligible(x) <==> x < value(EPSILON),
{
    epsilon_is_the_gap_above_one();
    lemma_pow2_pos(52);
    let scale = pow2(52) as int;
    let epsilon = value(EPSILON);
    assert(x < epsilon <==> x * scale < epsilon * scale) by (nonlinear_arith)
        requires
            scale > 0,
    ;
}

/// Whether a ray runs parallel to the plane, given the product of the plane's
/// normal and the ray's direction: whether that product lies within 2^-52 of
/// zero.
pub fn parallel(denominator: Scalar) -> (r: bool)
    ensures
        r == (negligible(denominator@) && negligible(-denominator@)),
{
    proof {
        threshold(denominator@);
        threshold(-denominator@);
    }
    let epsilon = Scalar::from_bits(EPSILON).unwrap();
    denominator.abs().lt(epsilon)
}

/// The outcome for a ray that is not parallel to the plane, given the
/// parameter at which its line meets the plane: a miss where the parameter is
/// below 2^-52, so that the plane lies behind the ray's origin or at it.
pub fn hit_at(t: Scalar) -> (r: Intersection)
    ensures
        r == if negligible(t@) { Intersection::Miss } else { Intersection::Hit(t) },
{
    proof {
        threshold(t@);
    }
    let epsilon = Scalar::from_bits(EPSILON).unwrap();
    if t.lt(epsilon) {
        Intersection::Miss
    } else {
        Intersection::Hit(t)
    }
}

} // verus!
