//! The sphere: its record, which roots of its quadratic are real, and which
//! one counts.
//!
//! With the ray moved into the sphere's frame, a point `P + t * d` of the ray
//! lies on the sphere of radius `r` where `a * t^2 + b * t + c = 0`, with
//! `a = d . d`, `b = 2 * (P . d)` and `c = P . P - r^2`. The sign of the
//! discriminant `b^2 - 4 * a * c` says how many real roots there are.

use vstd::prelude::*;
use vstd::arithmetic::power2::lemma_pow2_pos;
use crate::color::Color;
use crate::scalar::{one, Scalar};
use crate::shapes::{Intersection, Shape, Vector};

verus! {

/// A sphere: the points at the distance `radius` from `origin`.
#[derive(Clone, Copy, Debug, PartialEq, Eq, Structural)]
pub struct Sphere {
    pub origin: Vector,
    pub radius: Scalar,
    pub color: Color,
}

impl Sphere {
    /// A sphere is well formed where its radius is positive.
    pub open spec fn wf(self) -> bool {
        self.radius@ > 0
    }

    /// A magenta sphere.
    pub fn new(origin: Vector, radius: Scalar) -> (sphere: Sphere)
        requires
            radius@ > 0,
        ensures
            sphere == (Sphere { origin, radius, color: Color::magenta() }),
            sphere.wf(),
    {
        Sphere { origin, radius, color: Color::magenta() }
    }

    /// A sphere of the given colour.
    pub fn new_with_color(origin: Vector, radius: Scalar, color: Color) -> (sphere: Sphere)
        requires
            radius@ > 0,
        ensures
            sphere == (Sphere { origin, radius, color }),
            sphere.wf(),
    {
        let this = Sphere::new(origin, radius);
        Sphere { color, ..this }
    }

    /// The colour of the sphere.
    pub fn color(&self) -> (color: Color)
        ensures
            color == self.color,
    {
        self.color
    }

    /// Gives the sphere another colour, and changes nothing else.
    pub fn set_color(&mut self, color: Color)
        ensures
            *final(self) == (Sphere { color, ..*old(self) }),
            final(self).wf() == old(self).wf(),
    {
        self.color = color;
    }

    /// The sphere as a surface of a scene.
    pub fn into_shape(self) -> (shape: Shape)
        ensures
            shape == Shape::Sphere(self),
            shape.wf() == self.wf(),
    {
        Shape::Sphere(self)
    }

    /// The centre of the sphere.
    pub fn pos(&self) -> (pos: &Vector)
        ensures
            *pos == self.origin,
    {
        &self.origin
    }

    /// Moves the sphere's centre, and changes nothing else.
    pub fn set_pos(&mut self, pos: Vector)
        ensures
            *final(self) == (Sphere { origin: pos, ..*old(self) }),
            final(self).wf() == old(self).wf(),
    {
        self.origin = pos;
    }
}

/// How many points a line has in common with a sphere.
#[derive(Clone, Copy, Debug, PartialEq, Eq, Structural)]
pub enum Roots {
    /// The line passes the sphere by.
    Zero,
    /// The line touches the sphere.
    One,
    /// The line enters the sphere and leaves it again.
    Two,
}

/// Whether a sphere can have this radius: it must be positive.
pub fn valid_radius(radius: Scalar) -> (r: bool)
    ensures
        r == (radius@ > 0),
{
    Scalar::zero().lt(radius)
}

/// The number of real roots, by the sign of the discriminant.
pub fn roots(discriminant: Scalar) -> (r: Roots)
    ensures
        discriminant@ < 0 <==> r == Roots::Zero,
        discriminant@ == 0 <==> r == Roots::One,
        discriminant@ > 0 <==> r == Roots::Two,
{
    if discriminant.lt(Scalar::zero()) {
        Roots::Zero
    } else if discriminant.is_zero() {
        Roots::One
    } else {
        Roots::Two
    }
}

/// A sphere that lies behind a ray is not met ahead of the ray's origin, as
/// far as exact arithmetic goes. Where the origin lies outside the sphere
/// (`c > 0`) and the ray does not point towards the centre (`b >= 0`), every
/// number that solves `a * t^2 + b * t + c = 0` exactly is negative, so that
/// a hit at it lies behind the origin. Roots that were computed with rounding
/// solve the equation only nearly, and this says nothing of them.
pub proof fn exact_root_lies_behind(a: Scalar, b: Scalar, c: Scalar, t: Scalar)
    requires
        a@ > 0,
        b@ >= 0,
        c@ > 0,
        a@ * t@ * t@ + b@ * t@ * one() + c@ * one() * one() == 0,
    ensures
        t@ < 0,
        !Intersection::Hit(t).ahead(),
{
    lemma_pow2_pos(1074);
    let unit = one();
    assert(t@ >= 0 ==> a@ * t@ * t@ + b@ * t@ * unit + c@ * unit * unit > 0) by (nonlinear_arith)
        requires
            a@ > 0,
            b@ >= 0,
            c@ > 0,
            unit > 0,
    ;
}

/// The hit of a ray that has two roots: the smaller root, whatever its sign
/// and in whichever order the two are given.
pub fn nearer(t1: Scalar, t2: Scalar) -> (r: Intersection)
    ensures
        r == Intersection::Hit(if t2@ < t1@ { t2 } else { t1 }),
{
    Intersection::Hit(t1.min(t2))
}

} // verus!
