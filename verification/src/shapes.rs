//! The surfaces of a scene, and what a ray does at a surface.
//!
//! A surface is a record of numbers. Where a ray meets it is arithmetic on
//! those numbers and not done here; this module and the two below it hold the
//! records and the comparisons that turn the arithmetic's results into an
//! [`Intersection`].

use vstd::prelude::*;
use crate::color::Color;
use crate::scalar::{one, Scalar, MINUS_ONE, ONE};
use crate::shapes::plane::Plane;
use crate::shapes::sphere::Sphere;

pub mod plane;
pub mod sphere;

verus! {

broadcast use crate::scalar::group_scalar_patterns;

/// A point or a direction in space.
#[derive(Clone, Copy, Debug, PartialEq, Eq, Structural)]
pub struct Vector {
    pub x: Scalar,
    pub y: Scalar,
    pub z: Scalar,
}

impl Vector {
    /// Whether all three components are zero: such a vector has no direction.
    pub open spec fn spec_is_zero(&self) -> bool {
        self.x@ == 0 && self.y@ == 0 && self.z@ == 0
    }

    /// The vector whose components the given three patterns hold.
    pub open spec fn of(x: u64, y: u64, z: u64) -> Vector {
        Vector { x: Scalar::of(x), y: Scalar::of(y), z: Scalar::of(z) }
    }

    /// The vector with the given three components.
    pub fn new(x: Scalar, y: Scalar, z: Scalar) -> (v: Vector)
        ensures
            v == (Vector { x, y, z }),
    {
        Vector { x, y, z }
    }

    /// Whether all three components are zero: such a vector has no direction.
    #[verifier::when_used_as_spec(spec_is_zero)]
    pub fn is_zero(&self) -> (r: bool)
        ensures
            r == self.spec_is_zero(),
    {
        self.x.is_zero() && self.y.is_zero() && self.z.is_zero()
    }

    /// The point from which the three axes start.
    pub fn origin() -> (v: Vector)
        ensures
            v == Vector::of(0, 0, 0),
            v.is_zero(),
    {
        Vector { x: Scalar::zero(), y: Scalar::zero(), z: Scalar::zero() }
    }

    /// The direction of length one along the x axis.
    pub fn xp() -> (v: Vector)
        ensures
            v == Vector::of(ONE, 0, 0),
            v.x@ == one() && v.y@ == 0 && v.z@ == 0,
            !v.is_zero(),
    {
        Vector { x: Scalar::one(), y: Scalar::zero(), z: Scalar::zero() }
    }

    /// The direction of length one against the x axis.
    pub fn xn() -> (v: Vector)
        ensures
            v == Vector::of(MINUS_ONE, 0, 0),
            v.x@ == -one() && v.y@ == 0 && v.z@ == 0,
            !v.is_zero(),
    {
        Vector { x: Scalar::minus_one(), y: Scalar::zero(), z: Scalar::zero() }
    }

    /// The direction of length one along the y axis.
    pub fn yp() -> (v: Vector)
        ensures
            v == Vector::of(0, ONE, 0),
            v.x@ == 0 && v.y@ == one() && v.z@ == 0,
            !v.is_zero(),
    {
        Vector { x: Scalar::zero(), y: Scalar::one(), z: Scalar::zero() }
    }

    /// The direction of length one against the y axis.
    pub fn yn() -> (v: Vector)
        ensures
            v == Vector::of(0, MINUS_ONE, 0),
            v.x@ == 0 && v.y@ == -one() && v.z@ == 0,
            !v.is_zero(),
    {
        Vector { x: Scalar::zero(), y: Scalar::minus_one(), z: Scalar::zero() }
    }

    /// The direction of length one along the z axis.
    pub fn zp() -> (v: Vector)
        ensures
            v == Vector::of(0, 0, ONE),
            v.x@ == 0 && v.y@ == 0 && v.z@ == one(),
            !v.is_zero(),
    {
        Vector { x: Scalar::zero(), y: Scalar::zero(), z: Scalar::one() }
    }

    /// The direction of length one against the z axis.
    pub fn zn() -> (v: Vector)
        ensures
            v == Vector::of(0, 0, MINUS_ONE),
            v.x@ == 0 && v.y@ == 0 && v.z@ == -one(),
            !v.is_zero(),
    {
        Vector { x: Scalar::zero(), y: Scalar::zero(), z: Scalar::minus_one() }
    }
}

/// Whether a vector of this length has a direction, so that there is a vector
/// of length one along it: the length must be positive.
pub fn valid_length(length: Scalar) -> (r: bool)
    ensures
        r == (length@ > 0),
{
    Scalar::zero().lt(length)
}

/// The outcome of intersecting a ray with a surface.
#[derive(Clone, Copy, Debug, PartialEq, Eq, Structural)]
pub enum Intersection {
    /// The ray meets the surface at this parameter: the point is the ray's
    /// origin plus this many times its direction. A negative parameter lies
    /// behind the origin.
    Hit(Scalar),
    /// The ray does not meet the surface.
    Miss,
}

impl Intersection {
    /// Whether the ray meets the surface at or ahead of its origin.
    pub open spec fn ahead(self) -> bool {
        self matches Intersection::Hit(t) && t@ >= 0
    }

    /// Whether the ray meets the surface at or ahead of its origin.
    pub fn intersects(&self) -> (r: bool)
        ensures
            r == self.ahead(),
    {
        match self {
            Intersection::Hit(t) => Scalar::zero().le(*t),
            Intersection::Miss => false,
        }
    }
}

/// A surface of a scene.
#[derive(Clone, Copy, Debug, PartialEq, Eq, Structural)]
pub enum Shape {
    Sphere(Sphere),
    Plane(Plane),
}

impl Shape {
    /// A surface is well formed where its variant is.
    pub open spec fn wf(self) -> bool {
        match self {
            Shape::Sphere(sphere) => sphere.wf(),
            Shape::Plane(plane) => plane.wf(),
        }
    }

    /// The colour of the surface.
    pub open spec fn spec_color(self) -> Color {
        match self {
            Shape::Sphere(sphere) => sphere.color,
            Shape::Plane(plane) => plane.color,
        }
    }

    /// The place of the surface: a sphere's centre, a point of a plane.
    pub open spec fn spec_pos(self) -> Vector {
        match self {
            Shape::Sphere(sphere) => sphere.origin,
            Shape::Plane(plane) => plane.origin,
        }
    }

    /// The surface with another colour.
    pub open spec fn with_color(self, color: Color) -> Shape {
        match self {
            Shape::Sphere(sphere) => Shape::Sphere(Sphere { color, ..sphere }),
            Shape::Plane(plane) => Shape::Plane(Plane { color, ..plane }),
        }
    }

    /// The surface at another place.
    pub open spec fn with_pos(self, pos: Vector) -> Shape {
        match self {
            Shape::Sphere(sphere) => Shape::Sphere(Sphere { origin: pos, ..sphere }),
            Shape::Plane(plane) => Shape::Plane(Plane { origin: pos, ..plane }),
        }
    }

    /// A magenta sphere about `origin`.
    pub fn new_sphere(origin: [Scalar; 3], radius: Scalar) -> (shape: Shape)
        requires
            radius@ > 0,
        ensures
            shape == Shape::Sphere(
                Sphere {
                    origin: Vector { x: origin[0], y: origin[1], z: origin[2] },
                    radius,
                    color: Color::magenta(),
                },
            ),
            shape.wf(),
    {
        Shape::Sphere(Sphere::new(Vector::new(origin[0], origin[1], origin[2]), radius))
    }

    /// A magenta plane through `origin`, given the direction of length one
    /// that it faces. The direction is kept as it is given: to make it of
    /// length one is arithmetic, and done before this is called.
    pub fn plane_from_unit_normal(origin: [Scalar; 3], unit_normal: [Scalar; 3]) -> (shape: Shape)
        requires
            !(unit_normal[0]@ == 0 && unit_normal[1]@ == 0 && unit_normal[2]@ == 0),
        ensures
            shape == Shape::Plane(
                Plane {
                    origin: Vector { x: origin[0], y: origin[1], z: origin[2] },
                    normal: Vector { x: unit_normal[0], y: unit_normal[1], z: unit_normal[2] },
                    color: Color::magenta(),
                },
            ),
            shape.wf(),
    {
        Shape::Plane(
            Plane::from_unit_normal(
                Vector::new(origin[0], origin[1], origin[2]),
                Vector::new(unit_normal[0], unit_normal[1], unit_normal[2]),
            ),
        )
    }

    /// The colour of the surface.
    pub fn color(&self) -> (color: Color)
        ensures
            color == self.spec_color(),
    {
        match self {
            Shape::Sphere(sphere) => sphere.color(),
            Shape::Plane(plane) => plane.color(),
        }
    }

    /// Gives the surface another colour, and changes nothing else.
    pub fn set_color(&mut self, color: Color)
        ensures
            *final(self) == old(self).with_color(color),
            final(self).wf() == old(self).wf(),
    {
        match self {
            Shape::Sphere(sphere) => sphere.set_color(color),
            Shape::Plane(plane) => plane.set_color(color),
        }
    }

    /// The surface itself.
    pub fn into_shape(self) -> (shape: Shape)
        ensures
            shape == self,
    {
        self
    }

    /// The place of the surface: a sphere's centre, a point of a plane.
    pub fn pos(&self) -> (pos: &Vector)
        ensures
            *pos == self.spec_pos(),
    {
        match self {
            Shape::Sphere(sphere) => sphere.pos(),
            Shape::Plane(plane) => plane.pos(),
        }
    }

    /// Moves the surface to another place, and changes nothing else.
    pub fn set_pos(&mut self, pos: Vector)
        ensures
            *final(self) == old(self).with_pos(pos),
            final(self).wf() == old(self).wf(),
    {
        match self {
            Shape::Sphere(sphere) => sphere.set_pos(pos),
            Shape::Plane(plane) => plane.set_pos(pos),
        }
    }
}

} // verus!
