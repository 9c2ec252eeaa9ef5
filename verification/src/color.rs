//! Colours.

use vstd::prelude::*;
use crate::scalar::{Scalar, ONE};

verus! {

/// A colour: how much red, green and blue light a surface gives back, each as
/// a share from zero, none, to one, all of it. A sum of colours may lie above
/// one.
#[derive(Clone, Copy, Debug, PartialEq, Eq, Structural)]
pub struct Color {
    pub red: Scalar,
    pub green: Scalar,
    pub blue: Scalar,
}

impl Color {
    /// White, in contracts.
    pub open spec fn spec_white() -> Color {
        Color { red: Scalar::of(ONE), green: Scalar::of(ONE), blue: Scalar::of(ONE) }
    }

    /// Black, in contracts.
    pub open spec fn spec_black() -> Color {
        Color { red: Scalar::of(0), green: Scalar::of(0), blue: Scalar::of(0) }
    }

    /// Magenta, in contracts.
    pub open spec fn spec_magenta() -> Color {
        Color { red: Scalar::of(ONE), green: Scalar::of(0), blue: Scalar::of(ONE) }
    }

    /// The colour that gives back all light.
    #[verifier::when_used_as_spec(spec_white)]
    pub fn white() -> (c: Color)
        ensures
            c == Color::spec_white(),
    {
        Color { red: Scalar::one(), green: Scalar::one(), blue: Scalar::one() }
    }

    /// The colour that gives back no light: what a ray sees that strikes
    /// nothing.
    #[verifier::when_used_as_spec(spec_black)]
    pub fn black() -> (c: Color)
        ensures
            c == Color::spec_black(),
    {
        Color { red: Scalar::zero(), green: Scalar::zero(), blue: Scalar::zero() }
    }

    /// Red and blue without green: the colour of a surface that was given
    /// none.
    #[verifier::when_used_as_spec(spec_magenta)]
    pub fn magenta() -> (c: Color)
        ensures
            c == Color::spec_magenta(),
    {
        Color { red: Scalar::one(), green: Scalar::zero(), blue: Scalar::one() }
    }
}

} // verus!
