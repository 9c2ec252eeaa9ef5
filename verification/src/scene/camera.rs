//! The camera's opening angle.

use vstd::prelude::*;
use vstd::arithmetic::power2::{lemma2_to64_rest, lemma_pow2_adds, pow2};
use crate::scalar::{one, value, Scalar};

verus! {

broadcast use crate::scalar::group_scalar_patterns;

/// The pattern of ninety: a right angle, in degrees.
pub const RIGHT_ANGLE: u64 = 0x4056_8000_0000_0000;

/// The pattern of the right angle stands for ninety.
pub proof fn right_angle_is_ninety()
    ensures
        value(RIGHT_ANGLE) == 90 * one(),
{
    lemma2_to64_rest();
    lemma_pow2_adds(46, 1028);
    let p = pow2(1028) as int;
    assert(0x16_8000_0000_0000 * p == 90 * (0x4000_0000_0000 * p)) by (nonlinear_arith);
}

/// Whether a camera can have this field of view, an angle in degrees: it must
/// lie strictly between zero and a right angle.
pub fn valid_fov(fov: Scalar) -> (r: bool)
    ensures
        r == (0 < fov@ < 90 * one()),
{
    proof {
        right_angle_is_ninety();
    }
    let right_angle = Scalar::from_bits(RIGHT_ANGLE).unwrap();
    Scalar::zero().lt(fov) && fov.lt(right_angle)
}

} // verus!
