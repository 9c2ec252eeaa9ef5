//! The scene and the decisions of a small ray tracer.
//!
//! A ray tracer spends its time in real arithmetic, and its correctness in a
//! handful of comparisons: which root of a quadratic is the nearer one, whether
//! a ray runs parallel to a plane, which of many surfaces a ray strikes first,
//! whether anything stands between a point and the light. This crate holds
//! the records of a scene and those comparisons, each with a proved contract.
//! It does no arithmetic on real numbers: whoever renders computes products
//! and roots, and asks here what follows from them.
//!
//! Real numbers cross the boundary as [`scalar::Scalar`] values: finite
//! binary64 numbers carried by their bit patterns and compared exactly.

pub mod color;
pub mod scalar;
pub mod scene;
pub mod shapes;
