//! Finite binary64 numbers, held by their bit patterns.
//!
//! Every finite binary64 number is a whole multiple of 2^-1074, the smallest
//! positive subnormal. The view of a [`Scalar`] is that multiple, an `int`, so
//! that contracts compare and equate the numbers themselves.

use vstd::prelude::*;
use vstd::arithmetic::power2::{
    lemma2_to64, lemma2_to64_rest, lemma_pow2_adds, lemma_pow2_pos, lemma_pow2_strictly_increases,
    lemma_pow2_unfold, pow2,
};

verus! {

/// The sign bit of a binary64 pattern.
pub const SIGN_BIT: u64 = 0x8000_0000_0000_0000;

/// Two to the power 52: the number of fraction patterns below one exponent.
pub const FRACTION_LIMIT: u64 = 0x0010_0000_0000_0000;

/// The pattern of positive infinity. Magnitude patterns below it are finite.
pub const INFINITY: u64 = 0x7FF0_0000_0000_0000;

/// The pattern of one: biased exponent 1023 and an empty fraction.
pub const ONE: u64 = 0x3FF0_0000_0000_0000;

/// The pattern of minus one: that of one with the sign bit set.
pub const MINUS_ONE: u64 = 0xBFF0_0000_0000_0000;

/// A pattern without its sign bit.
pub open spec fn magnitude_pattern(bits: u64) -> u64 {
    if bits >= SIGN_BIT {
        (bits - SIGN_BIT) as u64
    } else {
        bits
    }
}

/// Whether the pattern stands for a number, and not for an infinity or a NaN.
pub open spec fn is_finite(bits: u64) -> bool {
    magnitude_pattern(bits) < INFINITY
}

/// The absolute value that a magnitude pattern stands for, in units of
/// 2^-1074. With exponent field `e` and fraction field `f`, a subnormal
/// (`e == 0`) is `f` units, and a normal number is `(2^52 + f) * 2^(e - 1)`
/// units.
pub open spec fn magnitude(pattern: u64) -> nat {
    let e = pattern / FRACTION_LIMIT;
    let f = pattern % FRACTION_LIMIT;
    if e == 0 {
        f as nat
    } else {
        ((FRACTION_LIMIT + f) * pow2((e - 1) as nat)) as nat
    }
}

/// The number that a pattern stands for, in units of 2^-1074.
pub open spec fn value(bits: u64) -> int {
    if bits >= SIGN_BIT {
        -(magnitude(magnitude_pattern(bits)) as int)
    } else {
        magnitude(bits) as int
    }
}

/// The number one, in units of 2^-1074.
pub open spec fn one() -> int {
    pow2(1074) as int
}

/// The pattern of one stands for one, which is positive.
pub proof fn pattern_of_one()
    ensures
        value(ONE) == one(),
        value(MINUS_ONE) == -one(),
        one() > 0,
{
    lemma2_to64_rest();
    lemma_pow2_adds(52, 1022);
    lemma_pow2_pos(1074);
}

/// Whether the number of the first pattern is below that of the second, read
/// off the patterns alone: among numbers of one sign the magnitude patterns
/// decide, and a negative number is below a positive one unless both are zero.
pub open spec fn precedes(a: u64, b: u64) -> bool {
    if a >= SIGN_BIT {
        if b >= SIGN_BIT {
            b < a
        } else {
            a > SIGN_BIT || b > 0
        }
    } else {
        if b >= SIGN_BIT {
            false
        } else {
            a < b
        }
    }
}

/// Below one exponent, the magnitude stays under that exponent's power of two.
proof fn magnitude_bounds(x: u64)
    ensures
        magnitude(x) < FRACTION_LIMIT * pow2((x / FRACTION_LIMIT) as nat),
        x / FRACTION_LIMIT > 0 ==> magnitude(x) >= FRACTION_LIMIT * pow2(
            (x / FRACTION_LIMIT - 1) as nat,
        ),
{
    let e = (x / FRACTION_LIMIT) as nat;
    let f = (x % FRACTION_LIMIT) as int;
    let limit = FRACTION_LIMIT as int;
    if e == 0 {
        lemma2_to64();
    } else {
        let p = pow2((e - 1) as nat) as int;
        lemma_pow2_pos((e - 1) as nat);
        lemma_pow2_unfold(e);
        assert((limit + f) * p < limit * (2 * p) && (limit + f) * p >= limit * p)
            by (nonlinear_arith)
            requires
                0 <= f < limit,
                p > 0,
        ;
    }
}

/// A larger magnitude pattern stands for a larger magnitude: the patterns of
/// the nonnegative numbers are in the order of the numbers.
pub proof fn magnitude_increases(x: u64, y: u64)
    requires
        x < y,
    ensures
        magnitude(x) < magnitude(y),
{
    let ex = (x / FRACTION_LIMIT) as nat;
    let ey = (y / FRACTION_LIMIT) as nat;
    let fx = (x % FRACTION_LIMIT) as int;
    let fy = (y % FRACTION_LIMIT) as int;
    let limit = FRACTION_LIMIT as int;
    if ex == ey {
        if ex > 0 {
            let p = pow2((ex - 1) as nat) as int;
            lemma_pow2_pos((ex - 1) as nat);
            assert((limit + fx) * p < (limit + fy) * p) by (nonlinear_arith)
                requires
                    fx < fy,
                    p > 0,
            ;
        }
    } else {
        magnitude_bounds(x);
        magnitude_bounds(y);
        let below = pow2(ex) as int;
        let above = pow2((ey - 1) as nat) as int;
        if ex < ey - 1 {
            lemma_pow2_strictly_increases(ex, (ey - 1) as nat);
        }
        assert(limit * below <= limit * above) by (nonlinear_arith)
            requires
                below <= above,
                limit > 0,
        ;
    }
}

/// The order of the numbers is the order that `precedes` reads off their
/// patterns.
pub proof fn value_order(a: u64, b: u64)
    ensures
        value(a) < value(b) <==> precedes(a, b),
        value(a) == value(b) <==> a == b || (magnitude_pattern(a) == 0 && magnitude_pattern(b) == 0),
{
    let ma = magnitude_pattern(a);
    let mb = magnitude_pattern(b);
    if ma < mb {
        magnitude_increases(ma, mb);
    }
    if mb < ma {
        magnitude_increases(mb, ma);
    }
    if 0 < ma {
        magnitude_increases(0, ma);
    }
    if 0 < mb {
        magnitude_increases(0, mb);
    }
}

/// Two numbers that are equal and not zero are held by the same pattern.
pub proof fn equal_values(a: Scalar, b: Scalar)
    requires
        a@ == b@,
        a@ != 0,
    ensures
        a == b,
{
    value_order(a.bits, b.bits);
    value_order(a.bits, 0);
}

/// A finite binary64 number.
#[derive(Clone, Copy, Debug, PartialEq, Eq, Structural)]
pub struct Scalar {
    bits: u64,
}

impl View for Scalar {
    type V = int;

    /// The number itself, in units of 2^-1074.
    open spec fn view(&self) -> int {
        value(self.pattern())
    }
}

impl Scalar {
    #[verifier::type_invariant]
    spec fn finite(self) -> bool {
        is_finite(self.bits)
    }

    /// The bit pattern that holds the number.
    pub closed spec fn pattern(self) -> u64 {
        self.bits
    }

    /// The number that a bit pattern holds.
    pub closed spec fn of(bits: u64) -> Scalar {
        Scalar { bits }
    }

    /// The number that a pattern holds is held by that pattern.
    pub broadcast proof fn pattern_of(bits: u64)
        ensures
            (#[trigger] Scalar::of(bits)).pattern() == bits,
    {
    }

    /// A number is the one that its pattern holds.
    pub broadcast proof fn of_pattern(self)
        ensures
            Scalar::of(#[trigger] self.pattern()) == self,
    {
    }

    /// The number with the given bit pattern, if the pattern is finite.
    pub fn from_bits(bits: u64) -> (r: Option<Scalar>)
        ensures
            r == if is_finite(bits) { Some(Scalar::of(bits)) } else { None },
    {
        let magnitude = if bits >= SIGN_BIT { bits - SIGN_BIT } else { bits };
        if magnitude < INFINITY {
            Some(Scalar { bits })
        } else {
            None
        }
    }

    /// The bit pattern of the number.
    pub fn to_bits(self) -> (r: u64)
        ensures
            r == self.pattern(),
            is_finite(r),
    {
        proof {
            use_type_invariant(&self);
        }
        self.bits
    }

    /// Zero.
    pub fn zero() -> (r: Scalar)
        ensures
            r == Scalar::of(0),
            r@ == 0,
    {
        Scalar { bits: 0 }
    }

    /// One.
    pub fn one() -> (r: Scalar)
        ensures
            r == Scalar::of(ONE),
            r@ == one(),
            r@ > 0,
    {
        proof {
            pattern_of_one();
        }
        Scalar { bits: ONE }
    }

    /// Minus one.
    pub fn minus_one() -> (r: Scalar)
        ensures
            r == Scalar::of(MINUS_ONE),
            r@ == -one(),
            r@ < 0,
    {
        proof {
            pattern_of_one();
        }
        Scalar { bits: MINUS_ONE }
    }

    /// Whether the number is zero, of either sign.
    pub fn is_zero(self) -> (r: bool)
        ensures
            r == (self@ == 0),
    {
        proof {
            value_order(self.bits, 0);
        }
        self.bits == 0 || self.bits == SIGN_BIT
    }

    /// Whether the number is below `other`.
    pub fn lt(self, other: Scalar) -> (r: bool)
        ensures
            r == (self@ < other@),
    {
        proof {
            value_order(self.bits, other.bits);
        }
        let a = self.bits;
        let b = other.bits;
        if a >= SIGN_BIT {
            if b >= SIGN_BIT {
                b < a
            } else {
                a > SIGN_BIT || b > 0
            }
        } else {
            if b >= SIGN_BIT {
                false
            } else {
                a < b
            }
        }
    }

    /// Whether the number is at most `other`.
    pub fn le(self, other: Scalar) -> (r: bool)
        ensures
            r == (self@ <= other@),
    {
        !other.lt(self)
    }

    /// The absolute value.
    pub fn abs(self) -> (r: Scalar)
        ensures
            r@ == if self@ < 0 { -self@ } else { self@ },
            r == Scalar::of(magnitude_pattern(self.pattern())),
    {
        proof {
            use_type_invariant(&self);
        }
        if self.bits >= SIGN_BIT {
            Scalar { bits: self.bits - SIGN_BIT }
        } else {
            self
        }
    }

    /// The smaller of two numbers; the first where they are equal.
    pub fn min(self, other: Scalar) -> (r: Scalar)
        ensures
            r == if other@ < self@ { other } else { self },
    {
        if other.lt(self) {
            other
        } else {
            self
        }
    }

    /// The larger of two numbers; the first where they are equal.
    pub fn max(self, other: Scalar) -> (r: Scalar)
        ensures
            r == if self@ < other@ { other } else { self },
    {
        if self.lt(other) {
            other
        } else {
            self
        }
    }
}

/// A number and its pattern determine each other.
pub broadcast group group_scalar_patterns {
    Scalar::pattern_of,
    Scalar::of_pattern,
}

} // verus!
