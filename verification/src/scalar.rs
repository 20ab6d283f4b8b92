//! Single-precision numbers as bit patterns, with the IEEE 754 comparisons.

use std::cmp::Ordering;
use vstd::prelude::*;

verus! {

/// The sign bit of a binary32 pattern.
pub const SIGN_BIT: u32 = 0x8000_0000;

/// The pattern of positive infinity: every larger magnitude is a NaN.
pub const INFINITY_BITS: u32 = 0x7f80_0000;

/// A single-precision number, held as its IEEE 754 binary32 bit pattern.
///
/// In contracts `==` on two scalars means that the patterns are the same;
/// the numeric comparisons are [`Scalar::num_eq`] and [`Scalar::num_lt`],
/// which the executable `==` and `<` compute.
#[derive(Clone, Copy, Debug)]
pub struct Scalar {
    pub bits: u32,
}

impl Scalar {
    /// The pattern without its sign bit.
    pub open spec fn magnitude(self) -> int {
        if self.bits >= SIGN_BIT {
            self.bits - SIGN_BIT
        } else {
            self.bits as int
        }
    }

    /// Whether the sign bit is set (true of `-0.0` and of some NaNs too).
    pub open spec fn sign_negative(self) -> bool {
        self.bits >= SIGN_BIT
    }

    /// Whether the pattern is a NaN.
    pub open spec fn spec_is_nan(&self) -> bool {
        self.magnitude() > INFINITY_BITS
    }

    /// The place of a number on the number line: for two patterns that are
    /// not NaN, the smaller number has the smaller rank, and both zeros have
    /// rank 0.
    pub open spec fn rank(self) -> int {
        if self.sign_negative() {
            -self.magnitude()
        } else {
            self.magnitude()
        }
    }

    /// Numeric equality: false as soon as one side is a NaN, true of `0.0`
    /// and `-0.0`.
    pub open spec fn num_eq(self, other: Scalar) -> bool {
        !self.spec_is_nan() && !other.spec_is_nan() && self.rank() == other.rank()
    }

    /// Numeric strict order: false as soon as one side is a NaN.
    pub open spec fn num_lt(self, other: Scalar) -> bool {
        !self.spec_is_nan() && !other.spec_is_nan() && self.rank() < other.rank()
    }

    /// Numeric comparison: nothing where one side is a NaN, else the order
    /// of the two numbers.
    pub open spec fn num_order(self, other: Scalar) -> Option<Ordering> {
        if self.spec_is_nan() || other.spec_is_nan() {
            None
        } else if self.rank() < other.rank() {
            Some(Ordering::Less)
        } else if self.rank() == other.rank() {
            Some(Ordering::Equal)
        } else {
            Some(Ordering::Greater)
        }
    }

    /// The number `0.0`.
    pub open spec fn spec_zero() -> Scalar {
        Scalar { bits: 0 }
    }

    #[verifier::when_used_as_spec(spec_zero)]
    pub fn zero() -> (r: Scalar)
        ensures
            r == Scalar::spec_zero(),
    {
        Scalar { bits: 0 }
    }

    /// The number `1.0`.
    pub open spec fn spec_one() -> Scalar {
        Scalar { bits: 0x3f80_0000 }
    }

    #[verifier::when_used_as_spec(spec_one)]
    pub fn one() -> (r: Scalar)
        ensures
            r == Scalar::spec_one(),
    {
        Scalar { bits: 0x3f80_0000 }
    }

    pub fn from_bits(bits: u32) -> (r: Scalar)
        ensures
            r.bits == bits,
    {
        Scalar { bits }
    }

    pub fn to_bits(&self) -> (r: u32)
        ensures
            r == self.bits,
    {
        self.bits
    }

    fn magnitude_bits(&self) -> (r: u32)
        ensures
            r == self.magnitude(),
    {
        if self.bits >= SIGN_BIT {
            self.bits - SIGN_BIT
        } else {
            self.bits
        }
    }

    #[verifier::when_used_as_spec(spec_is_nan)]
    pub fn is_nan(&self) -> (r: bool)
        ensures
            r == self.spec_is_nan(),
    {
        self.magnitude_bits() > INFINITY_BITS
    }

    /// Whether the two patterns are the same, which tells `0.0` from `-0.0`
    /// and holds of a NaN and itself.
    pub fn same_bits(&self, other: &Scalar) -> (r: bool)
        ensures
            r == (*self == *other),
    {
        self.bits == other.bits
    }
}

impl Default for Scalar {
    fn default() -> (r: Scalar)
        ensures
            r == Scalar::spec_zero(),
    {
        Scalar { bits: 0 }
    }
}

impl vstd::std_specs::cmp::PartialEqSpecImpl for Scalar {
    open spec fn obeys_eq_spec() -> bool {
        true
    }

    open spec fn eq_spec(&self, other: &Scalar) -> bool {
        self.num_eq(*other)
    }
}

impl PartialEq for Scalar {
    fn eq(&self, other: &Scalar) -> (r: bool) {
        if self.is_nan() || other.is_nan() {
            false
        } else {
            let a: u32 = self.magnitude_bits();
            let b: u32 = other.magnitude_bits();
            a == b && (a == 0 || (self.bits >= SIGN_BIT) == (other.bits >= SIGN_BIT))
        }
    }
}

impl vstd::std_specs::cmp::PartialOrdSpecImpl for Scalar {
    open spec fn obeys_partial_cmp_spec() -> bool {
        true
    }

    open spec fn partial_cmp_spec(&self, other: &Scalar) -> Option<Ordering> {
        self.num_order(*other)
    }
}

impl PartialOrd for Scalar {
    fn partial_cmp(&self, other: &Scalar) -> (r: Option<Ordering>) {
        if self.is_nan() || other.is_nan() {
            return None;
        }
        let a: u32 = self.magnitude_bits();
        let b: u32 = other.magnitude_bits();
        let a_neg: bool = self.bits >= SIGN_BIT;
        let b_neg: bool = other.bits >= SIGN_BIT;
        if a_neg == b_neg {
            if a == b {
                Some(Ordering::Equal)
            } else if (a < b) != a_neg {
                Some(Ordering::Less)
            } else {
                Some(Ordering::Greater)
            }
        } else if a == 0 && b == 0 {
            Some(Ordering::Equal)
        } else if a_neg {
            Some(Ordering::Less)
        } else {
            Some(Ordering::Greater)
        }
    }
}

} // verus!
