//! Double-precision numbers as their IEEE 754 bit patterns.
//!
//! Prices and quantities are carried through the library unread except where a decision depends
//! on them. Those decisions (is it finite, which of two is larger) are made here on the bits; the
//! arithmetic that only shapes reported figures is left symbolic, see [`Percent`].

use vstd::prelude::*;

verus! {

/// The bits of positive infinity: an all-ones exponent and no fraction.
pub const INFINITY_BITS: u64 = 0x7ff0_0000_0000_0000;

/// The weight of the sign bit.
pub const SIGN_BIT: u64 = 0x8000_0000_0000_0000;

/// A double-precision number.
#[derive(Clone, Copy, Debug, PartialEq, Eq, Structural)]
pub struct Double {
    /// The IEEE 754 binary64 bit pattern.
    pub bits: u64,
}

impl Double {
    /// Positive zero.
    pub open spec fn zero() -> Double {
        Double { bits: 0 }
    }

    /// The bits below the sign.
    pub open spec fn magnitude(self) -> int {
        if self.bits >= SIGN_BIT {
            self.bits - SIGN_BIT
        } else {
            self.bits as int
        }
    }

    /// Neither infinite nor a NaN.
    pub open spec fn finite(self) -> bool {
        self.magnitude() < INFINITY_BITS
    }

    /// Not a number.
    pub open spec fn nan(self) -> bool {
        self.magnitude() > INFINITY_BITS
    }

    /// An integer that orders the numbers as their values do; both zeros are at 0.
    pub open spec fn rank(self) -> int {
        if self.bits >= SIGN_BIT {
            -self.magnitude()
        } else {
            self.magnitude()
        }
    }

    /// The comparison `self <= other`, false as soon as either side is a NaN.
    pub open spec fn at_most(self, other: Double) -> bool {
        !self.nan() && !other.nan() && self.rank() <= other.rank()
    }

    /// The larger of two numbers; a NaN gives way to the other one.
    pub open spec fn larger(self, other: Double) -> Double {
        if self.nan() {
            other
        } else if other.nan() || other.rank() <= self.rank() {
            self
        } else {
            other
        }
    }

    /// The number itself where it is finite, zero otherwise.
    pub open spec fn sanitized(self) -> Double {
        if self.finite() {
            self
        } else {
            Double::zero()
        }
    }

    fn magnitude_bits(self) -> (m: u64)
        ensures
            m == self.magnitude(),
    {
        if self.bits >= SIGN_BIT {
            self.bits - SIGN_BIT
        } else {
            self.bits
        }
    }

    /// Whether the number is neither infinite nor a NaN.
    pub fn is_finite(self) -> (yes: bool)
        ensures
            yes == self.finite(),
    {
        self.magnitude_bits() < INFINITY_BITS
    }

    /// Whether this is a NaN.
    pub fn is_nan(self) -> (yes: bool)
        ensures
            yes == self.nan(),
    {
        self.magnitude_bits() > INFINITY_BITS
    }

    /// The comparison `self <= other`.
    pub fn le(self, other: Double) -> (yes: bool)
        ensures
            yes == self.at_most(other),
    {
        if self.is_nan() || other.is_nan() {
            return false;
        }
        let mine = self.magnitude_bits();
        let theirs = other.magnitude_bits();
        if self.bits >= SIGN_BIT {
            if other.bits >= SIGN_BIT {
                theirs <= mine
            } else {
                true
            }
        } else if other.bits >= SIGN_BIT {
            mine == 0 && theirs == 0
        } else {
            mine <= theirs
        }
    }

    /// The larger of two numbers; a NaN gives way to the other one.
    pub fn max(self, other: Double) -> (out: Double)
        ensures
            out == self.larger(other),
    {
        if self.is_nan() {
            other
        } else if other.is_nan() || other.le(self) {
            self
        } else {
            other
        }
    }
}

/// The number itself where it is finite, zero otherwise.
pub fn as_f64(value: Double) -> (out: Double)
    ensures
        out == value.sanitized(),
{
    if value.is_finite() {
        value
    } else {
        Double { bits: 0 }
    }
}

/// A percentage that is reported but never read back.
#[derive(Clone, Copy, Debug, PartialEq, Eq, Structural)]
pub enum Percent {
    /// Zero percent.
    Zero,
    /// `((value - entry) / entry) * 100`, in double precision.
    Change { entry: Double, value: Double },
}

/// The change from `entry` to `value` in percent: nothing is gained or lost on an entry that is
/// not above zero, and what is unknown counts as zero.
pub open spec fn percent_change(entry: Option<Double>, value: Option<Double>) -> Percent {
    let entry = entry.unwrap_or(Double::zero());
    let value = value.unwrap_or(Double::zero());
    if entry.at_most(Double::zero()) {
        Percent::Zero
    } else {
        Percent::Change { entry, value }
    }
}

/// The change from `entry` to `value` in percent.
pub fn pct_change(entry: Option<Double>, value: Option<Double>) -> (pct: Percent)
    ensures
        pct == percent_change(entry, value),
{
    let zero = Double { bits: 0 };
    let entry = entry.unwrap_or(zero);
    let value = value.unwrap_or(zero);
    if entry.le(zero) {
        return Percent::Zero;
    }
    Percent::Change { entry, value }
}

} // verus!
