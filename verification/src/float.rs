//! Double-precision numbers, carried as their IEEE 754 bit patterns.
//!
//! A [`Float`] is the 64-bit pattern of a double-precision number: one sign
//! bit, eleven exponent bits, fifty-two fraction bits. Classification and
//! comparison are decided on the pattern itself. The four arithmetic
//! operations are computed by the `rustc_apfloat` crate, in integer
//! arithmetic. Their results are known here by name only: a contract can say
//! which sum a function returns, and not what that sum is.
use core::cmp::Ordering;
use rustc_apfloat::ieee::Double;
use rustc_apfloat::{Float as Ieee, Round};
use vstd::prelude::*;

verus! {

/// The bit that holds the sign.
pub const SIGN_BIT: u64 = 0x8000_0000_0000_0000;

/// The pattern of positive infinity: every exponent bit set, no fraction bit.
pub const INFINITY_BITS: u64 = 0x7ff0_0000_0000_0000;

/// The pattern of negative infinity.
pub const NEG_INFINITY_BITS: u64 = 0xfff0_0000_0000_0000;

/// The pattern of the largest finite number.
pub const MAX_BITS: u64 = 0x7fef_ffff_ffff_ffff;

/// The pattern of the smallest finite number, the negative of the largest.
pub const MIN_BITS: u64 = 0xffef_ffff_ffff_ffff;

/// An IEEE 754 double-precision number, held as its 64-bit pattern.
#[derive(Clone, Copy, Debug)]
pub struct Float {
    pub bits: u64,
}

/// The pattern that `rustc_apfloat` gives the sum of the numbers with the
/// patterns `a` and `b`, rounding to the nearest double, ties to even.
pub uninterp spec fn sum_bits(a: u64, b: u64) -> u64;

/// The pattern that `rustc_apfloat` gives the number with the pattern `a`
/// less the one with the pattern `b`, rounding to the nearest double, ties
/// to even.
pub uninterp spec fn difference_bits(a: u64, b: u64) -> u64;

/// The pattern that `rustc_apfloat` gives the product of the numbers with
/// the patterns `a` and `b`, rounding to the nearest double, ties to even.
pub uninterp spec fn product_bits(a: u64, b: u64) -> u64;

/// The pattern that `rustc_apfloat` gives the number with the pattern `a`
/// divided by the one with the pattern `b`, rounding to the nearest double,
/// ties to even.
pub uninterp spec fn quotient_bits(a: u64, b: u64) -> u64;

/// `Float::add_r` of `rustc_apfloat`, on `Double`s and with ties to even,
/// from pattern to pattern. Nothing is claimed of the sum but that it
/// depends on the two patterns alone.
#[verifier::external_body]
fn add_bits(a: u64, b: u64) -> (r: u64)
    ensures
        r == sum_bits(a, b),
{
    let x = Double::from_bits(u128::from(a));
    let y = Double::from_bits(u128::from(b));
    x.add_r(y, Round::NearestTiesToEven).value.to_bits() as u64
}

/// `Float::sub_r` of `rustc_apfloat`, on `Double`s and with ties to even,
/// from pattern to pattern. Nothing is claimed of the difference but that it
/// depends on the two patterns alone.
#[verifier::external_body]
fn sub_bits(a: u64, b: u64) -> (r: u64)
    ensures
        r == difference_bits(a, b),
{
    let x = Double::from_bits(u128::from(a));
    let y = Double::from_bits(u128::from(b));
    x.sub_r(y, Round::NearestTiesToEven).value.to_bits() as u64
}

/// `Float::mul_r` of `rustc_apfloat`, on `Double`s and with ties to even,
/// from pattern to pattern. Nothing is claimed of the product but that it
/// depends on the two patterns alone.
#[verifier::external_body]
fn mul_bits(a: u64, b: u64) -> (r: u64)
    ensures
        r == product_bits(a, b),
{
    let x = Double::from_bits(u128::from(a));
    let y = Double::from_bits(u128::from(b));
    x.mul_r(y, Round::NearestTiesToEven).value.to_bits() as u64
}

/// `Float::div_r` of `rustc_apfloat`, on `Double`s and with ties to even,
/// from pattern to pattern. Nothing is claimed of the quotient but that it
/// depends on the two patterns alone.
#[verifier::external_body]
fn div_bits(a: u64, b: u64) -> (r: u64)
    ensures
        r == quotient_bits(a, b),
{
    let x = Double::from_bits(u128::from(a));
    let y = Double::from_bits(u128::from(b));
    x.div_r(y, Round::NearestTiesToEven).value.to_bits() as u64
}

impl Float {
    /// Whether the sign bit is set. It may be set on a zero and on a NaN.
    pub open spec fn is_negative(self) -> bool {
        self.bits >= SIGN_BIT
    }

    /// The pattern without its sign bit.
    pub open spec fn magnitude(self) -> int {
        if self.bits >= SIGN_BIT {
            self.bits - SIGN_BIT
        } else {
            self.bits as int
        }
    }

    /// Whether this is a NaN: every exponent bit set, and a fraction bit.
    pub open spec fn is_nan_spec(self) -> bool {
        self.magnitude() > INFINITY_BITS
    }

    /// Whether this is positive or negative infinity.
    pub open spec fn is_infinite(self) -> bool {
        self.magnitude() == INFINITY_BITS
    }

    /// Whether this is a zero, of either sign.
    pub open spec fn is_zero_spec(self) -> bool {
        self.magnitude() == 0
    }

    /// Where a number that is no NaN stands among all such numbers: the
    /// magnitudes of the patterns grow with the numbers they stand for, so
    /// the rank is the magnitude, counted downwards below zero. The two
    /// zeros share rank 0.
    pub open spec fn rank(self) -> int {
        if self.is_negative() {
            -self.magnitude()
        } else {
            self.magnitude()
        }
    }

    /// `self < other` as IEEE 754 has it: false when either is a NaN.
    pub open spec fn spec_lt(self, other: Float) -> bool {
        !self.is_nan() && !other.is_nan() && self.rank() < other.rank()
    }

    /// `self > other` as IEEE 754 has it: false when either is a NaN.
    pub open spec fn spec_gt(self, other: Float) -> bool {
        other.spec_lt(self)
    }

    /// `self == other` as IEEE 754 has it: a NaN equals nothing, and the two
    /// zeros are equal.
    pub open spec fn spec_eq(self, other: Float) -> bool {
        !self.is_nan() && !other.is_nan() && self.rank() == other.rank()
    }

    /// The sum, as it is computed.
    pub open spec fn plus(self, rhs: Float) -> Float {
        Float { bits: sum_bits(self.bits, rhs.bits) }
    }

    /// The difference, as it is computed.
    pub open spec fn minus(self, rhs: Float) -> Float {
        Float { bits: difference_bits(self.bits, rhs.bits) }
    }

    /// The product, as it is computed.
    pub open spec fn times(self, rhs: Float) -> Float {
        Float { bits: product_bits(self.bits, rhs.bits) }
    }

    /// The quotient, as it is computed.
    pub open spec fn over(self, rhs: Float) -> Float {
        Float { bits: quotient_bits(self.bits, rhs.bits) }
    }

    /// The number with the given pattern.
    pub fn from_bits(bits: u64) -> (r: Float)
        ensures
            r.bits == bits,
    {
        Float { bits }
    }

    /// The pattern of the number.
    pub fn to_bits(self) -> (r: u64)
        ensures
            r == self.bits,
    {
        self.bits
    }

    /// Positive infinity.
    pub fn infinity() -> (r: Float)
        ensures
            r.bits == INFINITY_BITS,
    {
        Float { bits: INFINITY_BITS }
    }

    /// Negative infinity.
    pub fn neg_infinity() -> (r: Float)
        ensures
            r.bits == NEG_INFINITY_BITS,
    {
        Float { bits: NEG_INFINITY_BITS }
    }

    /// The largest finite number.
    pub fn max_value() -> (r: Float)
        ensures
            r.bits == MAX_BITS,
    {
        Float { bits: MAX_BITS }
    }

    /// The smallest finite number.
    pub fn min_value() -> (r: Float)
        ensures
            r.bits == MIN_BITS,
    {
        Float { bits: MIN_BITS }
    }

    /// Whether this is a NaN.
    #[verifier::when_used_as_spec(is_nan_spec)]
    pub fn is_nan(self) -> (r: bool)
        ensures
            r == self.is_nan_spec(),
    {
        if self.bits >= SIGN_BIT {
            self.bits - SIGN_BIT > INFINITY_BITS
        } else {
            self.bits > INFINITY_BITS
        }
    }

    /// Whether this is a zero, of either sign.
    #[verifier::when_used_as_spec(is_zero_spec)]
    pub fn is_zero(self) -> (r: bool)
        ensures
            r == self.is_zero_spec(),
    {
        self.bits == 0 || self.bits == SIGN_BIT
    }

    /// The rank as a machine integer.
    fn rank_value(self) -> (r: i128)
        ensures
            r == self.rank(),
    {
        if self.bits >= SIGN_BIT {
            -((self.bits - SIGN_BIT) as i128)
        } else {
            self.bits as i128
        }
    }
}

impl PartialEq for Float {
    /// IEEE 754 equality, not equality of patterns.
    fn eq(&self, other: &Float) -> (r: bool) {
        !self.is_nan() && !other.is_nan() && self.rank_value() == other.rank_value()
    }
}

impl vstd::std_specs::cmp::PartialEqSpecImpl for Float {
    open spec fn obeys_eq_spec() -> bool {
        true
    }

    open spec fn eq_spec(&self, other: &Float) -> bool {
        self.spec_eq(*other)
    }
}

impl PartialOrd for Float {
    /// The IEEE 754 order: a NaN is ordered against nothing.
    fn partial_cmp(&self, other: &Float) -> (r: Option<Ordering>) {
        if self.is_nan() || other.is_nan() {
            None
        } else {
            let a = self.rank_value();
            let b = other.rank_value();
            if a < b {
                Some(Ordering::Less)
            } else if a > b {
                Some(Ordering::Greater)
            } else {
                Some(Ordering::Equal)
            }
        }
    }
}

impl vstd::std_specs::cmp::PartialOrdSpecImpl for Float {
    open spec fn obeys_partial_cmp_spec() -> bool {
        true
    }

    open spec fn partial_cmp_spec(&self, other: &Float) -> Option<Ordering> {
        if self.is_nan() || other.is_nan() {
            None
        } else if self.rank() < other.rank() {
            Some(Ordering::Less)
        } else if self.rank() > other.rank() {
            Some(Ordering::Greater)
        } else {
            Some(Ordering::Equal)
        }
    }
}

impl core::ops::Add for Float {
    type Output = Float;

    fn add(self, rhs: Float) -> (r: Float) {
        Float { bits: add_bits(self.bits, rhs.bits) }
    }
}

impl vstd::std_specs::ops::AddSpecImpl for Float {
    open spec fn obeys_add_spec() -> bool {
        true
    }

    open spec fn add_req(self, rhs: Float) -> bool {
        true
    }

    open spec fn add_spec(self, rhs: Float) -> Float {
        self.plus(rhs)
    }
}

impl core::ops::Sub for Float {
    type Output = Float;

    fn sub(self, rhs: Float) -> (r: Float) {
        Float { bits: sub_bits(self.bits, rhs.bits) }
    }
}

impl vstd::std_specs::ops::SubSpecImpl for Float {
    open spec fn obeys_sub_spec() -> bool {
        true
    }

    open spec fn sub_req(self, rhs: Float) -> bool {
        true
    }

    open spec fn sub_spec(self, rhs: Float) -> Float {
        self.minus(rhs)
    }
}

impl core::ops::Mul for Float {
    type Output = Float;

    fn mul(self, rhs: Float) -> (r: Float) {
        Float { bits: mul_bits(self.bits, rhs.bits) }
    }
}

impl vstd::std_specs::ops::MulSpecImpl for Float {
    open spec fn obeys_mul_spec() -> bool {
        true
    }

    open spec fn mul_req(self, rhs: Float) -> bool {
        true
    }

    open spec fn mul_spec(self, rhs: Float) -> Float {
        self.times(rhs)
    }
}

impl core::ops::Div for Float {
    type Output = Float;

    fn div(self, rhs: Float) -> (r: Float) {
        Float { bits: div_bits(self.bits, rhs.bits) }
    }
}

impl vstd::std_specs::ops::DivSpecImpl for Float {
    open spec fn obeys_div_spec() -> bool {
        true
    }

    open spec fn div_req(self, rhs: Float) -> bool {
        true
    }

    open spec fn div_spec(self, rhs: Float) -> Float {
        self.over(rhs)
    }
}

} // verus!
