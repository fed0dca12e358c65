//! Temperatures that are checked before they are taken.
//!
//! A [`CheckedTemperature`] holds a [`Temperature`] and a pair of bounds, in
//! the temperature's own unit. A temperature is taken only if it is no NaN,
//! not below absolute zero, and within the bounds; what is refused leaves
//! the value as it was. A change of unit brings the bounds into the new unit
//! together with the temperature.
//!
//! Two operations do not check the temperature that is held: the setters of
//! the bounds, which may close the bounds around a temperature outside
//! them, and the changes of unit, which round. Such a value is refused
//! nothing that is within its bounds afterwards.
use crate::float::{Float, INFINITY_BITS, MAX_BITS, MIN_BITS, NEG_INFINITY_BITS};
use crate::{Temperature, Unit};
use vstd::prelude::*;

verus! {

/// Why a checked temperature, or a bound, was refused.
#[derive(Debug)]
pub enum CheckedTempError {
    /// The bound is below the lower bound, or below every finite number.
    BoundTooLow(Float),
    /// The bound is above the upper bound, or above every finite number.
    BoundTooHigh(Float),
    /// The temperature is below absolute zero in its unit.
    BelowAbsoluteZero(Float),
    /// The temperature is outside the bounds: `Too high!` or `Too low!`.
    TempOutOfBounds(Float, &'static str),
    /// The divisor is a zero.
    DivisionByZero,
    /// The temperature is a NaN.
    GivenValueIsNan,
}

/// The range that a checked temperature is held to, both ends included, in
/// the unit of that temperature.
#[derive(Clone, Copy, Debug)]
pub struct Bounds {
    pub lower: Float,
    pub upper: Float,
}

impl Default for Bounds {
    /// The widest bounds: from negative to positive infinity.
    fn default() -> (r: Bounds)
        ensures
            r == Bounds::unbounded(),
    {
        Bounds { lower: Float::neg_infinity(), upper: Float::infinity() }
    }
}

impl Bounds {
    /// The widest bounds: from negative to positive infinity.
    pub open spec fn unbounded() -> Bounds {
        Bounds { lower: Float { bits: NEG_INFINITY_BITS }, upper: Float { bits: INFINITY_BITS } }
    }

    /// The bounds that hold every finite number and no other.
    pub open spec fn finite_numbers() -> Bounds {
        Bounds { lower: Float { bits: MIN_BITS }, upper: Float { bits: MAX_BITS } }
    }

    /// These bounds with `val` for the lower one, or why `val` is refused: it
    /// is above the upper bound, or else below every finite number.
    pub open spec fn with_lower(self, val: Float) -> Result<Bounds, CheckedTempError> {
        if val.spec_gt(self.upper) {
            Err(CheckedTempError::BoundTooHigh(val))
        } else if val.spec_lt(Float { bits: MIN_BITS }) {
            Err(CheckedTempError::BoundTooLow(val))
        } else {
            Ok(Bounds { lower: val, upper: self.upper })
        }
    }

    /// These bounds with `val` for the upper one, or why `val` is refused: it
    /// is below the lower bound, or else above every finite number.
    pub open spec fn with_upper(self, val: Float) -> Result<Bounds, CheckedTempError> {
        if val.spec_lt(self.lower) {
            Err(CheckedTempError::BoundTooLow(val))
        } else if val.spec_gt(Float { bits: MAX_BITS }) {
            Err(CheckedTempError::BoundTooHigh(val))
        } else {
            Ok(Bounds { lower: self.lower, upper: val })
        }
    }

    /// These bounds with `lower` set first and `upper` after it, or why the
    /// first of the two that is refused is.
    pub open spec fn with_both(self, lower: Float, upper: Float) -> Result<
        Bounds,
        CheckedTempError,
    > {
        match self.with_lower(lower) {
            Ok(b) => b.with_upper(upper),
            Err(e) => Err(e),
        }
    }

    /// What is found wrong with a temperature held to these bounds, in the
    /// order in which it is looked for: below absolute zero, a NaN, above
    /// the upper bound, below the lower bound.
    pub open spec fn verdict(self, temp: Temperature) -> Result<(), CheckedTempError> {
        let m = temp.magnitude();
        if temp.below_abs_zero() {
            Err(CheckedTempError::BelowAbsoluteZero(m))
        } else if m.is_nan() {
            Err(CheckedTempError::GivenValueIsNan)
        } else if m.spec_gt(self.upper) {
            Err(CheckedTempError::TempOutOfBounds(m, "Too high!"))
        } else if m.spec_lt(self.lower) {
            Err(CheckedTempError::TempOutOfBounds(m, "Too low!"))
        } else {
            Ok(())
        }
    }

    /// A bound in the unit `from`, as it is in the unit `to`. Negative
    /// infinity stays the lower bound, and positive infinity the upper one,
    /// without arithmetic.
    pub open spec fn bound_in_unit(bound: Float, open_end: u64, from: Unit, to: Unit) -> Float {
        if bound.bits == open_end {
            bound
        } else {
            from.of(bound).in_unit(to).magnitude()
        }
    }

    /// These bounds, which are in the unit `from`, as they are in the unit
    /// `to`: themselves where the units are the same, and otherwise each
    /// bound converted as a temperature is, but for a lower bound of negative
    /// infinity and an upper bound of positive infinity, which stay.
    pub open spec fn in_unit(self, from: Unit, to: Unit) -> Bounds {
        if from == to {
            self
        } else {
            Bounds {
                lower: Bounds::bound_in_unit(self.lower, NEG_INFINITY_BITS, from, to),
                upper: Bounds::bound_in_unit(self.upper, INFINITY_BITS, from, to),
            }
        }
    }

    /// Tries to set the lower bound. On a refusal the bounds stay as they
    /// were.
    pub fn set_lower(&mut self, val: Float) -> (r: Result<(), CheckedTempError>)
        ensures
            match old(self).with_lower(val) {
                Ok(b) => r == Ok::<(), CheckedTempError>(()) && *final(self) == b,
                Err(e) => r == Err::<(), CheckedTempError>(e) && *final(self) == *old(self),
            },
    {
        if val > self.upper {
            return Err(CheckedTempError::BoundTooHigh(val));
        } else if val < Float::min_value() {
            return Err(CheckedTempError::BoundTooLow(val));
        }
        self.lower = val;

        Ok(())
    }

    /// Tries to set the upper bound. On a refusal the bounds stay as they
    /// were.
    pub fn set_upper(&mut self, val: Float) -> (r: Result<(), CheckedTempError>)
        ensures
            match old(self).with_upper(val) {
                Ok(b) => r == Ok::<(), CheckedTempError>(()) && *final(self) == b,
                Err(e) => r == Err::<(), CheckedTempError>(e) && *final(self) == *old(self),
            },
    {
        if val < self.lower {
            return Err(CheckedTempError::BoundTooLow(val));
        } else if val > Float::max_value() {
            return Err(CheckedTempError::BoundTooHigh(val));
        }
        self.upper = val;

        Ok(())
    }

    /// Looks for what is wrong with a temperature held to these bounds.
    pub fn check(&self, temp: Temperature) -> (r: Result<(), CheckedTempError>)
        ensures
            r == self.verdict(temp),
    {
        if temp.is_below_abs_zero() {
            return Err(CheckedTempError::BelowAbsoluteZero(temp.get_inner()));
        }
        if temp.is_nan() {
            return Err(CheckedTempError::GivenValueIsNan);
        }
        if temp.get_inner() > self.upper {
            return Err(CheckedTempError::TempOutOfBounds(temp.get_inner(), "Too high!"));
        }
        if temp.get_inner() < self.lower {
            return Err(CheckedTempError::TempOutOfBounds(temp.get_inner(), "Too low!"));
        }
        Ok(())
    }
}

/// A [`Temperature`] that was checked when it was taken, with the bounds
/// that it was held to.
#[derive(Clone, Copy, Debug)]
pub struct CheckedTemperature {
    temp: Temperature,
    bounds: Bounds,
}

impl CheckedTemperature {
    /// The temperature that is held.
    pub closed spec fn temperature(self) -> Temperature {
        self.temp
    }

    /// The bounds, in the unit of the temperature that is held.
    pub closed spec fn bounds(self) -> Bounds {
        self.bounds
    }

    /// Whether the temperature that is held would be taken now: it is no
    /// NaN, not below absolute zero, and within the bounds.
    pub open spec fn is_valid(self) -> bool {
        self.bounds().verdict(self.temperature()) is Ok
    }

    /// Whether `after` and `r` are what an attempt to give `self` the
    /// temperature `candidate` leaves and returns: the candidate is held to
    /// the bounds; if nothing is wrong with it, it is taken and the bounds
    /// stay; if something is, that is returned and nothing changes.
    pub open spec fn takes(
        self,
        candidate: Temperature,
        after: CheckedTemperature,
        r: Result<(), CheckedTempError>,
    ) -> bool {
        &&& r == self.bounds().verdict(candidate)
        &&& r is Ok ==> after.temperature() == candidate && after.bounds() == self.bounds()
        &&& r is Err ==> after == self
    }

    /// Whether `after` is `self` in the given unit: the temperature
    /// converted, and the bounds with it.
    pub open spec fn becomes(self, unit: Unit, after: CheckedTemperature) -> bool {
        &&& after.temperature() == self.temperature().in_unit(unit)
        &&& after.bounds() == self.bounds().in_unit(self.temperature().unit(), unit)
    }

    /// Looks for what is wrong with a temperature held to the present
    /// bounds.
    pub fn check(&self, temp: Temperature) -> (r: Result<(), CheckedTempError>)
        ensures
            r == self.bounds().verdict(temp),
    {
        self.bounds.check(temp)
    }

    /// Tries to make a checked temperature of a temperature. It is refused
    /// if it is below absolute zero, a NaN, or above every finite number.
    /// The bounds of the new value are the widest.
    pub fn new(temp: Temperature) -> (r: Result<CheckedTemperature, CheckedTempError>)
        ensures
            match Bounds::finite_numbers().verdict(temp) {
                Ok(_) => r matches Ok(c) && c.temperature() == temp && c.bounds()
                    == Bounds::unbounded() && c.is_valid(),
                Err(e) => r matches Err(f) && f == e,
            },
    {
        let finite = Bounds { lower: Float::min_value(), upper: Float::max_value() };
        match finite.check(temp) {
            Ok(_) => Ok(CheckedTemperature { temp, bounds: Bounds::default() }),
            Err(e) => Err(e),
        }
    }

    /// Tries to change the temperature that is held.
    pub fn set_temperature(&mut self, new: Temperature) -> (r: Result<(), CheckedTempError>)
        ensures
            old(self).takes(new, *final(self), r),
    {
        self.check(new)?;

        self.temp = new;
        Ok(())
    }

    /// The temperature that is held, unchecked from here on.
    pub fn get_unchecked(&self) -> (t: Temperature)
        ensures
            t == self.temperature(),
    {
        self.temp
    }

    /// The temperature that is held, unchecked from here on; the checked
    /// value is given up for it.
    pub fn into_unchecked(self) -> (t: Temperature)
        ensures
            t == self.temperature(),
    {
        self.temp
    }

    /// The bare magnitude.
    pub fn get_inner(&self) -> (m: Float)
        ensures
            m == self.temperature().magnitude(),
    {
        self.temp.get_inner()
    }

    /// The bare magnitude; the checked value is given up for it.
    pub fn into_inner(self) -> (m: Float)
        ensures
            m == self.temperature().magnitude(),
    {
        self.temp.into_inner()
    }

    /// Brings the bounds into another unit. This cannot fail.
    fn adjust_bounds(&mut self, new_unit: Unit) -> (r: Result<(), CheckedTempError>)
        ensures
            r is Ok,
            final(self).temp == old(self).temp,
            final(self).bounds == old(self).bounds.in_unit(old(self).temp.unit(), new_unit),
    {
        let current_unit = self.temp.get_unit();

        // nothing to convert between a unit and itself
        if new_unit == current_unit {
            return Ok(());
        }
        // nor between the infinities of one unit and of another

        if self.bounds.lower == Float::neg_infinity() && self.bounds.upper == Float::infinity() {
            return Ok(());
        }
        if self.bounds.lower != Float::neg_infinity() {
            self.bounds.lower = current_unit.wrap(self.bounds.lower).to_unit(new_unit).into_inner();
        }
        if self.bounds.upper != Float::infinity() {
            self.bounds.upper = current_unit.wrap(self.bounds.upper).to_unit(new_unit).into_inner();
        }
        Ok(())
    }

    /// This value in degrees Fahrenheit, the bounds too. `self` stays as it
    /// is.
    pub fn to_fahrenheit(&self) -> (r: Result<CheckedTemperature, CheckedTempError>)
        ensures
            r matches Ok(c) && self.becomes(Unit::Fahrenheit, c),
    {
        let mut new = *self;

        new.adjust_bounds(Unit::Fahrenheit)?;

        new.temp = new.temp.to_fahrenheit();
        Ok(new)
    }

    /// Brings this value into degrees Celsius, the bounds too, and returns
    /// it.
    pub fn to_celsius(&mut self) -> (r: Result<CheckedTemperature, CheckedTempError>)
        ensures
            old(self).becomes(Unit::Celsius, *final(self)),
            r matches Ok(c) && c == *final(self),
    {
        self.adjust_bounds(Unit::Celsius)?;

        self.temp = self.temp.to_celsius();
        Ok(*self)
    }

    /// Brings this value into kelvins, the bounds too, and returns it.
    pub fn to_kelvin(&mut self) -> (r: Result<CheckedTemperature, CheckedTempError>)
        ensures
            old(self).becomes(Unit::Kelvin, *final(self)),
            r matches Ok(c) && c == *final(self),
    {
        self.adjust_bounds(Unit::Kelvin)?;

        self.temp = self.temp.to_kelvin();
        Ok(*self)
    }

    /// Tries to add a temperature to the one that is held.
    pub fn add(&mut self, temp: Temperature) -> (r: Result<(), CheckedTempError>)
        ensures
            old(self).takes(old(self).temperature().plus(temp), *final(self), r),
    {
        let result = self.temp + temp;
        self.set_temperature(result)
    }

    /// Tries to subtract a temperature from the one that is held.
    pub fn sub(&mut self, temp: Temperature) -> (r: Result<(), CheckedTempError>)
        ensures
            old(self).takes(old(self).temperature().minus(temp), *final(self), r),
    {
        let result = self.temp - temp;
        self.set_temperature(result)
    }

    /// Tries to multiply the temperature that is held by a number.
    pub fn mul(&mut self, num: Float) -> (r: Result<(), CheckedTempError>)
        ensures
            old(self).takes(old(self).temperature().times(num), *final(self), r),
    {
        let result = self.temp * num;
        self.set_temperature(result)
    }

    /// Tries to divide the temperature that is held by a number. A zero of
    /// either sign is refused before anything is divided.
    pub fn div(&mut self, num: Float) -> (r: Result<(), CheckedTempError>)
        ensures
            num.is_zero() ==> r == Err::<(), CheckedTempError>(CheckedTempError::DivisionByZero)
                && *final(self) == *old(self),
            !num.is_zero() ==> old(self).takes(old(self).temperature().over(num), *final(self), r),
    {
        if num.is_zero() {
            return Err(CheckedTempError::DivisionByZero);
        }
        let result = self.temp / num;
        self.set_temperature(result)
    }

    /// Tries to set the upper bound. The temperature that is held is not
    /// looked at.
    pub fn set_upper_bound(&mut self, bound: Float) -> (r: Result<(), CheckedTempError>)
        ensures
            final(self).temperature() == old(self).temperature(),
            match old(self).bounds().with_upper(bound) {
                Ok(b) => r == Ok::<(), CheckedTempError>(()) && final(self).bounds() == b,
                Err(e) => r == Err::<(), CheckedTempError>(e) && *final(self) == *old(self),
            },
    {
        self.bounds.set_upper(bound)?;
        Ok(())
    }

    /// Tries to set the lower bound. The temperature that is held is not
    /// looked at.
    pub fn set_lower_bound(&mut self, bound: Float) -> (r: Result<(), CheckedTempError>)
        ensures
            final(self).temperature() == old(self).temperature(),
            match old(self).bounds().with_lower(bound) {
                Ok(b) => r == Ok::<(), CheckedTempError>(()) && final(self).bounds() == b,
                Err(e) => r == Err::<(), CheckedTempError>(e) && *final(self) == *old(self),
            },
    {
        self.bounds.set_lower(bound)?;
        Ok(())
    }

    /// Tries to set both bounds, the lower one first. If either is refused,
    /// both stay as they were. The temperature that is held is not looked
    /// at.
    pub fn set_bounds(&mut self, lower_bound: Float, upper_bound: Float) -> (r: Result<
        (),
        CheckedTempError,
    >)
        ensures
            final(self).temperature() == old(self).temperature(),
            match old(self).bounds().with_both(lower_bound, upper_bound) {
                Ok(b) => r == Ok::<(), CheckedTempError>(()) && final(self).bounds() == b,
                Err(e) => r == Err::<(), CheckedTempError>(e) && *final(self) == *old(self),
            },
    {
        let mut bounds = self.bounds;
        bounds.set_lower(lower_bound)?;
        bounds.set_upper(upper_bound)?;

        self.bounds = bounds;
        Ok(())
    }

    /// The structured form of the temperature that is held, given its
    /// magnitude in writing: that of the unchecked temperature.
    pub fn debug_form(&self, magnitude: &str) -> (s: String)
        ensures
            s@ == self.temperature().structured(magnitude@),
    {
        self.temp.debug_form(magnitude)
    }

    /// The bounds as temperatures in the unit of the one that is held, the
    /// lower one first.
    pub fn get_bounds(&self) -> (r: (Temperature, Temperature))
        ensures
            r.0 == self.temperature().unit().of(self.bounds().lower),
            r.1 == self.temperature().unit().of(self.bounds().upper),
    {
        let unit = self.temp.get_unit();

        (unit.wrap(self.bounds.lower), unit.wrap(self.bounds.upper))
    }
}

impl PartialEq for Bounds {
    /// Bounds are equal when both ends are equal numbers.
    fn eq(&self, other: &Bounds) -> (r: bool) {
        self.lower == other.lower && self.upper == other.upper
    }
}

impl vstd::std_specs::cmp::PartialEqSpecImpl for Bounds {
    open spec fn obeys_eq_spec() -> bool {
        true
    }

    open spec fn eq_spec(&self, other: &Bounds) -> bool {
        self.lower.spec_eq(other.lower) && self.upper.spec_eq(other.upper)
    }
}

impl PartialEq for CheckedTemperature {
    /// Checked temperatures are equal when the temperatures are, and the
    /// bounds.
    fn eq(&self, other: &CheckedTemperature) -> (r: bool) {
        self.temp == other.temp && self.bounds == other.bounds
    }
}

impl vstd::std_specs::cmp::PartialEqSpecImpl for CheckedTemperature {
    open spec fn obeys_eq_spec() -> bool {
        true
    }

    open spec fn eq_spec(&self, other: &CheckedTemperature) -> bool {
        &&& self.temperature().unit() == other.temperature().unit()
        &&& self.temperature().magnitude().spec_eq(other.temperature().magnitude())
        &&& self.bounds().lower.spec_eq(other.bounds().lower)
        &&& self.bounds().upper.spec_eq(other.bounds().upper)
    }
}

/// A checked temperature is what it holds: two with the same temperature and
/// the same bounds are the same.
pub proof fn lemma_parts_make_the_whole(a: CheckedTemperature, b: CheckedTemperature)
    requires
        a.temperature() == b.temperature(),
        a.bounds() == b.bounds(),
    ensures
        a == b,
{
}

/// What is taken is valid: after a temperature was accepted, the value holds
/// one that is no NaN, not below absolute zero, not above the upper bound
/// and not below the lower one.
pub proof fn lemma_taken_is_valid(
    before: CheckedTemperature,
    candidate: Temperature,
    after: CheckedTemperature,
)
    requires
        before.takes(candidate, after, Ok(())),
    ensures
        after.is_valid(),
        after.temperature() == candidate,
        !candidate.magnitude().is_nan(),
        !candidate.below_abs_zero(),
        !candidate.magnitude().spec_gt(after.bounds().upper),
        !candidate.magnitude().spec_lt(after.bounds().lower),
{
}

/// What is refused changes nothing, whatever the reason.
pub proof fn lemma_refused_changes_nothing(
    before: CheckedTemperature,
    candidate: Temperature,
    after: CheckedTemperature,
    e: CheckedTempError,
)
    requires
        before.takes(candidate, after, Err(e)),
    ensures
        after == before,
{
}

/// A new checked temperature is made of every temperature that is no NaN,
/// not below absolute zero and not positive infinity, and of no other. Of
/// the refusals, only one for positive infinity speaks of bounds.
pub proof fn lemma_what_is_taken_at_first(temp: Temperature)
    ensures
        Bounds::finite_numbers().verdict(temp) is Ok <==> !temp.magnitude().is_nan() && !temp.below_abs_zero()
            && temp.magnitude().bits != INFINITY_BITS,
        Bounds::finite_numbers().verdict(temp) matches Err(CheckedTempError::TempOutOfBounds(m, _))
            ==> m.bits == INFINITY_BITS,
{
}

/// A checked temperature brought into the unit that it has is unchanged,
/// the bounds too.
pub proof fn lemma_own_unit_changes_nothing(c: CheckedTemperature, after: CheckedTemperature)
    requires
        c.becomes(c.temperature().unit(), after),
    ensures
        after == c,
{
    crate::lemma_own_unit_is_identity(c.temperature());
}

/// The widest bounds are the widest in every unit: infinities are not
/// converted.
pub proof fn lemma_unbounded_in_every_unit(from: Unit, to: Unit)
    ensures
        Bounds::unbounded().in_unit(from, to) == Bounds::unbounded(),
{
}

/// A bound that was accepted does not cross the other: if the lower bound
/// was not above the upper one before, it is not after.
pub proof fn lemma_accepted_bounds_keep_their_order(b: Bounds, val: Float)
    requires
        !b.lower.spec_gt(b.upper),
    ensures
        b.with_lower(val) matches Ok(c) ==> !c.lower.spec_gt(c.upper) && c.upper == b.upper,
        b.with_upper(val) matches Ok(c) ==> !c.lower.spec_gt(c.upper) && c.lower == b.lower,
{
}

/// Both bounds are set as one after the other would be, the lower one
/// first: so the new lower bound is held against the old upper one.
pub proof fn lemma_both_bounds_in_turn(b: Bounds, lower: Float, upper: Float)
    ensures
        b.with_both(lower, upper) matches Ok(c) ==> c.lower == lower && c.upper == upper
            && !lower.spec_gt(b.upper) && !upper.spec_lt(lower),
        lower.spec_gt(b.upper) ==> b.with_both(lower, upper) == Err::<Bounds, CheckedTempError>(
            CheckedTempError::BoundTooHigh(lower),
        ),
{
}

} // verus!
