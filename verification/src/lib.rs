//! Temperatures that keep their unit.
//!
//! A [`Temperature`] is a double-precision magnitude tagged with one of
//! three units. It converts between the units, adds and subtracts other
//! temperatures, scales by a number, and tells whether it is a NaN or lies
//! below absolute zero. It is never refused: a [`CheckedTemperature`] is the
//! kind that is.
//!
//! Magnitudes are [`Float`]s: doubles carried as their bit patterns, so that
//! every decision on a magnitude is a decision on an integer.
//!
//! ```text
//! let ice = Temperature::Fahrenheit(Float::from_bits(0x4040_0000_0000_0000));
//! let ice_c = ice.to_celsius();
//! assert!(ice_c.get_inner().is_zero());
//!
//! let mut room = CheckedTemperature::new(ice_c)?;
//! room.set_bounds(Float::from_bits(0), Float::from_bits(0x4049_0000_0000_0000))?;
//! assert!(room.div(Float::from_bits(0)).is_err());
//! ```
//!
//! The modules: [`float`] holds the numbers, [`value`] what their patterns
//! stand for, [`checked`] the checked temperatures; the temperatures
//! themselves are here.
pub mod checked;
pub mod float;
pub mod value;

pub use crate::checked::CheckedTemperature;
pub use crate::float::Float;
use vstd::prelude::*;
use vstd::string::StringExecFns;

verus! {

/// The pattern of 32.0, the freezing point of water in degrees Fahrenheit.
pub const FREEZING_FAHRENHEIT_BITS: u64 = 0x4040_0000_0000_0000;

/// The pattern of 1.8, the number of degrees Fahrenheit in a degree Celsius.
pub const FAHRENHEIT_PER_CELSIUS_BITS: u64 = 0x3ffc_cccc_cccc_cccd;

/// The pattern of 273.15, the freezing point of water in kelvins.
pub const FREEZING_KELVIN_BITS: u64 = 0x4071_1266_6666_6666;

/// The pattern of -459.67, absolute zero in degrees Fahrenheit.
pub const ABS_ZERO_FAHRENHEIT_BITS: u64 = 0xc07c_bab8_51eb_851f;

/// The pattern of -273.15, absolute zero in degrees Celsius.
pub const ABS_ZERO_CELSIUS_BITS: u64 = 0xc071_1266_6666_6666;

/// The pattern of 0.0, absolute zero in kelvins.
pub const ABS_ZERO_KELVIN_BITS: u64 = 0;

/// The freezing point of water in degrees Fahrenheit: 32.
pub open spec fn freezing_fahrenheit() -> Float {
    Float { bits: FREEZING_FAHRENHEIT_BITS }
}

/// The number of degrees Fahrenheit in a degree Celsius: the double nearest
/// to 1.8.
pub open spec fn fahrenheit_per_celsius() -> Float {
    Float { bits: FAHRENHEIT_PER_CELSIUS_BITS }
}

/// The freezing point of water in kelvins: the double nearest to 273.15.
pub open spec fn freezing_kelvin() -> Float {
    Float { bits: FREEZING_KELVIN_BITS }
}

/// Degrees Fahrenheit as degrees Celsius: (F - 32) / 1.8.
pub open spec fn fahrenheit_to_celsius(f: Float) -> Float {
    f.minus(freezing_fahrenheit()).over(fahrenheit_per_celsius())
}

/// Degrees Celsius as degrees Fahrenheit: C * 1.8 + 32.
pub open spec fn celsius_to_fahrenheit(c: Float) -> Float {
    c.times(fahrenheit_per_celsius()).plus(freezing_fahrenheit())
}

/// Degrees Celsius as kelvins: C + 273.15.
pub open spec fn celsius_to_kelvin(c: Float) -> Float {
    c.plus(freezing_kelvin())
}

/// Kelvins as degrees Celsius: K - 273.15.
pub open spec fn kelvin_to_celsius(k: Float) -> Float {
    k.minus(freezing_kelvin())
}

/// One of the three units of temperature.
#[derive(Clone, Copy, Debug, PartialEq, Eq, Structural)]
pub enum Unit {
    Fahrenheit,
    Celsius,
    Kelvin,
}

/// A value that is one of three common temperature units: a magnitude that
/// keeps its unit. Any magnitude can be held, a NaN and one below absolute
/// zero too.
#[derive(Clone, Copy, Debug)]
pub enum Temperature {
    Fahrenheit(Float),
    Celsius(Float),
    Kelvin(Float),
}

impl Unit {
    /// The temperature of the given magnitude in this unit.
    pub open spec fn of(self, magnitude: Float) -> Temperature {
        match self {
            Unit::Fahrenheit => Temperature::Fahrenheit(magnitude),
            Unit::Celsius => Temperature::Celsius(magnitude),
            Unit::Kelvin => Temperature::Kelvin(magnitude),
        }
    }

    /// Absolute zero in this unit: the double nearest to -459.67, the one
    /// nearest to -273.15, or 0.
    pub open spec fn abs_zero(self) -> Float {
        match self {
            Unit::Fahrenheit => Float { bits: ABS_ZERO_FAHRENHEIT_BITS },
            Unit::Celsius => Float { bits: ABS_ZERO_CELSIUS_BITS },
            Unit::Kelvin => Float { bits: ABS_ZERO_KELVIN_BITS },
        }
    }

    /// Tags a magnitude with this unit.
    pub fn wrap(self, magnitude: Float) -> (t: Temperature)
        ensures
            t == self.of(magnitude),
    {
        match self {
            Unit::Fahrenheit => Temperature::Fahrenheit(magnitude),
            Unit::Celsius => Temperature::Celsius(magnitude),
            Unit::Kelvin => Temperature::Kelvin(magnitude),
        }
    }

    /// The unit's name, as the structured form of a temperature spells it.
    pub fn name(self) -> (s: &'static str)
        ensures
            s@ == match self {
                Unit::Fahrenheit => "Fahrenheit"@,
                Unit::Celsius => "Celsius"@,
                Unit::Kelvin => "Kelvin"@,
            },
    {
        match self {
            Unit::Fahrenheit => "Fahrenheit",
            Unit::Celsius => "Celsius",
            Unit::Kelvin => "Kelvin",
        }
    }
}

impl Temperature {
    /// The unit that the magnitude is tagged with.
    pub open spec fn unit(self) -> Unit {
        match self {
            Temperature::Fahrenheit(_) => Unit::Fahrenheit,
            Temperature::Celsius(_) => Unit::Celsius,
            Temperature::Kelvin(_) => Unit::Kelvin,
        }
    }

    /// The bare magnitude.
    pub open spec fn magnitude(self) -> Float {
        match self {
            Temperature::Fahrenheit(m) => m,
            Temperature::Celsius(m) => m,
            Temperature::Kelvin(m) => m,
        }
    }

    /// The same temperature in the given unit. In its own unit it is itself;
    /// between Fahrenheit and Kelvin the way leads through Celsius.
    pub open spec fn in_unit(self, unit: Unit) -> Temperature {
        match (self, unit) {
            (Temperature::Fahrenheit(_), Unit::Fahrenheit) => self,
            (Temperature::Celsius(c), Unit::Fahrenheit) => Temperature::Fahrenheit(
                celsius_to_fahrenheit(c),
            ),
            (Temperature::Kelvin(k), Unit::Fahrenheit) => Temperature::Fahrenheit(
                celsius_to_fahrenheit(kelvin_to_celsius(k)),
            ),
            (Temperature::Fahrenheit(f), Unit::Celsius) => Temperature::Celsius(
                fahrenheit_to_celsius(f),
            ),
            (Temperature::Celsius(_), Unit::Celsius) => self,
            (Temperature::Kelvin(k), Unit::Celsius) => Temperature::Celsius(kelvin_to_celsius(k)),
            (Temperature::Fahrenheit(f), Unit::Kelvin) => Temperature::Kelvin(
                celsius_to_kelvin(fahrenheit_to_celsius(f)),
            ),
            (Temperature::Celsius(c), Unit::Kelvin) => Temperature::Kelvin(celsius_to_kelvin(c)),
            (Temperature::Kelvin(_), Unit::Kelvin) => self,
        }
    }

    /// Whether the magnitude is below absolute zero as the temperature's own
    /// unit has it. Nothing is converted, and a NaN is below nothing.
    pub open spec fn below_abs_zero(self) -> bool {
        self.magnitude().spec_lt(self.unit().abs_zero())
    }

    /// The unit of the temperature.
    pub fn get_unit(&self) -> (u: Unit)
        ensures
            u == self.unit(),
    {
        match self {
            Temperature::Fahrenheit(_) => Unit::Fahrenheit,
            Temperature::Celsius(_) => Unit::Celsius,
            Temperature::Kelvin(_) => Unit::Kelvin,
        }
    }

    /// This temperature in degrees Fahrenheit.
    pub fn to_fahrenheit(&self) -> (t: Temperature)
        ensures
            t == self.in_unit(Unit::Fahrenheit),
            self.unit() == Unit::Fahrenheit ==> t == *self,
    {
        let thirty_two = Float::from_bits(FREEZING_FAHRENHEIT_BITS);
        let nine_fifths = Float::from_bits(FAHRENHEIT_PER_CELSIUS_BITS);
        let ice = Float::from_bits(FREEZING_KELVIN_BITS);
        match self {
            Temperature::Fahrenheit(_) => *self,
            Temperature::Celsius(c) => Temperature::Fahrenheit((*c * nine_fifths) + thirty_two),
            Temperature::Kelvin(k) => Temperature::Fahrenheit(
                ((*k - ice) * nine_fifths) + thirty_two,
            ),
        }
    }

    /// This temperature in degrees Celsius.
    pub fn to_celsius(&self) -> (t: Temperature)
        ensures
            t == self.in_unit(Unit::Celsius),
            self.unit() == Unit::Celsius ==> t == *self,
    {
        let thirty_two = Float::from_bits(FREEZING_FAHRENHEIT_BITS);
        let nine_fifths = Float::from_bits(FAHRENHEIT_PER_CELSIUS_BITS);
        let ice = Float::from_bits(FREEZING_KELVIN_BITS);
        match self {
            Temperature::Fahrenheit(f) => Temperature::Celsius((*f - thirty_two) / nine_fifths),
            Temperature::Celsius(_) => *self,
            Temperature::Kelvin(k) => Temperature::Celsius(*k - ice),
        }
    }

    /// This temperature in kelvins.
    pub fn to_kelvin(&self) -> (t: Temperature)
        ensures
            t == self.in_unit(Unit::Kelvin),
            self.unit() == Unit::Kelvin ==> t == *self,
    {
        let thirty_two = Float::from_bits(FREEZING_FAHRENHEIT_BITS);
        let nine_fifths = Float::from_bits(FAHRENHEIT_PER_CELSIUS_BITS);
        let ice = Float::from_bits(FREEZING_KELVIN_BITS);
        match self {
            Temperature::Fahrenheit(f) => Temperature::Kelvin(
                ((*f - thirty_two) / nine_fifths) + ice,
            ),
            Temperature::Celsius(c) => Temperature::Kelvin(*c + ice),
            Temperature::Kelvin(_) => *self,
        }
    }

    /// This temperature in the given unit.
    pub fn to_unit(&self, unit: Unit) -> (t: Temperature)
        ensures
            t == self.in_unit(unit),
            self.unit() == unit ==> t == *self,
    {
        match unit {
            Unit::Fahrenheit => self.to_fahrenheit(),
            Unit::Celsius => self.to_celsius(),
            Unit::Kelvin => self.to_kelvin(),
        }
    }

    /// The bare magnitude; the temperature is given up for it.
    pub fn into_inner(self) -> (m: Float)
        ensures
            m == self.magnitude(),
    {
        match self {
            Temperature::Fahrenheit(t) => t,
            Temperature::Celsius(t) => t,
            Temperature::Kelvin(t) => t,
        }
    }

    /// The bare magnitude.
    pub fn get_inner(&self) -> (m: Float)
        ensures
            m == self.magnitude(),
    {
        match self {
            Temperature::Fahrenheit(t) => *t,
            Temperature::Celsius(t) => *t,
            Temperature::Kelvin(t) => *t,
        }
    }

    /// Whether the temperature is below absolute zero, which no temperature
    /// can be. The magnitude is held against -459.67, -273.15 or 0, by the
    /// temperature's own unit.
    pub fn is_below_abs_zero(&self) -> (b: bool)
        ensures
            b == self.below_abs_zero(),
    {
        match self {
            Temperature::Fahrenheit(f) => *f < Float::from_bits(ABS_ZERO_FAHRENHEIT_BITS),
            Temperature::Celsius(c) => *c < Float::from_bits(ABS_ZERO_CELSIUS_BITS),
            Temperature::Kelvin(k) => *k < Float::from_bits(ABS_ZERO_KELVIN_BITS),
        }
    }

    /// Whether the magnitude is a NaN.
    pub fn is_nan(&self) -> (b: bool)
        ensures
            b == self.magnitude().is_nan(),
    {
        match self {
            Temperature::Celsius(t) | Temperature::Fahrenheit(t) | Temperature::Kelvin(t) => {
                t.is_nan()
            },
        }
    }
}

impl Temperature {
    /// The sum of two temperatures, in the unit of the first: the second is
    /// brought into that unit before the magnitudes are added.
    pub open spec fn plus(self, rhs: Temperature) -> Temperature {
        self.unit().of(self.magnitude().plus(rhs.in_unit(self.unit()).magnitude()))
    }

    /// The difference of two temperatures, in the unit of the first: the
    /// second is brought into that unit before the magnitudes are subtracted.
    pub open spec fn minus(self, rhs: Temperature) -> Temperature {
        self.unit().of(self.magnitude().minus(rhs.in_unit(self.unit()).magnitude()))
    }

    /// The temperature with its magnitude multiplied by a number.
    pub open spec fn times(self, rhs: Float) -> Temperature {
        self.unit().of(self.magnitude().times(rhs))
    }

    /// The temperature with its magnitude divided by a number.
    pub open spec fn over(self, rhs: Float) -> Temperature {
        self.unit().of(self.magnitude().over(rhs))
    }

    /// The structured form of a temperature whose magnitude is written as
    /// `magnitude`: `Temperature::`, the unit's name, and the magnitude in
    /// round brackets.
    pub open spec fn structured(self, magnitude: Seq<char>) -> Seq<char> {
        "Temperature::"@ + match self.unit() {
            Unit::Fahrenheit => "Fahrenheit"@,
            Unit::Celsius => "Celsius"@,
            Unit::Kelvin => "Kelvin"@,
        } + "("@ + magnitude + ")"@
    }

    /// The structured form of the temperature, given its magnitude in
    /// writing: `Temperature::Celsius(0.00000)` for a magnitude written as
    /// `0.00000`. How a magnitude is written is the caller's choice.
    pub fn debug_form(&self, magnitude: &str) -> (s: String)
        ensures
            s@ == self.structured(magnitude@),
    {
        let mut s = String::from_str("Temperature::");
        s.append(self.get_unit().name());
        s.append("(");
        s.append(magnitude);
        s.append(")");
        s
    }
}

/// A temperature converted to the unit that it has is the same temperature:
/// nothing is computed, so nothing is rounded.
pub proof fn lemma_own_unit_is_identity(t: Temperature)
    ensures
        t.in_unit(t.unit()) == t,
{
}

/// A conversion gives the unit that was asked for, whatever the magnitude.
pub proof fn lemma_conversion_gives_unit(t: Temperature, unit: Unit)
    ensures
        t.in_unit(unit).unit() == unit,
{
}

/// A conversion from one unit to another leads through Celsius: converting
/// in one step is converting to Celsius first and on from there.
pub proof fn lemma_conversion_through_celsius(t: Temperature, unit: Unit)
    ensures
        t.unit() != unit ==> t.in_unit(unit) == t.in_unit(Unit::Celsius).in_unit(unit),
{
}

/// A sum, a difference, a product and a quotient keep the unit of the
/// temperature on the left.
pub proof fn lemma_arithmetic_keeps_unit(t: Temperature, rhs: Temperature, num: Float)
    ensures
        t.plus(rhs).unit() == t.unit(),
        t.minus(rhs).unit() == t.unit(),
        t.times(num).unit() == t.unit(),
        t.over(num).unit() == t.unit(),
{
}

impl PartialEq for Temperature {
    /// Two temperatures are equal when they have the same unit and equal
    /// magnitudes; nothing is converted.
    fn eq(&self, other: &Temperature) -> (r: bool) {
        match (self, other) {
            (Temperature::Fahrenheit(a), Temperature::Fahrenheit(b)) => *a == *b,
            (Temperature::Celsius(a), Temperature::Celsius(b)) => *a == *b,
            (Temperature::Kelvin(a), Temperature::Kelvin(b)) => *a == *b,
            _ => false,
        }
    }
}

impl vstd::std_specs::cmp::PartialEqSpecImpl for Temperature {
    open spec fn obeys_eq_spec() -> bool {
        true
    }

    open spec fn eq_spec(&self, other: &Temperature) -> bool {
        self.unit() == other.unit() && self.magnitude().spec_eq(other.magnitude())
    }
}

impl From<Temperature> for Float {
    /// The bare magnitude.
    fn from(value: Temperature) -> (r: Float) {
        value.into_inner()
    }
}

impl vstd::std_specs::convert::FromSpecImpl<Temperature> for Float {
    open spec fn obeys_from_spec() -> bool {
        true
    }

    open spec fn from_spec(value: Temperature) -> Float {
        value.magnitude()
    }
}

impl core::ops::Add for Temperature {
    type Output = Temperature;

    fn add(self, rhs: Temperature) -> (r: Temperature) {
        match self {
            Temperature::Fahrenheit(f) => Temperature::Fahrenheit(
                f + rhs.to_fahrenheit().into_inner(),
            ),
            Temperature::Celsius(c) => Temperature::Celsius(c + rhs.to_celsius().into_inner()),
            Temperature::Kelvin(k) => Temperature::Kelvin(k + rhs.to_kelvin().into_inner()),
        }
    }
}

impl vstd::std_specs::ops::AddSpecImpl for Temperature {
    open spec fn obeys_add_spec() -> bool {
        true
    }

    open spec fn add_req(self, rhs: Temperature) -> bool {
        true
    }

    open spec fn add_spec(self, rhs: Temperature) -> Temperature {
        self.plus(rhs)
    }
}

impl core::ops::Sub for Temperature {
    type Output = Temperature;

    fn sub(self, rhs: Temperature) -> (r: Temperature) {
        match self {
            Temperature::Fahrenheit(f) => Temperature::Fahrenheit(
                f - rhs.to_fahrenheit().into_inner(),
            ),
            Temperature::Celsius(c) => Temperature::Celsius(c - rhs.to_celsius().into_inner()),
            Temperature::Kelvin(k) => Temperature::Kelvin(k - rhs.to_kelvin().into_inner()),
        }
    }
}

impl vstd::std_specs::ops::SubSpecImpl for Temperature {
    open spec fn obeys_sub_spec() -> bool {
        true
    }

    open spec fn sub_req(self, rhs: Temperature) -> bool {
        true
    }

    open spec fn sub_spec(self, rhs: Temperature) -> Temperature {
        self.minus(rhs)
    }
}

impl core::ops::Div<Float> for Temperature {
    type Output = Temperature;

    fn div(self, rhs: Float) -> (r: Temperature) {
        match self {
            Temperature::Fahrenheit(f) => Temperature::Fahrenheit(f / rhs),
            Temperature::Celsius(c) => Temperature::Celsius(c / rhs),
            Temperature::Kelvin(k) => Temperature::Kelvin(k / rhs),
        }
    }
}

impl vstd::std_specs::ops::DivSpecImpl<Float> for Temperature {
    open spec fn obeys_div_spec() -> bool {
        true
    }

    open spec fn div_req(self, rhs: Float) -> bool {
        true
    }

    open spec fn div_spec(self, rhs: Float) -> Temperature {
        self.over(rhs)
    }
}

impl core::ops::Mul<Float> for Temperature {
    type Output = Temperature;

    fn mul(self, rhs: Float) -> (r: Temperature) {
        match self {
            Temperature::Fahrenheit(f) => Temperature::Fahrenheit(f * rhs),
            Temperature::Celsius(c) => Temperature::Celsius(c * rhs),
            Temperature::Kelvin(k) => Temperature::Kelvin(k * rhs),
        }
    }
}

impl vstd::std_specs::ops::MulSpecImpl<Float> for Temperature {
    open spec fn obeys_mul_spec() -> bool {
        true
    }

    open spec fn mul_req(self, rhs: Float) -> bool {
        true
    }

    open spec fn mul_spec(self, rhs: Float) -> Temperature {
        self.times(rhs)
    }
}

} // verus!
