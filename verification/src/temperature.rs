//! The unit a temperature is shown in.

use vstd::prelude::*;

verus! {

/// The unit in which the temperature is displayed. Readings are always kept
/// in Celsius; the unit only matters when a value is shown.
#[derive(Debug, Clone, Copy, PartialEq, Eq, Structural)]
pub enum TemperatureUnit {
    Celsius,
    Fahrenheit,
}

/// Degrees Fahrenheit for `celsius` degrees Celsius, in integer arithmetic:
/// the quotient is truncated before the offset is added.
pub open spec fn fahrenheit_of(celsius: int) -> int {
    celsius * 9 / 5 + 32
}

/// The number to display for `celsius` in `unit`.
pub open spec fn displayed_of(celsius: int, unit: TemperatureUnit) -> int {
    match unit {
        TemperatureUnit::Celsius => celsius,
        TemperatureUnit::Fahrenheit => fahrenheit_of(celsius),
    }
}

impl TemperatureUnit {
    /// The other unit.
    pub open spec fn spec_toggled(self) -> TemperatureUnit {
        match self {
            TemperatureUnit::Celsius => TemperatureUnit::Fahrenheit,
            TemperatureUnit::Fahrenheit => TemperatureUnit::Celsius,
        }
    }

    /// The other unit.
    #[verifier::when_used_as_spec(spec_toggled)]
    pub fn toggled(self) -> (other: TemperatureUnit)
        ensures
            other == self.spec_toggled(),
            other != self,
            other.spec_toggled() == self,
    {
        match self {
            TemperatureUnit::Celsius => TemperatureUnit::Fahrenheit,
            TemperatureUnit::Fahrenheit => TemperatureUnit::Celsius,
        }
    }
}

impl Default for TemperatureUnit {
    /// Celsius, the unit of the readings.
    fn default() -> (unit: TemperatureUnit)
        ensures
            unit == TemperatureUnit::Celsius,
    {
        TemperatureUnit::Celsius
    }
}

/// Converts a Celsius reading to Fahrenheit. The result is exact for every
/// reading, which is why it is wider than its argument.
pub fn to_fahrenheit(celsius: u32) -> (fahrenheit: u64)
    ensures
        fahrenheit == fahrenheit_of(celsius as int),
{
    let scaled: u64 = celsius as u64 * 9;
    scaled / 5 + 32
}

/// The number to display for a Celsius reading in `unit`.
pub fn displayed_temperature(celsius: u32, unit: TemperatureUnit) -> (shown: u64)
    ensures
        shown == displayed_of(celsius as int, unit),
{
    match unit {
        TemperatureUnit::Celsius => celsius as u64,
        TemperatureUnit::Fahrenheit => to_fahrenheit(celsius),
    }
}

} // verus!
