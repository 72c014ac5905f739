//! Display units and the conversions from metric readings.

use crate::text::{lowercase_of, same_text, to_lowercase};
use vstd::prelude::*;
use vstd::string::StringExecFns;

verus! {

/// The unit in which temperatures are shown.
#[derive(Debug, Clone, Copy, PartialEq, Eq, Structural)]
pub enum TemperatureUnit {
    Celsius,
    Fahrenheit,
}

/// The unit in which wind speeds are shown.
#[derive(Debug, Clone, Copy, PartialEq, Eq, Structural)]
pub enum WindSpeedUnit {
    MetersPerSecond,
    KilometersPerHour,
    MilesPerHour,
}

/// A temperature of `celsius` thousandths of a degree Celsius, expressed in
/// millionths of a degree of `unit`.
pub open spec fn converted_temperature(unit: TemperatureUnit, celsius: int) -> int {
    match unit {
        TemperatureUnit::Celsius => celsius * 1000,
        TemperatureUnit::Fahrenheit => celsius * 1800 + 32_000_000,
    }
}

/// A speed of `mps` thousandths of a metre per second, expressed in
/// millionths of `unit`.
pub open spec fn converted_wind_speed(unit: WindSpeedUnit, mps: int) -> int {
    match unit {
        WindSpeedUnit::MetersPerSecond => mps * 1000,
        WindSpeedUnit::KilometersPerHour => mps * 3600,
        WindSpeedUnit::MilesPerHour => mps * 2237,
    }
}

/// The symbol written after a temperature.
pub open spec fn unit_symbol(unit: TemperatureUnit) -> Seq<char> {
    match unit {
        TemperatureUnit::Celsius => "°C"@,
        TemperatureUnit::Fahrenheit => "°F"@,
    }
}

/// The label written after a wind speed.
pub open spec fn wind_unit_label(unit: WindSpeedUnit) -> Seq<char> {
    match unit {
        WindSpeedUnit::MetersPerSecond => "m/s"@,
        WindSpeedUnit::KilometersPerHour => "km/h"@,
        WindSpeedUnit::MilesPerHour => "mph"@,
    }
}

/// The unit that an already lowercased name stands for, if any.
pub open spec fn unit_named(lower: Seq<char>) -> Option<TemperatureUnit> {
    if lower == "celsius"@ || lower == "c"@ {
        Some(TemperatureUnit::Celsius)
    } else if lower == "fahrenheit"@ || lower == "f"@ {
        Some(TemperatureUnit::Fahrenheit)
    } else {
        None
    }
}

impl TemperatureUnit {
    /// Reads a unit from a name that is already in lower case: `celsius` or
    /// `c`, `fahrenheit` or `f`. Any other name is refused.
    pub fn from_lowercase(lower: &str) -> (parsed: Result<TemperatureUnit, String>)
        ensures
            unit_named(lower@) is Some ==> parsed == Ok::<TemperatureUnit, String>(
                unit_named(lower@)->Some_0,
            ),
            unit_named(lower@) is None ==> parsed is Err && parsed->Err_0@
                == "Invalid temperature unit"@,
    {
        if same_text(lower, "celsius") || same_text(lower, "c") {
            Ok(TemperatureUnit::Celsius)
        } else if same_text(lower, "fahrenheit") || same_text(lower, "f") {
            Ok(TemperatureUnit::Fahrenheit)
        } else {
            Err(String::from_str("Invalid temperature unit"))
        }
    }

    /// Reads a unit from its name, whatever the case of its letters.
    pub fn from_str(s: &str) -> (parsed: Result<TemperatureUnit, String>)
        ensures
            unit_named(lowercase_of(s@)) is Some ==> parsed == Ok::<TemperatureUnit, String>(
                unit_named(lowercase_of(s@))->Some_0,
            ),
            unit_named(lowercase_of(s@)) is None ==> parsed is Err && parsed->Err_0@
                == "Invalid temperature unit"@,
    {
        let lower = to_lowercase(s);
        TemperatureUnit::from_lowercase(lower.as_str())
    }
}

/// The units chosen for a session.
#[derive(Debug, Clone, Copy)]
pub struct WeatherFormatter {
    pub temperature_unit: TemperatureUnit,
    pub wind_speed_unit: WindSpeedUnit,
}

impl WeatherFormatter {
    /// A formatter for the given units.
    pub fn new(temperature_unit: TemperatureUnit, wind_speed_unit: WindSpeedUnit) -> (formatter:
        WeatherFormatter)
        ensures
            formatter.temperature_unit == temperature_unit,
            formatter.wind_speed_unit == wind_speed_unit,
    {
        WeatherFormatter { temperature_unit, wind_speed_unit }
    }

    /// Converts a temperature from thousandths of a degree Celsius to
    /// millionths of a degree of the chosen unit, without rounding.
    pub fn format_temperature(&self, celsius: i32) -> (shown: i64)
        ensures
            shown == converted_temperature(self.temperature_unit, celsius as int),
    {
        let c: i64 = celsius as i64;
        match self.temperature_unit {
            TemperatureUnit::Celsius => c * 1000,
            TemperatureUnit::Fahrenheit => c * 1800 + 32_000_000,
        }
    }

    /// Converts a wind speed from thousandths of a metre per second to
    /// millionths of the chosen unit, without rounding.
    pub fn format_wind_speed(&self, meters_per_second: i32) -> (shown: i64)
        ensures
            shown == converted_wind_speed(self.wind_speed_unit, meters_per_second as int),
    {
        let v: i64 = meters_per_second as i64;
        match self.wind_speed_unit {
            WindSpeedUnit::MetersPerSecond => v * 1000,
            WindSpeedUnit::KilometersPerHour => v * 3600,
            WindSpeedUnit::MilesPerHour => v * 2237,
        }
    }

    /// The symbol of the chosen temperature unit.
    pub fn get_unit_symbol(&self) -> (symbol: &'static str)
        ensures
            symbol@ == unit_symbol(self.temperature_unit),
    {
        match self.temperature_unit {
            TemperatureUnit::Celsius => "°C",
            TemperatureUnit::Fahrenheit => "°F",
        }
    }

    /// The label of the chosen wind speed unit.
    pub fn get_wind_unit_label(&self) -> (label: &'static str)
        ensures
            label@ == wind_unit_label(self.wind_speed_unit),
    {
        match self.wind_speed_unit {
            WindSpeedUnit::MetersPerSecond => "m/s",
            WindSpeedUnit::KilometersPerHour => "km/h",
            WindSpeedUnit::MilesPerHour => "mph",
        }
    }
}

/// A Celsius reading shown in Celsius is the same quantity, and one shown in
/// Fahrenheit is nine fifths of it plus thirty-two degrees.
pub proof fn temperature_conversion_law(celsius: int)
    ensures
        converted_temperature(TemperatureUnit::Celsius, celsius) == celsius * 1000,
        converted_temperature(TemperatureUnit::Fahrenheit, celsius) * 5 == (celsius * 1000) * 9
            + 32_000_000 * 5,
{
}

/// No wind is no wind in every unit.
pub proof fn still_air_law(unit: WindSpeedUnit)
    ensures
        converted_wind_speed(unit, 0) == 0,
{
}

/// Wind speed conversion is linear: it maps sums to sums and multiples to
/// multiples.
pub proof fn wind_speed_linear_law(unit: WindSpeedUnit, a: int, b: int, k: int)
    ensures
        converted_wind_speed(unit, a + b) == converted_wind_speed(unit, a) + converted_wind_speed(
            unit,
            b,
        ),
        converted_wind_speed(unit, k * a) == k * converted_wind_speed(unit, a),
{
    let factor: int = match unit {
        WindSpeedUnit::MetersPerSecond => 1000,
        WindSpeedUnit::KilometersPerHour => 3600,
        WindSpeedUnit::MilesPerHour => 2237,
    };
    assert((k * a) * factor == k * (a * factor)) by (nonlinear_arith);
}

/// The three wind units agree with one another: an hour has 3600 seconds,
/// and a mile per hour is 1000/2237 of a metre per second.
pub proof fn wind_units_consistent_law(mps: int)
    ensures
        converted_wind_speed(WindSpeedUnit::KilometersPerHour, mps) * 10
            == converted_wind_speed(WindSpeedUnit::MetersPerSecond, mps) * 36,
        converted_wind_speed(WindSpeedUnit::MilesPerHour, mps) * 1000 == converted_wind_speed(
            WindSpeedUnit::MetersPerSecond,
            mps,
        ) * 2237,
{
}

} // verus!
