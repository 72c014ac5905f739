//! The provider's answer, as the library reads it.
//!
//! Every measurement is a fixed-point integer in thousandths of its metric
//! unit: `15_000` is 15.0 degrees Celsius, `1_012_000` is 1012.0 hPa.

use vstd::prelude::*;

verus! {

/// The current weather at one place.
#[derive(Debug, Clone)]
pub struct WeatherResponse {
    /// The conditions, the primary one first.
    pub weather: Vec<Weather>,
    pub main: Main,
    pub wind: Wind,
    /// The place as the provider resolved it.
    pub name: String,
    /// Present only in the extended form of the answer.
    pub sys: Option<System>,
}

/// One condition: its category, a description, and the provider's icon id.
#[derive(Debug, Clone)]
pub struct Weather {
    pub description: String,
    pub main: String,
    pub icon: String,
}

/// Measurements, in thousandths of degrees Celsius, percent and hPa.
#[derive(Debug, Clone, Copy)]
pub struct Main {
    pub temp: i32,
    pub feels_like: i32,
    pub humidity: i32,
    pub pressure: i32,
    pub temp_min: i32,
    pub temp_max: i32,
}

/// Wind, in thousandths of metres per second and of degrees.
#[derive(Debug, Clone, Copy)]
pub struct Wind {
    pub speed: i32,
    pub deg: Option<i32>,
}

#[derive(Debug, Clone)]
pub struct System {
    pub country: String,
}

} // verus!
