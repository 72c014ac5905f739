//! Composing a report from a provider's answer.

use crate::classify::{
    color_of, condition_color, get_temperature_emoji, get_wind_direction, temperature_emoji,
    wind_direction_arrow, ColorTag,
};
use crate::decimal::{one_decimal, one_decimal_text};
use crate::models::{Main, WeatherResponse, Wind};
use crate::paint::{green_code, may_be_painted, paint, paint_green, paint_outcome};
use crate::units::{
    converted_temperature, converted_wind_speed, unit_symbol, wind_unit_label, TemperatureUnit,
    WeatherFormatter,
};
use vstd::prelude::*;
use vstd::string::StringExecFns;

verus! {

/// Why a report could not be composed.
#[derive(Debug, Clone, Copy, PartialEq, Eq, Structural)]
pub enum ReportError {
    /// The provider's answer holds no condition.
    EmptyConditionList,
}

impl ReportError {
    /// The words in which the error is reported.
    pub fn message(&self) -> (text: String)
        ensures
            text@ == "The weather service reported no conditions"@,
    {
        String::from_str("The weather service reported no conditions")
    }
}

/// A temperature in the chosen unit: one decimal place and the unit's symbol.
pub open spec fn shown_temperature(unit: TemperatureUnit, celsius: i32) -> Seq<char> {
    one_decimal_text(converted_temperature(unit, celsius as int)) + unit_symbol(unit)
}

/// A reading in thousandths, written with one decimal place.
pub open spec fn shown_reading(reading: i32) -> Seq<char> {
    one_decimal_text(reading * 1000)
}

/// The place: its name, and its country where the provider gave one.
pub open spec fn place_text(report: &WeatherResponse) -> Seq<char> {
    match report.sys {
        Some(sys) => report.name@ + ", "@ + sys.country@,
        None => report.name@,
    }
}

/// The first line: place, description of the primary condition, and the
/// symbol for the temperature.
pub open spec fn header_line(report: &WeatherResponse) -> Seq<char>
    recommends
        report.weather@.len() > 0,
{
    "Weather in "@ + place_text(report) + ": "@ + report.weather@[0].description@ + " "@
        + temperature_emoji(report.main.temp as int)
}

/// The temperature and what it feels like.
pub open spec fn temperature_line(unit: TemperatureUnit, main: Main) -> Seq<char> {
    "\n> Temperature: "@ + shown_temperature(unit, main.temp) + " (feels like "@
        + shown_temperature(unit, main.feels_like) + "),"@
}

/// The lowest and the highest temperature.
pub open spec fn range_line(unit: TemperatureUnit, main: Main) -> Seq<char> {
    "\n> Range: "@ + shown_temperature(unit, main.temp_min) + " - "@ + shown_temperature(
        unit,
        main.temp_max,
    ) + ","@
}

/// The humidity in percent.
pub open spec fn humidity_line(main: Main) -> Seq<char> {
    "\n> Humidity: "@ + shown_reading(main.humidity) + "%, "@
}

/// Pressure is always in hPa.
pub open spec fn pressure_line(main: Main) -> Seq<char> {
    "\n> Pressure: "@ + shown_reading(main.pressure) + " hPa,"@
}

/// The wind speed in the chosen unit, and the arrow of its direction.
pub open spec fn wind_line(formatter: &WeatherFormatter, wind: Wind) -> Seq<char> {
    "\n> Wind: "@ + one_decimal_text(
        converted_wind_speed(formatter.wind_speed_unit, wind.speed as int),
    ) + " "@ + wind_unit_label(formatter.wind_speed_unit) + " "@ + wind_direction_arrow(wind.deg)
}

/// The full report: header, temperature, range, humidity, pressure, wind.
pub open spec fn report_text(report: &WeatherResponse, formatter: &WeatherFormatter) -> Seq<char>
    recommends
        report.weather@.len() > 0,
{
    header_line(report) + temperature_line(formatter.temperature_unit, report.main) + range_line(
        formatter.temperature_unit,
        report.main,
    ) + humidity_line(report.main) + pressure_line(report.main) + wind_line(
        formatter,
        report.wind,
    )
}

/// The short report: place, description, and the readings in metric units.
pub open spec fn short_report_text(report: &WeatherResponse) -> Seq<char>
    recommends
        report.weather@.len() > 0,
{
    "\nWeather in "@ + report.name@ + ": "@ + report.weather@[0].description@ + " "@
        + temperature_emoji(report.main.temp as int) + "\n        > Temperature: "@
        + shown_reading(report.main.temp) + "°C\n        > Humidity: "@ + shown_reading(
        report.main.humidity,
    ) + "%\n        > Pressure: "@ + shown_reading(report.main.pressure)
        + " hPa\n        > Wind Speed: "@ + shown_reading(report.wind.speed) + " m/s"@
}

fn temperature_text(formatter: &WeatherFormatter, celsius: i32) -> (text: String)
    ensures
        text@ == shown_temperature(formatter.temperature_unit, celsius),
{
    let text = one_decimal(formatter.format_temperature(celsius));
    text.concat(formatter.get_unit_symbol())
}

fn reading_text(reading: i32) -> (text: String)
    ensures
        text@ == shown_reading(reading),
{
    one_decimal(reading as i64 * 1000)
}

fn place(report: &WeatherResponse) -> (text: String)
    ensures
        text@ == place_text(report),
{
    let mut text = String::from_str(report.name.as_str());
    match &report.sys {
        Some(sys) => {
            text.append(", ");
            text.append(sys.country.as_str());
        },
        None => {},
    }
    text
}

fn header(report: &WeatherResponse) -> (text: String)
    requires
        report.weather@.len() > 0,
    ensures
        text@ == header_line(report),
{
    let mut text = String::from_str("Weather in ");
    text.append(place(report).as_str());
    text.append(": ");
    text.append(report.weather[0].description.as_str());
    text.append(" ");
    text.append(get_temperature_emoji(report.main.temp));
    text
}

fn temperature_row(formatter: &WeatherFormatter, main: &Main) -> (text: String)
    ensures
        text@ == temperature_line(formatter.temperature_unit, *main),
{
    let mut text = String::from_str("\n> Temperature: ");
    text.append(temperature_text(formatter, main.temp).as_str());
    text.append(" (feels like ");
    text.append(temperature_text(formatter, main.feels_like).as_str());
    text.append("),");
    text
}

fn range_row(formatter: &WeatherFormatter, main: &Main) -> (text: String)
    ensures
        text@ == range_line(formatter.temperature_unit, *main),
{
    let mut text = String::from_str("\n> Range: ");
    text.append(temperature_text(formatter, main.temp_min).as_str());
    text.append(" - ");
    text.append(temperature_text(formatter, main.temp_max).as_str());
    text.append(",");
    text
}

fn humidity_row(main: &Main) -> (text: String)
    ensures
        text@ == humidity_line(*main),
{
    let mut text = String::from_str("\n> Humidity: ");
    text.append(reading_text(main.humidity).as_str());
    text.append("%, ");
    text
}

fn pressure_row(main: &Main) -> (text: String)
    ensures
        text@ == pressure_line(*main),
{
    let mut text = String::from_str("\n> Pressure: ");
    text.append(reading_text(main.pressure).as_str());
    text.append(" hPa,");
    text
}

fn wind_row(formatter: &WeatherFormatter, wind: &Wind) -> (text: String)
    ensures
        text@ == wind_line(formatter, *wind),
{
    let mut text = String::from_str("\n> Wind: ");
    text.append(one_decimal(formatter.format_wind_speed(wind.speed)).as_str());
    text.append(" ");
    text.append(formatter.get_wind_unit_label());
    text.append(" ");
    text.append(get_wind_direction(wind.deg).as_str());
    text
}

/// Composes the full report as plain text. An answer without any condition
/// is refused.
pub fn format_report(report: &WeatherResponse, formatter: &WeatherFormatter) -> (composed: Result<
    String,
    ReportError,
>)
    ensures
        report.weather@.len() == 0 ==> composed == Err::<String, ReportError>(
            ReportError::EmptyConditionList,
        ),
        report.weather@.len() > 0 ==> composed is Ok && composed->Ok_0@ == report_text(
            report,
            formatter,
        ),
{
    if report.weather.len() == 0 {
        return Err(ReportError::EmptyConditionList);
    }
    let mut text = header(report);
    text.append(temperature_row(formatter, &report.main).as_str());
    text.append(range_row(formatter, &report.main).as_str());
    text.append(humidity_row(&report.main).as_str());
    text.append(pressure_row(&report.main).as_str());
    text.append(wind_row(formatter, &report.wind).as_str());
    Ok(text)
}

/// The colour of a report: that of its primary condition's category.
pub fn report_color(report: &WeatherResponse) -> (tag: Result<ColorTag, ReportError>)
    ensures
        report.weather@.len() == 0 ==> tag == Err::<ColorTag, ReportError>(
            ReportError::EmptyConditionList,
        ),
        report.weather@.len() > 0 ==> tag == Ok::<ColorTag, ReportError>(
            color_of(report.weather@[0].main@),
        ),
{
    if report.weather.len() == 0 {
        return Err(ReportError::EmptyConditionList);
    }
    Ok(condition_color(report.weather[0].main.as_str()))
}

/// Composes the full report and colours it for the terminal by its primary
/// condition. With the neutral colour the result is the plain report; with
/// another, the terminal decides whether the colour's codes surround it.
pub fn display_weather_info(report: &WeatherResponse, formatter: &WeatherFormatter) -> (shown:
    Result<String, ReportError>)
    ensures
        report.weather@.len() == 0 ==> shown == Err::<String, ReportError>(
            ReportError::EmptyConditionList,
        ),
        report.weather@.len() > 0 ==> shown is Ok && paint_outcome(
            report_text(report, formatter),
            color_of(report.weather@[0].main@),
            shown->Ok_0@,
        ),
{
    match format_report(report, formatter) {
        Ok(text) => {
            let tag = condition_color(report.weather[0].main.as_str());
            Ok(paint(text.as_str(), tag))
        },
        Err(e) => Err(e),
    }
}

/// Composes the short report as plain text. An answer without any condition
/// is refused.
pub fn short_report(weather: &WeatherResponse) -> (composed: Result<String, ReportError>)
    ensures
        weather.weather@.len() == 0 ==> composed == Err::<String, ReportError>(
            ReportError::EmptyConditionList,
        ),
        weather.weather@.len() > 0 ==> composed is Ok && composed->Ok_0@ == short_report_text(
            weather,
        ),
{
    if weather.weather.len() == 0 {
        return Err(ReportError::EmptyConditionList);
    }
    let mut text = String::from_str("\nWeather in ");
    text.append(weather.name.as_str());
    text.append(": ");
    text.append(weather.weather[0].description.as_str());
    text.append(" ");
    text.append(get_temperature_emoji(weather.main.temp));
    text.append("\n        > Temperature: ");
    text.append(reading_text(weather.main.temp).as_str());
    text.append("°C\n        > Humidity: ");
    text.append(reading_text(weather.main.humidity).as_str());
    text.append("%\n        > Pressure: ");
    text.append(reading_text(weather.main.pressure).as_str());
    text.append(" hPa\n        > Wind Speed: ");
    text.append(reading_text(weather.wind.speed).as_str());
    text.append(" m/s");
    Ok(text)
}

/// Composes the short report and colours it bright green for the terminal,
/// which decides whether the colour's codes surround it.
pub fn show_weather(weather: &WeatherResponse) -> (shown: Result<String, ReportError>)
    ensures
        weather.weather@.len() == 0 ==> shown == Err::<String, ReportError>(
            ReportError::EmptyConditionList,
        ),
        weather.weather@.len() > 0 ==> shown is Ok && may_be_painted(
            short_report_text(weather),
            green_code(),
            shown->Ok_0@,
        ),
{
    match short_report(weather) {
        Ok(text) => Ok(paint_green(text.as_str())),
        Err(e) => Err(e),
    }
}

} // verus!
