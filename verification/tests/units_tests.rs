use weather_station::classify::{
    condition_color, get_compass_index, get_temperature_emoji, get_wind_direction, ColorTag,
};
use weather_station::decimal::{decimal_text, one_decimal};
use weather_station::units::{TemperatureUnit, WeatherFormatter, WindSpeedUnit};

fn formatter(t: TemperatureUnit, w: WindSpeedUnit) -> WeatherFormatter {
    WeatherFormatter::new(t, w)
}

#[test]
fn celsius_is_shown_unchanged() {
    let f = formatter(TemperatureUnit::Celsius, WindSpeedUnit::MetersPerSecond);
    assert_eq!(f.format_temperature(15_000), 15_000_000);
    assert_eq!(f.format_temperature(-273_150), -273_150_000);
    assert_eq!(f.format_temperature(0), 0);
    assert_eq!(f.format_temperature(i32::MAX), 2_147_483_647_000);
    assert_eq!(f.format_temperature(i32::MIN), -2_147_483_648_000);
}

#[test]
fn fahrenheit_is_nine_fifths_plus_thirty_two() {
    let f = formatter(TemperatureUnit::Fahrenheit, WindSpeedUnit::MetersPerSecond);
    assert_eq!(f.format_temperature(0), 32_000_000);
    assert_eq!(f.format_temperature(100_000), 212_000_000);
    assert_eq!(f.format_temperature(15_000), 59_000_000);
    assert_eq!(f.format_temperature(-40_000), -40_000_000);
    assert_eq!(f.format_temperature(37_001), 98_601_800);
    assert_eq!(f.format_temperature(i32::MAX), 3_865_502_564_600);
    assert_eq!(f.format_temperature(i32::MIN), -3_865_438_566_400);
}

#[test]
fn still_air_is_zero_in_every_unit() {
    for w in [
        WindSpeedUnit::MetersPerSecond,
        WindSpeedUnit::KilometersPerHour,
        WindSpeedUnit::MilesPerHour,
    ] {
        assert_eq!(formatter(TemperatureUnit::Celsius, w).format_wind_speed(0), 0);
    }
}

#[test]
fn wind_speed_factors() {
    let mps = formatter(TemperatureUnit::Celsius, WindSpeedUnit::MetersPerSecond);
    let kmh = formatter(TemperatureUnit::Celsius, WindSpeedUnit::KilometersPerHour);
    let mph = formatter(TemperatureUnit::Celsius, WindSpeedUnit::MilesPerHour);
    assert_eq!(mps.format_wind_speed(3_000), 3_000_000);
    assert_eq!(kmh.format_wind_speed(3_000), 10_800_000);
    assert_eq!(mph.format_wind_speed(3_000), 6_711_000);
    assert_eq!(mph.format_wind_speed(1), 2_237);
    assert_eq!(kmh.format_wind_speed(-1_500), -5_400_000);
}

#[test]
fn wind_speed_is_linear() {
    let kmh = formatter(TemperatureUnit::Celsius, WindSpeedUnit::KilometersPerHour);
    let a: i32 = 1_250;
    let b: i32 = 7_775;
    assert_eq!(
        kmh.format_wind_speed(a + b),
        kmh.format_wind_speed(a) + kmh.format_wind_speed(b)
    );
    assert_eq!(kmh.format_wind_speed(4 * a), 4 * kmh.format_wind_speed(a));
}

#[test]
fn unit_symbols_and_labels() {
    let c = formatter(TemperatureUnit::Celsius, WindSpeedUnit::MetersPerSecond);
    let f = formatter(TemperatureUnit::Fahrenheit, WindSpeedUnit::KilometersPerHour);
    let m = formatter(TemperatureUnit::Fahrenheit, WindSpeedUnit::MilesPerHour);
    assert_eq!(c.get_unit_symbol(), "°C");
    assert_eq!(f.get_unit_symbol(), "°F");
    assert_eq!(c.get_wind_unit_label(), "m/s");
    assert_eq!(f.get_wind_unit_label(), "km/h");
    assert_eq!(m.get_wind_unit_label(), "mph");
}

#[test]
fn temperature_unit_names() {
    assert_eq!(TemperatureUnit::from_str("celsius"), Ok(TemperatureUnit::Celsius));
    assert_eq!(TemperatureUnit::from_str("c"), Ok(TemperatureUnit::Celsius));
    assert_eq!(TemperatureUnit::from_str("fahrenheit"), Ok(TemperatureUnit::Fahrenheit));
    assert_eq!(TemperatureUnit::from_str("f"), Ok(TemperatureUnit::Fahrenheit));
    assert_eq!(
        TemperatureUnit::from_str("kelvin"),
        Err("Invalid temperature unit".to_string())
    );
    assert_eq!(TemperatureUnit::from_str(""), Err("Invalid temperature unit".to_string()));
    assert_eq!(
        TemperatureUnit::from_str(" celsius"),
        Err("Invalid temperature unit".to_string())
    );
}

#[test]
fn temperature_unit_names_ignore_case() {
    assert_eq!(TemperatureUnit::from_str("CELSIUS"), Ok(TemperatureUnit::Celsius));
    assert_eq!(TemperatureUnit::from_str("Celsius"), Ok(TemperatureUnit::Celsius));
    assert_eq!(TemperatureUnit::from_str("C"), Ok(TemperatureUnit::Celsius));
    assert_eq!(TemperatureUnit::from_str("Fahrenheit"), Ok(TemperatureUnit::Fahrenheit));
    assert_eq!(TemperatureUnit::from_str("F"), Ok(TemperatureUnit::Fahrenheit));
}

#[test]
fn lowercase_names_are_matched_exactly() {
    assert_eq!(TemperatureUnit::from_lowercase("c"), Ok(TemperatureUnit::Celsius));
    assert_eq!(
        TemperatureUnit::from_lowercase("C"),
        Err("Invalid temperature unit".to_string())
    );
}

#[test]
fn temperature_emoji_bands() {
    assert_eq!(get_temperature_emoji(-100), "❄️");
    assert_eq!(get_temperature_emoji(0), "☁️");
    assert_eq!(get_temperature_emoji(9_999), "☁️");
    assert_eq!(get_temperature_emoji(10_000), "⛅");
    assert_eq!(get_temperature_emoji(19_999), "⛅");
    assert_eq!(get_temperature_emoji(20_000), "🌤️");
    assert_eq!(get_temperature_emoji(29_999), "🌤️");
    assert_eq!(get_temperature_emoji(30_000), "🔥");
    assert_eq!(get_temperature_emoji(i32::MIN), "❄️");
    assert_eq!(get_temperature_emoji(i32::MAX), "🔥");
}

#[test]
fn wind_direction_arrows() {
    assert_eq!(get_wind_direction(Some(0)), "↑");
    assert_eq!(get_wind_direction(Some(45_000)), "↗");
    assert_eq!(get_wind_direction(Some(90_000)), "→");
    assert_eq!(get_wind_direction(Some(135_000)), "↘");
    assert_eq!(get_wind_direction(Some(180_000)), "↓");
    assert_eq!(get_wind_direction(Some(225_000)), "↙");
    assert_eq!(get_wind_direction(Some(270_000)), "←");
    assert_eq!(get_wind_direction(Some(315_000)), "↖");
    assert_eq!(get_wind_direction(Some(350_000)), "↑");
    assert_eq!(get_wind_direction(None), "");
}

#[test]
fn wind_direction_wraps() {
    assert_eq!(get_wind_direction(Some(-10_000)), get_wind_direction(Some(350_000)));
    assert_eq!(get_wind_direction(Some(-10_000)), "↑");
    assert_eq!(get_wind_direction(Some(-90_000)), "←");
    assert_eq!(get_wind_direction(Some(360_000)), "↑");
    assert_eq!(get_wind_direction(Some(450_000)), "→");
    assert_eq!(get_wind_direction(Some(-720_000 + 45_000)), "↗");
}

#[test]
fn compass_eighths_turn_at_their_edges() {
    assert_eq!(get_compass_index(22_499), 0);
    assert_eq!(get_compass_index(22_500), 1);
    assert_eq!(get_compass_index(337_499), 7);
    assert_eq!(get_compass_index(337_500), 0);
    assert_eq!(get_compass_index(-22_500), 0);
    assert_eq!(get_compass_index(-22_501), 7);
    assert_eq!(get_compass_index(i32::MAX), ((2_147_483_647i64 + 22_500) % 360_000 / 45_000) as u8);
    assert_eq!(
        get_compass_index(i32::MIN),
        ((-2_147_483_648i64 + 22_500).rem_euclid(360_000) / 45_000) as u8
    );
}

#[test]
fn condition_colors() {
    assert_eq!(condition_color("Clear"), ColorTag::Yellow);
    assert_eq!(condition_color("Clouds"), ColorTag::Blue);
    assert_eq!(condition_color("Rain"), ColorTag::Cyan);
    assert_eq!(condition_color("Drizzle"), ColorTag::Cyan);
    assert_eq!(condition_color("Snow"), ColorTag::Cyan);
    assert_eq!(condition_color("Thunderstorm"), ColorTag::Purple);
    assert_ne!(condition_color("Thunderstorm"), condition_color("Clear"));
}

#[test]
fn unknown_condition_is_neutral() {
    assert_eq!(condition_color("Fog"), ColorTag::Neutral);
    assert_eq!(condition_color(""), ColorTag::Neutral);
    assert_eq!(condition_color("clear"), ColorTag::Neutral);
    assert_eq!(condition_color("Clear "), ColorTag::Neutral);
}

#[test]
fn numbers_in_decimal() {
    assert_eq!(decimal_text(0), "0");
    assert_eq!(decimal_text(7), "7");
    assert_eq!(decimal_text(10), "10");
    assert_eq!(decimal_text(1_012), "1012");
    assert_eq!(decimal_text(9_876_543_210), "9876543210");
    assert_eq!(decimal_text(u64::MAX), "18446744073709551615");
}

#[test]
fn one_decimal_place() {
    assert_eq!(one_decimal(0), "0.0");
    assert_eq!(one_decimal(15_000_000), "15.0");
    assert_eq!(one_decimal(1_012_000_000), "1012.0");
    assert_eq!(one_decimal(3_140_000), "3.1");
    assert_eq!(one_decimal(3_160_000), "3.2");
    assert_eq!(one_decimal(-5_300_000), "-5.3");
    assert_eq!(one_decimal(999_960_000), "1000.0");
    assert_eq!(one_decimal(99_999), "0.1");
    assert_eq!(one_decimal(49_999), "0.0");
}

#[test]
fn one_decimal_ties_go_to_even() {
    assert_eq!(one_decimal(250_000), "0.2");
    assert_eq!(one_decimal(350_000), "0.4");
    assert_eq!(one_decimal(50_000), "0.0");
    assert_eq!(one_decimal(150_000), "0.2");
    assert_eq!(one_decimal(-250_000), "-0.2");
    assert_eq!(one_decimal(-350_000), "-0.4");
    assert_eq!(one_decimal(250_001), "0.3");
}

#[test]
fn one_decimal_keeps_the_sign_of_small_amounts() {
    assert_eq!(one_decimal(-40_000), "-0.0");
    assert_eq!(one_decimal(-1), "-0.0");
}

#[test]
fn one_decimal_at_the_limits() {
    assert_eq!(one_decimal(i64::MAX), "9223372036854.8");
    assert_eq!(one_decimal(i64::MIN), "-9223372036854.8");
}
